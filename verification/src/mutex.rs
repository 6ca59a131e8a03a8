//! A cooperative, single-owner exclusion primitive. There is exactly one
//! execution context, so the lock never blocks, spins or queues: it exists to
//! document single-owner intent and to catch accidental reentrancy. While the
//! lock is free it holds the guarded value; acquiring it moves the value into
//! a scoped guard, and giving the guard back releases the lock. A second
//! acquisition while a guard is alive is refused — the caller treats that as
//! a fatal logic error, not a transient race.

use vstd::prelude::*;

verus! {

/// An exclusive-owner lock over one value.
pub struct Mutex<T> {
    slot: Option<T>,
}

/// The scoped handle granting access to the locked value; handing it back to
/// the lock releases it.
pub struct MutexGuard<T> {
    /// The guarded value.
    pub value: T,
}

impl<T> Mutex<T> {
    /// Whether the lock is currently held.
    pub closed spec fn is_locked(&self) -> bool {
        self.slot is None
    }

    /// The value a free lock guards.
    pub closed spec fn value(&self) -> T {
        self.slot->Some_0
    }

    /// Returns a free lock around the given value.
    pub fn new(value: T) -> (m: Mutex<T>)
        ensures
            !m.is_locked(),
            m.value() == value,
    {
        Mutex { slot: Some(value) }
    }

    /// Returns whether the lock is currently held.
    pub fn locked(&self) -> (r: bool)
        ensures
            r == self.is_locked(),
    {
        self.slot.is_none()
    }

    /// Acquires the lock, moving the guarded value into the returned guard.
    /// Acquisition demands a free lock: there is no second context that
    /// could release a held one, so contention is a reentrancy bug and the
    /// caller aborts instead of calling at all.
    pub fn lock(&mut self) -> (g: MutexGuard<T>)
        requires
            !old(self).is_locked(),
        ensures
            final(self).is_locked(),
            g.value == old(self).value(),
    {
        match self.slot.take() {
            Some(value) => MutexGuard { value },
            None => vstd::pervasive::unreached(),
        }
    }

    /// Attempts to acquire the lock. Law: while one guard is alive the lock
    /// is held, and a second acquisition yields nothing and changes nothing;
    /// on a free lock it acquires, exactly as `lock` does.
    pub fn try_lock(&mut self) -> (g: Option<MutexGuard<T>>)
        ensures
            final(self).is_locked(),
            old(self).is_locked() ==> g is None && *final(self) == *old(self),
            !old(self).is_locked() ==> (g matches Some(gg) && gg.value == old(self).value()),
    {
        match self.slot.take() {
            Some(value) => Some(MutexGuard { value }),
            None => None,
        }
    }

    /// Releases the lock, moving the guarded value back in.
    pub fn unlock(&mut self, guard: MutexGuard<T>)
        requires
            old(self).is_locked(),
        ensures
            !final(self).is_locked(),
            final(self).value() == guard.value,
    {
        self.slot = Some(guard.value);
    }
}

} // verus!
