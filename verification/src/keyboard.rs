//! PS/2 scancode decoding: a two-state machine (neutral, extended prefix
//! seen) together with a modifier set, turning raw scancode bytes into at
//! most one character each.

use vstd::prelude::*;

verus! {

/// Prefix state of the scancode stream. The extended state lasts exactly one
/// byte: it is entered when 0xE0 arrives in the neutral state and left again
/// on the very next byte.
#[derive(Clone, Copy, Debug, PartialEq, Eq, Structural)]
pub enum State {
    /// No prefix byte is pending.
    Neutral,
    /// The extended-prefix byte 0xE0 arrived with the previous scancode.
    Extended,
}

/// The modifier keys as a boolean aggregate: which control, shift, alt and
/// super keys are held, the value of each lock key, and an edge-tracking
/// "currently pressed" flag per lock key so that a held lock key does not
/// toggle repeatedly.
#[derive(Clone, Copy, Debug, PartialEq, Eq, Structural)]
pub struct Modifiers {
    pub left_control: bool,
    pub right_control: bool,
    pub left_shift: bool,
    pub right_shift: bool,
    pub left_alt: bool,
    pub right_alt: bool,
    pub left_super: bool,
    pub right_super: bool,
    pub num_lock: bool,
    pub caps_lock: bool,
    pub scroll_lock: bool,
    pub num_lock_pressed: bool,
    pub caps_lock_pressed: bool,
    pub scroll_lock_pressed: bool,
}

/// The modifier set with every flag off.
pub open spec fn no_modifiers() -> Modifiers {
    Modifiers {
        left_control: false,
        right_control: false,
        left_shift: false,
        right_shift: false,
        left_alt: false,
        right_alt: false,
        left_super: false,
        right_super: false,
        num_lock: false,
        caps_lock: false,
        scroll_lock: false,
        num_lock_pressed: false,
        caps_lock_pressed: false,
        scroll_lock_pressed: false,
    }
}

/// Whether some shift key is held.
pub open spec fn spec_shift(m: Modifiers) -> bool {
    m.left_shift || m.right_shift
}

/// Whether some control key is held.
pub open spec fn spec_control(m: Modifiers) -> bool {
    m.left_control || m.right_control
}

/// Whether some alt key is held.
pub open spec fn spec_alt(m: Modifiers) -> bool {
    m.left_alt || m.right_alt
}

/// Whether some super key is held.
pub open spec fn spec_super(m: Modifiers) -> bool {
    m.left_super || m.right_super
}

/// Whether printable keys currently produce their shifted variant:
/// shift held, exclusive-or caps lock active.
pub open spec fn spec_shifted(m: Modifiers) -> bool {
    spec_shift(m) != m.caps_lock
}

impl Modifiers {
    /// Returns the modifier set with every flag off.
    pub fn new() -> (m: Modifiers)
        ensures
            m == no_modifiers(),
    {
        Modifiers {
            left_control: false,
            right_control: false,
            left_shift: false,
            right_shift: false,
            left_alt: false,
            right_alt: false,
            left_super: false,
            right_super: false,
            num_lock: false,
            caps_lock: false,
            scroll_lock: false,
            num_lock_pressed: false,
            caps_lock_pressed: false,
            scroll_lock_pressed: false,
        }
    }

    /// Returns whether the left control key is currently held.
    pub fn left_control(self) -> (r: bool)
        ensures
            r == self.left_control,
    {
        self.left_control
    }

    /// Returns whether the right control key is currently held.
    pub fn right_control(self) -> (r: bool)
        ensures
            r == self.right_control,
    {
        self.right_control
    }

    /// Returns whether the left shift key is currently held.
    pub fn left_shift(self) -> (r: bool)
        ensures
            r == self.left_shift,
    {
        self.left_shift
    }

    /// Returns whether the right shift key is currently held.
    pub fn right_shift(self) -> (r: bool)
        ensures
            r == self.right_shift,
    {
        self.right_shift
    }

    /// Returns whether the left alt key is currently held.
    pub fn left_alt(self) -> (r: bool)
        ensures
            r == self.left_alt,
    {
        self.left_alt
    }

    /// Returns whether the right alt key is currently held.
    pub fn right_alt(self) -> (r: bool)
        ensures
            r == self.right_alt,
    {
        self.right_alt
    }

    /// Returns whether the left super key is currently held.
    pub fn left_super(self) -> (r: bool)
        ensures
            r == self.left_super,
    {
        self.left_super
    }

    /// Returns whether the right super key is currently held.
    pub fn right_super(self) -> (r: bool)
        ensures
            r == self.right_super,
    {
        self.right_super
    }

    /// Returns whether caps lock is currently active.
    pub fn caps_lock(self) -> (r: bool)
        ensures
            r == self.caps_lock,
    {
        self.caps_lock
    }

    /// Returns whether num lock is currently active.
    pub fn num_lock(self) -> (r: bool)
        ensures
            r == self.num_lock,
    {
        self.num_lock
    }

    /// Returns whether scroll lock is currently active.
    pub fn scroll_lock(self) -> (r: bool)
        ensures
            r == self.scroll_lock,
    {
        self.scroll_lock
    }

    /// Returns whether the caps lock key is currently held down.
    pub fn caps_lock_pressed(self) -> (r: bool)
        ensures
            r == self.caps_lock_pressed,
    {
        self.caps_lock_pressed
    }

    /// Returns whether the num lock key is currently held down.
    pub fn num_lock_pressed(self) -> (r: bool)
        ensures
            r == self.num_lock_pressed,
    {
        self.num_lock_pressed
    }

    /// Returns whether the scroll lock key is currently held down.
    pub fn scroll_lock_pressed(self) -> (r: bool)
        ensures
            r == self.scroll_lock_pressed,
    {
        self.scroll_lock_pressed
    }

    /// Returns whether some shift key is held.
    pub fn shift(self) -> (r: bool)
        ensures
            r == spec_shift(self),
    {
        self.left_shift || self.right_shift
    }

    /// Returns whether some control key is held.
    pub fn control(self) -> (r: bool)
        ensures
            r == spec_control(self),
    {
        self.left_control || self.right_control
    }

    /// Returns whether some alt key is held.
    pub fn alt(self) -> (r: bool)
        ensures
            r == spec_alt(self),
    {
        self.left_alt || self.right_alt
    }

    /// Returns whether some super key is held.
    pub fn super_key(self) -> (r: bool)
        ensures
            r == spec_super(self),
    {
        self.left_super || self.right_super
    }

    /// Returns whether printable keys currently produce their shifted
    /// variant: shift held, exclusive-or caps lock active.
    pub fn shifted(self) -> (r: bool)
        ensures
            r == spec_shifted(self),
    {
        self.shift() != self.caps_lock
    }

    /// Flips the num lock value.
    pub fn toggle_num_lock(&mut self)
        ensures
            *final(self) == (Modifiers { num_lock: !old(self).num_lock, ..*old(self) }),
    {
        self.num_lock = !self.num_lock;
    }

    /// Flips the scroll lock value.
    pub fn toggle_scroll_lock(&mut self)
        ensures
            *final(self) == (Modifiers { scroll_lock: !old(self).scroll_lock, ..*old(self) }),
    {
        self.scroll_lock = !self.scroll_lock;
    }

    /// Flips the caps lock value.
    pub fn toggle_caps_lock(&mut self)
        ensures
            *final(self) == (Modifiers { caps_lock: !old(self).caps_lock, ..*old(self) }),
    {
        self.caps_lock = !self.caps_lock;
    }

    /// Records that the left shift key went down.
    pub fn set_left_shift(&mut self)
        ensures
            *final(self) == (Modifiers { left_shift: true, ..*old(self) }),
    {
        self.left_shift = true;
    }

    /// Records that the left shift key was released.
    pub fn clear_left_shift(&mut self)
        ensures
            *final(self) == (Modifiers { left_shift: false, ..*old(self) }),
    {
        self.left_shift = false;
    }

    /// Records that the right shift key went down.
    pub fn set_right_shift(&mut self)
        ensures
            *final(self) == (Modifiers { right_shift: true, ..*old(self) }),
    {
        self.right_shift = true;
    }

    /// Records that the right shift key was released.
    pub fn clear_right_shift(&mut self)
        ensures
            *final(self) == (Modifiers { right_shift: false, ..*old(self) }),
    {
        self.right_shift = false;
    }

    /// Records that the left control key went down.
    pub fn set_left_control(&mut self)
        ensures
            *final(self) == (Modifiers { left_control: true, ..*old(self) }),
    {
        self.left_control = true;
    }

    /// Records that the left control key was released.
    pub fn clear_left_control(&mut self)
        ensures
            *final(self) == (Modifiers { left_control: false, ..*old(self) }),
    {
        self.left_control = false;
    }

    /// Records that the right control key went down.
    pub fn set_right_control(&mut self)
        ensures
            *final(self) == (Modifiers { right_control: true, ..*old(self) }),
    {
        self.right_control = true;
    }

    /// Records that the right control key was released.
    pub fn clear_right_control(&mut self)
        ensures
            *final(self) == (Modifiers { right_control: false, ..*old(self) }),
    {
        self.right_control = false;
    }

    /// Records that the left alt key went down.
    pub fn set_left_alt(&mut self)
        ensures
            *final(self) == (Modifiers { left_alt: true, ..*old(self) }),
    {
        self.left_alt = true;
    }

    /// Records that the left alt key was released.
    pub fn clear_left_alt(&mut self)
        ensures
            *final(self) == (Modifiers { left_alt: false, ..*old(self) }),
    {
        self.left_alt = false;
    }

    /// Records that the right alt key went down.
    pub fn set_right_alt(&mut self)
        ensures
            *final(self) == (Modifiers { right_alt: true, ..*old(self) }),
    {
        self.right_alt = true;
    }

    /// Records that the right alt key was released.
    pub fn clear_right_alt(&mut self)
        ensures
            *final(self) == (Modifiers { right_alt: false, ..*old(self) }),
    {
        self.right_alt = false;
    }

    /// Records that the caps lock key went down.
    pub fn set_caps_lock_pressed(&mut self)
        ensures
            *final(self) == (Modifiers { caps_lock_pressed: true, ..*old(self) }),
    {
        self.caps_lock_pressed = true;
    }

    /// Records that the caps lock key was released.
    pub fn clear_caps_lock_pressed(&mut self)
        ensures
            *final(self) == (Modifiers { caps_lock_pressed: false, ..*old(self) }),
    {
        self.caps_lock_pressed = false;
    }

    /// Records that the num lock key went down.
    pub fn set_num_lock_pressed(&mut self)
        ensures
            *final(self) == (Modifiers { num_lock_pressed: true, ..*old(self) }),
    {
        self.num_lock_pressed = true;
    }

    /// Records that the num lock key was released.
    pub fn clear_num_lock_pressed(&mut self)
        ensures
            *final(self) == (Modifiers { num_lock_pressed: false, ..*old(self) }),
    {
        self.num_lock_pressed = false;
    }

    /// Records that the scroll lock key went down.
    pub fn set_scroll_lock_pressed(&mut self)
        ensures
            *final(self) == (Modifiers { scroll_lock_pressed: true, ..*old(self) }),
    {
        self.scroll_lock_pressed = true;
    }

    /// Records that the scroll lock key was released.
    pub fn clear_scroll_lock_pressed(&mut self)
        ensures
            *final(self) == (Modifiers { scroll_lock_pressed: false, ..*old(self) }),
    {
        self.scroll_lock_pressed = false;
    }
}

/// The printable-key table of the neutral state: for each scancode that names
/// a printable key, its unshifted and its shifted character.
pub open spec fn printable_pair(b: u8) -> Option<(char, char)> {
    match b {
        0x02 => Some(('1', '!')),
        0x03 => Some(('2', '@')),
        0x04 => Some(('3', '#')),
        0x05 => Some(('4', '$')),
        0x06 => Some(('5', '%')),
        0x07 => Some(('6', '^')),
        0x08 => Some(('7', '&')),
        0x09 => Some(('8', '*')),
        0x0A => Some(('9', '(')),
        0x0B => Some(('0', ')')),
        0x0C => Some(('-', '_')),
        0x0D => Some(('=', '+')),
        0x10 => Some(('q', 'Q')),
        0x11 => Some(('w', 'W')),
        0x12 => Some(('e', 'E')),
        0x13 => Some(('r', 'R')),
        0x14 => Some(('t', 'T')),
        0x15 => Some(('y', 'Y')),
        0x16 => Some(('u', 'U')),
        0x17 => Some(('i', 'I')),
        0x18 => Some(('o', 'O')),
        0x19 => Some(('p', 'P')),
        0x1A => Some(('[', '{')),
        0x1B => Some((']', '}')),
        0x1E => Some(('a', 'A')),
        0x1F => Some(('s', 'S')),
        0x20 => Some(('d', 'D')),
        0x21 => Some(('f', 'F')),
        0x22 => Some(('g', 'G')),
        0x23 => Some(('h', 'H')),
        0x24 => Some(('j', 'J')),
        0x25 => Some(('k', 'K')),
        0x26 => Some(('l', 'L')),
        0x27 => Some((';', ':')),
        0x28 => Some(('\'', '"')),
        0x29 => Some(('`', '~')),
        0x2B => Some(('\\', '|')),
        0x2C => Some(('z', 'Z')),
        0x2D => Some(('x', 'X')),
        0x2E => Some(('c', 'C')),
        0x2F => Some(('v', 'V')),
        0x30 => Some(('b', 'B')),
        0x31 => Some(('n', 'N')),
        0x32 => Some(('m', 'M')),
        0x33 => Some((',', '<')),
        0x34 => Some(('.', '>')),
        0x35 => Some(('/', '?')),
        _ => None,
    }
}

/// The keypad table: digits and the period, produced only while num lock is
/// active.
pub open spec fn keypad_map(b: u8) -> Option<char> {
    match b {
        0x47 => Some('7'),
        0x48 => Some('8'),
        0x49 => Some('9'),
        0x4B => Some('4'),
        0x4C => Some('5'),
        0x4D => Some('6'),
        0x4F => Some('1'),
        0x50 => Some('2'),
        0x51 => Some('3'),
        0x52 => Some('0'),
        0x53 => Some('.'),
        _ => None,
    }
}

/// The functional keys of the neutral state that produce a character
/// regardless of the modifiers: space, enter, backspace, tab and escape.
pub open spec fn control_map(b: u8) -> Option<char> {
    match b {
        0x39 => Some(' '),
        0x1C => Some('\n'),
        0x0E => Some('\x08'),
        0x0F => Some('\t'),
        0x01 => Some('\x1b'),
        _ => None,
    }
}

/// The prefix-state transition: 0xE0 in the neutral state enters the extended
/// state; every other byte, from either state, returns to neutral.
pub open spec fn next_state(st: State, b: u8) -> State {
    if st == State::Neutral && b == 0xE0 {
        State::Extended
    } else {
        State::Neutral
    }
}

/// How one scancode changes the modifier set, dispatched on the
/// pre-transition prefix state. Right-side control and alt arrive behind the
/// extended prefix; the lock keys toggle only on a make edge that was not
/// already tracked as pressed.
pub open spec fn next_modifiers(st: State, b: u8, m: Modifiers) -> Modifiers {
    match (st, b) {
        (State::Neutral, 0x2A) => Modifiers { left_shift: true, ..m },
        (State::Neutral, 0xAA) => Modifiers { left_shift: false, ..m },
        (State::Neutral, 0x36) => Modifiers { right_shift: true, ..m },
        (State::Neutral, 0xB6) => Modifiers { right_shift: false, ..m },
        (State::Neutral, 0x1D) => Modifiers { left_control: true, ..m },
        (State::Neutral, 0x9D) => Modifiers { left_control: false, ..m },
        (State::Extended, 0x1D) => Modifiers { right_control: true, ..m },
        (State::Extended, 0x9D) => Modifiers { right_control: false, ..m },
        (State::Neutral, 0x38) => Modifiers { left_alt: true, ..m },
        (State::Neutral, 0xB8) => Modifiers { left_alt: false, ..m },
        (State::Extended, 0x38) => Modifiers { right_alt: true, ..m },
        (State::Extended, 0xB8) => Modifiers { right_alt: false, ..m },
        (State::Neutral, 0x3A) => if !m.caps_lock_pressed {
            Modifiers { caps_lock: !m.caps_lock, caps_lock_pressed: true, ..m }
        } else {
            m
        },
        (State::Neutral, 0xBA) => Modifiers { caps_lock_pressed: false, ..m },
        (State::Neutral, 0x45) => if !m.num_lock_pressed {
            Modifiers { num_lock: !m.num_lock, num_lock_pressed: true, ..m }
        } else {
            m
        },
        (State::Neutral, 0xC5) => Modifiers { num_lock_pressed: false, ..m },
        _ => m,
    }
}

/// The character one scancode produces, dispatched on the pre-transition
/// prefix state: printable keys pick their shifted variant by shift
/// exclusive-or caps lock, the keypad needs num lock, the functional keys are
/// unconditional, and in the extended state only keypad slash and keypad
/// enter name characters. Every unmatched byte, break codes included,
/// produces nothing.
pub open spec fn decoded(st: State, b: u8, m: Modifiers) -> Option<char> {
    match st {
        State::Neutral => match printable_pair(b) {
            Some(p) => Some(if spec_shifted(m) { p.1 } else { p.0 }),
            None => match control_map(b) {
                Some(c) => Some(c),
                None => if m.num_lock { keypad_map(b) } else { None },
            },
        },
        State::Extended => if b == 0x35 {
            Some('/')
        } else if b == 0x1C {
            Some('\n')
        } else {
            None
        },
    }
}

/// The whole decoder state after one scancode.
pub open spec fn stepped(q: Qwerty, b: u8) -> Qwerty {
    Qwerty { state: next_state(q.state, b), modifiers: next_modifiers(q.state, b, q.modifiers) }
}

/// Looks a scancode up in the printable-key table, picking the shifted or
/// the unshifted character.
fn printable_char(b: u8, shifted: bool) -> (r: Option<char>)
    ensures
        r == (match printable_pair(b) {
            Some(p) => Some(if shifted { p.1 } else { p.0 }),
            None => None::<char>,
        }),
{
    match b {
        0x02 => Some(if shifted { '!' } else { '1' }),
        0x03 => Some(if shifted { '@' } else { '2' }),
        0x04 => Some(if shifted { '#' } else { '3' }),
        0x05 => Some(if shifted { '$' } else { '4' }),
        0x06 => Some(if shifted { '%' } else { '5' }),
        0x07 => Some(if shifted { '^' } else { '6' }),
        0x08 => Some(if shifted { '&' } else { '7' }),
        0x09 => Some(if shifted { '*' } else { '8' }),
        0x0A => Some(if shifted { '(' } else { '9' }),
        0x0B => Some(if shifted { ')' } else { '0' }),
        0x0C => Some(if shifted { '_' } else { '-' }),
        0x0D => Some(if shifted { '+' } else { '=' }),
        0x10 => Some(if shifted { 'Q' } else { 'q' }),
        0x11 => Some(if shifted { 'W' } else { 'w' }),
        0x12 => Some(if shifted { 'E' } else { 'e' }),
        0x13 => Some(if shifted { 'R' } else { 'r' }),
        0x14 => Some(if shifted { 'T' } else { 't' }),
        0x15 => Some(if shifted { 'Y' } else { 'y' }),
        0x16 => Some(if shifted { 'U' } else { 'u' }),
        0x17 => Some(if shifted { 'I' } else { 'i' }),
        0x18 => Some(if shifted { 'O' } else { 'o' }),
        0x19 => Some(if shifted { 'P' } else { 'p' }),
        0x1A => Some(if shifted { '{' } else { '[' }),
        0x1B => Some(if shifted { '}' } else { ']' }),
        0x1E => Some(if shifted { 'A' } else { 'a' }),
        0x1F => Some(if shifted { 'S' } else { 's' }),
        0x20 => Some(if shifted { 'D' } else { 'd' }),
        0x21 => Some(if shifted { 'F' } else { 'f' }),
        0x22 => Some(if shifted { 'G' } else { 'g' }),
        0x23 => Some(if shifted { 'H' } else { 'h' }),
        0x24 => Some(if shifted { 'J' } else { 'j' }),
        0x25 => Some(if shifted { 'K' } else { 'k' }),
        0x26 => Some(if shifted { 'L' } else { 'l' }),
        0x27 => Some(if shifted { ':' } else { ';' }),
        0x28 => Some(if shifted { '"' } else { '\'' }),
        0x29 => Some(if shifted { '~' } else { '`' }),
        0x2B => Some(if shifted { '|' } else { '\\' }),
        0x2C => Some(if shifted { 'Z' } else { 'z' }),
        0x2D => Some(if shifted { 'X' } else { 'x' }),
        0x2E => Some(if shifted { 'C' } else { 'c' }),
        0x2F => Some(if shifted { 'V' } else { 'v' }),
        0x30 => Some(if shifted { 'B' } else { 'b' }),
        0x31 => Some(if shifted { 'N' } else { 'n' }),
        0x32 => Some(if shifted { 'M' } else { 'm' }),
        0x33 => Some(if shifted { '<' } else { ',' }),
        0x34 => Some(if shifted { '>' } else { '.' }),
        0x35 => Some(if shifted { '?' } else { '/' }),
        _ => None,
    }
}

/// Looks a scancode up in the keypad table.
fn keypad_char(b: u8) -> (r: Option<char>)
    ensures
        r == keypad_map(b),
{
    match b {
        0x47 => Some('7'),
        0x48 => Some('8'),
        0x49 => Some('9'),
        0x4B => Some('4'),
        0x4C => Some('5'),
        0x4D => Some('6'),
        0x4F => Some('1'),
        0x50 => Some('2'),
        0x51 => Some('3'),
        0x52 => Some('0'),
        0x53 => Some('.'),
        _ => None,
    }
}

/// Looks a scancode up among the functional keys.
fn control_char(b: u8) -> (r: Option<char>)
    ensures
        r == control_map(b),
{
    match b {
        0x39 => Some(' '),
        0x1C => Some('\n'),
        0x0E => Some('\x08'),
        0x0F => Some('\t'),
        0x01 => Some('\x1b'),
        _ => None,
    }
}

/// Law: a printable key yields its unshifted character when neither shift
/// nor caps lock is active, its shifted character when exactly one of the
/// two is, and its unshifted character again when both are — whatever the
/// remaining modifiers.
pub proof fn lemma_printable_shift(b: u8, m: Modifiers, unshifted: char, shifted: char)
    requires
        printable_pair(b) == Some((unshifted, shifted)),
    ensures
        !spec_shift(m) && !m.caps_lock ==> decoded(State::Neutral, b, m) == Some(unshifted),
        spec_shift(m) != m.caps_lock ==> decoded(State::Neutral, b, m) == Some(shifted),
        spec_shift(m) && m.caps_lock ==> decoded(State::Neutral, b, m) == Some(unshifted),
{
}

/// Law: a keypad scancode yields a character only while num lock is active,
/// for every combination of the other modifiers, and yields nothing at all
/// while num lock is off.
pub proof fn lemma_keypad_needs_num_lock(b: u8, m: Modifiers)
    requires
        0x47 <= b <= 0x53,
    ensures
        !m.num_lock ==> decoded(State::Neutral, b, m) is None,
        m.num_lock ==> decoded(State::Neutral, b, m) == keypad_map(b),
        decoded(State::Neutral, b, m) is Some ==> m.num_lock,
{
}

/// Law: a held caps lock key repeats its make code without toggling the lock
/// again; across any number of repeated makes followed by the break, the
/// lock value flips exactly once and the pressed flag ends clear.
pub proof fn lemma_caps_lock_held_toggles_once(q: Qwerty)
    requires
        q.state == State::Neutral,
        !q.modifiers.caps_lock_pressed,
    ensures
        ({
            let q4 = stepped(stepped(stepped(stepped(q, 0x3A), 0x3A), 0x3A), 0xBA);
            q4 == (Qwerty {
                state: State::Neutral,
                modifiers: Modifiers {
                    caps_lock: !q.modifiers.caps_lock,
                    caps_lock_pressed: false,
                    ..q.modifiers
                },
            })
        }),
{
}

/// Law: the extended-prefix byte alone yields nothing and only arms the
/// prefix state for the next byte; the enter scancode behind the prefix
/// yields a newline.
pub proof fn lemma_extended_prefix_enter(q: Qwerty)
    requires
        q.state == State::Neutral,
    ensures
        decoded(q.state, 0xE0, q.modifiers) is None,
        stepped(q, 0xE0).state == State::Extended,
        stepped(q, 0xE0).modifiers == q.modifiers,
        decoded(stepped(q, 0xE0).state, 0x1C, stepped(q, 0xE0).modifiers) == Some('\n'),
{
}

/// Applies to the modifier set whatever one scancode does to it, dispatched
/// on the pre-transition prefix state.
#[verifier::rlimit(60)]
fn update_modifiers(m: &mut Modifiers, st: State, b: u8)
    ensures
        *final(m) == next_modifiers(st, b, *old(m)),
{
    match (st, b) {
        (State::Neutral, 0x2A) => m.set_left_shift(),
        (State::Neutral, 0xAA) => m.clear_left_shift(),
        (State::Neutral, 0x36) => m.set_right_shift(),
        (State::Neutral, 0xB6) => m.clear_right_shift(),
        (State::Neutral, 0x1D) => m.set_left_control(),
        (State::Neutral, 0x9D) => m.clear_left_control(),
        (State::Extended, 0x1D) => m.set_right_control(),
        (State::Extended, 0x9D) => m.clear_right_control(),
        (State::Neutral, 0x38) => m.set_left_alt(),
        (State::Neutral, 0xB8) => m.clear_left_alt(),
        (State::Extended, 0x38) => m.set_right_alt(),
        (State::Extended, 0xB8) => m.clear_right_alt(),
        (State::Neutral, 0x3A) => {
            if !m.caps_lock_pressed() {
                m.set_caps_lock_pressed();
                m.toggle_caps_lock();
            }
        }
        (State::Neutral, 0xBA) => m.clear_caps_lock_pressed(),
        (State::Neutral, 0x45) => {
            if !m.num_lock_pressed() {
                m.set_num_lock_pressed();
                m.toggle_num_lock();
            }
        }
        (State::Neutral, 0xC5) => m.clear_num_lock_pressed(),
        _ => {}
    }
}

/// Looks up the character one scancode produces under the given
/// pre-transition prefix state and modifiers.
fn decode_output(st: State, b: u8, m: Modifiers) -> (r: Option<char>)
    ensures
        r == decoded(st, b, m),
{
    match st {
        State::Neutral => {
            let shifted = m.shifted();
            if let Some(c) = printable_char(b, shifted) {
                Some(c)
            } else if let Some(c) = control_char(b) {
                Some(c)
            } else if m.num_lock() {
                keypad_char(b)
            } else {
                None
            }
        }
        State::Extended => {
            if b == 0x35 {
                Some('/')
            } else if b == 0x1C {
                Some('\n')
            } else {
                None
            }
        }
    }
}

/// The scancode decoder: the modifier set together with the prefix state.
pub struct Qwerty {
    /// The state of the key modifiers.
    pub modifiers: Modifiers,
    /// The prefix state of the scancode stream.
    pub state: State,
}

impl Qwerty {
    /// Returns a fresh decoder: no prefix pending, every modifier off.
    pub fn new() -> (q: Qwerty)
        ensures
            q.state == State::Neutral,
            q.modifiers == no_modifiers(),
    {
        Qwerty { modifiers: Modifiers::new(), state: State::Neutral }
    }

    /// Returns the current state of the modifiers.
    pub fn modifiers(&self) -> (m: Modifiers)
        ensures
            m == self.modifiers,
    {
        self.modifiers
    }

    /// Advances the decoder with one scancode, dispatching on the
    /// pre-transition prefix state, so the prefix byte itself never yields
    /// output. Returns the at most one character the scancode produces.
    pub fn advance(&mut self, scancode: u8) -> (r: Option<char>)
        ensures
            *final(self) == stepped(*old(self), scancode),
            r == decoded(old(self).state, scancode, old(self).modifiers),
    {
        let st = self.state;
        let r = decode_output(st, scancode, self.modifiers);
        self.state = if st == State::Neutral && scancode == 0xE0 {
            State::Extended
        } else {
            State::Neutral
        };
        update_modifiers(&mut self.modifiers, st, scancode);
        r
    }
}

} // verus!
