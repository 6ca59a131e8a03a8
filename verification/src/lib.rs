//! Core of a polled, single-context terminal subsystem: a character-cell
//! display driver with scrolling and hardware-cursor arithmetic, a PS/2
//! scancode decoder modelled as a modifier-aware finite-state machine, a
//! glyph table from characters to hardware font indices, a cooperative
//! single-owner lock, and the multiboot header checksum.
//!
//! Everything here is pure state-machine logic over plain values; the raw
//! port and memory accesses that drive real hardware live with the caller,
//! which mirrors this model into the device registers.

pub mod glyphs;
pub mod keyboard;
pub mod multiboot;
pub mod mutex;
pub mod terminal;
