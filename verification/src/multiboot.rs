//! The multiboot header: the three required words a compliant boot loader
//! looks for — a magic number, the feature flags, and a checksum chosen so
//! that the three have a 32-bit unsigned sum of zero.

use vstd::prelude::*;

verus! {

/// The required part of the multiboot header.
#[derive(Clone, Copy, Debug, PartialEq, Eq, Structural)]
pub struct Header {
    /// The magic number identifying the header.
    pub magic: u32,
    /// The features the image requests of the boot loader; bit 0 asks for
    /// page-aligned boot modules.
    pub flags: u32,
    /// The word that brings the 32-bit sum of the three fields to zero.
    pub checksum: u32,
}

impl Header {
    /// Builds the header requesting page-aligned modules. The checksum is
    /// the wrapping negation of the sum of the other two words, so the three
    /// always sum to zero modulo the 32-bit range.
    pub fn new() -> (h: Header)
        ensures
            h.magic == 0x1BADB002,
            h.flags == 1,
            (h.magic + h.flags + h.checksum) % 0x1_0000_0000 == 0,
    {
        let magic: u32 = 0x1BADB002;
        let flags: u32 = 1;
        let checksum: u32 = 0u32.wrapping_sub(magic.wrapping_add(flags));
        Header { magic, flags, checksum }
    }
}

} // verus!
