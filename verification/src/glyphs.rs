//! The glyph table: a total map from characters to the 8-bit index of the
//! hardware's fixed bitmap font, covering printable ASCII and the small set
//! of line- and box-drawing symbols the banner uses. Unmapped characters get
//! nothing; callers substitute a fixed replacement glyph, which makes
//! character output total.

use vstd::prelude::*;

verus! {

/// The glyph shown for a character outside the table: a filled square.
pub const REPLACEMENT_GLYPH: u8 = 0xFE;

/// The font index for a character. Printable ASCII keeps its own code; the
/// box-drawing symbols sit at the font's legacy positions; everything else
/// is unmapped.
pub open spec fn glyph_of(c: char) -> Option<u8> {
    let n = c as u32;
    if 0x20 <= n && n <= 0x7E {
        Some(n as u8)
    } else if n == 0x2500 {
        Some(0xC4)
    } else if n == 0x2502 {
        Some(0xB3)
    } else if n == 0x250C {
        Some(0xDA)
    } else if n == 0x2510 {
        Some(0xBF)
    } else if n == 0x2514 {
        Some(0xC0)
    } else if n == 0x2518 {
        Some(0xD9)
    } else if n == 0x251C {
        Some(0xC3)
    } else if n == 0x2524 {
        Some(0xB4)
    } else if n == 0x252C {
        Some(0xC2)
    } else if n == 0x2534 {
        Some(0xC1)
    } else if n == 0x253C {
        Some(0xC5)
    } else if n == 0x2550 {
        Some(0xCD)
    } else if n == 0x2551 {
        Some(0xBA)
    } else if n == 0x2554 {
        Some(0xC9)
    } else if n == 0x2557 {
        Some(0xBB)
    } else if n == 0x255A {
        Some(0xC8)
    } else if n == 0x255D {
        Some(0xBC)
    } else if n == 0x2588 {
        Some(0xDB)
    } else if n == 0x25A0 {
        Some(0xFE)
    } else {
        None
    }
}

/// The font index for a character, with the replacement glyph standing in
/// for every unmapped one.
pub open spec fn glyph_or_replacement(c: char) -> u8 {
    match glyph_of(c) {
        Some(g) => g,
        None => REPLACEMENT_GLYPH,
    }
}

/// Looks a character up in the glyph table.
pub fn glyph_for(c: char) -> (r: Option<u8>)
    ensures
        r == glyph_of(c),
{
    let n = c as u32;
    if 0x20 <= n && n <= 0x7E {
        Some(n as u8)
    } else if n == 0x2500 {
        Some(0xC4)
    } else if n == 0x2502 {
        Some(0xB3)
    } else if n == 0x250C {
        Some(0xDA)
    } else if n == 0x2510 {
        Some(0xBF)
    } else if n == 0x2514 {
        Some(0xC0)
    } else if n == 0x2518 {
        Some(0xD9)
    } else if n == 0x251C {
        Some(0xC3)
    } else if n == 0x2524 {
        Some(0xB4)
    } else if n == 0x252C {
        Some(0xC2)
    } else if n == 0x2534 {
        Some(0xC1)
    } else if n == 0x253C {
        Some(0xC5)
    } else if n == 0x2550 {
        Some(0xCD)
    } else if n == 0x2551 {
        Some(0xBA)
    } else if n == 0x2554 {
        Some(0xC9)
    } else if n == 0x2557 {
        Some(0xBB)
    } else if n == 0x255A {
        Some(0xC8)
    } else if n == 0x255D {
        Some(0xBC)
    } else if n == 0x2588 {
        Some(0xDB)
    } else if n == 0x25A0 {
        Some(0xFE)
    } else {
        None
    }
}

/// Looks a character up in the glyph table, substituting the replacement
/// glyph for an unmapped one.
pub fn resolve_glyph(c: char) -> (r: u8)
    ensures
        r == glyph_or_replacement(c),
{
    match glyph_for(c) {
        Some(g) => g,
        None => REPLACEMENT_GLYPH,
    }
}

} // verus!
