//! The built-in hexadecimal font.

use vstd::prelude::*;

verus! {

/// Address of the first font byte in memory.
pub const FONT_BASE: u16 = 0;

/// Bytes per glyph: each glyph is a sprite of five rows.
pub const GLYPH_BYTES: u16 = 5;

/// Bytes in the whole font: 16 glyphs of five rows.
pub const FONT_BYTES: usize = 80;

/// The glyphs for the digits 0 to F, five rows each, in digit order.
pub const FONT: [u8; 80] = [
    0xF0, 0x90, 0x90, 0x90, 0xF0,
    0x20, 0x60, 0x20, 0x20, 0x70,
    0xF0, 0x10, 0xF0, 0x80, 0xF0,
    0xF0, 0x10, 0xF0, 0x10, 0xF0,
    0x90, 0x90, 0xF0, 0x10, 0x10,
    0xF0, 0x80, 0xF0, 0x10, 0xF0,
    0xF0, 0x80, 0xF0, 0x90, 0xF0,
    0xF0, 0x10, 0x20, 0x40, 0x40,
    0xF0, 0x90, 0xF0, 0x90, 0xF0,
    0xF0, 0x90, 0xF0, 0x10, 0xF0,
    0xF0, 0x90, 0xF0, 0x90, 0x90,
    0xE0, 0x90, 0xE0, 0x90, 0xE0,
    0xF0, 0x80, 0x80, 0x80, 0xF0,
    0xE0, 0x90, 0x90, 0x90, 0xE0,
    0xF0, 0x80, 0xF0, 0x80, 0xF0,
    0xF0, 0x80, 0xF0, 0x80, 0x80,
];

/// The font as a sequence of 80 bytes.
pub open spec fn font() -> Seq<u8> {
    FONT@
}

/// The memory address of the glyph for the low hexadecimal digit of `value`.
pub open spec fn glyph_address(value: u8) -> u16 {
    (FONT_BASE + GLYPH_BYTES * (value % 16)) as u16
}

} // verus!
