//! The built-in hexadecimal glyph set.

use vstd::prelude::*;

verus! {

/// Number of bytes in one glyph sprite.
pub const GLYPH_HEIGHT: usize = 5;

/// Number of bytes in the whole glyph set: sixteen glyphs of five rows each.
pub const FONTSET_SIZE: usize = 80;

/// Address of the first glyph byte in memory.
pub const FONTSET_START_ADDR: usize = 0x50;

/// The sixteen glyph sprites for the hexadecimal digits `0` to `F`, five rows
/// each, the most significant bit of a row being its leftmost pixel.
pub const FONTSET: [u8; 80] = [
    0xF0, 0x90, 0x90, 0x90, 0xF0,
    0x20, 0x60, 0x20, 0x20, 0x70,
    0xF0, 0x10, 0xF0, 0x80, 0xF0,
    0xF0, 0x10, 0xF0, 0x10, 0xF0,
    0x90, 0x90, 0xF0, 0x10, 0x10,
    0xF0, 0x80, 0xF0, 0x10, 0xF0,
    0xF0, 0x80, 0xF0, 0x90, 0xF0,
    0xF0, 0x10, 0x20, 0x40, 0x40,
    0xF0, 0x90, 0xF0, 0x90, 0xF0,
    0xF0, 0x90, 0xF0, 0x10, 0xF0,
    0xF0, 0x90, 0xF0, 0x90, 0x90,
    0xE0, 0x90, 0xE0, 0x90, 0xE0,
    0xF0, 0x80, 0x80, 0x80, 0xF0,
    0xE0, 0x90, 0x90, 0x90, 0xE0,
    0xF0, 0x80, 0xF0, 0x80, 0xF0,
    0xF0, 0x80, 0xF0, 0x80, 0x80,
];

/// Address of the glyph sprite for the digit `digit`.
pub open spec fn glyph_address(digit: u8) -> int {
    FONTSET_START_ADDR + GLYPH_HEIGHT * digit
}

} // verus!
