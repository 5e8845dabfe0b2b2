//! The built-in hexadecimal font: sixteen glyphs of five rows each, eight
//! pixels wide, of which only the left four columns are used.

use vstd::prelude::*;

verus! {

/// The five sprite rows of one glyph, top row first.
pub type Font = [u8; 5];

/// Rows per glyph.
pub const FONT_HEIGHT: usize = 5;

/// Bytes that the whole font table occupies.
pub const FONT_TABLE_LEN: usize = 80;

/// The glyphs of the digits `0` to `F`.
pub const FONT_SPRITES: [Font; 16] = [
    [0xF0, 0x90, 0x90, 0x90, 0xF0],
    [0x20, 0x60, 0x20, 0x20, 0x70],
    [0xF0, 0x10, 0xF0, 0x80, 0xF0],
    [0xF0, 0x10, 0xF0, 0x10, 0xF0],
    [0x90, 0x90, 0xF0, 0x10, 0x10],
    [0xF0, 0x80, 0xF0, 0x10, 0xF0],
    [0xF0, 0x80, 0xF0, 0x90, 0xF0],
    [0xF0, 0x10, 0x20, 0x40, 0x40],
    [0xF0, 0x90, 0xF0, 0x90, 0xF0],
    [0xF0, 0x90, 0xF0, 0x10, 0xF0],
    [0xF0, 0x90, 0xF0, 0x90, 0x90],
    [0xE0, 0x90, 0xE0, 0x90, 0xE0],
    [0xF0, 0x80, 0x80, 0x80, 0xF0],
    [0xE0, 0x90, 0x90, 0x90, 0xE0],
    [0xF0, 0x80, 0xF0, 0x80, 0xF0],
    [0xF0, 0x80, 0xF0, 0x80, 0x80],
];

/// The byte at `offset` of the font table as it lies in memory: glyph after
/// glyph, five bytes each.
pub open spec fn font_byte(offset: int) -> u8 {
    FONT_SPRITES[offset / 5][offset % 5]
}

/// Offset of the glyph of `digit` within the font table. Only the low four
/// bits of `digit` select the glyph.
pub open spec fn glyph_offset(digit: u8) -> int {
    5 * (digit % 16)
}

} // verus!
