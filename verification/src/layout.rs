//! The fixed memory map of the machine and the geometry of its screen.

use vstd::prelude::*;

verus! {

/// Bytes of addressable memory.
pub const MEMORY_SIZE: usize = 4096;

/// Start of the interpreter area, which holds the built-in glyphs.
pub const FONT_DATA: usize = 0x000;

/// Start of the program area, where a loaded program begins.
pub const DATA: usize = 0x200;

/// Start of the call-stack area: two-byte big-endian return addresses.
pub const CALLSTACK: usize = 0xEA0;

/// Start of the display area: one bit per pixel, row after row.
pub const DISPLAY: usize = 0xF00;

/// Deepest nesting of subroutine calls that the call stack can hold.
pub const STACK_DEPTH: u8 = 24;

/// Screen height in pixels.
pub const ROWS: usize = 32;

/// Screen width in pixels.
pub const COLS: usize = 64;

/// Bytes of display memory per screen row.
pub const ROW_LEN: usize = COLS / 8;

/// Bytes that one column of the screen would take, packed as the rows are.
pub const ROW_SIZE_BYTE: usize = ROWS / 8;

/// Bytes of display memory from one screen row to the next.
pub const COL_SIZE_BYTE: usize = COLS / 8;

/// The terminal bell character.
pub const ECHO_SOUND: char = '\u{7}';

/// The memory cell that an address denotes: addresses wrap around the end of
/// memory.
pub open spec fn cell(address: int) -> int {
    address % 4096
}

/// `n` reduced to eight bits.
pub open spec fn wrap8(n: int) -> u8 {
    (n % 0x100) as u8
}

/// `n` reduced to sixteen bits.
pub open spec fn wrap16(n: int) -> u16 {
    (n % 0x1_0000) as u16
}

} // verus!
