//! The display as a grid of pixels packed into memory, and what drawing a
//! sprite does to it.
//!
//! The screen is 64 pixels wide and 32 high. Pixel `(px, py)` is one bit of the
//! display area: row after row, eight pixels per byte, the leftmost pixel in
//! the most significant bit.

use vstd::prelude::*;
use crate::bits::{bit_at, lemma_byte_ext, lemma_pack_bits, lemma_with_bit, pack_bits, with_bit};
use crate::layout::{cell, COLS, DISPLAY, MEMORY_SIZE, ROWS, ROW_LEN};

verus! {

/// `(px, py)` names a pixel of the screen.
pub open spec fn on_screen(px: int, py: int) -> bool {
    0 <= px < COLS && 0 <= py < ROWS
}

/// Address of the byte that holds pixel `(px, py)`.
pub open spec fn pixel_address(px: int, py: int) -> int {
    DISPLAY + py * ROW_LEN + px / 8
}

/// Whether pixel `(px, py)` is lit.
pub open spec fn pixel(memory: Seq<u8>, px: int, py: int) -> bool {
    bit_at(memory[pixel_address(px, py)], (px % 8) as u8)
}

/// Where row `row` of the sprite at `address` lies in memory.
pub open spec fn row_address(address: int, row: int) -> int {
    cell(address + row)
}

/// The sprite of `n` rows that starts at `address`: one byte per row, top row
/// first.
pub open spec fn sprite_rows(memory: Seq<u8>, address: int, n: int) -> Seq<u8> {
    Seq::new(n as nat, |row: int| memory[row_address(address, row)])
}

/// Whether a sprite drawn with its top left corner at column `vx` and row `vy`
/// has a set bit on pixel `(px, py)`. A sprite that crosses an edge of the
/// screen goes on at the opposite edge.
pub open spec fn sprite_covers(sprite: Seq<u8>, vx: int, vy: int, px: int, py: int) -> bool {
    let column = (px - vx) % (COLS as int);
    let row = (py - vy) % (ROWS as int);
    column < 8 && row < sprite.len() && bit_at(sprite[row], column as u8)
}

/// Whether the sprite has a set bit on a pixel that is lit, so that drawing it
/// turns that pixel dark.
pub open spec fn sprite_hits(memory: Seq<u8>, sprite: Seq<u8>, vx: int, vy: int) -> bool {
    exists|px: int, py: int|
        on_screen(px, py) && pixel(memory, px, py) && #[trigger] sprite_covers(
            sprite,
            vx,
            vy,
            px,
            py,
        )
}

/// The memory after the sprite was drawn: each pixel that the sprite covers is
/// flipped, and nothing else changes.
pub open spec fn xor_sprite(memory: Seq<u8>, sprite: Seq<u8>, vx: int, vy: int) -> Seq<u8> {
    Seq::new(
        memory.len(),
        |a: int|
            if DISPLAY <= a {
                let py = (a - DISPLAY) / (ROW_LEN as int);
                let left = 8 * ((a - DISPLAY) % (ROW_LEN as int));
                pack_bits(
                    |k: u8|
                        pixel(memory, left + k, py) != sprite_covers(sprite, vx, vy, left + k, py),
                )
            } else {
                memory[a]
            },
    )
}

/// Drawing a sprite flips exactly the pixels that it covers.
pub proof fn lemma_xor_sprite_pixel(
    memory: Seq<u8>,
    sprite: Seq<u8>,
    vx: int,
    vy: int,
    px: int,
    py: int,
)
    requires
        memory.len() == MEMORY_SIZE,
        on_screen(px, py),
    ensures
        pixel(xor_sprite(memory, sprite, vx, vy), px, py) == (pixel(memory, px, py)
            != sprite_covers(sprite, vx, vy, px, py)),
{
    let a = pixel_address(px, py);
    let row = (a - DISPLAY) / (ROW_LEN as int);
    let left = 8 * ((a - DISPLAY) % (ROW_LEN as int));
    let k = (px % 8) as u8;
    assert(ROW_LEN == 8);
    assert(a - DISPLAY == py * 8 + px / 8);
    assert(row == py);
    assert(left == 8 * (px / 8));
    assert(left + k == px);
    lemma_pack_bits(
        |k: u8| pixel(memory, left + k, row) != sprite_covers(sprite, vx, vy, left + k, row),
        k,
    );
}

/// Two memories that agree on every pixel and on every byte below the display
/// area are the same memory.
pub proof fn lemma_memory_ext(a: Seq<u8>, b: Seq<u8>)
    requires
        a.len() == MEMORY_SIZE,
        b.len() == MEMORY_SIZE,
        forall|k: int| 0 <= k < DISPLAY ==> a[k] == b[k],
        forall|px: int, py: int| on_screen(px, py) ==> pixel(a, px, py) == pixel(b, px, py),
    ensures
        a == b,
{
    assert forall|k: int| 0 <= k < MEMORY_SIZE implies a[k] == b[k] by {
        if DISPLAY <= k {
            let py = (k - DISPLAY) / (ROW_LEN as int);
            let left = 8 * ((k - DISPLAY) % (ROW_LEN as int));
            assert forall|j: u8| j < 8 implies bit_at(a[k], j) == bit_at(b[k], j) by {
                assert(on_screen(left + j, py));
                assert(pixel_address(left + j, py) == k);
                assert(pixel(a, left + j, py) == pixel(b, left + j, py));
            }
            lemma_byte_ext(a[k], b[k]);
        }
    }
    assert(a =~= b);
}

/// Writing one bit of the display changes that pixel and no other.
pub proof fn lemma_write_pixel(memory: Seq<u8>, x: int, y: int, set: bool, px: int, py: int)
    requires
        memory.len() == MEMORY_SIZE,
        on_screen(x, y),
        on_screen(px, py),
    ensures
        pixel(
            memory.update(
                pixel_address(x, y),
                with_bit(memory[pixel_address(x, y)], (x % 8) as u8, set),
            ),
            px,
            py,
        ) == (if px == x && py == y {
            set
        } else {
            pixel(memory, px, py)
        }),
{
    if pixel_address(px, py) == pixel_address(x, y) {
        assert(py == y && px / 8 == x / 8);
        lemma_with_bit(memory[pixel_address(x, y)], (x % 8) as u8, set, (px % 8) as u8);
    }
}

} // verus!
