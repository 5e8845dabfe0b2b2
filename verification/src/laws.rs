//! What holds of the instructions taken together.

use vstd::prelude::*;
use crate::error::Chip8Error;
use crate::instruction::Instruction;
use crate::keypad::Keypad;
use crate::bits::bit_at;
use crate::layout::{cell, COLS, DATA, DISPLAY, ROWS};
use crate::machine::Machine;
use crate::screen::{
    lemma_memory_ext, lemma_xor_sprite_pixel, on_screen, pixel, row_address, sprite_covers,
    sprite_hits, sprite_rows, xor_sprite,
};

verus! {

/// The bit in column `column` of row `row` of a sprite with its top left corner
/// at `(vx, vy)` lies on the pixel in column `vx + column` and row `vy + row`,
/// counted around the screen: what passes the right edge goes on at the left
/// one, and what passes the bottom goes on at the top.
pub proof fn law_sprite_wraps(sprite: Seq<u8>, vx: int, vy: int, row: int, column: int)
    requires
        0 <= vx,
        0 <= vy,
        0 <= row < sprite.len() <= ROWS,
        0 <= column < 8,
    ensures
        on_screen((vx + column) % (COLS as int), (vy + row) % (ROWS as int)),
        sprite_covers(
            sprite,
            vx,
            vy,
            (vx + column) % (COLS as int),
            (vy + row) % (ROWS as int),
        ) == bit_at(sprite[row], column as u8),
{
}

/// The three digits that `Fx33` writes are decimal digits, and they make up
/// the value they were taken from.
pub proof fn law_bcd_digits(value: u8)
    ensures
        value / 100 < 10,
        value % 100 / 10 < 10,
        value % 10 < 10,
        100 * (value / 100) + 10 * (value % 100 / 10) + value % 10 == value,
{
}

/// Whether the sprite has a set bit on a pixel that is dark, so that drawing it
/// lights that pixel.
pub open spec fn sprite_lights(memory: Seq<u8>, sprite: Seq<u8>, vx: int, vy: int) -> bool {
    exists|px: int, py: int|
        on_screen(px, py) && !pixel(memory, px, py) && #[trigger] sprite_covers(
            sprite,
            vx,
            vy,
            px,
            py,
        )
}

/// The first of two draws leaves the sprite and the registers that place it as
/// they were, so that the second draws the same sprite at the same place.
pub open spec fn draws_same_again(m: Machine, x: int, y: int, n: int) -> bool {
    let drawn = m.draw(x, y, n);
    &&& sprite_rows(drawn.memory, m.i as int, n) == sprite_rows(m.memory, m.i as int, n)
    &&& drawn.v[x] == m.v[x]
    &&& drawn.v[y] == m.v[y]
}

/// A sprite that lies below the display area, placed by registers other than
/// `VF`, is the same sprite at the same place after it was drawn.
pub proof fn lemma_draws_same_again(m: Machine, x: int, y: int, n: int)
    requires
        m.wf(),
        0 <= x < 0xF,
        0 <= y < 0xF,
        0 <= n < 16,
        forall|row: int| 0 <= row < n ==> row_address(m.i as int, row) < DISPLAY,
    ensures
        draws_same_again(m, x, y, n),
{
    let drawn = m.draw(x, y, n);
    assert(sprite_rows(drawn.memory, m.i as int, n) =~= sprite_rows(m.memory, m.i as int, n));
}

/// Drawing the same sprite at the same place twice gives back the memory, and
/// with it the screen, that was there before the first draw.
pub proof fn law_draw_twice_restores(m: Machine, x: int, y: int, n: int)
    requires
        m.wf(),
        0 <= x < 16,
        0 <= y < 16,
        0 <= n < 16,
        draws_same_again(m, x, y, n),
    ensures
        m.draw(x, y, n).draw(x, y, n).memory == m.memory,
{
    let sprite = sprite_rows(m.memory, m.i as int, n);
    let vx = m.v[x] as int;
    let vy = m.v[y] as int;
    let once = m.draw(x, y, n);
    let twice = once.draw(x, y, n);
    assert(once.memory == xor_sprite(m.memory, sprite, vx, vy));
    assert(twice.memory == xor_sprite(once.memory, sprite, vx, vy));
    assert forall|px: int, py: int| on_screen(px, py) implies pixel(twice.memory, px, py) == pixel(
        m.memory,
        px,
        py,
    ) by {
        lemma_xor_sprite_pixel(m.memory, sprite, vx, vy, px, py);
        lemma_xor_sprite_pixel(once.memory, sprite, vx, vy, px, py);
    }
    lemma_memory_ext(twice.memory, m.memory);
}

/// Of two draws of the same sprite at the same place, the second reports a
/// collision exactly where the first lit a pixel: where the sprite had a set
/// bit on a pixel that was dark before the first draw.
pub proof fn law_draw_twice_flag(m: Machine, x: int, y: int, n: int)
    requires
        m.wf(),
        0 <= x < 16,
        0 <= y < 16,
        0 <= n < 16,
        draws_same_again(m, x, y, n),
    ensures
        m.draw(x, y, n).draw(x, y, n).v[0xF] == (if sprite_lights(
            m.memory,
            sprite_rows(m.memory, m.i as int, n),
            m.v[x] as int,
            m.v[y] as int,
        ) {
            1u8
        } else {
            0u8
        }),
{
    let sprite = sprite_rows(m.memory, m.i as int, n);
    let vx = m.v[x] as int;
    let vy = m.v[y] as int;
    let once = m.draw(x, y, n);
    assert(once.memory == xor_sprite(m.memory, sprite, vx, vy));
    if sprite_hits(once.memory, sprite, vx, vy) {
        let (px, py) = choose|px: int, py: int|
            on_screen(px, py) && pixel(once.memory, px, py) && #[trigger] sprite_covers(
                sprite,
                vx,
                vy,
                px,
                py,
            );
        lemma_xor_sprite_pixel(m.memory, sprite, vx, vy, px, py);
        assert(sprite_lights(m.memory, sprite, vx, vy));
    }
    if sprite_lights(m.memory, sprite, vx, vy) {
        let (px, py) = choose|px: int, py: int|
            on_screen(px, py) && !pixel(m.memory, px, py) && #[trigger] sprite_covers(
                sprite,
                vx,
                vy,
                px,
                py,
            );
        lemma_xor_sprite_pixel(m.memory, sprite, vx, vy, px, py);
        assert(sprite_hits(once.memory, sprite, vx, vy));
    }
}

/// Where the sprite covers lit and dark pixels alike, or covers none, the
/// second of two draws of the same sprite at the same place reports a
/// collision exactly if a pixel under the sprite was lit before the first
/// draw.
pub proof fn law_draw_twice_flag_of_lit(m: Machine, x: int, y: int, n: int)
    requires
        m.wf(),
        0 <= x < 16,
        0 <= y < 16,
        0 <= n < 16,
        draws_same_again(m, x, y, n),
        sprite_hits(m.memory, sprite_rows(m.memory, m.i as int, n), m.v[x] as int, m.v[y] as int)
            == sprite_lights(
            m.memory,
            sprite_rows(m.memory, m.i as int, n),
            m.v[x] as int,
            m.v[y] as int,
        ),
    ensures
        m.draw(x, y, n).draw(x, y, n).v[0xF] == (if sprite_hits(
            m.memory,
            sprite_rows(m.memory, m.i as int, n),
            m.v[x] as int,
            m.v[y] as int,
        ) {
            1u8
        } else {
            0u8
        }),
{
    law_draw_twice_flag(m, x, y, n);
}

/// Registers stored with `Fx55` come back with `Fx65`, whatever the registers
/// held in between.
pub proof fn law_store_recall(m: Machine, between: Seq<u8>)
    requires
        m.wf(),
    ensures
        (Machine { v: between, ..m.store_registers() }).recall_registers().v == m.v,
        m.store_registers().recall_registers() == m.store_registers(),
{
    let stored = m.store_registers();
    let recalled = (Machine { v: between, ..stored }).recall_registers();
    assert forall|k: int| 0 <= k < 16 implies recalled.v[k] == m.v[k] by {
        let a = cell(m.i + k);
        assert(cell(a - m.i) == k);
    }
    assert(recalled.v =~= m.v);
    assert(stored.recall_registers().v =~= stored.v);
}

/// A return after a call goes on where the call was made, with the call stack
/// as deep as before.
pub proof fn law_call_ret(m: Machine, nnn: u16)
    requires
        m.wf(),
        m.call_error() is None,
    ensures
        m.call(nnn).ret_error() is None,
        m.call(nnn).ret().pc == m.pc,
        m.call(nnn).ret().sp == m.sp,
{
}

/// The instructions that write to memory at the address register.
pub open spec fn stores_at_i(instruction: Instruction) -> bool {
    instruction is LoadBcd || instruction is StoreRegisters
}

/// No instruction writes below the program area, so that the font stays as it
/// was loaded: but for the two that write at the address register, which
/// write where it points.
pub proof fn law_interpreter_area_kept(
    m: Machine,
    instruction: Instruction,
    keys: Keypad,
    random: u8,
    a: int,
)
    requires
        m.wf(),
        instruction.valid(),
        m.execute_error(instruction) is None,
        !stores_at_i(instruction),
        0 <= a < DATA,
    ensures
        m.execute(instruction, keys, random).memory[a] == m.memory[a],
{
}

/// An instruction that fails leaves the machine as it was, and one that does
/// not fail keeps the call stack within its bounds.
pub proof fn law_stack_in_bounds(
    m: Machine,
    instruction: Instruction,
    keys: Keypad,
    random: u8,
    done: Result<(), Chip8Error>,
    after: Machine,
)
    requires
        m.stack_in_bounds(),
        m.steps_to(instruction, keys, random, done, after),
    ensures
        after.stack_in_bounds(),
        done is Err ==> after == m,
{
}

} // verus!
