//! The framebuffer writer: one pixel at a time, and a whole sprite.

use vstd::prelude::*;
use crate::bits::{bit_at, bit_value, byte_with_replaced_bit, with_bit};
use crate::chip8::Chip8;
use crate::layout::{COLS, COL_SIZE_BYTE, DISPLAY, MEMORY_SIZE, ROWS};
use crate::machine::Machine;
use crate::screen::{
    lemma_memory_ext, lemma_write_pixel, lemma_xor_sprite_pixel, on_screen, pixel, pixel_address,
    sprite_covers, sprite_hits, sprite_rows, xor_sprite,
};

verus! {

/// Whether the sprite covers pixel `(px, py)` with a bit that comes before
/// column `col` of row `row`, going through the sprite row by row.
spec fn drawn_before(
    sprite: Seq<u8>,
    vx: int,
    vy: int,
    px: int,
    py: int,
    row: int,
    col: int,
) -> bool {
    let c = (px - vx) % (COLS as int);
    let r = (py - vy) % (ROWS as int);
    sprite_covers(sprite, vx, vy, px, py) && (r < row || (r == row && c < col))
}

/// Whether a bit of the sprite that comes before column `col` of row `row`
/// lies on a pixel that is lit in `memory`.
spec fn hits_before(
    memory: Seq<u8>,
    sprite: Seq<u8>,
    vx: int,
    vy: int,
    row: int,
    col: int,
) -> bool {
    exists|px: int, py: int|
        on_screen(px, py) && pixel(memory, px, py) && #[trigger] drawn_before(
            sprite,
            vx,
            vy,
            px,
            py,
            row,
            col,
        )
}

/// `current` is `before` with the bits of the sprite drawn that come before
/// column `col` of row `row`.
spec fn drawn_until(
    before: Seq<u8>,
    current: Seq<u8>,
    sprite: Seq<u8>,
    vx: int,
    vy: int,
    row: int,
    col: int,
) -> bool {
    &&& before.len() == MEMORY_SIZE
    &&& current.len() == MEMORY_SIZE
    &&& forall|a: int| 0 <= a < DISPLAY ==> current[a] == before[a]
    &&& forall|px: int, py: int|
        on_screen(px, py) ==> pixel(current, px, py) == (pixel(before, px, py) != drawn_before(
            sprite,
            vx,
            vy,
            px,
            py,
            row,
            col,
        ))
}

/// The pixel that column `col` of row `row` of the sprite falls on.
spec fn target(vx: int, vy: int, row: int, col: int) -> (int, int) {
    ((vx + col) % (COLS as int), (vy + row) % (ROWS as int))
}

/// Column `col` of row `row` of the sprite falls on its target pixel and on
/// no other.
proof fn lemma_target(vx: int, vy: int, row: int, col: int, px: int, py: int)
    requires
        0 <= vx,
        0 <= vy,
        0 <= row < ROWS,
        0 <= col < 8,
        on_screen(px, py),
    ensures
        on_screen(target(vx, vy, row, col).0, target(vx, vy, row, col).1),
        ((px - vx) % (COLS as int) == col && (py - vy) % (ROWS as int) == row) <==> (px == target(
            vx,
            vy,
            row,
            col,
        ).0 && py == target(vx, vy, row, col).1),
{
}

/// What one bit further adds to what is drawn: the target pixel, if the bit
/// is set.
proof fn lemma_drawn_before_next(
    sprite: Seq<u8>,
    vx: int,
    vy: int,
    row: int,
    col: int,
    px: int,
    py: int,
)
    requires
        0 <= vx,
        0 <= vy,
        0 <= row < sprite.len() <= ROWS,
        0 <= col < 8,
        on_screen(px, py),
    ensures
        drawn_before(sprite, vx, vy, px, py, row, col + 1) == (drawn_before(
            sprite,
            vx,
            vy,
            px,
            py,
            row,
            col,
        ) || (px == target(vx, vy, row, col).0 && py == target(vx, vy, row, col).1 && bit_at(
            sprite[row],
            col as u8,
        ))),
        px == target(vx, vy, row, col).0 && py == target(vx, vy, row, col).1 ==> !drawn_before(
            sprite,
            vx,
            vy,
            px,
            py,
            row,
            col,
        ),
{
    lemma_target(vx, vy, row, col, px, py);
}

/// One bit of the sprite further: the pixel under a set bit is flipped, and
/// the sprite has hit a lit pixel if it had before or does so now.
proof fn lemma_draw_bit(
    before: Seq<u8>,
    current: Seq<u8>,
    next: Seq<u8>,
    sprite: Seq<u8>,
    vx: int,
    vy: int,
    row: int,
    col: int,
)
    requires
        drawn_until(before, current, sprite, vx, vy, row, col),
        0 <= row < sprite.len() <= ROWS,
        0 <= col < 8,
        0 <= vx,
        0 <= vy,
        next == (if bit_at(sprite[row], col as u8) {
            let (tx, ty) = target(vx, vy, row, col);
            current.update(
                pixel_address(tx, ty),
                with_bit(
                    current[pixel_address(tx, ty)],
                    (tx % 8) as u8,
                    !pixel(current, tx, ty),
                ),
            )
        } else {
            current
        }),
    ensures
        drawn_until(before, next, sprite, vx, vy, row, col + 1),
        hits_before(before, sprite, vx, vy, row, col + 1) == (hits_before(
            before,
            sprite,
            vx,
            vy,
            row,
            col,
        ) || (bit_at(sprite[row], col as u8) && pixel(
            current,
            target(vx, vy, row, col).0,
            target(vx, vy, row, col).1,
        ))),
{
    let (tx, ty) = target(vx, vy, row, col);
    let set = bit_at(sprite[row], col as u8);
    lemma_target(vx, vy, row, col, 0, 0);
    lemma_drawn_before_next(sprite, vx, vy, row, col, tx, ty);
    assert(pixel(current, tx, ty) == pixel(before, tx, ty));
    assert forall|px: int, py: int| on_screen(px, py) implies pixel(next, px, py) == (pixel(
        before,
        px,
        py,
    ) != drawn_before(sprite, vx, vy, px, py, row, col + 1)) by {
        lemma_drawn_before_next(sprite, vx, vy, row, col, px, py);
        if set {
            lemma_write_pixel(current, tx, ty, !pixel(current, tx, ty), px, py);
        }
    }
    assert forall|a: int| 0 <= a < DISPLAY implies next[a] == before[a] by {
        assert(pixel_address(tx, ty) >= DISPLAY);
    }
    if hits_before(before, sprite, vx, vy, row, col + 1) {
        let (px, py) = choose|px: int, py: int|
            on_screen(px, py) && pixel(before, px, py) && #[trigger] drawn_before(
                sprite,
                vx,
                vy,
                px,
                py,
                row,
                col + 1,
            );
        lemma_drawn_before_next(sprite, vx, vy, row, col, px, py);
        if !(px == tx && py == ty) {
            assert(drawn_before(sprite, vx, vy, px, py, row, col));
        }
    }
    if hits_before(before, sprite, vx, vy, row, col) {
        let (px, py) = choose|px: int, py: int|
            on_screen(px, py) && pixel(before, px, py) && #[trigger] drawn_before(
                sprite,
                vx,
                vy,
                px,
                py,
                row,
                col,
            );
        lemma_drawn_before_next(sprite, vx, vy, row, col, px, py);
        assert(drawn_before(sprite, vx, vy, px, py, row, col + 1));
    }
    if set && pixel(current, tx, ty) {
        assert(drawn_before(sprite, vx, vy, tx, ty, row, col + 1));
    }
}

/// Past the last column of a row lies the first column of the next row.
proof fn lemma_draw_row_done(
    before: Seq<u8>,
    current: Seq<u8>,
    sprite: Seq<u8>,
    vx: int,
    vy: int,
    row: int,
)
    requires
        drawn_until(before, current, sprite, vx, vy, row, 8),
    ensures
        drawn_until(before, current, sprite, vx, vy, row + 1, 0),
        hits_before(before, sprite, vx, vy, row + 1, 0) == hits_before(
            before,
            sprite,
            vx,
            vy,
            row,
            8,
        ),
{
    assert forall|px: int, py: int|
        drawn_before(sprite, vx, vy, px, py, row + 1, 0) == drawn_before(
            sprite,
            vx,
            vy,
            px,
            py,
            row,
            8,
        ) by {}
    if hits_before(before, sprite, vx, vy, row + 1, 0) {
        let (px, py) = choose|px: int, py: int|
            on_screen(px, py) && pixel(before, px, py) && #[trigger] drawn_before(
                sprite,
                vx,
                vy,
                px,
                py,
                row + 1,
                0,
            );
        assert(drawn_before(sprite, vx, vy, px, py, row, 8));
    }
    if hits_before(before, sprite, vx, vy, row, 8) {
        let (px, py) = choose|px: int, py: int|
            on_screen(px, py) && pixel(before, px, py) && #[trigger] drawn_before(
                sprite,
                vx,
                vy,
                px,
                py,
                row,
                8,
            );
        assert(drawn_before(sprite, vx, vy, px, py, row + 1, 0));
    }
}

/// Before the first bit nothing is drawn and nothing is hit.
proof fn lemma_draw_start(memory: Seq<u8>, sprite: Seq<u8>, vx: int, vy: int)
    requires
        memory.len() == MEMORY_SIZE,
    ensures
        drawn_until(memory, memory, sprite, vx, vy, 0, 0),
        !hits_before(memory, sprite, vx, vy, 0, 0),
{
}

/// Past the last row the whole sprite is drawn.
proof fn lemma_draw_done(before: Seq<u8>, current: Seq<u8>, sprite: Seq<u8>, vx: int, vy: int)
    requires
        drawn_until(before, current, sprite, vx, vy, sprite.len() as int, 0),
    ensures
        current == xor_sprite(before, sprite, vx, vy),
        hits_before(before, sprite, vx, vy, sprite.len() as int, 0) == sprite_hits(
            before,
            sprite,
            vx,
            vy,
        ),
{
    let n = sprite.len() as int;
    let drawn = xor_sprite(before, sprite, vx, vy);
    assert forall|px: int, py: int|
        drawn_before(sprite, vx, vy, px, py, n, 0) == sprite_covers(sprite, vx, vy, px, py) by {}
    assert forall|px: int, py: int| on_screen(px, py) implies pixel(current, px, py) == pixel(
        drawn,
        px,
        py,
    ) by {
        lemma_xor_sprite_pixel(before, sprite, vx, vy, px, py);
    }
    lemma_memory_ext(current, drawn);
    if hits_before(before, sprite, vx, vy, n, 0) {
        let (px, py) = choose|px: int, py: int|
            on_screen(px, py) && pixel(before, px, py) && #[trigger] drawn_before(
                sprite,
                vx,
                vy,
                px,
                py,
                n,
                0,
            );
        assert(sprite_covers(sprite, vx, vy, px, py));
    }
    if sprite_hits(before, sprite, vx, vy) {
        let (px, py) = choose|px: int, py: int|
            on_screen(px, py) && pixel(before, px, py) && #[trigger] sprite_covers(
                sprite,
                vx,
                vy,
                px,
                py,
            );
        assert(drawn_before(sprite, vx, vy, px, py, n, 0));
    }
}

impl Machine {
    /// Pixel `(x, y)` made lit or dark.
    pub open spec fn write_pixel(self, x: int, y: int, lit: bool) -> Machine {
        let address = pixel_address(x, y);
        Machine {
            memory: self.memory.update(
                address,
                with_bit(self.memory[address], (x % 8) as u8, lit),
            ),
            ..self
        }
    }
}

impl Chip8 {
    /// Flips pixel `(x, y)` if `set` holds, and leaves it as it is if not.
    /// Returns whether the pixel went from lit to dark.
    pub fn screen_bit_write(&mut self, x: usize, y: usize, set: bool) -> (erased: bool)
        requires
            x < COLS,
            y < ROWS,
        ensures
            final(self)@ == old(self)@.write_pixel(
                x as int,
                y as int,
                pixel(old(self)@.memory, x as int, y as int) != set,
            ),
            erased == (pixel(old(self)@.memory, x as int, y as int) && set),
    {
        let byte_offset = DISPLAY + (y * COL_SIZE_BYTE) + (x / 8);
        let byte_sector = self.memory[byte_offset];
        let bit_offset = x % 8;
        let old_bit = bit_value(byte_sector, bit_offset);
        let new_value = old_bit ^ set;
        let new_byte_sector = byte_with_replaced_bit(byte_sector, bit_offset, new_value);
        self.memory[byte_offset] = new_byte_sector;
        old_bit && !new_value
    }

    /// `Dxyn`: draws the sprite of `n` rows that lies at `I`, its top left
    /// corner at column `Vx` and row `Vy`. Each set bit of the sprite flips
    /// the pixel under it; what passes an edge of the screen goes on at the
    /// opposite edge. Then `VF = 1` if a lit pixel went dark and `VF = 0` if
    /// none did, and the display is marked as changed. The rows are read
    /// before the first pixel is written.
    pub fn draw(&mut self, v_x: usize, v_y: usize, n: usize)
        requires
            v_x < 16,
            v_y < 16,
            n < 16,
        ensures
            final(self)@ == old(self)@.draw(v_x as int, v_y as int, n as int),
            forall|px: int, py: int|
                on_screen(px, py) ==> #[trigger] pixel(final(self)@.memory, px, py) == (pixel(
                    old(self)@.memory,
                    px,
                    py,
                ) != sprite_covers(
                    sprite_rows(old(self)@.memory, old(self).i as int, n as int),
                    old(self).v[v_x as int] as int,
                    old(self).v[v_y as int] as int,
                    px,
                    py,
                )),
    {
        let vx = self.v[v_x] as usize;
        let vy = self.v[v_y] as usize;
        let ghost before = self.memory@;
        let ghost sprite = sprite_rows(before, self.i as int, n as int);

        let mut rows: [u8; 15] = [0; 15];
        let mut row: usize = 0;
        while row < n
            invariant
                row <= n < 16,
                *self == *old(self),
                forall|r: int| 0 <= r < row ==> rows@[r] == sprite[r],
                sprite == sprite_rows(self.memory@, self.i as int, n as int),
            decreases n - row,
        {
            rows[row] = self.memory[(self.i as usize + row) % MEMORY_SIZE];
            row += 1;
        }

        let mut collision_flag = false;
        proof {
            lemma_draw_start(before, sprite, vx as int, vy as int);
        }
        row = 0;
        while row < n
            invariant
                row <= n < 16,
                vx < 256,
                vy < 256,
                sprite.len() == n,
                forall|r: int| 0 <= r < n ==> rows@[r] == sprite[r],
                self@ == (Machine { memory: self.memory@, ..old(self)@ }),
                drawn_until(before, self.memory@, sprite, vx as int, vy as int, row as int, 0),
                collision_flag == hits_before(before, sprite, vx as int, vy as int, row as int, 0),
            decreases n - row,
        {
            let byte_read = rows[row];
            let mut col: usize = 0;
            while col < 8
                invariant
                    row < n < 16,
                    col <= 8,
                    vx < 256,
                    vy < 256,
                    sprite.len() == n,
                    byte_read == sprite[row as int],
                    self@ == (Machine { memory: self.memory@, ..old(self)@ }),
                    drawn_until(
                        before,
                        self.memory@,
                        sprite,
                        vx as int,
                        vy as int,
                        row as int,
                        col as int,
                    ),
                    collision_flag == hits_before(
                        before,
                        sprite,
                        vx as int,
                        vy as int,
                        row as int,
                        col as int,
                    ),
                decreases 8 - col,
            {
                let ghost current = self.memory@;
                if bit_value(byte_read, col) {
                    let adj_x = (vx + col) % COLS;
                    let adj_y = (vy + row) % ROWS;
                    let collision = self.screen_bit_write(adj_x, adj_y, true);
                    collision_flag = collision_flag || collision;
                }
                proof {
                    lemma_draw_bit(
                        before,
                        current,
                        self.memory@,
                        sprite,
                        vx as int,
                        vy as int,
                        row as int,
                        col as int,
                    );
                }
                col += 1;
            }
            proof {
                lemma_draw_row_done(before, self.memory@, sprite, vx as int, vy as int, row as int);
            }
            row += 1;
        }
        proof {
            lemma_draw_done(before, self.memory@, sprite, vx as int, vy as int);
            assert forall|px: int, py: int| on_screen(px, py) implies pixel(
                self.memory@,
                px,
                py,
            ) == (pixel(before, px, py) != sprite_covers(sprite, vx as int, vy as int, px, py)) by {
                lemma_xor_sprite_pixel(before, sprite, vx as int, vy as int, px, py);
            }
        }
        self.v[0xF] = if collision_flag {
            1
        } else {
            0
        };
        self.should_draw = true;
    }
}

} // verus!
