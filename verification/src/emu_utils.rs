//! The display as text, and a self-test that draws four glyphs.
//!
//! Nothing here prints. The functions hand back characters, one line of the
//! screen after the other, each ended by a line feed.

use vstd::prelude::*;
use crate::bits::{bit_at, bit_value};
use crate::chip8::Chip8;
use crate::font::{Font, FONT_HEIGHT, FONT_SPRITES};
use crate::layout::{COLS, DISPLAY, MEMORY_SIZE, ROWS, ROW_LEN};
use crate::machine::Machine;
use crate::screen::{pixel, pixel_address};

verus! {

/// The decimal digits.
pub const DIGITS: [char; 10] = ['0', '1', '2', '3', '4', '5', '6', '7', '8', '9'];

/// Row `py` of the screen as text: `glyph` for a lit pixel, a blank for a dark
/// one.
pub open spec fn row_text(memory: Seq<u8>, py: int, glyph: char) -> Seq<char> {
    Seq::new(
        COLS as nat,
        |px: int|
            if pixel(memory, px, py) {
                glyph
            } else {
                ' '
            },
    )
}

/// The label in front of row `py`: its number in two digits, and a colon.
pub open spec fn row_label(py: int) -> Seq<char> {
    seq![DIGITS[py / 10], DIGITS[py % 10], ':']
}

/// The line of text for row `py`, labelled if `debug` holds.
pub open spec fn line_text(memory: Seq<u8>, py: int, debug: bool, glyph: char) -> Seq<char> {
    (if debug {
        row_label(py)
    } else {
        Seq::empty()
    }) + row_text(memory, py, glyph) + seq!['\n']
}

/// The lines of text for the first `rows` rows of the screen.
pub open spec fn lines_text(memory: Seq<u8>, rows: int, debug: bool, glyph: char) -> Seq<char>
    decreases rows,
{
    if rows <= 0 {
        Seq::empty()
    } else {
        lines_text(memory, rows - 1, debug, glyph) + line_text(memory, rows - 1, debug, glyph)
    }
}

/// The line under the screen: one underscore per column, indented by the
/// width of a label if `debug` holds.
pub open spec fn footer_text(debug: bool) -> Seq<char> {
    (if debug {
        seq![' ', ' ', ' ']
    } else {
        Seq::empty()
    }) + Seq::new(COLS as nat, |px: int| '_') + seq!['\n']
}

/// The whole screen as text: its 32 rows, then the line under it.
pub open spec fn screen_text(memory: Seq<u8>, debug: bool, glyph: char) -> Seq<char> {
    lines_text(memory, ROWS as int, debug, glyph) + footer_text(debug)
}

/// Renders the rows of the display as text: a line of 64 characters for each
/// of the 32 rows, `glyph` for a lit pixel and a blank for a dark one. With
/// `debug`, each row has its number in front.
pub fn display_rows(chip8: &Chip8, debug: bool, glyph: char) -> (text: Vec<char>)
    ensures
        text@ == lines_text(chip8@.memory, ROWS as int, debug, glyph),
{
    let mut text: Vec<char> = Vec::new();
    let mut row_i: usize = 0;
    while row_i < ROWS
        invariant
            row_i <= ROWS,
            text@ == lines_text(chip8@.memory, row_i as int, debug, glyph),
        decreases ROWS - row_i,
    {
        let ghost done = text@;
        if debug {
            text.push(DIGITS[row_i / 10]);
            text.push(DIGITS[row_i % 10]);
            text.push(':');
        }
        let ghost labelled = text@;
        let row_start = DISPLAY + (row_i * ROW_LEN);
        let mut i: usize = 0;
        while i < COLS / 8
            invariant
                row_i < ROWS,
                i <= COLS / 8,
                row_start == DISPLAY + row_i * ROW_LEN,
                text@ == labelled + row_text(chip8@.memory, row_i as int, glyph).take(8 * i),
            decreases COLS / 8 - i,
        {
            let byte: u8 = chip8.memory[row_start + i];
            let mut b: usize = 0;
            while b < 8
                invariant
                    row_i < ROWS,
                    i < COLS / 8,
                    b <= 8,
                    row_start == DISPLAY + row_i * ROW_LEN,
                    byte == chip8.memory@[row_start + i],
                    text@ == labelled + row_text(chip8@.memory, row_i as int, glyph).take(
                        8 * i + b,
                    ),
                decreases 8 - b,
            {
                let draw = if bit_value(byte, b) {
                    glyph
                } else {
                    ' '
                };
                proof {
                    let px = 8 * i + b;
                    let row = row_text(chip8@.memory, row_i as int, glyph);
                    assert(pixel_address(px as int, row_i as int) == row_start + i);
                    assert(row[px as int] == draw);
                    assert(row.take(px + 1) =~= row.take(px as int).push(draw));
                }
                text.push(draw);
                b += 1;
            }
            i += 1;
        }
        text.push('\n');
        proof {
            let row = row_text(chip8@.memory, row_i as int, glyph);
            assert(row.take(COLS as int) =~= row);
            assert(text@ =~= done + line_text(chip8@.memory, row_i as int, debug, glyph));
        }
        row_i += 1;
    }
    text
}

/// Renders the display as text: its rows as [`display_rows`] gives them, and
/// under them a line of underscores, indented with `debug` as the rows are.
pub fn display_render(chip8: &Chip8, debug: bool, glyph: char) -> (text: Vec<char>)
    ensures
        text@ == screen_text(chip8@.memory, debug, glyph),
{
    let mut text = display_rows(chip8, debug, glyph);
    let ghost lines = text@;
    if debug {
        text.push(' ');
        text.push(' ');
        text.push(' ');
    }
    let ghost indented = text@;
    let mut col: usize = 0;
    while col < COLS
        invariant
            col <= COLS,
            text@ == indented + Seq::new(col as nat, |px: int| '_'),
        decreases COLS - col,
    {
        text.push('_');
        proof {
            let longer = Seq::new((col + 1) as nat, |px: int| '_');
            assert(longer =~= Seq::new(col as nat, |px: int| '_').push('_'));
        }
        col += 1;
    }
    text.push('\n');
    proof {
        assert(text@ =~= lines + footer_text(debug));
    }
    text
}

impl Machine {
    /// The glyph of the digit `val` drawn with its top left corner at column
    /// `x` and row `y`, by way of the registers `V0`, `V1` and `V2`.
    pub open spec fn draw_font(self, x: u8, y: u8, val: u8) -> Machine {
        self.load(0, x).load(1, y).load(2, val).load_font(2).draw(0, 1, 5)
    }

    /// The state in which the self-test takes its frame `frame`, counted
    /// from 0: the screen cleared, and one glyph more drawn for each frame.
    pub open spec fn test_card(self, frame: int) -> Machine {
        let first = self.clear_screen().draw_font(0, 0, 1);
        let second = first.draw_font(8, 0, 3);
        let third = second.draw_font(0, 6, 5);
        if frame <= 0 {
            first
        } else if frame == 1 {
            second
        } else if frame == 2 {
            third
        } else {
            third.draw_font(62, 12, 7)
        }
    }
}

/// Draws the glyph of the digit `val` with its top left corner at column `x`
/// and row `y`. Uses the registers `V0`, `V1` and `V2` and the address
/// register.
pub fn draw_font_to_buffer(chip8: &mut Chip8, x: u8, y: u8, val: u8)
    ensures
        final(chip8)@ == old(chip8)@.draw_font(x, y, val),
{
    chip8.load(0, x);
    chip8.load(1, y);
    chip8.load(2, val);
    chip8.load_font(2);
    chip8.draw(0, 1, 5);
}

/// The self-test of the display: clears the screen, draws the glyphs `1`, `3`,
/// `5` and `7` one after the other, the last of them across the right edge,
/// and clears the screen again. Returns the screen as labelled text after each
/// of the four glyphs.
pub fn display_text(chip8: &mut Chip8, glyph: char) -> (frames: Vec<Vec<char>>)
    ensures
        frames@.len() == 4,
        forall|frame: int|
            0 <= frame < 4 ==> (#[trigger] frames@[frame])@ == screen_text(
                old(chip8)@.test_card(frame).memory,
                true,
                glyph,
            ),
        final(chip8)@ == old(chip8)@.test_card(3).clear_screen(),
{
    let mut frames: Vec<Vec<char>> = Vec::new();
    chip8.clear_screen();

    draw_font_to_buffer(chip8, 0, 0, 1);
    frames.push(display_render(chip8, true, glyph));

    draw_font_to_buffer(chip8, 8, 0, 3);
    frames.push(display_render(chip8, true, glyph));

    draw_font_to_buffer(chip8, 0, 6, 5);
    frames.push(display_render(chip8, true, glyph));

    draw_font_to_buffer(chip8, 62, 12, 7);
    frames.push(display_render(chip8, true, glyph));

    chip8.clear_screen();
    frames
}

/// The left four columns of row `row` of a glyph as text.
pub open spec fn font_row_text(font: Seq<u8>, row: int, block: char) -> Seq<char> {
    Seq::new(
        4,
        |column: int|
            if bit_at(font[row], column as u8) {
                block
            } else {
                ' '
            },
    ) + seq!['\n']
}

/// The first `rows` rows of a glyph as text.
pub open spec fn font_text(font: Seq<u8>, rows: int, block: char) -> Seq<char>
    decreases rows,
{
    if rows <= 0 {
        Seq::empty()
    } else {
        font_text(font, rows - 1, block) + font_row_text(font, rows - 1, block)
    }
}

/// The glyphs of the first `digits` digits as text, an empty line after each.
pub open spec fn fonts_text(digits: int, glyph: char) -> Seq<char>
    decreases digits,
{
    if digits <= 0 {
        Seq::empty()
    } else {
        fonts_text(digits - 1, glyph) + font_text(
            FONT_SPRITES[digits - 1]@,
            FONT_HEIGHT as int,
            glyph,
        ) + seq!['\n']
    }
}

/// Renders a glyph as text: a line of four characters for each of its five
/// rows, `block` for a set bit and a blank for one that is not set.
pub fn debug_font(font: Font, block: char) -> (text: Vec<char>)
    ensures
        text@ == font_text(font@, FONT_HEIGHT as int, block),
{
    let mut text: Vec<char> = Vec::new();
    let mut row: usize = 0;
    while row < FONT_HEIGHT
        invariant
            row <= FONT_HEIGHT,
            text@ == font_text(font@, row as int, block),
        decreases FONT_HEIGHT - row,
    {
        let ghost done = text@;
        let part = font[row];
        let mut i: usize = 0;
        while i < 4
            invariant
                row < FONT_HEIGHT,
                i <= 4,
                part == font@[row as int],
                text@ == done + Seq::new(
                    i as nat,
                    |column: int|
                        if bit_at(font@[row as int], column as u8) {
                            block
                        } else {
                            ' '
                        },
                ),
            decreases 4 - i,
        {
            let glyph = if bit_value(part, i) {
                block
            } else {
                ' '
            };
            text.push(glyph);
            i += 1;
            proof {
                assert(text@ =~= done + Seq::new(
                    i as nat,
                    |column: int|
                        if bit_at(font@[row as int], column as u8) {
                            block
                        } else {
                            ' '
                        },
                ));
            }
        }
        text.push('\n');
        proof {
            assert(text@ =~= done + font_row_text(font@, row as int, block));
        }
        row += 1;
    }
    text
}

/// Renders the sixteen glyphs of the font as text, an empty line after each.
pub fn dump_fonts(glyph: char) -> (text: Vec<char>)
    ensures
        text@ == fonts_text(16, glyph),
{
    let mut text: Vec<char> = Vec::new();
    let mut i: usize = 0;
    while i < 16
        invariant
            i <= 16,
            text@ == fonts_text(i as int, glyph),
        decreases 16 - i,
    {
        let f = FONT_SPRITES[i];
        let mut font = debug_font(f, glyph);
        text.append(&mut font);
        text.push('\n');
        i += 1;
    }
    text
}

/// The digits of base sixteen.
pub const HEX_DIGITS: [char; 16] = [
    '0',
    '1',
    '2',
    '3',
    '4',
    '5',
    '6',
    '7',
    '8',
    '9',
    'A',
    'B',
    'C',
    'D',
    'E',
    'F',
];

/// What goes in front of the byte at `address` in a dump of memory: a line
/// feed before every 32nd byte, and a blank before every fourth of the others.
pub open spec fn dump_separator(address: int) -> Seq<char> {
    if address % 32 == 0 {
        seq!['\n']
    } else if address % 4 == 0 {
        seq![' ']
    } else {
        Seq::empty()
    }
}

/// The first `bytes` bytes of memory as text: two digits of base sixteen for
/// each byte.
pub open spec fn dump_text(memory: Seq<u8>, bytes: int) -> Seq<char>
    decreases bytes,
{
    if bytes <= 0 {
        Seq::empty()
    } else {
        dump_text(memory, bytes - 1) + dump_separator(bytes - 1) + seq![
            HEX_DIGITS[(memory[bytes - 1] / 16) as int],
            HEX_DIGITS[(memory[bytes - 1] % 16) as int],
        ]
    }
}

/// Renders the whole memory as text: each byte as two digits of base sixteen,
/// 32 bytes to a line, in groups of four.
pub fn mem_dump(chip8: &Chip8) -> (text: Vec<char>)
    ensures
        text@ == dump_text(chip8@.memory, MEMORY_SIZE as int),
{
    let mut text: Vec<char> = Vec::new();
    let mut i: usize = 0;
    while i < MEMORY_SIZE
        invariant
            i <= MEMORY_SIZE,
            text@ == dump_text(chip8@.memory, i as int),
        decreases MEMORY_SIZE - i,
    {
        let ghost done = text@;
        if i % 32 == 0 {
            text.push('\n');
        } else if i % 4 == 0 {
            text.push(' ');
        }
        let byte = chip8.memory[i];
        text.push(HEX_DIGITS[(byte / 16) as usize]);
        text.push(HEX_DIGITS[(byte % 16) as usize]);
        proof {
            assert(text@ =~= done + dump_separator(i as int) + seq![
                HEX_DIGITS[(chip8@.memory[i as int] / 16) as int],
                HEX_DIGITS[(chip8@.memory[i as int] % 16) as int],
            ]);
        }
        i += 1;
    }
    text
}

} // verus!
