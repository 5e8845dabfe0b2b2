use chip8_emulator::chip8::Chip8;
use chip8_emulator::layout::{DISPLAY, MEMORY_SIZE};

fn lit(chip8: &Chip8, px: usize, py: usize) -> bool {
    chip8.memory[DISPLAY + py * 8 + px / 8] & (0x80 >> (px % 8)) != 0
}

fn lit_pixels(chip8: &Chip8) -> Vec<(usize, usize)> {
    let mut pixels = Vec::new();
    for py in 0..32 {
        for px in 0..64 {
            if lit(chip8, px, py) {
                pixels.push((px, py));
            }
        }
    }
    pixels
}

fn machine_with_sprite(sprite: &[u8], x: u8, y: u8) -> Chip8 {
    let mut chip8 = Chip8::new();
    for (row, byte) in sprite.iter().enumerate() {
        chip8.memory[0x300 + row] = *byte;
    }
    chip8.load_i(0x300);
    chip8.load(1, x);
    chip8.load(2, y);
    chip8
}

#[test]
fn screen_bit_write_flips_a_dark_pixel() {
    let mut chip8 = Chip8::new();
    assert!(!chip8.screen_bit_write(10, 3, true));
    assert_eq!(0x20, chip8.memory[DISPLAY + 3 * 8 + 1]);
    assert_eq!(vec![(10, 3)], lit_pixels(&chip8));
}

#[test]
fn screen_bit_write_reports_an_erased_pixel() {
    let mut chip8 = Chip8::new();
    chip8.screen_bit_write(10, 3, true);
    assert!(chip8.screen_bit_write(10, 3, true));
    assert!(lit_pixels(&chip8).is_empty());
}

#[test]
fn screen_bit_write_without_set_changes_nothing() {
    let mut chip8 = Chip8::new();
    chip8.screen_bit_write(63, 31, true);
    assert_eq!(0x01, chip8.memory[MEMORY_SIZE - 1]);
    assert!(!chip8.screen_bit_write(63, 31, false));
    assert!(!chip8.screen_bit_write(0, 0, false));
    assert_eq!(vec![(63, 31)], lit_pixels(&chip8));
}

#[test]
fn draw_places_the_sprite() {
    let mut chip8 = machine_with_sprite(&[0b1010_0001, 0b0100_0000], 4, 2);
    chip8.load(0xF, 1);
    chip8.draw(1, 2, 2);
    assert_eq!(vec![(4, 2), (6, 2), (11, 2), (5, 3)], lit_pixels(&chip8));
    assert_eq!(0, chip8.v[0xF]);
    assert!(chip8.should_draw);
    assert_eq!(0x0A, chip8.memory[DISPLAY + 16]);
    assert_eq!(0x10, chip8.memory[DISPLAY + 17]);
    assert_eq!(0x04, chip8.memory[DISPLAY + 24]);
}

#[test]
fn draw_leaves_the_rest_of_the_machine() {
    let mut chip8 = machine_with_sprite(&[0xFF; 15], 20, 10);
    let before = chip8.clone();
    chip8.draw(1, 2, 15);
    assert_eq!(before.memory[..DISPLAY], chip8.memory[..DISPLAY]);
    assert_eq!(before.v[..15], chip8.v[..15]);
    assert_eq!(before.i, chip8.i);
    assert_eq!(before.pc, chip8.pc);
    assert_eq!(before.sp, chip8.sp);
    assert_eq!(15 * 8, lit_pixels(&chip8).len());
}

#[test]
fn draw_of_no_rows_only_sets_the_flags() {
    let mut chip8 = machine_with_sprite(&[0xFF], 0, 0);
    chip8.load(0xF, 7);
    chip8.draw(1, 2, 0);
    assert!(lit_pixels(&chip8).is_empty());
    assert_eq!(0, chip8.v[0xF]);
    assert!(chip8.should_draw);
}

#[test]
fn draw_skips_unset_bits() {
    let mut chip8 = machine_with_sprite(&[0x00], 0, 0);
    chip8.fill_screen();
    chip8.draw(1, 2, 1);
    assert_eq!(64 * 32, lit_pixels(&chip8).len());
    assert_eq!(0, chip8.v[0xF]);
}

#[test]
fn draw_reports_a_collision() {
    let mut chip8 = machine_with_sprite(&[0b1100_0000], 0, 0);
    chip8.screen_bit_write(1, 0, true);
    chip8.draw(1, 2, 1);
    assert_eq!(vec![(0, 0)], lit_pixels(&chip8));
    assert_eq!(1, chip8.v[0xF]);
}

#[test]
fn draw_beside_lit_pixels_reports_none() {
    let mut chip8 = machine_with_sprite(&[0b1100_0000], 0, 0);
    chip8.screen_bit_write(2, 0, true);
    chip8.screen_bit_write(0, 1, true);
    chip8.load(0xF, 1);
    chip8.draw(1, 2, 1);
    assert_eq!(vec![(0, 0), (1, 0), (2, 0), (0, 1)], lit_pixels(&chip8));
    assert_eq!(0, chip8.v[0xF]);
}

#[test]
fn draw_twice_restores_the_screen() {
    let mut chip8 = machine_with_sprite(&[0xF0, 0x90, 0x90, 0x90, 0xF0], 30, 14);
    chip8.screen_bit_write(2, 2, true);
    chip8.screen_bit_write(31, 15, true);
    let before = chip8.clone();
    chip8.draw(1, 2, 5);
    assert_ne!(before.memory, chip8.memory);
    assert_eq!(0, chip8.v[0xF]);
    chip8.draw(1, 2, 5);
    assert_eq!(before.memory, chip8.memory);
    assert_eq!(1, chip8.v[0xF]);
}

#[test]
fn draw_twice_on_a_blank_screen_collides_the_second_time() {
    let mut chip8 = machine_with_sprite(&[0x80], 0, 0);
    chip8.draw(1, 2, 1);
    assert_eq!(0, chip8.v[0xF]);
    assert_eq!(vec![(0, 0)], lit_pixels(&chip8));
    chip8.draw(1, 2, 1);
    assert_eq!(1, chip8.v[0xF]);
    assert!(lit_pixels(&chip8).is_empty());
}

#[test]
fn draw_twice_over_lit_pixels_only_collides_the_first_time() {
    let mut chip8 = machine_with_sprite(&[0xC0], 8, 8);
    chip8.screen_bit_write(8, 8, true);
    chip8.screen_bit_write(9, 8, true);
    let before = chip8.clone();
    chip8.draw(1, 2, 1);
    assert_eq!(1, chip8.v[0xF]);
    assert!(lit_pixels(&chip8).is_empty());
    chip8.draw(1, 2, 1);
    assert_eq!(0, chip8.v[0xF]);
    assert_eq!(before.memory, chip8.memory);
}

#[test]
fn draw_twice_over_lit_and_dark_pixels_collides_both_times() {
    let mut chip8 = machine_with_sprite(&[0xC0], 8, 8);
    chip8.screen_bit_write(9, 8, true);
    let before = chip8.clone();
    chip8.draw(1, 2, 1);
    assert_eq!(1, chip8.v[0xF]);
    assert_eq!(vec![(8, 8)], lit_pixels(&chip8));
    chip8.draw(1, 2, 1);
    assert_eq!(1, chip8.v[0xF]);
    assert_eq!(before.memory, chip8.memory);
}

#[test]
fn draw_wraps_at_the_right_edge() {
    let mut chip8 = machine_with_sprite(&[0b1100_0000], 63, 0);
    chip8.draw(1, 2, 1);
    assert_eq!(vec![(0, 0), (63, 0)], lit_pixels(&chip8));
    assert_eq!(0x80, chip8.memory[DISPLAY]);
    assert_eq!(0x01, chip8.memory[DISPLAY + 7]);
    assert_eq!(0, chip8.v[0xF]);
}

#[test]
fn draw_of_a_full_row_at_the_right_edge() {
    let mut chip8 = machine_with_sprite(&[0xFF], 63, 5);
    chip8.draw(1, 2, 1);
    assert_eq!(0xFE, chip8.memory[DISPLAY + 5 * 8]);
    assert_eq!(0x01, chip8.memory[DISPLAY + 5 * 8 + 7]);
    assert_eq!(8, lit_pixels(&chip8).len());
    assert!(lit(&chip8, 6, 5));
    assert!(!lit(&chip8, 7, 5));
}

#[test]
fn draw_wraps_at_the_bottom_edge() {
    let mut chip8 = machine_with_sprite(&[0x80, 0x40, 0x20], 0, 31);
    chip8.draw(1, 2, 3);
    assert_eq!(vec![(1, 0), (2, 1), (0, 31)], lit_pixels(&chip8));
}

#[test]
fn draw_takes_coordinates_beyond_the_screen_modulo_its_size() {
    let mut chip8 = machine_with_sprite(&[0x80], 64 + 5, 32 + 3);
    chip8.draw(1, 2, 1);
    assert_eq!(vec![(5, 3)], lit_pixels(&chip8));
    let mut chip8 = machine_with_sprite(&[0x80], 255, 255);
    chip8.draw(1, 2, 1);
    assert_eq!(vec![(63, 31)], lit_pixels(&chip8));
}

#[test]
fn draw_reads_coordinates_from_the_flag_register_first() {
    let mut chip8 = machine_with_sprite(&[0x80], 0, 0);
    chip8.load(0xF, 9);
    chip8.draw(0xF, 0xF, 1);
    assert_eq!(vec![(9, 9)], lit_pixels(&chip8));
    assert_eq!(0, chip8.v[0xF]);
}

#[test]
fn draw_reads_a_sprite_around_the_end_of_memory() {
    let mut chip8 = Chip8::new();
    chip8.memory[0] = 0x18;
    chip8.load_i(4095);
    chip8.load(1, 0);
    chip8.load(2, 10);
    chip8.draw(1, 2, 2);
    assert_eq!(vec![(3, 11), (4, 11)], lit_pixels(&chip8));
}

#[test]
fn draw_reads_the_sprite_before_it_writes() {
    let mut chip8 = Chip8::new();
    chip8.memory[DISPLAY - 1] = 0xFF;
    chip8.memory[DISPLAY] = 0x0F;
    chip8.load_i(DISPLAY as u16 - 1);
    chip8.draw(1, 2, 2);
    assert_eq!(0xF0, chip8.memory[DISPLAY]);
    assert_eq!(0x0F, chip8.memory[DISPLAY + 8]);
    assert_eq!(1, chip8.v[0xF]);
}

#[test]
fn draw_the_glyph_of_three_end_to_end() {
    let mut chip8 = Chip8::new();
    chip8.load_fonts();
    chip8.load(0, 3);
    chip8.load_font(0);
    assert_eq!(15, chip8.i);
    chip8.load(1, 0);
    chip8.load(2, 0);
    chip8.load(0xF, 1);
    chip8.draw(1, 2, 5);
    let glyph = [0xF0, 0x10, 0xF0, 0x10, 0xF0];
    for row in 0..32 {
        for column in 0..8 {
            let expected = if column == 0 && row < 5 { glyph[row] } else { 0 };
            assert_eq!(expected, chip8.memory[DISPLAY + row * 8 + column]);
        }
    }
    assert_eq!(0, chip8.v[0xF]);
    assert!(chip8.should_draw);
}
