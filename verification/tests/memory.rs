use chip8_emulator::chip8::Chip8;
use chip8_emulator::font::{FONT_SPRITES, FONT_TABLE_LEN};
use chip8_emulator::layout::{DATA, DISPLAY, MEMORY_SIZE};

#[test]
fn load_fonts_lays_out_the_glyphs() {
    let mut chip8 = Chip8::new();
    chip8.memory[80] = 0x77;
    chip8.load_fonts();
    for digit in 0..16 {
        for row in 0..5 {
            assert_eq!(FONT_SPRITES[digit][row], chip8.memory[digit * 5 + row]);
        }
    }
    assert_eq!([0xF0, 0x90, 0x90, 0x90, 0xF0], chip8.memory[0..5]);
    assert_eq!([0xF0, 0x10, 0xF0, 0x10, 0xF0], chip8.memory[15..20]);
    assert_eq!([0xF0, 0x80, 0xF0, 0x80, 0x80], chip8.memory[75..80]);
    assert_eq!(80, FONT_TABLE_LEN);
    assert_eq!(0x77, chip8.memory[80]);
    assert!(chip8.memory[81..].iter().all(|byte| *byte == 0));
}

#[test]
fn load_program_copies_to_the_program_area() {
    let mut chip8 = Chip8::new();
    chip8.load_fonts();
    let program = [0x60, 0x05, 0x61, 0x07, 0x80, 0x14];
    chip8.load_program(&program);
    assert_eq!(0x200, chip8.pc);
    assert_eq!(program, chip8.memory[DATA..DATA + 6]);
    assert_eq!(0, chip8.memory[DATA + 6]);
    assert_eq!(0xF0, chip8.memory[0]);
    assert_eq!(0, chip8.memory[DATA - 1]);
}

#[test]
fn load_program_of_the_largest_size() {
    let mut chip8 = Chip8::new();
    let program = vec![0xEE; MEMORY_SIZE - DATA];
    chip8.load_program(&program);
    assert!(chip8.memory[..DATA].iter().all(|byte| *byte == 0));
    assert!(chip8.memory[DATA..].iter().all(|byte| *byte == 0xEE));
    chip8.load_program(&[]);
    assert!(chip8.memory[DATA..].iter().all(|byte| *byte == 0xEE));
    assert_eq!(0x200, chip8.pc);
}

#[test]
fn load_i_and_add_i() {
    let mut chip8 = Chip8::new();
    chip8.load_i(0x123);
    assert_eq!(0x123, chip8.i);
    chip8.load(4, 0xFF);
    chip8.add_i(4);
    assert_eq!(0x222, chip8.i);
    chip8.load_i(0xFFFE);
    chip8.add_i(4);
    assert_eq!(0x00FD, chip8.i);
}

#[test]
fn load_font_points_at_the_glyph() {
    let mut chip8 = Chip8::new();
    for digit in 0..16u8 {
        chip8.load(1, digit);
        chip8.load_font(1);
        assert_eq!(5 * digit as u16, chip8.i);
    }
    chip8.load(1, 0x3A);
    chip8.load_font(1);
    assert_eq!(50, chip8.i);
}

#[test]
fn load_bcd_of_205() {
    let mut chip8 = Chip8::new();
    chip8.load(3, 205);
    chip8.load_i(0x300);
    chip8.load_bcd(3);
    assert_eq!([2, 0, 5], chip8.memory[0x300..0x303]);
    assert_eq!(0, chip8.memory[0x2FF]);
    assert_eq!(0, chip8.memory[0x303]);
    assert_eq!(0x300, chip8.i);
    assert_eq!(205, chip8.v[3]);
}

#[test]
fn load_bcd_of_all_bytes() {
    let mut chip8 = Chip8::new();
    chip8.load_i(0x400);
    for value in 0..=255u8 {
        chip8.load(0, value);
        chip8.load_bcd(0);
        assert_eq!(value / 100, chip8.memory[0x400]);
        assert_eq!(value / 10 % 10, chip8.memory[0x401]);
        assert_eq!(value % 10, chip8.memory[0x402]);
    }
}

#[test]
fn load_bcd_wraps_around_memory() {
    let mut chip8 = Chip8::new();
    chip8.load(3, 149);
    chip8.load_i(4095);
    chip8.load_bcd(3);
    assert_eq!(1, chip8.memory[4095]);
    assert_eq!(4, chip8.memory[0]);
    assert_eq!(9, chip8.memory[1]);
    let mut chip8 = Chip8::new();
    chip8.load(3, 149);
    chip8.load_i(0xFFFF);
    chip8.load_bcd(3);
    assert_eq!(1, chip8.memory[4095]);
    assert_eq!(4, chip8.memory[0]);
    assert_eq!(9, chip8.memory[1]);
}

#[test]
fn store_registers_copies_all_sixteen() {
    let mut chip8 = Chip8::new();
    for k in 0..16 {
        chip8.load(k, 0xA0 + k as u8);
    }
    chip8.load_i(0x320);
    chip8.store_registers();
    for k in 0..16 {
        assert_eq!(0xA0 + k as u8, chip8.memory[0x320 + k]);
    }
    assert_eq!(0, chip8.memory[0x31F]);
    assert_eq!(0, chip8.memory[0x330]);
    assert_eq!(0x320, chip8.i);
}

#[test]
fn recall_registers_reads_all_sixteen() {
    let mut chip8 = Chip8::new();
    for k in 0..16 {
        chip8.memory[0x500 + k] = 3 * k as u8 + 1;
    }
    chip8.load_i(0x500);
    chip8.recall_registers();
    for k in 0..16 {
        assert_eq!(3 * k as u8 + 1, chip8.v[k]);
    }
}

#[test]
fn store_then_recall_restores_registers() {
    let mut chip8 = Chip8::new();
    let values = [9, 8, 7, 6, 5, 4, 3, 2, 1, 0, 250, 251, 252, 253, 254, 255];
    for k in 0..16 {
        chip8.load(k, values[k]);
    }
    chip8.load_i(0x600);
    chip8.store_registers();
    for k in 0..16 {
        chip8.load(k, 0x55);
    }
    chip8.recall_registers();
    assert_eq!(values, chip8.v);
}

#[test]
fn store_and_recall_wrap_around_memory() {
    let mut chip8 = Chip8::new();
    for k in 0..16 {
        chip8.load(k, 0x10 + k as u8);
    }
    chip8.load_i(4090);
    chip8.store_registers();
    for k in 0..6 {
        assert_eq!(0x10 + k as u8, chip8.memory[4090 + k]);
    }
    for k in 6..16 {
        assert_eq!(0x10 + k as u8, chip8.memory[k - 6]);
    }
    let stored = chip8.v;
    for k in 0..16 {
        chip8.load(k, 0);
    }
    chip8.recall_registers();
    assert_eq!(stored, chip8.v);
}

#[test]
fn clear_and_fill_screen_touch_only_the_display() {
    let mut chip8 = Chip8::new();
    chip8.load_fonts();
    chip8.memory[DISPLAY - 1] = 0x42;
    chip8.fill_screen();
    assert!(chip8.memory[DISPLAY..].iter().all(|byte| *byte == 0xFF));
    assert_eq!(0x42, chip8.memory[DISPLAY - 1]);
    assert_eq!(0xF0, chip8.memory[0]);
    chip8.clear_screen();
    assert!(chip8.memory[DISPLAY..].iter().all(|byte| *byte == 0));
    assert_eq!(0x42, chip8.memory[DISPLAY - 1]);
    assert!(!chip8.should_draw);
}
