use chip8_emulator::chip8::Chip8;
use chip8_emulator::emu_utils::{display_render, display_text, draw_font_to_buffer};
use chip8_emulator::glyph::{determine_display_glyph, glyph_for, GLYPH_BLOCK, GLYPH_X};
use chip8_emulator::layout::DISPLAY;

fn lines(text: &[char]) -> Vec<String> {
    let text: String = text.iter().collect();
    assert!(text.ends_with('\n'));
    text[..text.len() - 1].split('\n').map(|line| line.to_string()).collect()
}

#[test]
fn display_render_of_a_blank_screen() {
    let chip8 = Chip8::new();
    let text = display_render(&chip8, false, '#');
    assert_eq!(33 * 65, text.len());
    let lines = lines(&text);
    assert_eq!(33, lines.len());
    for row in 0..32 {
        assert_eq!(" ".repeat(64), lines[row]);
    }
    assert_eq!("_".repeat(64), lines[32]);
}

#[test]
fn display_render_with_labels() {
    let mut chip8 = Chip8::new();
    chip8.screen_bit_write(0, 0, true);
    chip8.screen_bit_write(63, 9, true);
    chip8.screen_bit_write(10, 31, true);
    let text = display_render(&chip8, true, '#');
    assert_eq!(33 * 68, text.len());
    let lines = lines(&text);
    assert_eq!(33, lines.len());
    assert_eq!(format!("00:#{}", " ".repeat(63)), lines[0]);
    assert_eq!(format!("01:{}", " ".repeat(64)), lines[1]);
    assert_eq!(format!("09:{}#", " ".repeat(63)), lines[9]);
    assert_eq!(format!("10:{}", " ".repeat(64)), lines[10]);
    assert_eq!(format!("31:{}#{}", " ".repeat(10), " ".repeat(53)), lines[31]);
    assert_eq!(format!("   {}", "_".repeat(64)), lines[32]);
}

#[test]
fn display_render_shows_a_glyph() {
    let mut chip8 = Chip8::new();
    chip8.load_fonts();
    draw_font_to_buffer(&mut chip8, 0, 0, 1);
    let lines = lines(&display_render(&chip8, false, 'x'));
    let glyph = ["  x ", " xx ", "  x ", "  x ", " xxx"];
    for row in 0..5 {
        assert_eq!(format!("{}{}", glyph[row], " ".repeat(60)), lines[row]);
    }
    assert_eq!(" ".repeat(64), lines[5]);
}

#[test]
fn draw_font_to_buffer_uses_three_registers() {
    let mut chip8 = Chip8::new();
    chip8.load_fonts();
    draw_font_to_buffer(&mut chip8, 62, 12, 7);
    assert_eq!(62, chip8.v[0]);
    assert_eq!(12, chip8.v[1]);
    assert_eq!(7, chip8.v[2]);
    assert_eq!(35, chip8.i);
    assert_eq!(0, chip8.v[0xF]);
    assert!(chip8.should_draw);
    let row = |py: usize| (chip8.memory[DISPLAY + py * 8], chip8.memory[DISPLAY + py * 8 + 7]);
    assert_eq!((0x00, 0x00), row(11));
    assert_eq!((0xC0, 0x03), row(12));
    assert_eq!((0x40, 0x00), row(13));
    assert_eq!((0x80, 0x00), row(14));
    assert_eq!((0x00, 0x01), row(15));
    assert_eq!((0x00, 0x01), row(16));
    assert_eq!((0x00, 0x00), row(17));
}

#[test]
fn display_text_returns_four_frames() {
    let mut chip8 = Chip8::new();
    chip8.load_fonts();
    chip8.fill_screen();
    let frames = display_text(&mut chip8, '#');
    assert_eq!(4, frames.len());
    assert!(chip8.memory[DISPLAY..].iter().all(|byte| *byte == 0));

    let first = lines(&frames[0]);
    assert_eq!(format!("00:  # {}", " ".repeat(60)), first[0]);
    assert_eq!(format!("04: ###{}", " ".repeat(60)), first[4]);
    assert_eq!(format!("06:{}", " ".repeat(64)), first[6]);

    let second = lines(&frames[1]);
    assert_eq!(format!("00:  #     ####{}", " ".repeat(52)), second[0]);
    assert_eq!(format!("01: ##        #{}", " ".repeat(52)), second[1]);

    let third = lines(&frames[2]);
    assert_eq!(second[0], third[0]);
    assert_eq!(format!("06:####{}", " ".repeat(60)), third[6]);
    assert_eq!(format!("07:#   {}", " ".repeat(60)), third[7]);
    assert_eq!(format!("10:####{}", " ".repeat(60)), third[10]);

    let fourth = lines(&frames[3]);
    assert_eq!(third[6], fourth[6]);
    assert_eq!(format!("12:##{}##", " ".repeat(60)), fourth[12]);
    assert_eq!(format!("13: #{}", " ".repeat(62)), fourth[13]);
    assert_eq!(format!("14:#{}", " ".repeat(63)), fourth[14]);
    assert_eq!(format!("15:{}#", " ".repeat(63)), fourth[15]);
    assert_eq!(format!("16:{}#", " ".repeat(63)), fourth[16]);
    assert_eq!(format!("   {}", "_".repeat(64)), fourth[32]);
}

#[test]
fn glyph_override_wins() {
    assert_eq!('*', determine_display_glyph(Some('*'), "en_US.UTF-8".to_string()));
    assert_eq!('*', determine_display_glyph(Some('*'), "C".to_string()));
    assert_eq!('o', glyph_for(Some('o'), "utf-8"));
}

#[test]
fn glyph_follows_the_language_setting() {
    assert_eq!('\u{2588}', GLYPH_BLOCK);
    assert_eq!('x', GLYPH_X);
    assert_eq!(GLYPH_BLOCK, determine_display_glyph(None, "en_US.UTF-8".to_string()));
    assert_eq!(GLYPH_BLOCK, determine_display_glyph(None, "de_DE.utf-8".to_string()));
    assert_eq!(GLYPH_BLOCK, determine_display_glyph(None, "Utf-8".to_string()));
    assert_eq!(GLYPH_X, determine_display_glyph(None, "en_US.UTF8".to_string()));
    assert_eq!(GLYPH_X, determine_display_glyph(None, "C".to_string()));
    assert_eq!(GLYPH_X, determine_display_glyph(None, "".to_string()));
}

#[test]
fn glyph_for_takes_the_setting_as_it_is() {
    assert_eq!(GLYPH_BLOCK, glyph_for(None, "en_us.utf-8"));
    assert_eq!(GLYPH_X, glyph_for(None, "en_US.UTF-8"));
    assert_eq!(GLYPH_X, glyph_for(None, "utf-"));
    assert_eq!(GLYPH_X, glyph_for(None, ""));
}
