use chip8_emulator::chip8::Chip8;

fn machine_with(x: usize, a: u8, y: usize, b: u8) -> Chip8 {
    let mut chip8 = Chip8::new();
    chip8.load(x, a);
    chip8.load(y, b);
    chip8
}

#[test]
fn load_sets_one_register() {
    let mut chip8 = Chip8::new();
    chip8.load(7, 0xAB);
    for k in 0..16 {
        assert_eq!(if k == 7 { 0xAB } else { 0 }, chip8.v[k]);
    }
}

#[test]
fn add_wraps_without_flag() {
    let mut chip8 = machine_with(4, 250, 0xF, 9);
    chip8.add(4, 10);
    assert_eq!(4, chip8.v[4]);
    assert_eq!(9, chip8.v[0xF]);
    chip8.add(4, 3);
    assert_eq!(7, chip8.v[4]);
}

#[test]
fn load_reg_copies() {
    let mut chip8 = machine_with(1, 17, 2, 99);
    chip8.load_reg(1, 2);
    assert_eq!(99, chip8.v[1]);
    assert_eq!(99, chip8.v[2]);
}

#[test]
fn or_and_xor() {
    let mut chip8 = machine_with(1, 0b1100_1010, 2, 0b1010_0110);
    chip8.or(1, 2);
    assert_eq!(0b1110_1110, chip8.v[1]);
    let mut chip8 = machine_with(1, 0b1100_1010, 2, 0b1010_0110);
    chip8.and(1, 2);
    assert_eq!(0b1000_0010, chip8.v[1]);
    let mut chip8 = machine_with(1, 0b1100_1010, 2, 0b1010_0110);
    chip8.xor(1, 2);
    assert_eq!(0b0110_1100, chip8.v[1]);
    assert_eq!(0b1010_0110, chip8.v[2]);
}

#[test]
fn add_with_carry_overflow_sets_flag() {
    let mut chip8 = machine_with(2, 250, 3, 20);
    chip8.add_with_carry(2, 3);
    assert_eq!(14, chip8.v[2]);
    assert_eq!(1, chip8.v[0xF]);
}

#[test]
fn add_with_carry_without_overflow_clears_flag() {
    let mut chip8 = machine_with(2, 200, 3, 55);
    chip8.load(0xF, 1);
    chip8.add_with_carry(2, 3);
    assert_eq!(255, chip8.v[2]);
    assert_eq!(0, chip8.v[0xF]);
}

#[test]
fn add_with_carry_for_all_bytes() {
    for a in 0..=255u16 {
        for b in 0..=255u16 {
            let mut chip8 = machine_with(5, a as u8, 6, b as u8);
            chip8.add_with_carry(5, 6);
            assert_eq!(((a + b) % 256) as u8, chip8.v[5]);
            assert_eq!(if a + b > 255 { 1 } else { 0 }, chip8.v[0xF]);
        }
    }
}

#[test]
fn add_with_carry_into_flag_register_keeps_flag() {
    let mut chip8 = machine_with(0xF, 200, 1, 100);
    chip8.add_with_carry(0xF, 1);
    assert_eq!(1, chip8.v[0xF]);
    let mut chip8 = machine_with(0xF, 20, 1, 100);
    chip8.add_with_carry(0xF, 1);
    assert_eq!(0, chip8.v[0xF]);
}

#[test]
fn add_with_carry_same_register_doubles() {
    let mut chip8 = machine_with(3, 0x90, 4, 0);
    chip8.add_with_carry(3, 3);
    assert_eq!(0x20, chip8.v[3]);
    assert_eq!(1, chip8.v[0xF]);
}

#[test]
fn sub_with_borrow_without_borrow_sets_flag() {
    let mut chip8 = machine_with(2, 5, 3, 3);
    chip8.sub_with_borrow(2, 3);
    assert_eq!(2, chip8.v[2]);
    assert_eq!(1, chip8.v[0xF]);
}

#[test]
fn sub_with_borrow_on_borrow_clears_flag() {
    let mut chip8 = machine_with(2, 3, 3, 5);
    chip8.load(0xF, 1);
    chip8.sub_with_borrow(2, 3);
    assert_eq!(254, chip8.v[2]);
    assert_eq!(0, chip8.v[0xF]);
}

#[test]
fn sub_with_borrow_of_equal_values() {
    let mut chip8 = machine_with(2, 77, 3, 77);
    chip8.sub_with_borrow(2, 3);
    assert_eq!(0, chip8.v[2]);
    assert_eq!(1, chip8.v[0xF]);
}

#[test]
fn sub_with_borrow_for_all_bytes() {
    for a in 0..=255i32 {
        for b in 0..=255i32 {
            let mut chip8 = machine_with(5, a as u8, 6, b as u8);
            chip8.sub_with_borrow(5, 6);
            assert_eq!((a - b).rem_euclid(256) as u8, chip8.v[5]);
            assert_eq!(if a < b { 0 } else { 1 }, chip8.v[0xF]);
        }
    }
}

#[test]
fn shr_moves_low_bit_to_flag() {
    let mut chip8 = machine_with(1, 0b1000_0101, 2, 0xFF);
    chip8.shr(1, 2);
    assert_eq!(0b0100_0010, chip8.v[1]);
    assert_eq!(1, chip8.v[0xF]);
    assert_eq!(0xFF, chip8.v[2]);
    chip8.shr(1, 2);
    assert_eq!(0b0010_0001, chip8.v[1]);
    assert_eq!(0, chip8.v[0xF]);
}

#[test]
fn shr_of_flag_register_leaves_the_bit() {
    let mut chip8 = machine_with(0xF, 0b0000_0111, 1, 0);
    chip8.shr(0xF, 1);
    assert_eq!(1, chip8.v[0xF]);
    let mut chip8 = machine_with(0xF, 0b0000_0110, 1, 0);
    chip8.shr(0xF, 1);
    assert_eq!(0, chip8.v[0xF]);
}

#[test]
fn subn_subtracts_the_other_way() {
    let mut chip8 = machine_with(1, 3, 2, 10);
    chip8.subn(1, 2);
    assert_eq!(7, chip8.v[1]);
    assert_eq!(1, chip8.v[0xF]);
    assert_eq!(10, chip8.v[2]);
}

#[test]
fn subn_wraps_and_clears_flag() {
    let mut chip8 = machine_with(1, 10, 2, 3);
    chip8.load(0xF, 1);
    chip8.subn(1, 2);
    assert_eq!(249, chip8.v[1]);
    assert_eq!(0, chip8.v[0xF]);
}

#[test]
fn subn_of_equal_values_clears_flag() {
    let mut chip8 = machine_with(1, 42, 2, 42);
    chip8.load(0xF, 1);
    chip8.subn(1, 2);
    assert_eq!(0, chip8.v[1]);
    assert_eq!(0, chip8.v[0xF]);
}

#[test]
fn shl_moves_high_bit_to_flag() {
    let mut chip8 = machine_with(1, 0b1100_0001, 2, 0);
    chip8.shl(1);
    assert_eq!(0b1000_0010, chip8.v[1]);
    assert_eq!(1, chip8.v[0xF]);
    let mut chip8 = machine_with(1, 0b0100_0001, 2, 0);
    chip8.load(0xF, 1);
    chip8.shl(1);
    assert_eq!(0b1000_0010, chip8.v[1]);
    assert_eq!(0, chip8.v[0xF]);
}

#[test]
fn timers_are_set_and_read() {
    let mut chip8 = machine_with(1, 60, 2, 30);
    chip8.set_delay_timer(1);
    chip8.set_sound_timer(2);
    assert_eq!(60, chip8.timer_delay);
    assert_eq!(30, chip8.timer_sound);
    chip8.load_delay_timer(5);
    assert_eq!(60, chip8.v[5]);
}

#[test]
fn rand_with_masks_the_byte() {
    let mut chip8 = Chip8::new();
    chip8.rand_with(3, 0x3C, 0xA5);
    assert_eq!(0x24, chip8.v[3]);
}

#[test]
fn rand_stays_within_the_mask() {
    let mut chip8 = Chip8::new();
    for _ in 0..200 {
        chip8.load(3, 0xFF);
        chip8.rand(3, 0x0F);
        assert_eq!(0, chip8.v[3] & 0xF0);
        chip8.load(4, 0xFF);
        chip8.rand(4, 0x00);
        assert_eq!(0, chip8.v[4]);
    }
}

#[test]
fn rand_draws_more_than_one_value() {
    let mut chip8 = Chip8::new();
    let mut seen = [false; 256];
    for _ in 0..2000 {
        chip8.rand(0, 0xFF);
        seen[chip8.v[0] as usize] = true;
    }
    let distinct = seen.iter().filter(|hit| **hit).count();
    assert!(distinct > 64);
}
