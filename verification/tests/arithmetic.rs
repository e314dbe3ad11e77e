use chip8::interpreter::Chip8;

fn run_program(rom: &[u8], cycles: usize) -> Chip8 {
    let mut chip8 = Chip8::new();
    chip8.load_rom(rom).unwrap();
    for _ in 0..cycles {
        chip8.cycle().unwrap();
    }
    chip8
}

#[test]
fn add_with_carry_sets_flag_on_overflow() {
    // V0 := 0xFF; V1 := 0x01; V0 += V1
    let chip8 = run_program(&[0x60, 0xFF, 0x61, 0x01, 0x80, 0x14], 3);
    assert_eq!(chip8.registers()[0x0], 0x00);
    assert_eq!(chip8.registers()[0x1], 0x01);
    assert_eq!(chip8.registers()[0xF], 1);
}

#[test]
fn add_with_carry_clears_flag_without_overflow() {
    let chip8 = run_program(&[0x60, 0x12, 0x61, 0x34, 0x6F, 0x07, 0x80, 0x14], 4);
    assert_eq!(chip8.registers()[0x0], 0x46);
    assert_eq!(chip8.registers()[0xF], 0);
}

#[test]
fn add_with_carry_into_flag_register_keeps_the_sum() {
    // VF := 0xF0; V1 := 0x20; VF += V1: the sum is written after the carry.
    let chip8 = run_program(&[0x6F, 0xF0, 0x61, 0x20, 0x8F, 0x14], 3);
    assert_eq!(chip8.registers()[0xF], 0x10);
}

#[test]
fn subtract_sets_flag_to_zero_on_borrow() {
    // V0 := 0x05; V1 := 0x0A; V0 -= V1
    let chip8 = run_program(&[0x60, 0x05, 0x61, 0x0A, 0x80, 0x15], 3);
    assert_eq!(chip8.registers()[0x0], 0xFB);
    assert_eq!(chip8.registers()[0xF], 0);
}

#[test]
fn subtract_sets_flag_when_greater() {
    let chip8 = run_program(&[0x60, 0x0A, 0x61, 0x05, 0x80, 0x15], 3);
    assert_eq!(chip8.registers()[0x0], 0x05);
    assert_eq!(chip8.registers()[0xF], 1);
}

#[test]
fn subtract_of_equal_values_clears_flag() {
    let chip8 = run_program(&[0x60, 0x07, 0x61, 0x07, 0x6F, 0x01, 0x80, 0x15], 4);
    assert_eq!(chip8.registers()[0x0], 0x00);
    assert_eq!(chip8.registers()[0xF], 0);
}

#[test]
fn subtract_with_flag_register_as_operand_uses_the_new_flag() {
    // V0 := 9; VF := 3; V0 -= VF: VF becomes 1 first, then V0 := 9 - 1.
    let chip8 = run_program(&[0x60, 0x09, 0x6F, 0x03, 0x80, 0xF5], 3);
    assert_eq!(chip8.registers()[0x0], 0x08);
    assert_eq!(chip8.registers()[0xF], 1);
}

#[test]
fn subtract_reversed_computes_vy_minus_vx() {
    let chip8 = run_program(&[0x60, 0x05, 0x61, 0x0A, 0x80, 0x17], 3);
    assert_eq!(chip8.registers()[0x0], 0x05);
    assert_eq!(chip8.registers()[0xF], 1);
}

#[test]
fn subtract_reversed_wraps_on_borrow() {
    let chip8 = run_program(&[0x60, 0x0A, 0x61, 0x05, 0x80, 0x17], 3);
    assert_eq!(chip8.registers()[0x0], 0xFB);
    assert_eq!(chip8.registers()[0xF], 0);
}

#[test]
fn load_and_add_immediate_wrap() {
    let chip8 = run_program(&[0x63, 0xFE, 0x73, 0x05], 2);
    assert_eq!(chip8.registers()[0x3], 0x03);
    assert_eq!(chip8.registers()[0xF], 0);
}

#[test]
fn assign_copies_register() {
    let chip8 = run_program(&[0x60, 0x11, 0x61, 0x22, 0x80, 0x10], 3);
    assert_eq!(chip8.registers()[0x0], 0x22);
    assert_eq!(chip8.registers()[0x1], 0x22);
}

#[test]
fn bitwise_or_and_xor() {
    let chip8 = run_program(
        &[
            0x60, 0xCC, 0x61, 0xAA, 0x62, 0xCC, 0x63, 0xCC, 0x80, 0x11, 0x82, 0x12, 0x83, 0x13,
        ],
        7,
    );
    assert_eq!(chip8.registers()[0x0], 0xEE);
    assert_eq!(chip8.registers()[0x2], 0x88);
    assert_eq!(chip8.registers()[0x3], 0x66);
}

#[test]
fn shift_right_moves_low_bit_to_flag() {
    let chip8 = run_program(&[0x60, 0x05, 0x80, 0x06], 2);
    assert_eq!(chip8.registers()[0x0], 0x02);
    assert_eq!(chip8.registers()[0xF], 1);
}

#[test]
fn shift_right_of_even_value_clears_flag() {
    let chip8 = run_program(&[0x60, 0x04, 0x6F, 0x01, 0x80, 0x06], 3);
    assert_eq!(chip8.registers()[0x0], 0x02);
    assert_eq!(chip8.registers()[0xF], 0);
}

#[test]
fn shift_left_moves_high_bit_to_flag() {
    let chip8 = run_program(&[0x60, 0x81, 0x80, 0x0E], 2);
    assert_eq!(chip8.registers()[0x0], 0x02);
    assert_eq!(chip8.registers()[0xF], 1);
}

#[test]
fn shift_left_without_high_bit_clears_flag() {
    let chip8 = run_program(&[0x60, 0x41, 0x6F, 0x01, 0x80, 0x0E], 3);
    assert_eq!(chip8.registers()[0x0], 0x82);
    assert_eq!(chip8.registers()[0xF], 0);
}

#[test]
fn random_mask_adds_masked_byte() {
    let mut chip8 = Chip8::new();
    // V0 := 1; V0 += random & 0x0F
    chip8.load_rom(&[0x60, 0x01, 0xC0, 0x0F]).unwrap();
    chip8.cycle_with(0x00).unwrap();
    chip8.cycle_with(0xAB).unwrap();
    assert_eq!(chip8.registers()[0x0], 0x0C);
    assert_eq!(chip8.pc(), 0x204);
}

#[test]
fn random_mask_wraps() {
    let mut chip8 = Chip8::new();
    chip8.load_rom(&[0x60, 0xFF, 0xC0, 0xFF]).unwrap();
    chip8.cycle_with(0x00).unwrap();
    chip8.cycle_with(0x02).unwrap();
    assert_eq!(chip8.registers()[0x0], 0x01);
}

#[test]
fn random_mask_with_zero_mask_keeps_register() {
    // Whatever byte is drawn, masking with zero adds nothing.
    let chip8 = run_program(&[0x60, 0x2A, 0xC0, 0x00], 2);
    assert_eq!(chip8.registers()[0x0], 0x2A);
}

#[test]
fn random_mask_stays_within_mask() {
    let chip8 = run_program(&[0xC0, 0x0F], 1);
    assert!(chip8.registers()[0x0] <= 0x0F);
}

#[test]
fn other_instructions_ignore_the_random_byte() {
    let mut a = Chip8::new();
    let mut b = Chip8::new();
    let rom: [u8; 6] = [0x60, 0xFF, 0x61, 0x01, 0x80, 0x14];
    a.load_rom(&rom).unwrap();
    b.load_rom(&rom).unwrap();
    for _ in 0..3 {
        a.cycle_with(0x00).unwrap();
        b.cycle_with(0xFF).unwrap();
    }
    assert_eq!(a.registers(), b.registers());
    assert_eq!(a.pc(), b.pc());
}
