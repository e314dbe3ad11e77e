use chip8::interpreter::Chip8;

fn with_timers(delay: u8, sound: u8) -> Chip8 {
    // V0 := delay; V1 := sound; delay timer := V0; sound timer := V1; jump to self
    let mut chip8 = Chip8::new();
    chip8.load_rom(&[0x60, delay, 0x61, sound, 0xF0, 0x15, 0xF1, 0x18, 0x12, 0x08]).unwrap();
    for _ in 0..4 {
        chip8.cycle().unwrap();
    }
    chip8
}

#[test]
fn timer_instructions_set_and_read() {
    let mut chip8 = Chip8::new();
    // V0 := 0x33; delay := V0; sound := V0; V5 := delay
    chip8.load_rom(&[0x60, 0x33, 0xF0, 0x15, 0xF0, 0x18, 0xF5, 0x07]).unwrap();
    for _ in 0..4 {
        chip8.cycle().unwrap();
    }
    assert_eq!(chip8.delay_timer(), 0x33);
    assert_eq!(chip8.sound_timer(), 0x33);
    assert_eq!(chip8.registers()[0x5], 0x33);
}

#[test]
fn cycles_do_not_decrement_timers() {
    let mut chip8 = with_timers(10, 20);
    for _ in 0..100 {
        chip8.cycle().unwrap();
    }
    assert_eq!(chip8.delay_timer(), 10);
    assert_eq!(chip8.sound_timer(), 20);
}

#[test]
fn tick_decrements_each_nonzero_timer_by_one() {
    let mut chip8 = with_timers(10, 20);
    chip8.tick_timers();
    assert_eq!(chip8.delay_timer(), 9);
    assert_eq!(chip8.sound_timer(), 19);
    assert_eq!(chip8.pc(), 0x208);
}

#[test]
fn tick_never_goes_below_zero() {
    let mut chip8 = with_timers(1, 0);
    chip8.tick_timers();
    assert_eq!(chip8.delay_timer(), 0);
    assert_eq!(chip8.sound_timer(), 0);
    chip8.tick_timers();
    assert_eq!(chip8.delay_timer(), 0);
    assert_eq!(chip8.sound_timer(), 0);
}

#[test]
fn tick_leaves_the_rest_of_the_machine_alone() {
    let mut chip8 = with_timers(255, 2);
    let registers = *chip8.registers();
    let memory = *chip8.memory();
    for _ in 0..3 {
        chip8.tick_timers();
    }
    assert_eq!(chip8.delay_timer(), 252);
    assert_eq!(chip8.sound_timer(), 0);
    assert_eq!(*chip8.registers(), registers);
    assert_eq!(*chip8.memory(), memory);
    assert_eq!(chip8.pc(), 0x208);
}
