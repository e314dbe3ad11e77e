use chip8::font::{FONTSET, FONTSET_SIZE, FONTSET_START_ADDR};
use chip8::interpreter::{Chip8, LoadError, MAX_ROM_SIZE};
use chip8::model::{Fault, MEMORY_SIZE, START_ADDR};

fn loaded(rom: &[u8]) -> Chip8 {
    let mut chip8 = Chip8::new();
    chip8.load_rom(rom).unwrap();
    chip8
}

#[test]
fn new_machine_is_zeroed_but_for_glyphs_and_pc() {
    let chip8 = Chip8::new();
    assert_eq!(chip8.pc(), 0x200);
    assert_eq!(chip8.pc(), START_ADDR);
    assert_eq!(chip8.index(), 0);
    assert_eq!(chip8.sp(), 0);
    assert_eq!(chip8.delay_timer(), 0);
    assert_eq!(chip8.sound_timer(), 0);
    assert_eq!(*chip8.registers(), [0u8; 16]);
    assert_eq!(*chip8.stack(), [0u16; 16]);
    assert_eq!(*chip8.keypad(), [false; 16]);
    assert!(chip8.video().iter().all(|cell| *cell == 0));
    assert_eq!(chip8.memory().len(), MEMORY_SIZE);
    assert_eq!(FONTSET_START_ADDR, 0x50);
    assert_eq!(FONTSET_SIZE, 80);
    for (address, byte) in chip8.memory().iter().enumerate() {
        if (0x50..0xA0).contains(&address) {
            assert_eq!(*byte, FONTSET[address - 0x50]);
        } else {
            assert_eq!(*byte, 0);
        }
    }
    assert_eq!(chip8.memory()[0x50], 0xF0);
    assert_eq!(chip8.memory()[0x9F], 0x80);
}

#[test]
fn load_rom_copies_to_start_address() {
    let chip8 = loaded(&[0xDE, 0xAD, 0xBE, 0xEF]);
    let fresh = Chip8::new();
    assert_eq!(chip8.memory()[0x200..0x204], [0xDE, 0xAD, 0xBE, 0xEF]);
    assert_eq!(chip8.memory()[..0x200], fresh.memory()[..0x200]);
    assert!(chip8.memory()[0x204..].iter().all(|byte| *byte == 0));
    assert_eq!(chip8.pc(), 0x200);
}

#[test]
fn load_rom_of_maximum_size_fills_memory_to_the_end() {
    let rom: Vec<u8> = vec![0x5A; 4096 - 0x200];
    assert_eq!(rom.len(), MAX_ROM_SIZE);
    let chip8 = loaded(&rom);
    assert!(chip8.memory()[0x200..].iter().all(|byte| *byte == 0x5A));
    assert_eq!(chip8.memory()[0x1FF], 0);
}

#[test]
fn load_rom_too_large_fails_and_leaves_memory_unmodified() {
    let mut chip8 = loaded(&[0x11, 0x22, 0x33]);
    let before = *chip8.memory();
    let rom: Vec<u8> = vec![0xFF; 4096 - 0x200 + 1];
    assert_eq!(chip8.load_rom(&rom), Err(LoadError { size: 3585 }));
    assert_eq!(*chip8.memory(), before);
    assert_eq!(chip8.pc(), 0x200);
}

#[test]
fn load_rom_of_empty_image_changes_nothing() {
    let mut chip8 = loaded(&[0x11, 0x22]);
    let before = *chip8.memory();
    assert_eq!(chip8.load_rom(&[]), Ok(()));
    assert_eq!(*chip8.memory(), before);
}

#[test]
fn load_rom_keeps_bytes_behind_a_shorter_image() {
    let mut chip8 = loaded(&[0x11, 0x22, 0x33]);
    chip8.load_rom(&[0xAA]).unwrap();
    assert_eq!(chip8.memory()[0x200..0x203], [0xAA, 0x22, 0x33]);
}

#[test]
fn bcd_store_writes_three_digits() {
    // V0 := 234; I := 0x300; BCD
    let mut chip8 = loaded(&[0x60, 0xEA, 0xA3, 0x00, 0xF0, 0x33]);
    for _ in 0..3 {
        chip8.cycle().unwrap();
    }
    assert_eq!(chip8.memory()[0x300], 2);
    assert_eq!(chip8.memory()[0x301], 3);
    assert_eq!(chip8.memory()[0x302], 4);
    assert_eq!(chip8.index(), 0x300);
}

#[test]
fn bcd_store_of_small_and_large_values() {
    let mut chip8 = loaded(&[0x60, 0x07, 0xA3, 0x00, 0xF0, 0x33, 0x61, 0xFF, 0xA3, 0x10, 0xF1, 0x33]);
    for _ in 0..6 {
        chip8.cycle().unwrap();
    }
    assert_eq!(chip8.memory()[0x300..0x303], [0, 0, 7]);
    assert_eq!(chip8.memory()[0x310..0x313], [2, 5, 5]);
}

#[test]
fn bcd_store_beyond_memory_is_a_fault() {
    // I := 0xFFE: the ones digit would lie at 0x1000.
    let mut chip8 = loaded(&[0x60, 0xEA, 0xAF, 0xFE, 0xF0, 0x33]);
    chip8.cycle().unwrap();
    chip8.cycle().unwrap();
    let before = *chip8.memory();
    assert_eq!(chip8.cycle(), Err(Fault::MemoryAccessError));
    assert_eq!(*chip8.memory(), before);
    assert_eq!(chip8.pc(), 0x204);
}

#[test]
fn bcd_store_at_end_of_memory_succeeds() {
    let mut chip8 = loaded(&[0x60, 0x7B, 0xAF, 0xFD, 0xF0, 0x33]);
    for _ in 0..3 {
        chip8.cycle().unwrap();
    }
    assert_eq!(chip8.memory()[0xFFD..], [1, 2, 3]);
}

#[test]
fn register_dump_is_inclusive() {
    // V0 := 1; V1 := 2; V2 := 3; V3 := 4; I := 0x300; dump V0..=V2
    let mut chip8 = loaded(&[
        0x60, 0x01, 0x61, 0x02, 0x62, 0x03, 0x63, 0x04, 0xA3, 0x00, 0xF2, 0x55,
    ]);
    for _ in 0..6 {
        chip8.cycle().unwrap();
    }
    assert_eq!(chip8.memory()[0x300..0x304], [1, 2, 3, 0]);
    assert_eq!(chip8.index(), 0x300);
}

#[test]
fn register_dump_of_v0_alone() {
    let mut chip8 = loaded(&[0x60, 0x99, 0x61, 0x77, 0xA3, 0x00, 0xF0, 0x55]);
    for _ in 0..4 {
        chip8.cycle().unwrap();
    }
    assert_eq!(chip8.memory()[0x300..0x302], [0x99, 0]);
}

#[test]
fn register_load_is_inclusive() {
    // I := 0x206; load V0..=V2; data 9, 8, 7, 6
    let mut chip8 = loaded(&[0x63, 0x55, 0xA2, 0x06, 0xF2, 0x65, 0x09, 0x08, 0x07, 0x06]);
    for _ in 0..3 {
        chip8.cycle().unwrap();
    }
    assert_eq!(chip8.registers()[..4], [9, 8, 7, 0x55]);
    assert_eq!(chip8.index(), 0x206);
}

#[test]
fn register_dump_beyond_memory_is_a_fault() {
    // I := 0xFFE; dump V0..=V2 would write to 0x1000.
    let mut chip8 = loaded(&[0x60, 0x01, 0xAF, 0xFE, 0xF2, 0x55]);
    chip8.cycle().unwrap();
    chip8.cycle().unwrap();
    let before = *chip8.memory();
    assert_eq!(chip8.cycle(), Err(Fault::MemoryAccessError));
    assert_eq!(*chip8.memory(), before);
    let mut chip8 = loaded(&[0x60, 0x01, 0xAF, 0xFE, 0xF1, 0x55]);
    for _ in 0..3 {
        chip8.cycle().unwrap();
    }
    assert_eq!(chip8.memory()[0xFFE..], [1, 0]);
}

#[test]
fn register_load_beyond_memory_is_a_fault() {
    let mut chip8 = loaded(&[0x60, 0x42, 0xAF, 0xFF, 0xF1, 0x65]);
    chip8.cycle().unwrap();
    chip8.cycle().unwrap();
    assert_eq!(chip8.cycle(), Err(Fault::MemoryAccessError));
    assert_eq!(chip8.registers()[0], 0x42);
    assert_eq!(chip8.pc(), 0x204);
}

#[test]
fn set_index_and_add_to_index() {
    let mut chip8 = loaded(&[0xA1, 0x23, 0x60, 0xFF, 0xF0, 0x1E]);
    chip8.cycle().unwrap();
    assert_eq!(chip8.index(), 0x123);
    chip8.cycle().unwrap();
    chip8.cycle().unwrap();
    assert_eq!(chip8.index(), 0x222);
}

#[test]
fn font_character_address() {
    let mut chip8 = loaded(&[0x60, 0x0A, 0xF0, 0x29, 0x61, 0x00, 0xF1, 0x29]);
    chip8.cycle().unwrap();
    chip8.cycle().unwrap();
    assert_eq!(chip8.index(), 0x50 + 5 * 0xA);
    assert_eq!(chip8.memory()[chip8.index() as usize..][..5], [0xF0, 0x90, 0xF0, 0x90, 0x90]);
    chip8.cycle().unwrap();
    chip8.cycle().unwrap();
    assert_eq!(chip8.index(), 0x50);
}
