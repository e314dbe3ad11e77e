use chip8::instruction::{decode, Instruction};

#[test]
fn decode_family_zero_by_trailing_nibble() {
    assert_eq!(decode(0x00E0), Instruction::ClearScreen);
    assert_eq!(decode(0x00EE), Instruction::Return);
    assert_eq!(decode(0x0000), Instruction::ClearScreen);
    assert_eq!(decode(0x0ABE), Instruction::Return);
    assert_eq!(decode(0x00E1), Instruction::Unknown);
}

#[test]
fn decode_address_instructions() {
    assert_eq!(decode(0x1234), Instruction::Jump { addr: 0x234 });
    assert_eq!(decode(0x2FFF), Instruction::Call { addr: 0xFFF });
    assert_eq!(decode(0xA000), Instruction::LoadIndex { addr: 0x000 });
    assert_eq!(decode(0xB801), Instruction::JumpOffset { addr: 0x801 });
}

#[test]
fn decode_immediate_instructions() {
    assert_eq!(decode(0x3A42), Instruction::SkipEqualByte { x: 0xA, byte: 0x42 });
    assert_eq!(decode(0x4B00), Instruction::SkipNotEqualByte { x: 0xB, byte: 0x00 });
    assert_eq!(decode(0x6CFF), Instruction::LoadByte { x: 0xC, byte: 0xFF });
    assert_eq!(decode(0x7D01), Instruction::AddByte { x: 0xD, byte: 0x01 });
    assert_eq!(decode(0xCE0F), Instruction::Random { x: 0xE, byte: 0x0F });
}

#[test]
fn decode_register_pair_instructions() {
    assert_eq!(decode(0x5120), Instruction::SkipEqual { x: 1, y: 2 });
    assert_eq!(decode(0x5127), Instruction::SkipEqual { x: 1, y: 2 });
    assert_eq!(decode(0x9340), Instruction::SkipNotEqual { x: 3, y: 4 });
    assert_eq!(decode(0xD125), Instruction::Draw { x: 1, y: 2, rows: 5 });
}

#[test]
fn decode_family_eight_by_trailing_nibble() {
    assert_eq!(decode(0x8AB0), Instruction::Move { x: 0xA, y: 0xB });
    assert_eq!(decode(0x8AB1), Instruction::Or { x: 0xA, y: 0xB });
    assert_eq!(decode(0x8AB2), Instruction::And { x: 0xA, y: 0xB });
    assert_eq!(decode(0x8AB3), Instruction::Xor { x: 0xA, y: 0xB });
    assert_eq!(decode(0x8AB4), Instruction::AddCarry { x: 0xA, y: 0xB });
    assert_eq!(decode(0x8AB5), Instruction::Subtract { x: 0xA, y: 0xB });
    assert_eq!(decode(0x8AB6), Instruction::ShiftRight { x: 0xA });
    assert_eq!(decode(0x8AB7), Instruction::SubtractReversed { x: 0xA, y: 0xB });
    assert_eq!(decode(0x8ABE), Instruction::ShiftLeft { x: 0xA });
    for nibble in [0x8u16, 0x9, 0xA, 0xB, 0xC, 0xD, 0xF] {
        assert_eq!(decode(0x8AB0 | nibble), Instruction::Unknown);
    }
}

#[test]
fn decode_family_e_by_trailing_nibble() {
    assert_eq!(decode(0xE29E), Instruction::SkipKeyDown { x: 2 });
    assert_eq!(decode(0xE2A1), Instruction::SkipKeyUp { x: 2 });
    assert_eq!(decode(0xE20E), Instruction::SkipKeyDown { x: 2 });
    assert_eq!(decode(0xE292), Instruction::Unknown);
}

#[test]
fn decode_family_f_by_trailing_byte() {
    assert_eq!(decode(0xF307), Instruction::ReadDelay { x: 3 });
    assert_eq!(decode(0xF30A), Instruction::WaitKey { x: 3 });
    assert_eq!(decode(0xF315), Instruction::SetDelay { x: 3 });
    assert_eq!(decode(0xF318), Instruction::SetSound { x: 3 });
    assert_eq!(decode(0xF31E), Instruction::AddIndex { x: 3 });
    assert_eq!(decode(0xF329), Instruction::Glyph { x: 3 });
    assert_eq!(decode(0xF333), Instruction::StoreBcd { x: 3 });
    assert_eq!(decode(0xF355), Instruction::StoreRegisters { x: 3 });
    assert_eq!(decode(0xF365), Instruction::LoadRegisters { x: 3 });
    assert_eq!(decode(0xF300), Instruction::Unknown);
    assert_eq!(decode(0xF3FF), Instruction::Unknown);
    assert_eq!(decode(0xF317), Instruction::Unknown);
}

#[test]
fn decode_is_total() {
    let mut known: u32 = 0;
    for opcode in 0..=0xFFFFu16 {
        if decode(opcode) != Instruction::Unknown {
            known += 1;
        }
    }
    // Families 1-7, 9-D: all words; 0: 2 of 16 trailing nibbles; 8: 9 of 16;
    // E: 2 of 16; F: 9 of 256 trailing bytes.
    assert_eq!(known, 12 * 4096 + 2 * 256 + 9 * 256 + 2 * 256 + 9 * 16);
}
