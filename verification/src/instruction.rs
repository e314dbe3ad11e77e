//! Instruction words and their decoding.
//!
//! An instruction is a 16-bit word. Its leading nibble selects a family; the
//! families `0`, `8` and `E` are resolved further by the trailing nibble and
//! the family `F` by the trailing byte. A word that no entry of the relevant
//! table covers decodes to [`Instruction::Unknown`], which does nothing.

use vstd::prelude::*;

verus! {

/// One decoded instruction. Register operands are indices `0..16`, addresses
/// are twelve bits wide.
#[derive(Clone, Copy, Debug, PartialEq, Eq, Structural)]
pub enum Instruction {
    /// A word without an assigned meaning; executing it changes nothing.
    Unknown,
    /// Turn every pixel off.
    ClearScreen,
    /// Pop the call stack into the program counter.
    Return,
    /// Continue at `addr`.
    Jump { addr: u16 },
    /// Push the program counter and continue at `addr`.
    Call { addr: u16 },
    /// Skip the next instruction if `Vx == byte`.
    SkipEqualByte { x: u8, byte: u8 },
    /// Skip the next instruction if `Vx != byte`.
    SkipNotEqualByte { x: u8, byte: u8 },
    /// Skip the next instruction if `Vx == Vy`.
    SkipEqual { x: u8, y: u8 },
    /// `Vx := byte`.
    LoadByte { x: u8, byte: u8 },
    /// `Vx := Vx + byte`, wrapping.
    AddByte { x: u8, byte: u8 },
    /// `Vx := Vy`.
    Move { x: u8, y: u8 },
    /// `Vx := Vx | Vy`.
    Or { x: u8, y: u8 },
    /// `Vx := Vx & Vy`.
    And { x: u8, y: u8 },
    /// `Vx := Vx ^ Vy`.
    Xor { x: u8, y: u8 },
    /// `Vx := Vx + Vy`, wrapping, with the carry in `VF`.
    AddCarry { x: u8, y: u8 },
    /// `Vx := Vx - Vy`, wrapping, with `VF` telling whether `Vx > Vy`.
    Subtract { x: u8, y: u8 },
    /// `Vx := Vx >> 1`, with the bit shifted out in `VF`.
    ShiftRight { x: u8 },
    /// `Vx := Vy - Vx`, wrapping, with `VF` telling whether `Vy > Vx`.
    SubtractReversed { x: u8, y: u8 },
    /// `Vx := Vx << 1`, with the bit shifted out in `VF`.
    ShiftLeft { x: u8 },
    /// Skip the next instruction if `Vx != Vy`.
    SkipNotEqual { x: u8, y: u8 },
    /// `I := addr`.
    LoadIndex { addr: u16 },
    /// Continue at `addr + V0`.
    JumpOffset { addr: u16 },
    /// `Vx := Vx + (random & byte)`, wrapping, for a freshly drawn random byte.
    Random { x: u8, byte: u8 },
    /// Composite the sprite of `rows` bytes at `I` onto the screen at `(Vx, Vy)`.
    Draw { x: u8, y: u8, rows: u8 },
    /// Skip the next instruction if the key `Vx` is down.
    SkipKeyDown { x: u8 },
    /// Skip the next instruction if the key `Vx` is up.
    SkipKeyUp { x: u8 },
    /// `Vx := delay timer`.
    ReadDelay { x: u8 },
    /// Store the index of a key that is down in `Vx`, or repeat this instruction.
    WaitKey { x: u8 },
    /// `delay timer := Vx`.
    SetDelay { x: u8 },
    /// `sound timer := Vx`.
    SetSound { x: u8 },
    /// `I := I + Vx`, wrapping.
    AddIndex { x: u8 },
    /// `I :=` the address of the glyph for the digit `Vx`.
    Glyph { x: u8 },
    /// Store the three decimal digits of `Vx` at `I`, `I + 1` and `I + 2`.
    StoreBcd { x: u8 },
    /// Store `V0..=Vx` at `I..=I + x`.
    StoreRegisters { x: u8 },
    /// Load `V0..=Vx` from `I..=I + x`.
    LoadRegisters { x: u8 },
}

/// Bits 15-12 of an instruction word: the family it belongs to.
pub open spec fn field_family(opcode: u16) -> int {
    opcode as int / 0x1000
}

/// Bits 11-8 of an instruction word: the first register operand.
pub open spec fn field_x(opcode: u16) -> u8 {
    ((opcode as int / 0x100) % 0x10) as u8
}

/// Bits 7-4 of an instruction word: the second register operand.
pub open spec fn field_y(opcode: u16) -> u8 {
    ((opcode as int / 0x10) % 0x10) as u8
}

/// Bits 3-0 of an instruction word.
pub open spec fn field_n(opcode: u16) -> u8 {
    (opcode as int % 0x10) as u8
}

/// Bits 7-0 of an instruction word: the immediate byte.
pub open spec fn field_kk(opcode: u16) -> u8 {
    (opcode as int % 0x100) as u8
}

/// Bits 11-0 of an instruction word: the address operand.
pub open spec fn field_nnn(opcode: u16) -> u16 {
    (opcode as int % 0x1000) as u16
}

/// Meaning of a word of family `0`, chosen by its trailing nibble.
pub open spec fn table_0(opcode: u16) -> Instruction {
    let n = field_n(opcode);
    if n == 0x0 {
        Instruction::ClearScreen
    } else if n == 0xE {
        Instruction::Return
    } else {
        Instruction::Unknown
    }
}

/// Meaning of a word of family `8`, chosen by its trailing nibble.
pub open spec fn table_8(opcode: u16) -> Instruction {
    let x = field_x(opcode);
    let y = field_y(opcode);
    let n = field_n(opcode);
    if n == 0x0 {
        Instruction::Move { x, y }
    } else if n == 0x1 {
        Instruction::Or { x, y }
    } else if n == 0x2 {
        Instruction::And { x, y }
    } else if n == 0x3 {
        Instruction::Xor { x, y }
    } else if n == 0x4 {
        Instruction::AddCarry { x, y }
    } else if n == 0x5 {
        Instruction::Subtract { x, y }
    } else if n == 0x6 {
        Instruction::ShiftRight { x }
    } else if n == 0x7 {
        Instruction::SubtractReversed { x, y }
    } else if n == 0xE {
        Instruction::ShiftLeft { x }
    } else {
        Instruction::Unknown
    }
}

/// Meaning of a word of family `E`, chosen by its trailing nibble.
pub open spec fn table_e(opcode: u16) -> Instruction {
    let x = field_x(opcode);
    let n = field_n(opcode);
    if n == 0x1 {
        Instruction::SkipKeyUp { x }
    } else if n == 0xE {
        Instruction::SkipKeyDown { x }
    } else {
        Instruction::Unknown
    }
}

/// Meaning of a word of family `F`, chosen by its trailing byte.
pub open spec fn table_f(opcode: u16) -> Instruction {
    let x = field_x(opcode);
    let kk = field_kk(opcode);
    if kk == 0x07 {
        Instruction::ReadDelay { x }
    } else if kk == 0x0A {
        Instruction::WaitKey { x }
    } else if kk == 0x15 {
        Instruction::SetDelay { x }
    } else if kk == 0x18 {
        Instruction::SetSound { x }
    } else if kk == 0x1E {
        Instruction::AddIndex { x }
    } else if kk == 0x29 {
        Instruction::Glyph { x }
    } else if kk == 0x33 {
        Instruction::StoreBcd { x }
    } else if kk == 0x55 {
        Instruction::StoreRegisters { x }
    } else if kk == 0x65 {
        Instruction::LoadRegisters { x }
    } else {
        Instruction::Unknown
    }
}

/// The instruction that the word `opcode` stands for.
pub open spec fn decoded(opcode: u16) -> Instruction {
    let family = field_family(opcode);
    let x = field_x(opcode);
    let y = field_y(opcode);
    let byte = field_kk(opcode);
    let addr = field_nnn(opcode);
    if family == 0x0 {
        table_0(opcode)
    } else if family == 0x1 {
        Instruction::Jump { addr }
    } else if family == 0x2 {
        Instruction::Call { addr }
    } else if family == 0x3 {
        Instruction::SkipEqualByte { x, byte }
    } else if family == 0x4 {
        Instruction::SkipNotEqualByte { x, byte }
    } else if family == 0x5 {
        Instruction::SkipEqual { x, y }
    } else if family == 0x6 {
        Instruction::LoadByte { x, byte }
    } else if family == 0x7 {
        Instruction::AddByte { x, byte }
    } else if family == 0x8 {
        table_8(opcode)
    } else if family == 0x9 {
        Instruction::SkipNotEqual { x, y }
    } else if family == 0xA {
        Instruction::LoadIndex { addr }
    } else if family == 0xB {
        Instruction::JumpOffset { addr }
    } else if family == 0xC {
        Instruction::Random { x, byte }
    } else if family == 0xD {
        Instruction::Draw { x, y, rows: field_n(opcode) }
    } else if family == 0xE {
        table_e(opcode)
    } else {
        table_f(opcode)
    }
}

impl Instruction {
    /// Every register operand names one of the sixteen registers, every
    /// address fits in twelve bits and a sprite has at most fifteen rows.
    pub open spec fn wf(self) -> bool {
        match self {
            Instruction::Unknown | Instruction::ClearScreen | Instruction::Return => true,
            Instruction::Jump { addr }
            | Instruction::Call { addr }
            | Instruction::LoadIndex { addr }
            | Instruction::JumpOffset { addr } => addr < 0x1000,
            Instruction::SkipEqualByte { x, .. }
            | Instruction::SkipNotEqualByte { x, .. }
            | Instruction::LoadByte { x, .. }
            | Instruction::AddByte { x, .. }
            | Instruction::Random { x, .. }
            | Instruction::ShiftRight { x }
            | Instruction::ShiftLeft { x }
            | Instruction::SkipKeyDown { x }
            | Instruction::SkipKeyUp { x }
            | Instruction::ReadDelay { x }
            | Instruction::WaitKey { x }
            | Instruction::SetDelay { x }
            | Instruction::SetSound { x }
            | Instruction::AddIndex { x }
            | Instruction::Glyph { x }
            | Instruction::StoreBcd { x }
            | Instruction::StoreRegisters { x }
            | Instruction::LoadRegisters { x } => x < 16,
            Instruction::SkipEqual { x, y }
            | Instruction::Move { x, y }
            | Instruction::Or { x, y }
            | Instruction::And { x, y }
            | Instruction::Xor { x, y }
            | Instruction::AddCarry { x, y }
            | Instruction::Subtract { x, y }
            | Instruction::SubtractReversed { x, y }
            | Instruction::SkipNotEqual { x, y } => x < 16 && y < 16,
            Instruction::Draw { x, y, rows } => x < 16 && y < 16 && rows < 16,
        }
    }
}

/// Whatever the word, its decoding is well formed.
pub proof fn lemma_decoded_wf(opcode: u16)
    ensures
        decoded(opcode).wf(),
{
}

fn operand_x(opcode: u16) -> (x: u8)
    ensures
        x == field_x(opcode),
        x < 16,
{
    assert((opcode & 0x0F00) >> 8 == (opcode / 0x100) % 0x10) by (bit_vector);
    ((opcode & 0x0F00) >> 8) as u8
}

fn operand_y(opcode: u16) -> (y: u8)
    ensures
        y == field_y(opcode),
        y < 16,
{
    assert((opcode & 0x00F0) >> 4 == (opcode / 0x10) % 0x10) by (bit_vector);
    ((opcode & 0x00F0) >> 4) as u8
}

fn operand_n(opcode: u16) -> (n: u8)
    ensures
        n == field_n(opcode),
        n < 16,
{
    assert(opcode & 0x000F == opcode % 0x10) by (bit_vector);
    (opcode & 0x000F) as u8
}

fn operand_kk(opcode: u16) -> (kk: u8)
    ensures
        kk == field_kk(opcode),
{
    assert(opcode & 0x00FF == opcode % 0x100) by (bit_vector);
    (opcode & 0x00FF) as u8
}

fn operand_nnn(opcode: u16) -> (nnn: u16)
    ensures
        nnn == field_nnn(opcode),
        nnn < 0x1000,
{
    assert(opcode & 0x0FFF == opcode % 0x1000) by (bit_vector);
    opcode & 0x0FFF
}

/// Second decoding stage for the family `0`.
fn op_table_0(opcode: u16) -> (ins: Instruction)
    ensures
        ins == table_0(opcode),
{
    match operand_n(opcode) {
        0x0 => Instruction::ClearScreen,
        0xE => Instruction::Return,
        _ => Instruction::Unknown,
    }
}

/// Second decoding stage for the family `8`.
fn op_table_8(opcode: u16) -> (ins: Instruction)
    ensures
        ins == table_8(opcode),
{
    let x = operand_x(opcode);
    let y = operand_y(opcode);
    match operand_n(opcode) {
        0x0 => Instruction::Move { x, y },
        0x1 => Instruction::Or { x, y },
        0x2 => Instruction::And { x, y },
        0x3 => Instruction::Xor { x, y },
        0x4 => Instruction::AddCarry { x, y },
        0x5 => Instruction::Subtract { x, y },
        0x6 => Instruction::ShiftRight { x },
        0x7 => Instruction::SubtractReversed { x, y },
        0xE => Instruction::ShiftLeft { x },
        _ => Instruction::Unknown,
    }
}

/// Second decoding stage for the family `E`.
fn op_table_e(opcode: u16) -> (ins: Instruction)
    ensures
        ins == table_e(opcode),
{
    let x = operand_x(opcode);
    match operand_n(opcode) {
        0x1 => Instruction::SkipKeyUp { x },
        0xE => Instruction::SkipKeyDown { x },
        _ => Instruction::Unknown,
    }
}

/// Second decoding stage for the family `F`.
fn op_table_f(opcode: u16) -> (ins: Instruction)
    ensures
        ins == table_f(opcode),
{
    let x = operand_x(opcode);
    match operand_kk(opcode) {
        0x07 => Instruction::ReadDelay { x },
        0x0A => Instruction::WaitKey { x },
        0x15 => Instruction::SetDelay { x },
        0x18 => Instruction::SetSound { x },
        0x1E => Instruction::AddIndex { x },
        0x29 => Instruction::Glyph { x },
        0x33 => Instruction::StoreBcd { x },
        0x55 => Instruction::StoreRegisters { x },
        0x65 => Instruction::LoadRegisters { x },
        _ => Instruction::Unknown,
    }
}

/// Decodes an instruction word.
pub fn decode(opcode: u16) -> (ins: Instruction)
    ensures
        ins == decoded(opcode),
        ins.wf(),
{
    assert(opcode >> 12 == opcode / 0x1000) by (bit_vector);
    let x = operand_x(opcode);
    let y = operand_y(opcode);
    let byte = operand_kk(opcode);
    let addr = operand_nnn(opcode);
    match opcode >> 12 {
        0x0 => op_table_0(opcode),
        0x1 => Instruction::Jump { addr },
        0x2 => Instruction::Call { addr },
        0x3 => Instruction::SkipEqualByte { x, byte },
        0x4 => Instruction::SkipNotEqualByte { x, byte },
        0x5 => Instruction::SkipEqual { x, y },
        0x6 => Instruction::LoadByte { x, byte },
        0x7 => Instruction::AddByte { x, byte },
        0x8 => op_table_8(opcode),
        0x9 => Instruction::SkipNotEqual { x, y },
        0xA => Instruction::LoadIndex { addr },
        0xB => Instruction::JumpOffset { addr },
        0xC => Instruction::Random { x, byte },
        0xD => Instruction::Draw { x, y, rows: operand_n(opcode) },
        0xE => op_table_e(opcode),
        _ => op_table_f(opcode),
    }
}

} // verus!
