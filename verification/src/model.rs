//! The machine as a mathematical value, and what each instruction does to it.
//!
//! [`Machine`] is the abstract state that the interpreter's contracts speak
//! of. Every instruction is a function from one machine to the next, or to
//! the [`Fault`] that stops it; [`Machine::step`] is one whole
//! fetch-decode-execute cycle.

use vstd::prelude::*;
use crate::display::{blank, collides, composite};
use crate::font::{glyph_address, FONTSET};
use crate::instruction::{decoded, Instruction};

verus! {

/// Number of addressable bytes.
pub const MEMORY_SIZE: usize = 4096;

/// Address at which a program is loaded and at which execution starts.
pub const START_ADDR: u16 = 0x200;

/// A condition that stops execution.
#[derive(Clone, Copy, Debug, PartialEq, Eq, Structural)]
pub enum Fault {
    /// A call was made with sixteen return addresses already on the stack.
    StackOverflow,
    /// A return was made with no return address on the stack.
    StackUnderflow,
    /// An instruction was to be fetched from, or was to read or write, an
    /// address outside memory.
    MemoryAccessError,
}

/// The value `i` reduced to eight bits.
pub open spec fn wrap8(i: int) -> u8 {
    (i % 0x100) as u8
}

/// The value `i` reduced to sixteen bits.
pub open spec fn wrap16(i: int) -> u16 {
    (i % 0x1_0000) as u16
}

/// The abstract state of the machine.
#[verifier::ext_equal]
pub struct Machine {
    /// The general registers `V0` to `VF`.
    pub registers: Seq<u8>,
    /// The 4096 bytes of memory.
    pub memory: Seq<u8>,
    /// The index register `I`.
    pub index: u16,
    /// The program counter.
    pub pc: u16,
    /// The call stack; the entries below `sp` are in use.
    pub stack: Seq<u16>,
    /// The number of return addresses on the call stack.
    pub sp: u8,
    /// The delay timer.
    pub delay_timer: u8,
    /// The sound timer.
    pub sound_timer: u8,
    /// For each of the sixteen keys, whether it is down.
    pub keypad: Seq<bool>,
    /// For each of the 2048 pixels in row-major order, whether it is on.
    pub screen: Seq<bool>,
}

impl Machine {
    /// The shape that every machine state has.
    pub open spec fn wf(self) -> bool {
        &&& self.registers.len() == 16
        &&& self.memory.len() == 4096
        &&& self.stack.len() == 16
        &&& self.sp <= 16
        &&& self.keypad.len() == 16
        &&& self.screen.len() == 2048
    }

    /// The machine as it is constructed: everything zero, but for the glyph
    /// set in memory and the program counter at the start address.
    pub open spec fn power_on() -> Machine {
        Machine {
            registers: Seq::new(16, |i: int| 0u8),
            memory: Seq::new(
                4096,
                |a: int| if 0x50 <= a < 0xA0 { FONTSET@[a - 0x50] } else { 0u8 },
            ),
            index: 0,
            pc: 0x200,
            stack: Seq::new(16, |i: int| 0u16),
            sp: 0,
            delay_timer: 0,
            sound_timer: 0,
            keypad: Seq::new(16, |i: int| false),
            screen: blank(),
        }
    }

    /// The machine with the program image `rom` copied to the start address.
    pub open spec fn load(self, rom: Seq<u8>) -> Machine {
        Machine {
            memory: Seq::new(
                4096,
                |a: int| if 0x200 <= a < 0x200 + rom.len() { rom[a - 0x200] } else { self.memory[a] },
            ),
            ..self
        }
    }

    /// The machine with the key `key` set down or up. An index above 15 is
    /// clamped to 15.
    pub open spec fn set_key(self, key: u8, down: bool) -> Machine {
        let k: int = if key < 16 { key as int } else { 15 };
        Machine { keypad: self.keypad.update(k, down), ..self }
    }

    /// The machine after one tick of the timer unit: each timer that is not
    /// zero is one less.
    pub open spec fn tick(self) -> Machine {
        Machine {
            delay_timer: if self.delay_timer > 0 { (self.delay_timer - 1) as u8 } else { 0 },
            sound_timer: if self.sound_timer > 0 { (self.sound_timer - 1) as u8 } else { 0 },
            ..self
        }
    }

    /// The value of the register `Vx`.
    pub open spec fn reg(self, x: u8) -> u8 {
        self.registers[x as int]
    }

    /// The machine with `value` in the register `Vx`.
    pub open spec fn with_register(self, x: u8, value: u8) -> Machine {
        Machine { registers: self.registers.update(x as int, value), ..self }
    }

    /// The machine with the flag register `VF` set to 1 or 0.
    pub open spec fn with_flag(self, flag: bool) -> Machine {
        self.with_register(0xF, if flag { 1u8 } else { 0u8 })
    }

    /// The machine with the program counter moved past one more instruction
    /// if `condition` holds.
    pub open spec fn skip_if(self, condition: bool) -> Machine {
        if condition {
            Machine { pc: wrap16(self.pc + 2), ..self }
        } else {
            self
        }
    }

    /// Whether the key `key` is down. An index above 15 names no key, and a
    /// key that does not exist is never down.
    pub open spec fn key_down(self, key: u8) -> bool {
        key < 16 && self.keypad[key as int]
    }

    /// Whether `key` is down and no key with a smaller index is.
    pub open spec fn is_lowest_key_down(self, key: u8) -> bool {
        &&& self.key_down(key)
        &&& forall|j: u8| j < key ==> !#[trigger] self.key_down(j)
    }

    /// The smallest index of a key that is down, if any key is.
    pub open spec fn lowest_key_down(self) -> Option<u8> {
        if exists|k: u8| #[trigger] self.key_down(k) {
            Some(choose|k: u8| self.is_lowest_key_down(k))
        } else {
            None
        }
    }

    /// Whether an operation that was to turn this machine into `expected`
    /// ended as it should: with success and the machine `after` being the
    /// expected one, or with the expected fault and the machine unchanged.
    pub open spec fn leads_to(
        self,
        expected: Result<Machine, Fault>,
        result: Result<(), Fault>,
        after: Machine,
    ) -> bool {
        match expected {
            Ok(next) => result == Ok::<(), Fault>(()) && after =~= next,
            Err(fault) => result == Err::<(), Fault>(fault) && after =~= self,
        }
    }

    /// A key that is down, with no key below it down, is the lowest key
    /// that is down.
    pub proof fn lemma_lowest_key_down(self, key: u8)
        requires
            self.is_lowest_key_down(key),
        ensures
            self.lowest_key_down() == Some(key),
    {
        assert(self.key_down(key));
        let found = choose|k: u8| self.is_lowest_key_down(k);
        assert(self.is_lowest_key_down(found));
        assert(self.key_down(found));
    }

    /// The `rows` bytes of memory at `I`, read as a sprite.
    pub open spec fn sprite(self, rows: u8) -> Seq<u8> {
        Seq::new(rows as nat, |r: int| self.memory[self.index + r])
    }

    /// Clear display.
    pub open spec fn clear_screen(self) -> Machine {
        Machine { screen: blank(), ..self }
    }

    /// Return: the newest return address becomes the program counter.
    pub open spec fn ret(self) -> Result<Machine, Fault> {
        if self.sp == 0 {
            Err(Fault::StackUnderflow)
        } else {
            Ok(Machine { sp: (self.sp - 1) as u8, pc: self.stack[self.sp - 1], ..self })
        }
    }

    /// Jump.
    pub open spec fn jump(self, addr: u16) -> Machine {
        Machine { pc: addr, ..self }
    }

    /// Call: the program counter is pushed, then replaced.
    pub open spec fn call(self, addr: u16) -> Result<Machine, Fault> {
        if self.sp >= 16 {
            Err(Fault::StackOverflow)
        } else {
            Ok(
                Machine {
                    stack: self.stack.update(self.sp as int, self.pc),
                    sp: (self.sp + 1) as u8,
                    pc: addr,
                    ..self
                },
            )
        }
    }

    /// Jump with offset.
    pub open spec fn jump_offset(self, addr: u16) -> Machine {
        Machine { pc: wrap16(addr + self.reg(0)), ..self }
    }

    /// Add immediate.
    pub open spec fn add_byte(self, x: u8, byte: u8) -> Machine {
        self.with_register(x, wrap8(self.reg(x) + byte))
    }

    /// Add with carry. The sum is taken first, then the carry is written to
    /// `VF`, then the low eight bits of the sum to `Vx`.
    pub open spec fn add_carry(self, x: u8, y: u8) -> Machine {
        let sum = self.reg(x) + self.reg(y);
        self.with_flag(sum > 255).with_register(x, wrap8(sum))
    }

    /// Subtract. `VF` is written first, and the difference is taken of the
    /// registers as they are then.
    pub open spec fn subtract(self, x: u8, y: u8) -> Machine {
        let flagged = self.with_flag(self.reg(x) > self.reg(y));
        flagged.with_register(x, wrap8(flagged.reg(x) - flagged.reg(y)))
    }

    /// Subtract reversed. `VF` is written first, and the difference is taken
    /// of the registers as they are then.
    pub open spec fn subtract_reversed(self, x: u8, y: u8) -> Machine {
        let flagged = self.with_flag(self.reg(y) > self.reg(x));
        flagged.with_register(x, wrap8(flagged.reg(y) - flagged.reg(x)))
    }

    /// Shift right. `VF` receives the lowest bit first, and `Vx` is halved as
    /// it is then.
    pub open spec fn shift_right(self, x: u8) -> Machine {
        let flagged = self.with_register(0xF, (self.reg(x) % 2) as u8);
        flagged.with_register(x, (flagged.reg(x) / 2) as u8)
    }

    /// Shift left. `VF` receives the highest bit first, and `Vx` is doubled as
    /// it is then.
    pub open spec fn shift_left(self, x: u8) -> Machine {
        let flagged = self.with_register(0xF, (self.reg(x) / 128) as u8);
        flagged.with_register(x, wrap8(flagged.reg(x) * 2))
    }

    /// Random AND mask, for the random byte `random`.
    pub open spec fn random_mask(self, x: u8, byte: u8, random: u8) -> Machine {
        self.with_register(x, wrap8(self.reg(x) + (random & byte)))
    }

    /// Draw. The origin is read from `Vx` and `Vy` and wrapped onto the
    /// screen, then the sprite at `I` is composited and `VF` tells whether a
    /// pixel went off. Reading a sprite row outside memory is a fault.
    pub open spec fn draw(self, x: u8, y: u8, rows: u8) -> Result<Machine, Fault> {
        if rows > 0 && self.index + rows > 4096 {
            Err(Fault::MemoryAccessError)
        } else {
            let x0 = self.reg(x) as int % 64;
            let y0 = self.reg(y) as int % 32;
            let sprite = self.sprite(rows);
            Ok(
                Machine {
                    screen: composite(self.screen, sprite, x0, y0),
                    ..self.with_flag(collides(self.screen, sprite, x0, y0))
                },
            )
        }
    }

    /// Blocking key wait: with a key down, the smallest such index goes to
    /// `Vx`; with none, the program counter goes back to this instruction.
    pub open spec fn wait_key(self, x: u8) -> Machine {
        match self.lowest_key_down() {
            Some(key) => self.with_register(x, key),
            None => Machine { pc: wrap16(self.pc - 2), ..self },
        }
    }

    /// Add to index, at sixteen bits.
    pub open spec fn add_index(self, x: u8) -> Machine {
        Machine { index: wrap16(self.index + self.reg(x)), ..self }
    }

    /// Font character address.
    pub open spec fn glyph(self, x: u8) -> Machine {
        Machine { index: glyph_address(self.reg(x)) as u16, ..self }
    }

    /// BCD store: hundreds, tens and ones of `Vx` at `I`, `I + 1`, `I + 2`.
    pub open spec fn store_bcd(self, x: u8) -> Result<Machine, Fault> {
        if self.index + 2 >= 4096 {
            Err(Fault::MemoryAccessError)
        } else {
            let value = self.reg(x) as int;
            let i = self.index as int;
            Ok(
                Machine {
                    memory: self.memory.update(i, (value / 100) as u8).update(
                        i + 1,
                        ((value / 10) % 10) as u8,
                    ).update(i + 2, (value % 10) as u8),
                    ..self
                },
            )
        }
    }

    /// Register dump: `V0..=Vx` to memory at `I..=I + x`.
    pub open spec fn store_registers(self, x: u8) -> Result<Machine, Fault> {
        if self.index + x >= 4096 {
            Err(Fault::MemoryAccessError)
        } else {
            let i = self.index as int;
            Ok(
                Machine {
                    memory: Seq::new(
                        4096,
                        |a: int| if i <= a <= i + x { self.registers[a - i] } else { self.memory[a] },
                    ),
                    ..self
                },
            )
        }
    }

    /// Register load: memory at `I..=I + x` to `V0..=Vx`.
    pub open spec fn load_registers(self, x: u8) -> Result<Machine, Fault> {
        if self.index + x >= 4096 {
            Err(Fault::MemoryAccessError)
        } else {
            let i = self.index as int;
            Ok(
                Machine {
                    registers: Seq::new(
                        16,
                        |r: int| if r <= x { self.memory[i + r] } else { self.registers[r] },
                    ),
                    ..self
                },
            )
        }
    }

    /// What the instruction `ins` makes of the machine, the program counter
    /// standing behind the instruction already. `random` is the byte drawn
    /// for it; only [`Instruction::Random`] looks at it.
    pub open spec fn execute(self, ins: Instruction, random: u8) -> Result<Machine, Fault> {
        match ins {
            Instruction::Unknown => Ok(self),
            Instruction::ClearScreen => Ok(self.clear_screen()),
            Instruction::Return => self.ret(),
            Instruction::Jump { addr } => Ok(self.jump(addr)),
            Instruction::Call { addr } => self.call(addr),
            Instruction::SkipEqualByte { x, byte } => Ok(self.skip_if(self.reg(x) == byte)),
            Instruction::SkipNotEqualByte { x, byte } => Ok(self.skip_if(self.reg(x) != byte)),
            Instruction::SkipEqual { x, y } => Ok(self.skip_if(self.reg(x) == self.reg(y))),
            Instruction::LoadByte { x, byte } => Ok(self.with_register(x, byte)),
            Instruction::AddByte { x, byte } => Ok(self.add_byte(x, byte)),
            Instruction::Move { x, y } => Ok(self.with_register(x, self.reg(y))),
            Instruction::Or { x, y } => Ok(self.with_register(x, self.reg(x) | self.reg(y))),
            Instruction::And { x, y } => Ok(self.with_register(x, self.reg(x) & self.reg(y))),
            Instruction::Xor { x, y } => Ok(self.with_register(x, self.reg(x) ^ self.reg(y))),
            Instruction::AddCarry { x, y } => Ok(self.add_carry(x, y)),
            Instruction::Subtract { x, y } => Ok(self.subtract(x, y)),
            Instruction::ShiftRight { x } => Ok(self.shift_right(x)),
            Instruction::SubtractReversed { x, y } => Ok(self.subtract_reversed(x, y)),
            Instruction::ShiftLeft { x } => Ok(self.shift_left(x)),
            Instruction::SkipNotEqual { x, y } => Ok(self.skip_if(self.reg(x) != self.reg(y))),
            Instruction::LoadIndex { addr } => Ok(Machine { index: addr, ..self }),
            Instruction::JumpOffset { addr } => Ok(self.jump_offset(addr)),
            Instruction::Random { x, byte } => Ok(self.random_mask(x, byte, random)),
            Instruction::Draw { x, y, rows } => self.draw(x, y, rows),
            Instruction::SkipKeyDown { x } => Ok(self.skip_if(self.key_down(self.reg(x)))),
            Instruction::SkipKeyUp { x } => Ok(self.skip_if(!self.key_down(self.reg(x)))),
            Instruction::ReadDelay { x } => Ok(self.with_register(x, self.delay_timer)),
            Instruction::WaitKey { x } => Ok(self.wait_key(x)),
            Instruction::SetDelay { x } => Ok(Machine { delay_timer: self.reg(x), ..self }),
            Instruction::SetSound { x } => Ok(Machine { sound_timer: self.reg(x), ..self }),
            Instruction::AddIndex { x } => Ok(self.add_index(x)),
            Instruction::Glyph { x } => Ok(self.glyph(x)),
            Instruction::StoreBcd { x } => self.store_bcd(x),
            Instruction::StoreRegisters { x } => self.store_registers(x),
            Instruction::LoadRegisters { x } => self.load_registers(x),
        }
    }

    /// Only the random-and-mask instruction depends on the random byte.
    pub proof fn lemma_execute_ignores_random(self, ins: Instruction, r1: u8, r2: u8)
        requires
            !(ins is Random),
        ensures
            self.execute(ins, r1) == self.execute(ins, r2),
    {
    }

    /// The instruction word at the program counter, high byte first. Both of
    /// its bytes must lie in memory.
    pub open spec fn fetch(self) -> Result<u16, Fault> {
        if self.pc + 1 >= 4096 {
            Err(Fault::MemoryAccessError)
        } else {
            Ok((self.memory[self.pc as int] * 0x100 + self.memory[self.pc + 1]) as u16)
        }
    }

    /// Whether the instruction at the program counter is one that draws a
    /// random byte.
    pub open spec fn draws_random(self) -> bool {
        match self.fetch() {
            Ok(opcode) => decoded(opcode) is Random,
            Err(_) => false,
        }
    }

    /// The machine with the program counter moved behind the instruction
    /// that it points at.
    pub open spec fn advance(self) -> Machine {
        Machine { pc: (self.pc + 2) as u16, ..self }
    }

    /// Whether the instruction at the program counter sets the delay timer.
    pub open spec fn sets_delay_timer(self) -> bool {
        match self.fetch() {
            Ok(opcode) => decoded(opcode) is SetDelay,
            Err(_) => false,
        }
    }

    /// Whether the instruction at the program counter sets the sound timer.
    pub open spec fn sets_sound_timer(self) -> bool {
        match self.fetch() {
            Ok(opcode) => decoded(opcode) is SetSound,
            Err(_) => false,
        }
    }

    /// One cycle: fetch the word at the program counter, move the program
    /// counter behind it, decode the word and execute the instruction. The
    /// timers are not touched by a cycle as such.
    pub open spec fn step(self, random: u8) -> Result<Machine, Fault> {
        match self.fetch() {
            Err(fault) => Err(fault),
            Ok(opcode) => self.advance().execute(decoded(opcode), random),
        }
    }

    /// As many cycles as `randoms` has bytes, one after the other, the first
    /// drawing `randoms[0]`. The first fault ends the run.
    pub open spec fn run(self, randoms: Seq<u8>) -> Result<Machine, Fault>
        decreases randoms.len(),
    {
        if randoms.len() == 0 {
            Ok(self)
        } else {
            match self.step(randoms[0]) {
                Err(fault) => Err(fault),
                Ok(next) => next.run(randoms.drop_first()),
            }
        }
    }

    /// Whether none of the cycles of [`Machine::run`] executes an instruction
    /// that sets a timer.
    pub open spec fn runs_without_timer_store(self, randoms: Seq<u8>) -> bool
        decreases randoms.len(),
    {
        if randoms.len() == 0 {
            true
        } else {
            &&& !self.sets_delay_timer()
            &&& !self.sets_sound_timer()
            &&& match self.step(randoms[0]) {
                Err(_) => true,
                Ok(next) => next.runs_without_timer_store(randoms.drop_first()),
            }
        }
    }
}

} // verus!
