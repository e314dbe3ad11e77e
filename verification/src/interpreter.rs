//! The interpreter: the machine in executable form.

mod arith;
mod draw;
mod flow;
mod keys;
mod store;

use vstd::prelude::*;
use crate::display::PIXEL_ON;
use crate::font::{FONTSET, FONTSET_SIZE, FONTSET_START_ADDR};
use crate::instruction::{decode, Instruction};
use crate::model::{Fault, Machine, MEMORY_SIZE, START_ADDR};
use crate::random::random_byte;

verus! {

/// A program image does not fit between the start address and the end of
/// memory.
#[derive(Clone, Copy, Debug, PartialEq, Eq, Structural)]
pub struct LoadError {
    /// Length in bytes of the image that was refused.
    pub size: usize,
}

/// Largest program image that can be loaded, in bytes: what lies between the
/// start address and the end of memory.
pub const MAX_ROM_SIZE: usize = MEMORY_SIZE - 0x200;

/// The virtual machine.
pub struct Chip8 {
    registers: [u8; 16],
    memory: [u8; 4096],
    index: u16,
    pc: u16,
    stack: [u16; 16],
    sp: u8,
    delay_timer: u8,
    sound_timer: u8,
    keypad: [bool; 16],
    video: [u32; 2048],
}

impl View for Chip8 {
    type V = Machine;

    /// The abstract machine that this value stands for. A pixel is on where
    /// its screen cell holds [`PIXEL_ON`].
    closed spec fn view(&self) -> Machine {
        Machine {
            registers: self.registers@,
            memory: self.memory@,
            index: self.index,
            pc: self.pc,
            stack: self.stack@,
            sp: self.sp,
            delay_timer: self.delay_timer,
            sound_timer: self.sound_timer,
            keypad: self.keypad@,
            screen: Seq::new(2048, |k: int| self.video@[k] == PIXEL_ON),
        }
    }
}

impl Chip8 {
    /// Every screen cell is all ones or all zeros.
    pub closed spec fn cells_valid(&self) -> bool {
        forall|k: int| 0 <= k < 2048 ==> self.video@[k] == 0 || #[trigger] self.video@[k] == PIXEL_ON
    }

    /// The invariant of the machine: its abstract state is well formed and
    /// its screen cells are valid.
    pub open spec fn wf(&self) -> bool {
        &&& self@.wf()
        &&& self.cells_valid()
    }

    /// A machine in its initial state.
    pub fn new() -> (chip8: Chip8)
        ensures
            chip8.wf(),
            chip8@ == Machine::power_on(),
    {
        let mut memory: [u8; 4096] = [0; 4096];
        let mut i: usize = 0;
        while i < FONTSET_SIZE
            invariant
                i <= FONTSET_SIZE,
                forall|a: int|
                    0 <= a < 4096 ==> #[trigger] memory@[a] == if 0x50 <= a < 0x50 + i {
                        FONTSET@[a - 0x50]
                    } else {
                        0u8
                    },
            decreases FONTSET_SIZE - i,
        {
            memory[i + FONTSET_START_ADDR] = FONTSET[i];
            i += 1;
        }
        Chip8 {
            registers: [0; 16],
            memory,
            index: 0,
            pc: START_ADDR,
            stack: [0; 16],
            sp: 0,
            delay_timer: 0,
            sound_timer: 0,
            keypad: [false; 16],
            video: [0; 2048],
        }
    }

    /// Copies the program image `rom` into memory at the start address. An
    /// image of more than [`MAX_ROM_SIZE`] bytes is refused, and the machine is
    /// left as it was.
    pub fn load_rom(&mut self, rom: &[u8]) -> (result: Result<(), LoadError>)
        requires
            old(self).wf(),
        ensures
            final(self).wf(),
            rom@.len() <= MAX_ROM_SIZE ==> result == Ok::<(), LoadError>(()) && final(self)@
                == old(self)@.load(rom@),
            rom@.len() > MAX_ROM_SIZE ==> result == Err::<(), LoadError>(
                LoadError { size: rom@.len() as usize },
            ) && final(self)@ == old(self)@,
    {
        let size: usize = rom.len();
        if size > MAX_ROM_SIZE {
            return Err(LoadError { size });
        }
        let mut i: usize = 0;
        while i < size
            invariant
                i <= size <= MAX_ROM_SIZE,
                size == rom@.len(),
                self.wf(),
                self@ == old(self)@.load(rom@.take(i as int)),
            decreases size - i,
        {
            self.memory[i + START_ADDR as usize] = rom[i];
            i += 1;
        }
        assert(rom@.take(size as int) == rom@);
        Ok(())
    }

    /// Records that the key `key` went down or up. An index above 15 is
    /// clamped to 15.
    pub fn process_input(&mut self, key: u8, down: bool)
        requires
            old(self).wf(),
        ensures
            final(self).wf(),
            final(self)@ == old(self)@.set_key(key, down),
    {
        let k: usize = if key < 16 { key as usize } else { 15 };
        self.keypad[k] = down;
    }

    /// One tick of the timer unit: each timer that is not zero is
    /// decremented by one.
    pub fn tick_timers(&mut self)
        requires
            old(self).wf(),
        ensures
            final(self).wf(),
            final(self)@ == old(self)@.tick(),
    {
        if self.delay_timer > 0 {
            self.delay_timer -= 1;
        }
        if self.sound_timer > 0 {
            self.sound_timer -= 1;
        }
    }

    /// Reads the instruction word at the program counter, high byte first.
    fn fetch(&self) -> (result: Result<u16, Fault>)
        ensures
            result == self@.fetch(),
    {
        let pc: usize = self.pc as usize;
        if pc + 1 >= 4096 {
            return Err(Fault::MemoryAccessError);
        }
        let high: u8 = self.memory[pc];
        let low: u8 = self.memory[pc + 1];
        assert(((high as u16) << 8) | (low as u16) == high * 0x100 + low) by (bit_vector);
        Ok(((high as u16) << 8) | (low as u16))
    }

    /// Executes the instruction `ins`, the program counter standing behind it
    /// already. `random` is the byte drawn for it.
    fn execute(&mut self, ins: Instruction, random: u8) -> (result: Result<(), Fault>)
        requires
            old(self).wf(),
            ins.wf(),
        ensures
            final(self).wf(),
            old(self)@.leads_to(old(self)@.execute(ins, random), result, final(self)@),
    {
        match ins {
            Instruction::Unknown => {
                self.op_null();
                Ok(())
            },
            Instruction::ClearScreen => {
                self.op_00e0();
                Ok(())
            },
            Instruction::Return => self.op_00ee(),
            Instruction::Jump { addr } => {
                self.op_1nnn(addr);
                Ok(())
            },
            Instruction::Call { addr } => self.op_2nnn(addr),
            Instruction::SkipEqualByte { x, byte } => {
                self.op_3xkk(x, byte);
                Ok(())
            },
            Instruction::SkipNotEqualByte { x, byte } => {
                self.op_4xkk(x, byte);
                Ok(())
            },
            Instruction::SkipEqual { x, y } => {
                self.op_5xy0(x, y);
                Ok(())
            },
            Instruction::LoadByte { x, byte } => {
                self.op_6xkk(x, byte);
                Ok(())
            },
            Instruction::AddByte { x, byte } => {
                self.op_7xkk(x, byte);
                Ok(())
            },
            Instruction::Move { x, y } => {
                self.op_8xy0(x, y);
                Ok(())
            },
            Instruction::Or { x, y } => {
                self.op_8xy1(x, y);
                Ok(())
            },
            Instruction::And { x, y } => {
                self.op_8xy2(x, y);
                Ok(())
            },
            Instruction::Xor { x, y } => {
                self.op_8xy3(x, y);
                Ok(())
            },
            Instruction::AddCarry { x, y } => {
                self.op_8xy4(x, y);
                Ok(())
            },
            Instruction::Subtract { x, y } => {
                self.op_8xy5(x, y);
                Ok(())
            },
            Instruction::ShiftRight { x } => {
                self.op_8xy6(x);
                Ok(())
            },
            Instruction::SubtractReversed { x, y } => {
                self.op_8xy7(x, y);
                Ok(())
            },
            Instruction::ShiftLeft { x } => {
                self.op_8xye(x);
                Ok(())
            },
            Instruction::SkipNotEqual { x, y } => {
                self.op_9xy0(x, y);
                Ok(())
            },
            Instruction::LoadIndex { addr } => {
                self.op_annn(addr);
                Ok(())
            },
            Instruction::JumpOffset { addr } => {
                self.op_bnnn(addr);
                Ok(())
            },
            Instruction::Random { x, byte } => {
                self.op_cxkk(x, byte, random);
                Ok(())
            },
            Instruction::Draw { x, y, rows } => self.op_dxyn(x, y, rows),
            Instruction::SkipKeyDown { x } => {
                self.op_ex9e(x);
                Ok(())
            },
            Instruction::SkipKeyUp { x } => {
                self.op_ex91(x);
                Ok(())
            },
            Instruction::ReadDelay { x } => {
                self.op_fx07(x);
                Ok(())
            },
            Instruction::WaitKey { x } => {
                self.op_fx0a(x);
                Ok(())
            },
            Instruction::SetDelay { x } => {
                self.op_fx15(x);
                Ok(())
            },
            Instruction::SetSound { x } => {
                self.op_fx18(x);
                Ok(())
            },
            Instruction::AddIndex { x } => {
                self.op_fx1e(x);
                Ok(())
            },
            Instruction::Glyph { x } => {
                self.op_fx29(x);
                Ok(())
            },
            Instruction::StoreBcd { x } => self.op_fx33(x),
            Instruction::StoreRegisters { x } => self.op_fx55(x),
            Instruction::LoadRegisters { x } => self.op_fx65(x),
        }
    }

    /// Moves the program counter behind the instruction that was fetched and
    /// executes it. If the instruction faults, the program counter is put
    /// back.
    fn dispatch(&mut self, ins: Instruction, random: u8) -> (result: Result<(), Fault>)
        requires
            old(self).wf(),
            ins.wf(),
            old(self)@.pc + 1 < 4096,
        ensures
            final(self).wf(),
            old(self)@.leads_to(
                old(self)@.advance().execute(ins, random),
                result,
                final(self)@,
            ),
    {
        let resume: u16 = self.pc;
        self.pc = self.pc + 2;
        let result = self.execute(ins, random);
        if result.is_err() {
            self.pc = resume;
        }
        result
    }

    /// One cycle with the random byte given: fetches the instruction word at
    /// the program counter, moves the program counter behind it, decodes the
    /// word and executes the instruction. Only the random-and-mask
    /// instruction looks at `random`. The timers are left to
    /// [`Chip8::tick_timers`]. A fault leaves the machine as it was.
    pub fn cycle_with(&mut self, random: u8) -> (result: Result<(), Fault>)
        requires
            old(self).wf(),
        ensures
            final(self).wf(),
            old(self)@.leads_to(old(self)@.step(random), result, final(self)@),
    {
        match self.fetch() {
            Err(fault) => Err(fault),
            Ok(opcode) => self.dispatch(decode(opcode), random),
        }
    }

    /// One cycle: as [`Chip8::cycle_with`], with a fresh random byte drawn
    /// where the instruction is a random-and-mask. For every other
    /// instruction the outcome is determined.
    pub fn cycle(&mut self) -> (result: Result<(), Fault>)
        requires
            old(self).wf(),
        ensures
            final(self).wf(),
            exists|random: u8|
                old(self)@.leads_to(#[trigger] old(self)@.step(random), result, final(self)@),
            !old(self)@.draws_random() ==> forall|random: u8|
                old(self)@.leads_to(#[trigger] old(self)@.step(random), result, final(self)@),
    {
        match self.fetch() {
            Err(fault) => {
                assert(old(self)@.leads_to(old(self)@.step(0), Err(fault), self@));
                Err(fault)
            },
            Ok(opcode) => {
                let ins = decode(opcode);
                let random: u8 = match ins {
                    Instruction::Random { .. } => random_byte(),
                    _ => 0,
                };
                let result = self.dispatch(ins, random);
                proof {
                    let before = old(self)@;
                    assert(before.leads_to(before.step(random), result, self@));
                    if !before.draws_random() {
                        assert forall|other: u8|
                            before.leads_to(#[trigger] before.step(other), result, self@) by {
                            before.advance().lemma_execute_ignores_random(ins, random, other);
                        }
                    }
                }
                result
            },
        }
    }

    /// The general registers `V0` to `VF`.
    pub fn registers(&self) -> (registers: &[u8; 16])
        ensures
            registers@ == self@.registers,
    {
        &self.registers
    }

    /// The whole of memory.
    pub fn memory(&self) -> (memory: &[u8; 4096])
        ensures
            memory@ == self@.memory,
    {
        &self.memory
    }

    /// The index register `I`.
    pub fn index(&self) -> (index: u16)
        ensures
            index == self@.index,
    {
        self.index
    }

    /// The program counter.
    pub fn pc(&self) -> (pc: u16)
        ensures
            pc == self@.pc,
    {
        self.pc
    }

    /// The call stack; its first [`Chip8::sp`] entries are in use.
    pub fn stack(&self) -> (stack: &[u16; 16])
        ensures
            stack@ == self@.stack,
    {
        &self.stack
    }

    /// The number of return addresses on the call stack.
    pub fn sp(&self) -> (sp: u8)
        ensures
            sp == self@.sp,
    {
        self.sp
    }

    /// The delay timer.
    pub fn delay_timer(&self) -> (timer: u8)
        ensures
            timer == self@.delay_timer,
    {
        self.delay_timer
    }

    /// The sound timer.
    pub fn sound_timer(&self) -> (timer: u8)
        ensures
            timer == self@.sound_timer,
    {
        self.sound_timer
    }

    /// For each key, whether it is down.
    pub fn keypad(&self) -> (keypad: &[bool; 16])
        ensures
            keypad@ == self@.keypad,
    {
        &self.keypad
    }

    /// The screen as 2048 cells in row-major order, each [`PIXEL_ON`] for a
    /// pixel that is on and zero for one that is off.
    pub fn video(&self) -> (video: &[u32; 2048])
        requires
            self.wf(),
        ensures
            forall|k: int|
                0 <= k < 2048 ==> #[trigger] video@[k] == if self@.screen[k] {
                    PIXEL_ON
                } else {
                    0u32
                },
    {
        &self.video
    }
}

} // verus!
