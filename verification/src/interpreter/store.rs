//! Timers, the index register and transfers between registers and memory.

use vstd::prelude::*;
use crate::font::FONTSET_START_ADDR;
use crate::interpreter::Chip8;
use crate::model::{Fault, Machine};

verus! {

impl Chip8 {
    /// Read delay timer: `Vx := delay timer`.
    pub(crate) fn op_fx07(&mut self, x: u8)
        requires
            old(self).wf(),
            x < 16,
        ensures
            final(self).wf(),
            final(self)@ == old(self)@.with_register(x, old(self)@.delay_timer),
    {
        self.registers[x as usize] = self.delay_timer;
    }

    /// Set delay timer: `delay timer := Vx`.
    pub(crate) fn op_fx15(&mut self, x: u8)
        requires
            old(self).wf(),
            x < 16,
        ensures
            final(self).wf(),
            final(self)@ == (Machine { delay_timer: old(self)@.reg(x), ..old(self)@ }),
    {
        self.delay_timer = self.registers[x as usize];
    }

    /// Set sound timer: `sound timer := Vx`.
    pub(crate) fn op_fx18(&mut self, x: u8)
        requires
            old(self).wf(),
            x < 16,
        ensures
            final(self).wf(),
            final(self)@ == (Machine { sound_timer: old(self)@.reg(x), ..old(self)@ }),
    {
        self.sound_timer = self.registers[x as usize];
    }

    /// Add to index: `I := I + Vx`, wrapping at sixteen bits.
    pub(crate) fn op_fx1e(&mut self, x: u8)
        requires
            old(self).wf(),
            x < 16,
        ensures
            final(self).wf(),
            final(self)@ == old(self)@.add_index(x),
    {
        self.index = self.index.wrapping_add(self.registers[x as usize] as u16);
    }

    /// Font character address: `I :=` the address of the glyph for `Vx`.
    pub(crate) fn op_fx29(&mut self, x: u8)
        requires
            old(self).wf(),
            x < 16,
        ensures
            final(self).wf(),
            final(self)@ == old(self)@.glyph(x),
    {
        self.index = FONTSET_START_ADDR as u16 + 5 * (self.registers[x as usize] as u16);
    }

    /// BCD store: the hundreds, tens and ones of `Vx` go to memory at `I`,
    /// `I + 1` and `I + 2`. If one of these lies outside memory, nothing is
    /// written.
    pub(crate) fn op_fx33(&mut self, x: u8) -> (result: Result<(), Fault>)
        requires
            old(self).wf(),
            x < 16,
        ensures
            final(self).wf(),
            old(self)@.leads_to(old(self)@.store_bcd(x), result, final(self)@),
    {
        let i: usize = self.index as usize;
        if i + 2 >= 4096 {
            return Err(Fault::MemoryAccessError);
        }
        let mut value: u8 = self.registers[x as usize];
        self.memory[i + 2] = value % 10;
        value /= 10;
        self.memory[i + 1] = value % 10;
        value /= 10;
        self.memory[i] = value % 10;
        Ok(())
    }

    /// Register dump: `V0..=Vx` go to memory at `I..=I + x`. If the range
    /// does not lie in memory, nothing is written.
    pub(crate) fn op_fx55(&mut self, x: u8) -> (result: Result<(), Fault>)
        requires
            old(self).wf(),
            x < 16,
        ensures
            final(self).wf(),
            old(self)@.leads_to(old(self)@.store_registers(x), result, final(self)@),
    {
        let base: usize = self.index as usize;
        if base + x as usize >= 4096 {
            return Err(Fault::MemoryAccessError);
        }
        let mut r: usize = 0;
        while r <= x as usize
            invariant
                r <= x + 1,
                x < 16,
                base == old(self)@.index,
                base + x < 4096,
                self.wf(),
                self@ == (Machine {
                    memory: Seq::new(
                        4096,
                        |a: int|
                            if base <= a < base + r {
                                old(self)@.registers[a - base]
                            } else {
                                old(self)@.memory[a]
                            },
                    ),
                    ..old(self)@
                }),
            decreases x + 1 - r,
        {
            self.memory[base + r] = self.registers[r];
            r += 1;
        }
        Ok(())
    }

    /// Register load: memory at `I..=I + x` goes to `V0..=Vx`. If the range
    /// does not lie in memory, nothing is read.
    pub(crate) fn op_fx65(&mut self, x: u8) -> (result: Result<(), Fault>)
        requires
            old(self).wf(),
            x < 16,
        ensures
            final(self).wf(),
            old(self)@.leads_to(old(self)@.load_registers(x), result, final(self)@),
    {
        let base: usize = self.index as usize;
        if base + x as usize >= 4096 {
            return Err(Fault::MemoryAccessError);
        }
        let mut r: usize = 0;
        while r <= x as usize
            invariant
                r <= x + 1,
                x < 16,
                base == old(self)@.index,
                base + x < 4096,
                self.wf(),
                self@ == (Machine {
                    registers: Seq::new(
                        16,
                        |k: int|
                            if k < r {
                                old(self)@.memory[base + k]
                            } else {
                                old(self)@.registers[k]
                            },
                    ),
                    ..old(self)@
                }),
            decreases x + 1 - r,
        {
            self.registers[r] = self.memory[base + r];
            r += 1;
        }
        Ok(())
    }
}

} // verus!
