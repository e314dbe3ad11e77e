//! Control flow: clear screen, jumps, calls and skips.

use vstd::prelude::*;
use crate::interpreter::Chip8;
use crate::model::Fault;

verus! {

impl Chip8 {
    /// The handler of a word without an assigned meaning: nothing changes.
    pub(crate) fn op_null(&mut self)
        ensures
            *final(self) == *old(self),
    {
    }

    /// Clear display: every screen cell is zeroed.
    pub(crate) fn op_00e0(&mut self)
        requires
            old(self).wf(),
        ensures
            final(self).wf(),
            final(self)@ == old(self)@.clear_screen(),
    {
        self.video = [0; 2048];
    }

    /// Return: pops the newest return address into the program counter. With
    /// an empty stack this is a stack underflow.
    pub(crate) fn op_00ee(&mut self) -> (result: Result<(), Fault>)
        requires
            old(self).wf(),
        ensures
            final(self).wf(),
            old(self)@.leads_to(old(self)@.ret(), result, final(self)@),
    {
        if self.sp == 0 {
            return Err(Fault::StackUnderflow);
        }
        self.sp -= 1;
        self.pc = self.stack[self.sp as usize];
        Ok(())
    }

    /// Jump: `PC := addr`.
    pub(crate) fn op_1nnn(&mut self, addr: u16)
        requires
            old(self).wf(),
        ensures
            final(self).wf(),
            final(self)@ == old(self)@.jump(addr),
    {
        self.pc = addr;
    }

    /// Call: pushes the program counter and continues at `addr`. With a full
    /// stack this is a stack overflow.
    pub(crate) fn op_2nnn(&mut self, addr: u16) -> (result: Result<(), Fault>)
        requires
            old(self).wf(),
        ensures
            final(self).wf(),
            old(self)@.leads_to(old(self)@.call(addr), result, final(self)@),
    {
        if self.sp >= 16 {
            return Err(Fault::StackOverflow);
        }
        self.stack[self.sp as usize] = self.pc;
        self.sp += 1;
        self.pc = addr;
        Ok(())
    }

    /// Skip the next instruction if `Vx == byte`.
    pub(crate) fn op_3xkk(&mut self, x: u8, byte: u8)
        requires
            old(self).wf(),
            x < 16,
        ensures
            final(self).wf(),
            final(self)@ == old(self)@.skip_if(old(self)@.reg(x) == byte),
    {
        if self.registers[x as usize] == byte {
            self.pc = self.pc.wrapping_add(2);
        }
    }

    /// Skip the next instruction if `Vx != byte`.
    pub(crate) fn op_4xkk(&mut self, x: u8, byte: u8)
        requires
            old(self).wf(),
            x < 16,
        ensures
            final(self).wf(),
            final(self)@ == old(self)@.skip_if(old(self)@.reg(x) != byte),
    {
        if self.registers[x as usize] != byte {
            self.pc = self.pc.wrapping_add(2);
        }
    }

    /// Skip the next instruction if `Vx == Vy`.
    pub(crate) fn op_5xy0(&mut self, x: u8, y: u8)
        requires
            old(self).wf(),
            x < 16,
            y < 16,
        ensures
            final(self).wf(),
            final(self)@ == old(self)@.skip_if(old(self)@.reg(x) == old(self)@.reg(y)),
    {
        if self.registers[x as usize] == self.registers[y as usize] {
            self.pc = self.pc.wrapping_add(2);
        }
    }

    /// Skip the next instruction if `Vx != Vy`.
    pub(crate) fn op_9xy0(&mut self, x: u8, y: u8)
        requires
            old(self).wf(),
            x < 16,
            y < 16,
        ensures
            final(self).wf(),
            final(self)@ == old(self)@.skip_if(old(self)@.reg(x) != old(self)@.reg(y)),
    {
        if self.registers[x as usize] != self.registers[y as usize] {
            self.pc = self.pc.wrapping_add(2);
        }
    }

    /// Jump with offset: `PC := addr + V0`.
    pub(crate) fn op_bnnn(&mut self, addr: u16)
        requires
            old(self).wf(),
        ensures
            final(self).wf(),
            final(self)@ == old(self)@.jump_offset(addr),
    {
        self.pc = addr.wrapping_add(self.registers[0] as u16);
    }
}

} // verus!
