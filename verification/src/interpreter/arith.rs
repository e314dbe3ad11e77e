//! Arithmetic and logic on the registers.

use vstd::prelude::*;
use crate::interpreter::Chip8;

verus! {

impl Chip8 {
    /// Load immediate: `Vx := byte`.
    pub(crate) fn op_6xkk(&mut self, x: u8, byte: u8)
        requires
            old(self).wf(),
            x < 16,
        ensures
            final(self).wf(),
            final(self)@ == old(self)@.with_register(x, byte),
    {
        self.registers[x as usize] = byte;
    }

    /// Add immediate: `Vx := Vx + byte`, wrapping.
    pub(crate) fn op_7xkk(&mut self, x: u8, byte: u8)
        requires
            old(self).wf(),
            x < 16,
        ensures
            final(self).wf(),
            final(self)@ == old(self)@.add_byte(x, byte),
    {
        self.registers[x as usize] = self.registers[x as usize].wrapping_add(byte);
    }

    /// Assign: `Vx := Vy`.
    pub(crate) fn op_8xy0(&mut self, x: u8, y: u8)
        requires
            old(self).wf(),
            x < 16,
            y < 16,
        ensures
            final(self).wf(),
            final(self)@ == old(self)@.with_register(x, old(self)@.reg(y)),
    {
        self.registers[x as usize] = self.registers[y as usize];
    }

    /// Bitwise or: `Vx := Vx | Vy`.
    pub(crate) fn op_8xy1(&mut self, x: u8, y: u8)
        requires
            old(self).wf(),
            x < 16,
            y < 16,
        ensures
            final(self).wf(),
            final(self)@ == old(self)@.with_register(x, old(self)@.reg(x) | old(self)@.reg(y)),
    {
        self.registers[x as usize] = self.registers[x as usize] | self.registers[y as usize];
    }

    /// Bitwise and: `Vx := Vx & Vy`.
    pub(crate) fn op_8xy2(&mut self, x: u8, y: u8)
        requires
            old(self).wf(),
            x < 16,
            y < 16,
        ensures
            final(self).wf(),
            final(self)@ == old(self)@.with_register(x, old(self)@.reg(x) & old(self)@.reg(y)),
    {
        self.registers[x as usize] = self.registers[x as usize] & self.registers[y as usize];
    }

    /// Bitwise exclusive or: `Vx := Vx ^ Vy`.
    pub(crate) fn op_8xy3(&mut self, x: u8, y: u8)
        requires
            old(self).wf(),
            x < 16,
            y < 16,
        ensures
            final(self).wf(),
            final(self)@ == old(self)@.with_register(x, old(self)@.reg(x) ^ old(self)@.reg(y)),
    {
        self.registers[x as usize] = self.registers[x as usize] ^ self.registers[y as usize];
    }

    /// Add with carry: `VF` tells whether `Vx + Vy` exceeds 255, `Vx`
    /// receives the low eight bits of the sum.
    pub(crate) fn op_8xy4(&mut self, x: u8, y: u8)
        requires
            old(self).wf(),
            x < 16,
            y < 16,
        ensures
            final(self).wf(),
            final(self)@ == old(self)@.add_carry(x, y),
    {
        let sum: u16 = self.registers[x as usize] as u16 + self.registers[y as usize] as u16;
        self.registers[0xF] = if sum > 255 { 1 } else { 0 };
        self.registers[x as usize] = (sum % 256) as u8;
    }

    /// Subtract: `VF` tells whether `Vx > Vy`, then `Vx := Vx - Vy`,
    /// wrapping.
    pub(crate) fn op_8xy5(&mut self, x: u8, y: u8)
        requires
            old(self).wf(),
            x < 16,
            y < 16,
        ensures
            final(self).wf(),
            final(self)@ == old(self)@.subtract(x, y),
    {
        self.registers[0xF] = if self.registers[x as usize] > self.registers[y as usize] {
            1
        } else {
            0
        };
        self.registers[x as usize] = self.registers[x as usize].wrapping_sub(
            self.registers[y as usize],
        );
    }

    /// Shift right: `VF` receives the lowest bit of `Vx`, then `Vx` is
    /// shifted right by one.
    pub(crate) fn op_8xy6(&mut self, x: u8)
        requires
            old(self).wf(),
            x < 16,
        ensures
            final(self).wf(),
            final(self)@ == old(self)@.shift_right(x),
    {
        let value: u8 = self.registers[x as usize];
        assert(value & 0x1 == value % 2) by (bit_vector);
        self.registers[0xF] = value & 0x1;
        let value: u8 = self.registers[x as usize];
        assert(value >> 1 == value / 2) by (bit_vector);
        self.registers[x as usize] = value >> 1;
    }

    /// Subtract reversed: `VF` tells whether `Vy > Vx`, then
    /// `Vx := Vy - Vx`, wrapping.
    pub(crate) fn op_8xy7(&mut self, x: u8, y: u8)
        requires
            old(self).wf(),
            x < 16,
            y < 16,
        ensures
            final(self).wf(),
            final(self)@ == old(self)@.subtract_reversed(x, y),
    {
        self.registers[0xF] = if self.registers[y as usize] > self.registers[x as usize] {
            1
        } else {
            0
        };
        self.registers[x as usize] = self.registers[y as usize].wrapping_sub(
            self.registers[x as usize],
        );
    }

    /// Shift left: `VF` receives the highest bit of `Vx`, then `Vx` is
    /// shifted left by one.
    pub(crate) fn op_8xye(&mut self, x: u8)
        requires
            old(self).wf(),
            x < 16,
        ensures
            final(self).wf(),
            final(self)@ == old(self)@.shift_left(x),
    {
        let value: u8 = self.registers[x as usize];
        assert((value & 0x80) >> 7 == value / 128) by (bit_vector);
        self.registers[0xF] = (value & 0x80) >> 7;
        let value: u8 = self.registers[x as usize];
        assert(value << 1 == (value * 2) % 256) by (bit_vector);
        self.registers[x as usize] = value << 1;
    }

    /// Set index: `I := addr`.
    pub(crate) fn op_annn(&mut self, addr: u16)
        requires
            old(self).wf(),
        ensures
            final(self).wf(),
            final(self)@ == (crate::model::Machine { index: addr, ..old(self)@ }),
    {
        self.index = addr;
    }

    /// Random and mask: `Vx := Vx + (random & byte)`, wrapping, where
    /// `random` is the byte drawn for this instruction.
    pub(crate) fn op_cxkk(&mut self, x: u8, byte: u8, random: u8)
        requires
            old(self).wf(),
            x < 16,
        ensures
            final(self).wf(),
            final(self)@ == old(self)@.random_mask(x, byte, random),
    {
        self.registers[x as usize] = self.registers[x as usize].wrapping_add(random & byte);
    }
}

} // verus!
