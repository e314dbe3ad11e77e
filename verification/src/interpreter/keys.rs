//! Instructions that look at the keypad.

use vstd::prelude::*;
use crate::interpreter::Chip8;

verus! {

impl Chip8 {
    /// Whether the key with the index `key` is down. No key has an index
    /// above 15.
    fn key_down(&self, key: u8) -> (down: bool)
        ensures
            down == self@.key_down(key),
    {
        key < 16 && self.keypad[key as usize]
    }

    /// Scans the keys from 0 to 15 for the first one that is down.
    fn first_key_down(&self) -> (found: Option<u8>)
        requires
            self.wf(),
        ensures
            found == self@.lowest_key_down(),
    {
        let mut key: u8 = 0;
        while key < 16
            invariant
                key <= 16,
                forall|j: u8| j < key ==> !#[trigger] self@.key_down(j),
            decreases 16 - key,
        {
            if self.keypad[key as usize] {
                proof {
                    self@.lemma_lowest_key_down(key);
                }
                return Some(key);
            }
            key += 1;
        }
        None
    }

    /// Skip the next instruction if the key `Vx` is down.
    pub(crate) fn op_ex9e(&mut self, x: u8)
        requires
            old(self).wf(),
            x < 16,
        ensures
            final(self).wf(),
            final(self)@ == old(self)@.skip_if(old(self)@.key_down(old(self)@.reg(x))),
    {
        if self.key_down(self.registers[x as usize]) {
            self.pc = self.pc.wrapping_add(2);
        }
    }

    /// Skip the next instruction if the key `Vx` is up.
    pub(crate) fn op_ex91(&mut self, x: u8)
        requires
            old(self).wf(),
            x < 16,
        ensures
            final(self).wf(),
            final(self)@ == old(self)@.skip_if(!old(self)@.key_down(old(self)@.reg(x))),
    {
        if !self.key_down(self.registers[x as usize]) {
            self.pc = self.pc.wrapping_add(2);
        }
    }

    /// Blocking key wait: with a key down, the smallest index of such a key
    /// goes to `Vx`; with none, the program counter is set back by two, so
    /// that the next cycle fetches this instruction again.
    pub(crate) fn op_fx0a(&mut self, x: u8)
        requires
            old(self).wf(),
            x < 16,
        ensures
            final(self).wf(),
            final(self)@ == old(self)@.wait_key(x),
    {
        match self.first_key_down() {
            Some(key) => {
                self.registers[x as usize] = key;
            },
            None => {
                self.pc = self.pc.wrapping_sub(2);
            },
        }
    }
}

} // verus!
