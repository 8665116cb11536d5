//! Instructions that work through the address register `i`.

use crate::cpu::CPU;
use vstd::prelude::*;

verus! {

impl CPU {
    /// Sets the address register.
    pub fn set_i(&mut self, addr: u16)
        requires
            old(self).wf(),
        ensures
            final(self).wf(),
            final(self)@ == old(self)@.set_i(addr),
    {
        self.i = addr;
    }

    /// Adds register `x` to the address register, modulo 65536.
    pub fn set_i_reg(&mut self, x: u8)
        requires
            old(self).wf(),
            x < 16,
        ensures
            final(self).wf(),
            final(self)@ == old(self)@.set_i_reg(x),
    {
        self.i = self.i.wrapping_add(self.registers[x as usize] as u16);
    }

    /// Stores registers 0 to `x`, `x` included, in memory from address `i`
    /// on.
    pub fn reg_dump(&mut self, x: u8)
        requires
            old(self).wf(),
            x < 16,
            old(self).i + x < 4096,
        ensures
            final(self).wf(),
            final(self)@ == old(self)@.reg_dump(x),
    {
        let mut ind: usize = 0;
        while ind <= x as usize
            invariant
                x < 16,
                ind <= x + 1,
                self.i + x < 4096,
                self.program_counter == old(self).program_counter,
                self.registers == old(self).registers,
                self.stack == old(self).stack,
                self.stack_pointer == old(self).stack_pointer,
                self.i == old(self).i,
                forall|a: int|
                    0 <= a < 4096 ==> self.memory[a] == if self.i <= a < self.i + ind {
                        self.registers[a - self.i]
                    } else {
                        old(self).memory[a]
                    },
            decreases x + 1 - ind,
        {
            self.memory[self.i as usize + ind] = self.registers[ind];
            ind += 1;
        }
    }

    /// Fills registers 0 to `x`, `x` included, from memory from address `i`
    /// on.
    pub fn reg_load(&mut self, x: u8)
        requires
            old(self).wf(),
            x < 16,
            old(self).i + x < 4096,
        ensures
            final(self).wf(),
            final(self)@ == old(self)@.reg_load(x),
    {
        let mut ind: usize = 0;
        while ind <= x as usize
            invariant
                x < 16,
                ind <= x + 1,
                self.i + x < 4096,
                self.program_counter == old(self).program_counter,
                self.memory == old(self).memory,
                self.stack == old(self).stack,
                self.stack_pointer == old(self).stack_pointer,
                self.i == old(self).i,
                forall|k: int|
                    0 <= k < 16 ==> self.registers[k] == if k < ind {
                        self.memory[self.i + k]
                    } else {
                        old(self).registers[k]
                    },
            decreases x + 1 - ind,
        {
            self.registers[ind] = self.memory[self.i as usize + ind];
            ind += 1;
        }
    }

    /// Stores the decimal digits of register `x` in memory: the hundreds at
    /// address `i`, the tens at `i + 1`, the ones at `i + 2`.
    pub fn bcd(&mut self, x: u8)
        requires
            old(self).wf(),
            x < 16,
            old(self).i + 2 < 4096,
        ensures
            final(self).wf(),
            final(self)@ == old(self)@.bcd(x),
            100 * final(self).memory[old(self).i as int] + 10 * final(self).memory[old(self).i + 1]
                + final(self).memory[old(self).i + 2] == old(self).registers[x as int],
            final(self).memory[old(self).i + 1] < 10,
            final(self).memory[old(self).i + 2] < 10,
    {
        let hundreds = self.registers[x as usize] / 100;
        let tens = (self.registers[x as usize] / 10) % 10;
        let ones = self.registers[x as usize] % 10;

        self.memory[self.i as usize + 0] = hundreds;
        self.memory[self.i as usize + 1] = tens;
        self.memory[self.i as usize + 2] = ones;
    }
}

} // verus!
