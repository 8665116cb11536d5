//! Instructions that move the program counter.

use crate::cpu::CPU;
use crate::machine::Fault;
use vstd::prelude::*;

verus! {

impl CPU {
    /// The next two bytes of memory as one instruction word, the first
    /// byte being the more significant.
    pub fn read_opcode(&self) -> (opcode: u16)
        requires
            self.program_counter + 1 < 4096,
        ensures
            opcode == self@.opcode(),
            opcode == 256 * self.memory[self.program_counter as int]
                + self.memory[self.program_counter + 1],
    {
        let p = self.program_counter;
        let byte1 = self.memory[p] as u16;
        let byte2 = self.memory[p + 1] as u16;
        assert(byte1 << 8 | byte2 == 256 * byte1 + byte2) by (bit_vector)
            requires
                byte1 < 256,
                byte2 < 256,
        ;
        byte1 << 8 | byte2
    }

    /// Moves the program counter to `addr`.
    pub fn jump(&mut self, addr: u16)
        requires
            old(self).wf(),
        ensures
            final(self).wf(),
            final(self)@ == old(self)@.jump(addr),
    {
        self.program_counter = addr as usize;
    }

    /// Moves the program counter to `addr` plus register 0.
    pub fn jump_reg(&mut self, addr: u16)
        requires
            old(self).wf(),
        ensures
            final(self).wf(),
            final(self)@ == old(self)@.jump_reg(addr),
    {
        self.program_counter = self.registers[0] as usize + addr as usize;
    }

    /// Pushes the program counter on the stack and moves it to `addr`. A
    /// full stack is an overflow, and leaves the processor as it was.
    pub fn call(&mut self, addr: u16) -> (result: Result<(), Fault>)
        requires
            old(self).wf(),
        ensures
            final(self).wf(),
            old(self).stack_pointer == 16 <==> result == Err::<(), Fault>(Fault::StackOverflow),
            old(self).stack_pointer < 16 <==> result is Ok,
            result is Ok ==> final(self)@ == old(self)@.call(addr),
            result is Err ==> final(self)@ == old(self)@,
    {
        if self.stack_pointer >= self.stack.len() {
            return Err(Fault::StackOverflow);
        }
        let counter = self.program_counter;
        assert(counter as u16 == counter % 0x1_0000) by (bit_vector);
        self.stack[self.stack_pointer] = #[verifier::truncate] (counter as u16);
        self.stack_pointer += 1;
        self.program_counter = addr as usize;
        Ok(())
    }

    /// Pops the program counter off the stack. An empty stack is an
    /// underflow, and leaves the processor as it was.
    pub fn ret(&mut self) -> (result: Result<(), Fault>)
        requires
            old(self).wf(),
        ensures
            final(self).wf(),
            old(self).stack_pointer == 0 <==> result == Err::<(), Fault>(Fault::StackUnderflow),
            old(self).stack_pointer > 0 <==> result is Ok,
            result is Ok ==> final(self)@ == old(self)@.ret(),
            result is Err ==> final(self)@ == old(self)@,
    {
        if self.stack_pointer == 0 {
            return Err(Fault::StackUnderflow);
        }
        self.stack_pointer -= 1;
        let mem = self.stack[self.stack_pointer];
        self.program_counter = mem as usize;
        Ok(())
    }

    /// Skips the next instruction if register `x` equals the low byte of
    /// `nn`.
    pub fn skip_equal(&mut self, x: u8, nn: u16)
        requires
            old(self).wf(),
            x < 16,
            old(self).program_counter + 2 <= usize::MAX,
        ensures
            final(self).wf(),
            final(self)@ == old(self)@.skip_equal(x, nn),
    {
        assert(nn as u8 == nn % 256) by (bit_vector);
        if self.registers[x as usize] == #[verifier::truncate] (nn as u8) {
            self.program_counter += 2;
        }
    }

    /// Skips the next instruction if register `x` differs from the low byte
    /// of `nn`.
    pub fn skip_not_equal(&mut self, x: u8, nn: u16)
        requires
            old(self).wf(),
            x < 16,
            old(self).program_counter + 2 <= usize::MAX,
        ensures
            final(self).wf(),
            final(self)@ == old(self)@.skip_not_equal(x, nn),
    {
        assert(nn as u8 == nn % 256) by (bit_vector);
        if self.registers[x as usize] != #[verifier::truncate] (nn as u8) {
            self.program_counter += 2;
        }
    }

    /// Skips the next instruction if registers `x` and `y` are equal.
    pub fn skip_equal_reg(&mut self, x: u8, y: u8)
        requires
            old(self).wf(),
            x < 16,
            y < 16,
            old(self).program_counter + 2 <= usize::MAX,
        ensures
            final(self).wf(),
            final(self)@ == old(self)@.skip_equal_reg(x, y),
    {
        if self.registers[x as usize] == self.registers[y as usize] {
            self.program_counter += 2;
        }
    }

    /// Skips the next instruction if registers `x` and `y` differ.
    pub fn skip_not_equal_reg(&mut self, x: u8, y: u8)
        requires
            old(self).wf(),
            x < 16,
            y < 16,
            old(self).program_counter + 2 <= usize::MAX,
        ensures
            final(self).wf(),
            final(self)@ == old(self)@.skip_not_equal_reg(x, y),
    {
        if self.registers[x as usize] != self.registers[y as usize] {
            self.program_counter += 2;
        }
    }
}

} // verus!
