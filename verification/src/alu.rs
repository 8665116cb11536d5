//! Instructions that compute on the registers.

use crate::cpu::CPU;
use rand::Rng;
use vstd::prelude::*;

verus! {

/// Draws a byte with `Rng::gen_range`, called with the range `low..=high`
/// on the generator that `rand::thread_rng` hands out. The contract claims
/// that the byte lies in the range, as the documentation of `gen_range`
/// says, and leaves open which byte comes. An empty range, on which
/// `gen_range` panics, is ruled out.
#[verifier::external_body]
fn random_between(low: u8, high: u8) -> (byte: u8)
    requires
        low <= high,
    ensures
        low <= byte <= high,
{
    rand::thread_rng().gen_range(low..=high)
}

impl CPU {
    /// Sets register `x` to the low byte of `nn`.
    pub fn set_register(&mut self, x: u8, nn: u16)
        requires
            old(self).wf(),
            x < 16,
        ensures
            final(self).wf(),
            final(self)@ == old(self)@.set_register(x, nn),
    {
        assert(nn as u8 == nn % 256) by (bit_vector);
        self.registers[x as usize] = #[verifier::truncate] (nn as u8);
    }

    /// Adds the low byte of `nn` to register `x`, modulo 256. The flag is
    /// left as it was.
    pub fn add(&mut self, x: u8, nn: u16)
        requires
            old(self).wf(),
            x < 16,
        ensures
            final(self).wf(),
            final(self)@ == old(self)@.add(x, nn),
    {
        assert(nn as u8 == nn % 256) by (bit_vector);
        let value = self.registers[x as usize];
        self.registers[x as usize] = value.wrapping_add(#[verifier::truncate] (nn as u8));
    }

    /// Copies register `y` to register `x`.
    pub fn assign(&mut self, x: u8, y: u8)
        requires
            old(self).wf(),
            x < 16,
            y < 16,
        ensures
            final(self).wf(),
            final(self)@ == old(self)@.assign(x, y),
    {
        self.registers[x as usize] = self.registers[y as usize];
    }

    /// Sets register `x` to the bitwise or of registers `x` and `y`.
    pub fn or(&mut self, x: u8, y: u8)
        requires
            old(self).wf(),
            x < 16,
            y < 16,
        ensures
            final(self).wf(),
            final(self)@ == old(self)@.or(x, y),
    {
        self.registers[x as usize] |= self.registers[y as usize];
    }

    /// Sets register `x` to the bitwise and of registers `x` and `y`.
    pub fn and(&mut self, x: u8, y: u8)
        requires
            old(self).wf(),
            x < 16,
            y < 16,
        ensures
            final(self).wf(),
            final(self)@ == old(self)@.and(x, y),
    {
        self.registers[x as usize] &= self.registers[y as usize];
    }

    /// Sets register `x` to the bitwise exclusive or of registers `x` and `y`.
    pub fn xor(&mut self, x: u8, y: u8)
        requires
            old(self).wf(),
            x < 16,
            y < 16,
        ensures
            final(self).wf(),
            final(self)@ == old(self)@.xor(x, y),
    {
        self.registers[x as usize] ^= self.registers[y as usize];
    }

    /// Adds register `y` to register `x`, modulo 256, and then sets the flag
    /// to 1 if the sum passed 255 and to 0 if it did not. Where `x` is the
    /// flag register itself, the flag is what remains.
    pub fn add_xy(&mut self, x: u8, y: u8)
        requires
            old(self).wf(),
            x < 16,
            y < 16,
        ensures
            final(self).wf(),
            final(self)@ == old(self)@.add_xy(x, y),
            ({
                let sum = old(self).registers[x as int] + old(self).registers[y as int];
                &&& x != 15 ==> final(self).registers[x as int] == sum % 256
                &&& final(self).registers[15] == if sum >= 256 {
                    1u8
                } else {
                    0u8
                }
            }),
    {
        let arg1 = self.registers[x as usize];
        let arg2 = self.registers[y as usize];
        let val = arg1.wrapping_add(arg2);
        let overflow = arg1 > 255 - arg2;
        self.registers[x as usize] = val;

        if overflow {
            self.registers[0xF] = 1;
        } else {
            self.registers[0xF] = 0;
        }
    }

    /// Subtracts register `y` from register `x`, modulo 256, and then sets
    /// the flag to 0 if the subtraction borrowed and to 1 if it did not.
    pub fn sub_xy(&mut self, x: u8, y: u8)
        requires
            old(self).wf(),
            x < 16,
            y < 16,
        ensures
            final(self).wf(),
            final(self)@ == old(self)@.sub_xy(x, y),
            ({
                let a = old(self).registers[x as int];
                let b = old(self).registers[y as int];
                &&& x != 15 && a >= b ==> final(self).registers[x as int] == a - b
                &&& x != 15 && a < b ==> final(self).registers[x as int] == 256 + a - b
                &&& final(self).registers[15] == if a >= b {
                    1u8
                } else {
                    0u8
                }
            }),
    {
        let arg1 = self.registers[x as usize];
        let arg2 = self.registers[y as usize];
        let val = arg1.wrapping_sub(arg2);
        let overflow = arg1 < arg2;
        self.registers[x as usize] = val;

        if overflow {
            self.registers[0xF] = 0;
        } else {
            self.registers[0xF] = 1;
        }
    }

    /// Sets register `x` to register `y` less register `x`, modulo 256, and
    /// then sets the flag to 0 if the subtraction borrowed and to 1 if it did
    /// not.
    pub fn sub_n(&mut self, x: u8, y: u8)
        requires
            old(self).wf(),
            x < 16,
            y < 16,
        ensures
            final(self).wf(),
            final(self)@ == old(self)@.sub_n(x, y),
    {
        let arg1 = self.registers[x as usize];
        let arg2 = self.registers[y as usize];
        let val = arg2.wrapping_sub(arg1);
        let overflow = arg2 < arg1;
        self.registers[x as usize] = val;

        if overflow {
            self.registers[0xF] = 0;
        } else {
            self.registers[0xF] = 1;
        }
    }

    /// Stores the least significant bit of register `x` in the flag, then
    /// shifts register `x` right by one.
    pub fn shift_right(&mut self, x: u8)
        requires
            old(self).wf(),
            x < 16,
        ensures
            final(self).wf(),
            final(self)@ == old(self)@.shift_right(x),
    {
        let before = self.registers[x as usize];
        let least_sig = before & 0b00000001;
        assert(least_sig == before % 2) by (bit_vector)
            requires
                least_sig == before & 1,
        ;
        self.registers[0xF] = least_sig;
        let value = self.registers[x as usize];
        assert(value >> 1 == value / 2) by (bit_vector);
        self.registers[x as usize] = value >> 1;
    }

    /// Stores the most significant bit of register `x` in the flag, then
    /// shifts register `x` left by one.
    pub fn shift_left(&mut self, x: u8)
        requires
            old(self).wf(),
            x < 16,
        ensures
            final(self).wf(),
            final(self)@ == old(self)@.shift_left(x),
    {
        let before = self.registers[x as usize];
        let most_sig = before & 0b10000000;
        assert(most_sig >> 7 == before / 128) by (bit_vector)
            requires
                most_sig == before & 0x80,
        ;
        self.registers[0xF] = most_sig >> 7;
        let value = self.registers[x as usize];
        assert(value << 1 == (value * 2) % 256) by (bit_vector);
        self.registers[x as usize] = value << 1;
    }

    /// Sets register 0 to a random byte from 1 to 255, masked by the low
    /// byte of `nn`.
    pub fn rand(&mut self, nn: u16)
        requires
            old(self).wf(),
        ensures
            final(self).wf(),
            exists|random: u8| random >= 1 && final(self)@ == #[trigger] old(self)@.rand(nn, random),
    {
        let random = random_between(1, 255);
        self.rand_from(nn, random);
    }

    /// Sets register 0 to `random` masked by the low byte of `nn`.
    pub fn rand_from(&mut self, nn: u16, random: u8)
        requires
            old(self).wf(),
        ensures
            final(self).wf(),
            final(self)@ == old(self)@.rand(nn, random),
    {
        assert((nn & (random as u16)) as u8 == ((nn % 256) as u8) & random) by (bit_vector);
        self.registers[0] = #[verifier::truncate] ((nn & random as u16) as u8);
    }
}

} // verus!
