//! The operand tables: from a 3-bit code of the opcode to a register, a
//! register pair or a byte of memory.

use vstd::prelude::*;
use crate::cpu::chip::Chip;
use crate::cpu::machine::{high_byte, low_byte, pair};

verus! {

/// Joins two bytes into the 16-bit value of a register pair.
pub fn join(high: u8, low: u8) -> (value: u16)
    ensures
        value == pair(high, low),
{
    let value: u16 = ((high as u16) << 8) | (low as u16);
    assert(((high as u16) << 8) | (low as u16) == high as u16 * 256 + low as u16) by (bit_vector);
    value
}

/// Splits a 16-bit value into its high and its low byte.
pub fn split(value: u16) -> (bytes: (u8, u8))
    ensures
        bytes.0 == high_byte(value),
        bytes.1 == low_byte(value),
{
    assert((value >> 8) == value / 256 && (value >> 8) < 256) by (bit_vector);
    assert((value & 0xff) == value % 256 && (value & 0xff) < 256) by (bit_vector);
    ((value >> 8) as u8, (value & 0xff) as u8)
}

impl Chip {
    /// Reads the 16-bit register that `register_code` selects.
    pub fn get_r16_register_address(&self, register_code: u8) -> (value: u16)
        requires
            register_code <= 7,
        ensures
            value == self@.r16(register_code),
    {
        match register_code {
            0 | 1 => join(self.b, self.c),
            2 | 3 => join(self.d, self.e),
            4 | 5 => join(self.h, self.l),
            _ => self.sp,
        }
    }

    /// Reads the 8-bit operand that `register_code` selects.
    pub fn get_r8_register(&self, register_code: u8) -> (value: u8)
        requires
            register_code <= 7,
        ensures
            value == self@.r8(register_code),
    {
        match register_code {
            0 => self.b,
            1 => self.c,
            2 => self.d,
            3 => self.e,
            4 => self.h,
            5 => self.l,
            6 => {
                let address: u16 = join(self.h, self.l);
                self.read_memory(address)
            },
            _ => self.a,
        }
    }

    /// Stores `value` in the 8-bit operand that `register_code` selects.
    pub fn set_r8_register(&mut self, register_code: u8, value: u8)
        requires
            register_code <= 7,
        ensures
            final(self)@ == old(self)@.set_r8(register_code, value),
    {
        match register_code {
            0 => {
                self.b = value;
            },
            1 => {
                self.c = value;
            },
            2 => {
                self.d = value;
            },
            3 => {
                self.e = value;
            },
            4 => {
                self.h = value;
            },
            5 => {
                self.l = value;
            },
            6 => {
                let address: u16 = join(self.h, self.l);
                self.write_memory(address, value);
            },
            _ => {
                self.a = value;
            },
        }
    }

    /// Stores `value` in the 16-bit register that `register_code` selects.
    pub fn set_r16_register_address(&mut self, register_code: u8, value: u16)
        requires
            register_code <= 7,
        ensures
            final(self)@ == old(self)@.set_r16(register_code, value),
    {
        let (high, low): (u8, u8) = split(value);
        match register_code {
            0 | 1 => {
                self.b = high;
                self.c = low;
            },
            2 | 3 => {
                self.d = high;
                self.e = low;
            },
            4 | 5 => {
                self.h = high;
                self.l = low;
            },
            _ => {
                self.sp = value;
            },
        }
    }

    /// Resolves the address for a load or store of A through a register
    /// pair, and moves HL on where the code asks for it. The address
    /// returned is the one that HL held before it moved.
    pub fn get_r16_register_memory_address(&mut self, register_code: u8) -> (address: u16)
        requires
            register_code <= 7,
        ensures
            address == old(self)@.r16mem_address(register_code),
            final(self)@ == old(self)@.r16mem_advance(register_code),
    {
        match register_code {
            0 | 1 => join(self.b, self.c),
            2 | 3 => join(self.d, self.e),
            4 | 5 => {
                let hl: u16 = join(self.h, self.l);
                self.set_r16_register_address(4, hl.wrapping_add(1));
                hl
            },
            _ => {
                let hl: u16 = join(self.h, self.l);
                self.set_r16_register_address(4, hl.wrapping_sub(1));
                hl
            },
        }
    }
}

} // verus!
