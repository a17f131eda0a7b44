//! Increment and decrement of 8-bit operands and 16-bit registers, and the
//! 16-bit addition into HL.

use vstd::prelude::*;
use crate::cpu::chip::Chip;
use crate::cpu::flags::{
    add16_carry,
    add16_half_carry,
    add_half_carry,
    diff16,
    diff8,
    lemma_low_twelve_bits,
    sub_half_borrow,
    sum16,
    sum8,
    Flags,
};
use crate::cpu::machine::Machine;

verus! {

impl Machine {
    /// INC r8: the operand goes up by one modulo 256; Zero and HalfCarry
    /// follow the result, Subtract is cleared, Carry stays.
    pub open spec fn inc_r8(self, code: u8) -> Machine {
        let value: u8 = self.r8(code);
        let flags = Flags {
            zero: sum8(value, 1) == 0,
            n: false,
            h: add_half_carry(value, 1),
            carry: self.flags.carry,
        };
        Machine { flags, ..self }.set_r8(code, sum8(value, 1))
    }

    /// DEC r8: the operand goes down by one modulo 256; Zero and HalfCarry
    /// follow the result, Subtract is set, Carry stays.
    pub open spec fn dec_r8(self, code: u8) -> Machine {
        let value: u8 = self.r8(code);
        let flags = Flags {
            zero: diff8(value, 1) == 0,
            n: true,
            h: sub_half_borrow(value, 1),
            carry: self.flags.carry,
        };
        Machine { flags, ..self }.set_r8(code, diff8(value, 1))
    }

    /// INC r16: the 16-bit register goes up by one modulo 65536; no flag
    /// changes.
    pub open spec fn inc_r16(self, code: u8) -> Machine {
        self.set_r16(code, sum16(self.r16(code), 1))
    }

    /// DEC r16: the 16-bit register goes down by one modulo 65536; no flag
    /// changes.
    pub open spec fn dec_r16(self, code: u8) -> Machine {
        self.set_r16(code, diff16(self.r16(code), 1))
    }

    /// ADD HL,r16: HL takes the sum modulo 65536; HalfCarry is the carry out
    /// of bit 11, Carry the carry out of bit 15, Subtract is cleared, Zero
    /// stays.
    pub open spec fn add_hl_r16(self, code: u8) -> Machine {
        let value: u16 = self.r16(code);
        let flags = Flags {
            zero: self.flags.zero,
            n: false,
            h: add16_half_carry(value, self.hl()),
            carry: add16_carry(value, self.hl()),
        };
        Machine { flags, ..self }.set_r16(4, sum16(value, self.hl()))
    }
}

impl Chip {
    /// Increments the operand that `register_lookup` selects.
    pub fn inc_r8(&mut self, register_lookup: u8)
        requires
            register_lookup <= 7,
        ensures
            final(self)@ == old(self)@.inc_r8(register_lookup),
    {
        let register: u8 = self.get_r8_register(register_lookup);
        let sum: u8 = register.wrapping_add(1);
        let (half_carry, _) = self.check_carry_add_u8(register, 1);
        self.flags.zero = sum == 0;
        self.flags.n = false;
        self.flags.h = half_carry;
        self.set_r8_register(register_lookup, sum);
    }

    /// Decrements the operand that `register_lookup` selects.
    pub fn dec_r8(&mut self, register_lookup: u8)
        requires
            register_lookup <= 7,
        ensures
            final(self)@ == old(self)@.dec_r8(register_lookup),
    {
        let register: u8 = self.get_r8_register(register_lookup);
        let sum: u8 = register.wrapping_sub(1);
        let (half_carry, _) = self.check_carry_sub_u8(register, 1);
        self.flags.zero = sum == 0;
        self.flags.n = true;
        self.flags.h = half_carry;
        self.set_r8_register(register_lookup, sum);
    }

    /// Increments the 16-bit register that `register_lookup` selects.
    pub fn inc_r16(&mut self, register_lookup: u8)
        requires
            register_lookup <= 7,
        ensures
            final(self)@ == old(self)@.inc_r16(register_lookup),
    {
        let register: u16 = self.get_r16_register_address(register_lookup);
        self.set_r16_register_address(register_lookup, register.wrapping_add(1));
    }

    /// Decrements the 16-bit register that `register_lookup` selects.
    pub fn dec_r16(&mut self, register_lookup: u8)
        requires
            register_lookup <= 7,
        ensures
            final(self)@ == old(self)@.dec_r16(register_lookup),
    {
        let register: u16 = self.get_r16_register_address(register_lookup);
        self.set_r16_register_address(register_lookup, register.wrapping_sub(1));
    }

    /// Adds the 16-bit register that `register_lookup` selects to HL.
    pub fn add_hl_r16(&mut self, register_lookup: u8)
        requires
            register_lookup <= 7,
        ensures
            final(self)@ == old(self)@.add_hl_r16(register_lookup),
    {
        let r16: u16 = self.get_r16_register_address(register_lookup);
        let hl: u16 = self.get_r16_register_address(4);
        proof {
            lemma_low_twelve_bits(r16);
            lemma_low_twelve_bits(hl);
        }
        let sum: u16 = r16.wrapping_add(hl);
        self.flags.n = false;
        self.flags.h = (r16 & 0xfff) + (hl & 0xfff) > 0xfff;
        self.flags.carry = r16.checked_add(hl).is_none();
        self.set_r16_register_address(4, sum);
    }
}

} // verus!
