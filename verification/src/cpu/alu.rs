//! The 8-bit arithmetic and logic group: ADD, ADC, SUB, SBC, AND, XOR, OR
//! and CP on the accumulator and an 8-bit operand.

use vstd::prelude::*;
use crate::cpu::chip::Chip;
use crate::cpu::flags::{
    add_carry,
    add_half_carry,
    diff8,
    lemma_low_nibble,
    sub_borrow,
    sub_half_borrow,
    sum8,
    Flags,
};
use crate::cpu::machine::Machine;

verus! {

impl Machine {
    /// The flags after `value` was added to A.
    pub open spec fn add_flags(self, value: u8) -> Flags {
        Flags {
            zero: sum8(self.a, value) == 0,
            n: false,
            h: add_half_carry(self.a, value),
            carry: add_carry(self.a, value),
        }
    }

    /// The flags after `value` was subtracted from A.
    pub open spec fn sub_flags(self, value: u8) -> Flags {
        Flags {
            zero: diff8(self.a, value) == 0,
            n: true,
            h: sub_half_borrow(self.a, value),
            carry: sub_borrow(self.a, value),
        }
    }

    /// What ADC and SBC work with: the operand with the carry bit added to
    /// it modulo 256, before any flag is computed.
    pub open spec fn operand_with_carry(self, code: u8) -> u8 {
        sum8(self.r8(code), self.flags.carry_in())
    }

    /// ADD A,r8.
    pub open spec fn add_a_r8(self, code: u8) -> Machine {
        let value: u8 = self.r8(code);
        Machine { a: sum8(self.a, value), flags: self.add_flags(value), ..self }
    }

    /// ADC A,r8.
    pub open spec fn adc_a_r8(self, code: u8) -> Machine {
        let value: u8 = self.operand_with_carry(code);
        Machine { a: sum8(self.a, value), flags: self.add_flags(value), ..self }
    }

    /// SUB A,r8.
    pub open spec fn sub_a_r8(self, code: u8) -> Machine {
        let value: u8 = self.r8(code);
        Machine { a: diff8(self.a, value), flags: self.sub_flags(value), ..self }
    }

    /// SBC A,r8.
    pub open spec fn sbc_a_r8(self, code: u8) -> Machine {
        let value: u8 = self.operand_with_carry(code);
        Machine { a: diff8(self.a, value), flags: self.sub_flags(value), ..self }
    }

    /// AND A,r8.
    pub open spec fn and_a_r8(self, code: u8) -> Machine {
        let result: u8 = self.a & self.r8(code);
        Machine {
            a: result,
            flags: Flags { zero: result == 0, n: false, h: true, carry: false },
            ..self
        }
    }

    /// XOR A,r8.
    pub open spec fn xor_a_r8(self, code: u8) -> Machine {
        let result: u8 = self.a ^ self.r8(code);
        Machine {
            a: result,
            flags: Flags { zero: result == 0, n: false, h: false, carry: false },
            ..self
        }
    }

    /// OR A,r8.
    pub open spec fn or_a_r8(self, code: u8) -> Machine {
        let result: u8 = self.a | self.r8(code);
        Machine {
            a: result,
            flags: Flags { zero: result == 0, n: false, h: false, carry: false },
            ..self
        }
    }

    /// CP A,r8: the flags of SUB, with A left as it was.
    pub open spec fn cp_a_r8(self, code: u8) -> Machine {
        Machine { flags: self.sub_flags(self.r8(code)), ..self }
    }

    /// The operation that the 3-bit code `opcode` selects, on A and the
    /// operand that `code` selects.
    pub open spec fn alu_a_r8(self, opcode: u8, code: u8) -> Machine {
        match opcode {
            0 => self.add_a_r8(code),
            1 => self.adc_a_r8(code),
            2 => self.sub_a_r8(code),
            3 => self.sbc_a_r8(code),
            4 => self.and_a_r8(code),
            5 => self.xor_a_r8(code),
            6 => self.or_a_r8(code),
            _ => self.cp_a_r8(code),
        }
    }
}

impl Chip {
    /// The half carry and the carry of adding two bytes.
    pub fn check_carry_add_u8(&self, lhs: u8, rhs: u8) -> (carries: (bool, bool))
        ensures
            carries.0 == add_half_carry(lhs, rhs),
            carries.1 == add_carry(lhs, rhs),
    {
        proof {
            lemma_low_nibble(lhs);
            lemma_low_nibble(rhs);
        }
        let carry: bool = lhs.checked_add(rhs).is_none();
        let half_carry: bool = (lhs & 0xf) + (rhs & 0xf) > 0xf;
        (half_carry, carry)
    }

    /// The half borrow and the borrow of subtracting `rhs` from `lhs`.
    pub fn check_carry_sub_u8(&self, lhs: u8, rhs: u8) -> (borrows: (bool, bool))
        ensures
            borrows.0 == sub_half_borrow(lhs, rhs),
            borrows.1 == sub_borrow(lhs, rhs),
    {
        proof {
            lemma_low_nibble(lhs);
            lemma_low_nibble(rhs);
        }
        let borrow: bool = lhs.checked_sub(rhs).is_none();
        let half_borrow: bool = (lhs & 0xf) < (rhs & 0xf);
        (half_borrow, borrow)
    }

    /// The carry flag as 0 or 1.
    fn carry_bit(&self) -> (bit: u8)
        ensures
            bit == self@.flags.carry_in(),
    {
        if self.flags.carry {
            1
        } else {
            0
        }
    }

    /// Dispatches one instruction of the arithmetic and logic group.
    pub fn alu_a_r8(&mut self, opcode: u8, r8: u8)
        requires
            opcode <= 7,
            r8 <= 7,
        ensures
            final(self)@ == old(self)@.alu_a_r8(opcode, r8),
    {
        match opcode {
            0 => self.add_a_r8(r8),
            1 => self.adc_a_r8(r8),
            2 => self.sub_a_r8(r8),
            3 => self.sbc_a_r8(r8),
            4 => self.and_a_r8(r8),
            5 => self.xor_a_r8(r8),
            6 => self.or_a_r8(r8),
            _ => self.cp_a_r8(r8),
        }
    }

    /// Adds the operand that `r8` selects to A.
    pub fn add_a_r8(&mut self, r8: u8)
        requires
            r8 <= 7,
        ensures
            final(self)@ == old(self)@.add_a_r8(r8),
    {
        let reg_val: u8 = self.get_r8_register(r8);
        let (half_carry, carry) = self.check_carry_add_u8(self.a, reg_val);
        self.a = self.a.wrapping_add(reg_val);
        self.flags = Flags { zero: self.a == 0, n: false, h: half_carry, carry };
    }

    /// Adds the operand that `r8` selects, with the carry flag folded into
    /// it, to A.
    pub fn adc_a_r8(&mut self, r8: u8)
        requires
            r8 <= 7,
        ensures
            final(self)@ == old(self)@.adc_a_r8(r8),
    {
        let sum: u8 = self.get_r8_register(r8).wrapping_add(self.carry_bit());
        let (half_carry, carry) = self.check_carry_add_u8(self.a, sum);
        self.a = self.a.wrapping_add(sum);
        self.flags = Flags { zero: self.a == 0, n: false, h: half_carry, carry };
    }

    /// Subtracts the operand that `r8` selects from A.
    pub fn sub_a_r8(&mut self, r8: u8)
        requires
            r8 <= 7,
        ensures
            final(self)@ == old(self)@.sub_a_r8(r8),
    {
        let reg_val: u8 = self.get_r8_register(r8);
        let (half_carry, carry) = self.check_carry_sub_u8(self.a, reg_val);
        self.a = self.a.wrapping_sub(reg_val);
        self.flags = Flags { zero: self.a == 0, n: true, h: half_carry, carry };
    }

    /// Subtracts the operand that `r8` selects, with the carry flag folded
    /// into it, from A.
    pub fn sbc_a_r8(&mut self, r8: u8)
        requires
            r8 <= 7,
        ensures
            final(self)@ == old(self)@.sbc_a_r8(r8),
    {
        let sum: u8 = self.get_r8_register(r8).wrapping_add(self.carry_bit());
        let (half_carry, carry) = self.check_carry_sub_u8(self.a, sum);
        self.a = self.a.wrapping_sub(sum);
        self.flags = Flags { zero: self.a == 0, n: true, h: half_carry, carry };
    }

    /// Bitwise AND of A and the operand that `r8` selects.
    pub fn and_a_r8(&mut self, r8: u8)
        requires
            r8 <= 7,
        ensures
            final(self)@ == old(self)@.and_a_r8(r8),
    {
        self.a = self.a & self.get_r8_register(r8);
        self.flags = Flags { zero: self.a == 0, n: false, h: true, carry: false };
    }

    /// Bitwise XOR of A and the operand that `r8` selects.
    pub fn xor_a_r8(&mut self, r8: u8)
        requires
            r8 <= 7,
        ensures
            final(self)@ == old(self)@.xor_a_r8(r8),
    {
        self.a = self.a ^ self.get_r8_register(r8);
        self.flags = Flags { zero: self.a == 0, n: false, h: false, carry: false };
    }

    /// Bitwise OR of A and the operand that `r8` selects.
    pub fn or_a_r8(&mut self, r8: u8)
        requires
            r8 <= 7,
        ensures
            final(self)@ == old(self)@.or_a_r8(r8),
    {
        self.a = self.a | self.get_r8_register(r8);
        self.flags = Flags { zero: self.a == 0, n: false, h: false, carry: false };
    }

    /// Compares A with the operand that `r8` selects: sets the flags of a
    /// subtraction and keeps A.
    pub fn cp_a_r8(&mut self, r8: u8)
        requires
            r8 <= 7,
        ensures
            final(self)@ == old(self)@.cp_a_r8(r8),
    {
        let reg_val: u8 = self.get_r8_register(r8);
        let (half_carry, carry) = self.check_carry_sub_u8(self.a, reg_val);
        let tmp: u8 = self.a.wrapping_sub(reg_val);
        self.flags = Flags { zero: tmp == 0, n: true, h: half_carry, carry };
    }
}

} // verus!
