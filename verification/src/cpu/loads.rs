//! The load instructions: register to register, immediates, and A or SP to
//! and from memory.

use vstd::prelude::*;
use crate::cpu::chip::Chip;
use crate::cpu::flags::sum16;
use crate::cpu::machine::{high_byte, low_byte, Machine};
use crate::cpu::registers::{join, split};

verus! {

impl Machine {
    /// LD r8,r8: the operand that `dst` selects takes the value of the one
    /// that `src` selects.
    pub open spec fn ld_r8_r8(self, src: u8, dst: u8) -> Machine {
        self.set_r8(dst, self.r8(src))
    }

    /// LD r8,u8: the operand that `code` selects takes the first immediate
    /// byte.
    pub open spec fn ld_r8_n8(self, code: u8) -> Machine {
        self.set_r8(code, self.byte2)
    }

    /// LD A,(r16): A takes the byte at the address that `code` selects, and
    /// HL moves on where the code asks for it.
    pub open spec fn ld_a_r16_addr(self, code: u8) -> Machine {
        Machine { a: self.read(self.r16mem_address(code)), ..self.r16mem_advance(code) }
    }

    /// LD (r16),A: A is written to the address that `code` selects, and HL
    /// moves on where the code asks for it.
    pub open spec fn ld_r16_addr_a(self, code: u8) -> Machine {
        self.r16mem_advance(code).write(self.r16mem_address(code), self.a)
    }

    /// LD r16,u16: the 16-bit register that `code` selects takes the 16-bit
    /// immediate.
    pub open spec fn ld_r16_u16(self, code: u8) -> Machine {
        self.set_r16(code, self.imm16())
    }

    /// LD (u16),SP: the low byte of SP is written to the immediate address,
    /// the high byte to the address after it, modulo 65536.
    pub open spec fn ld_u16_sp(self) -> Machine {
        self.write(self.imm16(), low_byte(self.sp)).write(
            sum16(self.imm16(), 1),
            high_byte(self.sp),
        )
    }
}

impl Chip {
    /// The 16-bit immediate of the fetched instruction.
    pub fn immediate16(&self) -> (value: u16)
        ensures
            value == self@.imm16(),
    {
        join(self.byte3, self.byte2)
    }

    /// Copies the operand that `src_r8` selects into the one that `dst_r8`
    /// selects.
    pub fn ld_r8_r8(&mut self, src_r8: u8, dst_r8: u8)
        requires
            src_r8 <= 7,
            dst_r8 <= 7,
        ensures
            final(self)@ == old(self)@.ld_r8_r8(src_r8, dst_r8),
    {
        let value: u8 = self.get_r8_register(src_r8);
        self.set_r8_register(dst_r8, value);
    }

    /// Loads the first immediate byte into the operand that `r8` selects.
    pub fn ld_r8_n8(&mut self, r8: u8)
        requires
            r8 <= 7,
        ensures
            final(self)@ == old(self)@.ld_r8_n8(r8),
    {
        let value: u8 = self.byte2;
        self.set_r8_register(r8, value);
    }

    /// Loads A from memory at the address that `register_lookup` selects.
    pub fn ld_a_r16_addr(&mut self, register_lookup: u8)
        requires
            register_lookup <= 7,
        ensures
            final(self)@ == old(self)@.ld_a_r16_addr(register_lookup),
    {
        let memory_address: u16 = self.get_r16_register_memory_address(register_lookup);
        self.a = self.read_memory(memory_address);
    }

    /// Stores A to memory at the address that `register_lookup` selects.
    pub fn ld_r16_addr_a(&mut self, register_lookup: u8)
        requires
            register_lookup <= 7,
        ensures
            final(self)@ == old(self)@.ld_r16_addr_a(register_lookup),
    {
        let memory_address: u16 = self.get_r16_register_memory_address(register_lookup);
        let value: u8 = self.a;
        self.write_memory(memory_address, value);
    }

    /// Loads the 16-bit immediate into the 16-bit register that
    /// `register_lookup` selects.
    pub fn ld_r16_u16(&mut self, register_lookup: u8)
        requires
            register_lookup <= 7,
        ensures
            final(self)@ == old(self)@.ld_r16_u16(register_lookup),
    {
        let value: u16 = self.immediate16();
        self.set_r16_register_address(register_lookup, value);
    }

    /// Stores SP at the immediate address, low byte first.
    pub fn ld_u16_sp(&mut self)
        ensures
            final(self)@ == old(self)@.ld_u16_sp(),
    {
        let address: u16 = self.immediate16();
        let (high, low): (u8, u8) = split(self.sp);
        self.write_memory(address, low);
        self.write_memory(address.wrapping_add(1), high);
    }
}

} // verus!
