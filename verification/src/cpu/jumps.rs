//! Relative jumps, and HALT.

use vstd::prelude::*;
use crate::cpu::chip::Chip;
use crate::cpu::machine::Machine;

verus! {

/// A byte read as a signed offset in two's complement: -128..=127.
pub open spec fn signed_offset(byte: u8) -> int {
    if byte < 128 {
        byte as int
    } else {
        byte - 256
    }
}

/// Where a relative jump from `pc` by the offset in `byte` lands, modulo
/// 65536.
pub open spec fn jump_target(pc: u16, byte: u8) -> u16 {
    ((pc + signed_offset(byte)) % 0x1_0000) as u16
}

impl Machine {
    /// The condition that a 3-bit code selects by its lower two bits holds:
    /// Zero clear, Zero set, Carry clear, Carry set.
    pub open spec fn condition(self, code: u8) -> bool {
        match code % 4 {
            0 => !self.flags.zero,
            1 => self.flags.zero,
            2 => !self.flags.carry,
            _ => self.flags.carry,
        }
    }

    /// JR: the program counter moves by the signed offset in the first
    /// immediate byte.
    pub open spec fn jr(self) -> Machine {
        Machine { pc: jump_target(self.pc, self.byte2), ..self }
    }

    /// JR cc: as JR where the condition holds; nothing changes where it
    /// does not.
    pub open spec fn jr_cond(self, code: u8) -> Machine {
        if self.condition(code) {
            self.jr()
        } else {
            self
        }
    }
}

impl Chip {
    /// Suspends the processor until an interrupt. No interrupt source is
    /// modelled, so nothing changes.
    pub fn halt(&mut self)
        ensures
            final(self)@ == old(self)@,
    {
    }

    /// Jumps by the signed offset in the first immediate byte where the
    /// condition that `condition` selects holds.
    pub fn jr_cond(&mut self, condition: u8)
        requires
            condition <= 7,
        ensures
            final(self)@ == old(self)@.jr_cond(condition),
    {
        let should_execute = match condition {
            0 | 4 => !self.flags.zero,
            1 | 5 => self.flags.zero,
            2 | 6 => !self.flags.carry,
            _ => self.flags.carry,
        };
        if should_execute {
            self.jr();
        }
    }

    /// Jumps by the signed offset in the first immediate byte.
    pub fn jr(&mut self)
        ensures
            final(self)@ == old(self)@.jr(),
    {
        let offset: u8 = self.byte2;
        if offset < 128 {
            self.pc = self.pc.wrapping_add(offset as u16);
        } else {
            self.pc = self.pc.wrapping_sub(256 - offset as u16);
        }
    }
}

} // verus!
