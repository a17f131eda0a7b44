//! The flag bits and the carry rules of 8-bit and 16-bit arithmetic.

use vstd::prelude::*;

verus! {

/// The four condition bits of the processor.
#[derive(Clone, Copy, Debug, PartialEq, Eq, Structural)]
pub struct Flags {
    /// Zero: the last result was exactly 0.
    pub zero: bool,
    /// Subtract: the last operation was a subtraction.
    pub n: bool,
    /// Half carry: carry or borrow across the nibble boundary.
    pub h: bool,
    /// Carry: carry or borrow out of the whole operand.
    pub carry: bool,
}

impl Flags {
    /// All four bits clear.
    pub open spec fn cleared() -> Flags {
        Flags { zero: false, n: false, h: false, carry: false }
    }

    /// The flags with every bit clear.
    pub fn new() -> (flags: Flags)
        ensures
            flags == Flags::cleared(),
    {
        Flags { zero: false, n: false, h: false, carry: false }
    }

    /// The carry bit as the number that ADC and SBC fold into their operand.
    pub open spec fn carry_in(self) -> u8 {
        if self.carry {
            1u8
        } else {
            0u8
        }
    }
}

/// `(lhs + rhs) mod 256`.
pub open spec fn sum8(lhs: u8, rhs: u8) -> u8 {
    ((lhs + rhs) % 256) as u8
}

/// `(lhs - rhs) mod 256`.
pub open spec fn diff8(lhs: u8, rhs: u8) -> u8 {
    ((lhs - rhs) % 256) as u8
}

/// `(lhs + rhs) mod 65536`.
pub open spec fn sum16(lhs: u16, rhs: u16) -> u16 {
    ((lhs + rhs) % 0x1_0000) as u16
}

/// `(lhs - rhs) mod 65536`.
pub open spec fn diff16(lhs: u16, rhs: u16) -> u16 {
    ((lhs - rhs) % 0x1_0000) as u16
}

/// Adding the low nibbles carries out of bit 3.
pub open spec fn add_half_carry(lhs: u8, rhs: u8) -> bool {
    lhs % 16 + rhs % 16 >= 16
}

/// Adding the bytes carries out of bit 7.
pub open spec fn add_carry(lhs: u8, rhs: u8) -> bool {
    lhs + rhs >= 256
}

/// Subtracting the low nibbles borrows from bit 4.
pub open spec fn sub_half_borrow(lhs: u8, rhs: u8) -> bool {
    lhs % 16 < rhs % 16
}

/// Subtracting the bytes borrows from beyond bit 7.
pub open spec fn sub_borrow(lhs: u8, rhs: u8) -> bool {
    lhs < rhs
}

/// Adding two 16-bit values carries out of bit 11.
pub open spec fn add16_half_carry(lhs: u16, rhs: u16) -> bool {
    lhs % 0x1000 + rhs % 0x1000 >= 0x1000
}

/// Adding two 16-bit values carries out of bit 15.
pub open spec fn add16_carry(lhs: u16, rhs: u16) -> bool {
    lhs + rhs >= 0x1_0000
}

/// The low four bits of a byte are its remainder modulo 16.
pub proof fn lemma_low_nibble(value: u8)
    by (bit_vector)
    ensures
        value & 0xf == value % 16,
{
}

/// The low twelve bits of a 16-bit value are its remainder modulo 4096.
pub proof fn lemma_low_twelve_bits(value: u16)
    by (bit_vector)
    ensures
        value & 0xfff == value % 0x1000,
{
}

} // verus!
