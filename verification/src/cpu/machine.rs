//! The machine as mathematics: the state that every contract speaks of.

use vstd::prelude::*;
use crate::cpu::flags::{diff16, sum16, Flags};
use crate::cpu::memory::Region;

verus! {

/// The state of the processor and of the memory it sees.
///
/// The registers, the flags and the latched opcode with its two immediate
/// bytes are those of the chip. `mem` is the address space as the bus
/// presents it, one byte for each of the 65536 addresses; `rom` is the
/// cartridge image that was loaded.
pub struct Machine {
    pub a: u8,
    pub b: u8,
    pub c: u8,
    pub d: u8,
    pub e: u8,
    pub h: u8,
    pub l: u8,
    pub instr: u8,
    pub sp: u16,
    pub pc: u16,
    pub byte2: u8,
    pub byte3: u8,
    pub flags: Flags,
    pub mem: Seq<u8>,
    pub rom: Seq<u8>,
}

/// The 16-bit value of a register pair, high byte first.
pub open spec fn pair(high: u8, low: u8) -> u16 {
    (high * 256 + low) as u16
}

/// The high byte of a 16-bit value.
pub open spec fn high_byte(value: u16) -> u8 {
    (value / 256) as u8
}

/// The low byte of a 16-bit value.
pub open spec fn low_byte(value: u16) -> u8 {
    (value % 256) as u8
}

impl Machine {
    /// The machine at power-on: registers and flags zero, every byte of
    /// memory at rest, no image loaded.
    pub open spec fn power_on() -> Machine {
        Machine {
            a: 0,
            b: 0,
            c: 0,
            d: 0,
            e: 0,
            h: 0,
            l: 0,
            instr: 0,
            sp: 0,
            pc: 0,
            byte2: 0,
            byte3: 0,
            flags: Flags::cleared(),
            mem: Seq::new(
                0x1_0000,
                |address: int|
                    if Region::spec_of(address as u16) is Unmapped {
                        0xFFu8
                    } else {
                        0u8
                    },
            ),
            rom: Seq::empty(),
        }
    }

    /// The address space has its full size, and an address without a bank
    /// behind it shows the idle byte of its region.
    pub open spec fn wf(self) -> bool {
        &&& self.mem.len() == 0x1_0000
        &&& forall|address: u16|
            !Region::spec_of(address).is_backed() ==> #[trigger] self.mem[address as int]
                == Region::spec_of(address).idle_byte()
    }

    /// The byte that the bus returns for `address`.
    pub open spec fn read(self, address: u16) -> u8 {
        self.mem[address as int]
    }

    /// The machine after `value` was written to `address`: stored where a
    /// bank stands behind the address, discarded elsewhere.
    pub open spec fn write(self, address: u16, value: u8) -> Machine {
        if Region::spec_of(address).is_backed() {
            Machine { mem: self.mem.update(address as int, value), ..self }
        } else {
            self
        }
    }

    /// The register pair BC.
    pub open spec fn bc(self) -> u16 {
        pair(self.b, self.c)
    }

    /// The register pair DE.
    pub open spec fn de(self) -> u16 {
        pair(self.d, self.e)
    }

    /// The register pair HL.
    pub open spec fn hl(self) -> u16 {
        pair(self.h, self.l)
    }

    /// The 16-bit immediate that follows the opcode, low byte first.
    pub open spec fn imm16(self) -> u16 {
        pair(self.byte3, self.byte2)
    }

    /// The 8-bit operand that a 3-bit code selects: B, C, D, E, H, L, the
    /// byte in memory at HL (code 6), A.
    pub open spec fn r8(self, code: u8) -> u8 {
        match code {
            0 => self.b,
            1 => self.c,
            2 => self.d,
            3 => self.e,
            4 => self.h,
            5 => self.l,
            6 => self.read(self.hl()),
            _ => self.a,
        }
    }

    /// The machine after `value` was stored in the 8-bit operand that `code`
    /// selects; code 6 stores through HL.
    pub open spec fn set_r8(self, code: u8, value: u8) -> Machine {
        match code {
            0 => Machine { b: value, ..self },
            1 => Machine { c: value, ..self },
            2 => Machine { d: value, ..self },
            3 => Machine { e: value, ..self },
            4 => Machine { h: value, ..self },
            5 => Machine { l: value, ..self },
            6 => self.write(self.hl(), value),
            _ => Machine { a: value, ..self },
        }
    }

    /// The 16-bit register that a 3-bit code selects by its upper two bits:
    /// BC, DE, HL, SP.
    pub open spec fn r16(self, code: u8) -> u16 {
        match code / 2 {
            0 => self.bc(),
            1 => self.de(),
            2 => self.hl(),
            _ => self.sp,
        }
    }

    /// The machine after `value` was stored in the 16-bit register that
    /// `code` selects: the high byte in the first register of a pair, the
    /// low byte in the second.
    pub open spec fn set_r16(self, code: u8, value: u16) -> Machine {
        match code / 2 {
            0 => Machine { b: high_byte(value), c: low_byte(value), ..self },
            1 => Machine { d: high_byte(value), e: low_byte(value), ..self },
            2 => Machine { h: high_byte(value), l: low_byte(value), ..self },
            _ => Machine { sp: value, ..self },
        }
    }

    /// The address that a 3-bit code selects by its upper two bits for a
    /// load or store of A: BC, DE, HL, HL.
    pub open spec fn r16mem_address(self, code: u8) -> u16 {
        match code / 2 {
            0 => self.bc(),
            1 => self.de(),
            _ => self.hl(),
        }
    }

    /// The machine after the address was taken: HL one higher for the third
    /// code pair, one lower for the fourth, both modulo 65536.
    pub open spec fn r16mem_advance(self, code: u8) -> Machine {
        match code / 2 {
            2 => self.set_r16(4, sum16(self.hl(), 1)),
            3 => self.set_r16(4, diff16(self.hl(), 1)),
            _ => self,
        }
    }
}

} // verus!
