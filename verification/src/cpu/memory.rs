//! The memory map: which region of the 16-bit address space an address falls in.

use vstd::prelude::*;

verus! {

/// The named regions of the address space. Every address lies in exactly one.
#[derive(Clone, Copy, Debug, PartialEq, Eq, Structural)]
pub enum Region {
    /// 0x0000..=0x3FFF, the fixed ROM bank.
    RomBank0,
    /// 0x4000..=0x7FFF, the switchable ROM bank.
    RomBankN,
    /// 0x8000..=0x9FFF, video RAM; not implemented.
    VideoRam,
    /// 0xA000..=0xBFFF, the external RAM bank.
    ExternalRam,
    /// 0xC000..=0xCFFF, work RAM bank 0.
    WorkRam0,
    /// 0xD000..=0xDFFF, the switchable work RAM bank.
    WorkRamN,
    /// 0xFE00..=0xFE9F, object attribute memory; not implemented.
    ObjectAttributes,
    /// 0xFF00..=0xFF7F, the I/O registers; not implemented.
    IoRegisters,
    /// 0xFF80..=0xFFFE, high RAM; not implemented.
    HighRam,
    /// 0xFFFF, the interrupt enable register; not implemented.
    InterruptEnable,
    /// 0xE000..=0xFDFF and 0xFEA0..=0xFEFF, which the memory map leaves out.
    Unmapped,
}

impl Region {
    /// The region that holds `address`.
    pub open spec fn spec_of(address: u16) -> Region {
        if address <= 0x3FFF {
            Region::RomBank0
        } else if address <= 0x7FFF {
            Region::RomBankN
        } else if address <= 0x9FFF {
            Region::VideoRam
        } else if address <= 0xBFFF {
            Region::ExternalRam
        } else if address <= 0xCFFF {
            Region::WorkRam0
        } else if address <= 0xDFFF {
            Region::WorkRamN
        } else if address <= 0xFDFF {
            Region::Unmapped
        } else if address <= 0xFE9F {
            Region::ObjectAttributes
        } else if address <= 0xFEFF {
            Region::Unmapped
        } else if address <= 0xFF7F {
            Region::IoRegisters
        } else if address <= 0xFFFE {
            Region::HighRam
        } else {
            Region::InterruptEnable
        }
    }

    /// A bank of bytes stands behind the region: what is written there is
    /// read back.
    pub open spec fn is_backed(self) -> bool {
        self is RomBank0 || self is RomBankN || self is ExternalRam || self is WorkRam0
            || self is WorkRamN
    }

    /// The lowest address of a backed region.
    pub open spec fn base(self) -> u16
        recommends
            self.is_backed(),
    {
        match self {
            Region::RomBank0 => 0x0000u16,
            Region::RomBankN => 0x4000u16,
            Region::ExternalRam => 0xA000u16,
            Region::WorkRam0 => 0xC000u16,
            _ => 0xD000u16,
        }
    }

    /// What every read of a region without a bank returns: 0xFF where the
    /// memory map names no region, 0 for a peripheral that is not implemented.
    pub open spec fn idle_byte(self) -> u8
        recommends
            !self.is_backed(),
    {
        if self is Unmapped {
            0xFFu8
        } else {
            0u8
        }
    }

    /// The region that holds `address`.
    #[verifier::when_used_as_spec(spec_of)]
    pub fn of(address: u16) -> (region: Region)
        ensures
            region == Region::spec_of(address),
    {
        match address {
            0x0000..=0x3FFF => Region::RomBank0,
            0x4000..=0x7FFF => Region::RomBankN,
            0x8000..=0x9FFF => Region::VideoRam,
            0xA000..=0xBFFF => Region::ExternalRam,
            0xC000..=0xCFFF => Region::WorkRam0,
            0xD000..=0xDFFF => Region::WorkRamN,
            0xFE00..=0xFE9F => Region::ObjectAttributes,
            0xFF00..=0xFF7F => Region::IoRegisters,
            0xFF80..=0xFFFE => Region::HighRam,
            0xFFFF..=0xFFFF => Region::InterruptEnable,
            _ => Region::Unmapped,
        }
    }
}

} // verus!
