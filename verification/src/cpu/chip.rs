//! The emulator's state as it is held in memory, and the memory bus.

use vstd::prelude::*;
pub use crate::cpu::flags::Flags;
use crate::cpu::machine::Machine;
use crate::cpu::memory::Region;

verus! {

/// The processor with its registers, the opcode it has fetched and the
/// banks of memory behind its bus.
#[derive(Debug, PartialEq, Eq)]
pub struct Chip {
    /// The accumulator.
    pub a: u8,
    /// The general registers, paired as BC, DE and HL for 16-bit operands.
    pub b: u8,
    pub c: u8,
    pub d: u8,
    pub e: u8,
    pub h: u8,
    pub l: u8,
    /// The opcode that the last fetch read.
    pub instr: u8,
    /// The stack pointer.
    pub sp: u16,
    /// The program counter: the address of the next byte to fetch.
    pub pc: u16,
    /// The byte after the opcode: the first, low, immediate byte.
    pub byte2: u8,
    /// The second byte after the opcode: the high immediate byte.
    pub byte3: u8,
    /// The condition bits.
    pub flags: Flags,
    /// The fixed ROM bank, behind 0x0000..=0x3FFF.
    pub rom_bank_0: [u8; 16384],
    /// The switchable ROM bank, behind 0x4000..=0x7FFF.
    pub rom_bank_n: [u8; 16384],
    /// The external RAM bank, behind 0xA000..=0xBFFF.
    pub external_ram_bank_n: [u8; 8192],
    /// Work RAM bank 0, behind 0xC000..=0xCFFF.
    pub wram_bank_0: [u8; 4096],
    /// The switchable work RAM bank, behind 0xD000..=0xDFFF.
    pub wram_bank_n: [u8; 4096],
    /// The cartridge image as it was loaded.
    pub rom: Vec<u8>,
}

/// The byte that stands at `address` when the five banks hold the given
/// bytes: taken from the bank behind the address, or the idle byte of a
/// region that has none.
pub open spec fn bus_byte(
    rom_bank_0: Seq<u8>,
    rom_bank_n: Seq<u8>,
    external_ram_bank_n: Seq<u8>,
    wram_bank_0: Seq<u8>,
    wram_bank_n: Seq<u8>,
    address: u16,
) -> u8 {
    let region = Region::spec_of(address);
    let offset: int = address - region.base();
    match region {
        Region::RomBank0 => rom_bank_0[offset],
        Region::RomBankN => rom_bank_n[offset],
        Region::ExternalRam => external_ram_bank_n[offset],
        Region::WorkRam0 => wram_bank_0[offset],
        Region::WorkRamN => wram_bank_n[offset],
        _ => region.idle_byte(),
    }
}

/// The whole address space as the bus presents it over the five banks.
pub open spec fn bus_image(
    rom_bank_0: Seq<u8>,
    rom_bank_n: Seq<u8>,
    external_ram_bank_n: Seq<u8>,
    wram_bank_0: Seq<u8>,
    wram_bank_n: Seq<u8>,
) -> Seq<u8> {
    Seq::new(
        0x1_0000,
        |address: int|
            bus_byte(
                rom_bank_0,
                rom_bank_n,
                external_ram_bank_n,
                wram_bank_0,
                wram_bank_n,
                address as u16,
            ),
    )
}

impl View for Chip {
    type V = Machine;

    open spec fn view(&self) -> Machine {
        Machine {
            a: self.a,
            b: self.b,
            c: self.c,
            d: self.d,
            e: self.e,
            h: self.h,
            l: self.l,
            instr: self.instr,
            sp: self.sp,
            pc: self.pc,
            byte2: self.byte2,
            byte3: self.byte3,
            flags: self.flags,
            mem: bus_image(
                self.rom_bank_0@,
                self.rom_bank_n@,
                self.external_ram_bank_n@,
                self.wram_bank_0@,
                self.wram_bank_n@,
            ),
            rom: self.rom@,
        }
    }
}

impl Clone for Chip {
    /// A second chip in the same state.
    fn clone(&self) -> (copy: Chip)
        ensures
            copy@ == self@,
    {
        let rom: Vec<u8> = self.rom.clone();
        assert(rom@ =~= self.rom@);
        Chip {
            a: self.a,
            b: self.b,
            c: self.c,
            d: self.d,
            e: self.e,
            h: self.h,
            l: self.l,
            instr: self.instr,
            sp: self.sp,
            pc: self.pc,
            byte2: self.byte2,
            byte3: self.byte3,
            flags: self.flags,
            rom_bank_0: self.rom_bank_0,
            rom_bank_n: self.rom_bank_n,
            external_ram_bank_n: self.external_ram_bank_n,
            wram_bank_0: self.wram_bank_0,
            wram_bank_n: self.wram_bank_n,
            rom,
        }
    }
}

impl Chip {
    /// The model of every chip is well formed.
    pub proof fn lemma_view_wf(&self)
        ensures
            self@.wf(),
    {
    }

    /// A chip in its power-on state: every register, flag and byte of
    /// memory is zero, and no image is loaded.
    pub fn new() -> (chip: Chip)
        ensures
            chip@ == Machine::power_on(),
    {
        let chip = Chip {
            a: 0,
            b: 0,
            c: 0,
            d: 0,
            e: 0,
            h: 0,
            l: 0,
            instr: 0,
            sp: 0,
            pc: 0,
            byte2: 0,
            byte3: 0,
            flags: Flags::new(),
            rom_bank_0: [0;16384],
            rom_bank_n: [0;16384],
            external_ram_bank_n: [0;8192],
            wram_bank_0: [0;4096],
            wram_bank_n: [0;4096],
            rom: Vec::new(),
        };
        assert(chip@.mem =~= Machine::power_on().mem);
        chip
    }

    /// Reads the byte at address `pc` through the bus.
    pub fn read_memory(&self, pc: u16) -> (value: u8)
        ensures
            value == self@.read(pc),
    {
        match Region::of(pc) {
            Region::RomBank0 => self.rom_bank_0[pc as usize],
            Region::RomBankN => self.rom_bank_n[(pc - 0x4000) as usize],
            Region::ExternalRam => self.external_ram_bank_n[(pc - 0xA000) as usize],
            Region::WorkRam0 => self.wram_bank_0[(pc - 0xC000) as usize],
            Region::WorkRamN => self.wram_bank_n[(pc - 0xD000) as usize],
            Region::Unmapped => 0xFF,
            _ => 0x00,
        }
    }

    /// Writes `value` to address `pc` through the bus. A write to a region
    /// without a bank is discarded.
    pub fn write_memory(&mut self, pc: u16, value: u8)
        ensures
            final(self)@ == old(self)@.write(pc, value),
    {
        match Region::of(pc) {
            Region::RomBank0 => {
                self.rom_bank_0[pc as usize] = value;
            },
            Region::RomBankN => {
                self.rom_bank_n[(pc - 0x4000) as usize] = value;
            },
            Region::ExternalRam => {
                self.external_ram_bank_n[(pc - 0xA000) as usize] = value;
            },
            Region::WorkRam0 => {
                self.wram_bank_0[(pc - 0xC000) as usize] = value;
            },
            Region::WorkRamN => {
                self.wram_bank_n[(pc - 0xD000) as usize] = value;
            },
            _ => {},
        }
        assert(self@.mem =~= old(self)@.write(pc, value).mem);
    }
}

} // verus!
