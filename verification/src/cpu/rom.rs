//! Loading a cartridge image into the two ROM banks.

use vstd::prelude::*;
use crate::cpu::chip::Chip;
use crate::cpu::machine::Machine;

verus! {

/// The size of one ROM bank in bytes.
pub const ROM_BANK_SIZE: usize = 0x4000;

/// The address at which a loaded program starts.
pub const ENTRY_POINT: u16 = 0x0100;

/// Why a cartridge image was refused.
#[derive(Clone, Copy, Debug, PartialEq, Eq, Structural)]
pub enum RomError {
    /// The image does not fill the fixed ROM bank.
    TooShort { length: usize },
}

impl Machine {
    /// The machine after `image` was loaded: the image lies over the
    /// addresses from 0 up to its own length, or up to 0x8000 where it is
    /// longer; the rest of memory is as before; the program counter stands
    /// at the entry point.
    pub open spec fn load_rom(self, image: Seq<u8>) -> Machine {
        Machine {
            pc: ENTRY_POINT,
            mem: Seq::new(
                0x1_0000,
                |address: int|
                    if address < image.len() && address < 2 * ROM_BANK_SIZE {
                        image[address]
                    } else {
                        self.mem[address]
                    },
            ),
            rom: image,
            ..self
        }
    }
}

impl Chip {
    /// Loads a cartridge image: its first 16384 bytes fill the fixed ROM
    /// bank, what follows them fills the switchable bank as far as it
    /// reaches, and the program counter is set to the entry point. An image
    /// of fewer than 16384 bytes is refused and changes nothing.
    pub fn load_rom(&mut self, image: Vec<u8>) -> (result: Result<(), RomError>)
        ensures
            image@.len() < ROM_BANK_SIZE ==> result == Err::<(), RomError>(
                RomError::TooShort { length: image@.len() as usize },
            ) && final(self)@ == old(self)@,
            image@.len() >= ROM_BANK_SIZE ==> result == Ok::<(), RomError>(()) && final(self)@
                == old(self)@.load_rom(image@),
    {
        let length: usize = image.len();
        if length < ROM_BANK_SIZE {
            return Err(RomError::TooShort { length });
        }
        let mut i: usize = 0;
        while i < ROM_BANK_SIZE
            invariant
                i <= ROM_BANK_SIZE <= length == image@.len(),
                *self == (Chip { rom_bank_0: self.rom_bank_0, ..*old(self) }),
                forall|k: int| 0 <= k < i ==> self.rom_bank_0@[k] == image@[k],
                forall|k: int| i <= k < ROM_BANK_SIZE ==> self.rom_bank_0@[k] == old(self).rom_bank_0@[k],
            decreases ROM_BANK_SIZE - i,
        {
            self.rom_bank_0[i] = image[i];
            i += 1;
        }
        let ghost filled = *self;
        let rest: usize = if length - ROM_BANK_SIZE < ROM_BANK_SIZE {
            length - ROM_BANK_SIZE
        } else {
            ROM_BANK_SIZE
        };
        let mut j: usize = 0;
        while j < rest
            invariant
                j <= rest <= ROM_BANK_SIZE,
                rest + ROM_BANK_SIZE <= length == image@.len(),
                *self == (Chip { rom_bank_n: self.rom_bank_n, ..filled }),
                forall|k: int| 0 <= k < j ==> self.rom_bank_n@[k] == image@[ROM_BANK_SIZE + k],
                forall|k: int| j <= k < ROM_BANK_SIZE ==> self.rom_bank_n@[k] == filled.rom_bank_n@[k],
            decreases rest - j,
        {
            self.rom_bank_n[j] = image[ROM_BANK_SIZE + j];
            j += 1;
        }
        self.rom = image;
        self.pc = ENTRY_POINT;
        assert(self@.mem =~= old(self)@.load_rom(image@).mem);
        Ok(())
    }
}

} // verus!
