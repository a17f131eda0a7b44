use sm83_core::cpu::chip::Chip;
use sm83_core::cpu::rom::{RomError, ENTRY_POINT, ROM_BANK_SIZE};

fn image(length: usize) -> Vec<u8> {
    (0..length).map(|index| (index % 251) as u8 + 1).collect()
}

#[test]
fn an_image_of_one_bank_fills_the_fixed_bank() {
    let rom = image(0x4000);
    let mut chip = Chip::new();
    chip.write_memory(0x4000, 0xEE);
    chip.write_memory(0xC000, 0xDD);
    assert_eq!(chip.load_rom(rom.clone()), Ok(()));
    assert_eq!(chip.pc, 0x0100);
    assert_eq!(&chip.rom_bank_0[..], &rom[..]);
    assert_eq!(chip.read_memory(0x4000), 0xEE);
    assert_eq!(chip.read_memory(0x4001), 0x00);
    assert_eq!(chip.read_memory(0xC000), 0xDD);
    assert_eq!(chip.rom, rom);
    for address in 0u16..0x4000 {
        assert_eq!(chip.read_memory(address), rom[address as usize]);
    }
}

#[test]
fn an_image_of_two_banks_fills_both() {
    let rom = image(0x8000);
    let mut chip = Chip::new();
    assert_eq!(chip.load_rom(rom.clone()), Ok(()));
    assert_eq!(&chip.rom_bank_0[..], &rom[..0x4000]);
    assert_eq!(&chip.rom_bank_n[..], &rom[0x4000..]);
    for address in 0u16..0x8000 {
        assert_eq!(chip.read_memory(address), rom[address as usize]);
    }
    assert_eq!(chip.read_memory(0x8000), 0x00);
    assert_eq!(chip.pc, ENTRY_POINT);
}

#[test]
fn an_image_that_ends_inside_the_second_bank_fills_it_as_far_as_it_reaches() {
    let rom = image(0x4000 + 100);
    let mut chip = Chip::new();
    chip.write_memory(0x4000 + 99, 0xEE);
    chip.write_memory(0x4000 + 100, 0xEE);
    assert_eq!(chip.load_rom(rom.clone()), Ok(()));
    assert_eq!(&chip.rom_bank_n[..100], &rom[0x4000..]);
    assert_eq!(chip.read_memory(0x4000 + 99), rom[0x4000 + 99]);
    assert_eq!(chip.read_memory(0x4000 + 100), 0xEE);
    assert!(chip.rom_bank_n[101..].iter().all(|byte| *byte == 0));
}

#[test]
fn an_image_longer_than_two_banks_is_cut_at_32768_bytes() {
    let rom = image(0x8000 + 5000);
    let mut chip = Chip::new();
    assert_eq!(chip.load_rom(rom.clone()), Ok(()));
    assert_eq!(&chip.rom_bank_0[..], &rom[..0x4000]);
    assert_eq!(&chip.rom_bank_n[..], &rom[0x4000..0x8000]);
    assert_eq!(chip.read_memory(0x8000), 0x00);
    assert_eq!(chip.read_memory(0xA000), 0x00);
    assert_eq!(chip.rom.len(), 0x8000 + 5000);
}

#[test]
fn a_short_image_is_refused_and_changes_nothing() {
    for length in [0usize, 1, 5, 0x3FFF] {
        let mut chip = Chip::new();
        chip.pc = 0x0042;
        chip.write_memory(0x0000, 0x99);
        let before = chip.clone();
        assert_eq!(chip.load_rom(image(length)), Err(RomError::TooShort { length }));
        assert_eq!(chip, before);
    }
}

#[test]
fn loading_keeps_registers_and_flags() {
    let mut chip = Chip::new();
    chip.a = 1;
    chip.sp = 0xFFFE;
    chip.flags.zero = true;
    chip.instr = 0x76;
    assert_eq!(chip.load_rom(image(ROM_BANK_SIZE)), Ok(()));
    assert_eq!((chip.a, chip.sp, chip.flags.zero, chip.instr), (1, 0xFFFE, true, 0x76));
    assert_eq!(chip.pc, 0x0100);
}

#[test]
fn a_second_image_replaces_the_first() {
    let first = image(0x8000);
    let second: Vec<u8> = vec![0x5A; 0x4000];
    let mut chip = Chip::new();
    assert_eq!(chip.load_rom(first.clone()), Ok(()));
    assert_eq!(chip.load_rom(second.clone()), Ok(()));
    assert_eq!(&chip.rom_bank_0[..], &second[..]);
    assert_eq!(&chip.rom_bank_n[..], &first[0x4000..]);
    assert_eq!(chip.rom, second);
}
