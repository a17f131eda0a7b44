use sm83_core::cpu::chip::{Chip, Flags};
use sm83_core::cpu::decode::DecodeError;

fn chip_with_program(program: &[u8]) -> Chip {
    let mut rom: Vec<u8> = vec![0; 0x4000];
    rom[0x0100..0x0100 + program.len()].copy_from_slice(program);
    let mut chip = Chip::new();
    assert_eq!(chip.load_rom(rom), Ok(()));
    chip
}

#[test]
fn fetch_latches_three_bytes_and_steps_pc_by_one() {
    let mut chip = chip_with_program(&[0x01, 0x34, 0x12, 0x3E, 0x00]);
    let before = chip.clone();
    chip.fetch();
    assert_eq!((chip.instr, chip.byte2, chip.byte3), (0x01, 0x34, 0x12));
    assert_eq!(chip.pc, 0x0101);
    let mut expected = before;
    expected.instr = 0x01;
    expected.byte2 = 0x34;
    expected.byte3 = 0x12;
    expected.pc = 0x0101;
    assert_eq!(chip, expected);
}

#[test]
fn fetch_wraps_at_the_top_of_the_address_space() {
    let mut chip = Chip::new();
    chip.write_memory(0x0000, 0xAA);
    chip.write_memory(0x0001, 0xBB);
    chip.pc = 0xFFFF;
    chip.fetch();
    assert_eq!((chip.instr, chip.byte2, chip.byte3), (0x00, 0xAA, 0xBB));
    assert_eq!(chip.pc, 0x0000);

    chip.pc = 0xFFFE;
    chip.fetch();
    assert_eq!((chip.instr, chip.byte2, chip.byte3), (0x00, 0x00, 0xAA));
    assert_eq!(chip.pc, 0xFFFF);
}

#[test]
fn ld_bc_1234_from_rom_at_0100() {
    let mut chip = chip_with_program(&[0x01, 0x34, 0x12, 0x3E, 0x00]);
    assert_eq!(chip.pc, 0x0100);
    chip.fetch();
    assert_eq!(chip.execute(), Ok(()));
    assert_eq!(chip.b, 0x12);
    assert_eq!(chip.c, 0x34);
    assert_eq!(chip.pc, 0x0103);

    chip.fetch();
    assert_eq!((chip.instr, chip.byte2), (0x3E, 0x00));
    assert_eq!(chip.execute(), Ok(()));
    assert_eq!(chip.a, 0x00);
    assert_eq!((chip.b, chip.c), (0x12, 0x34));
}

#[test]
fn ld_u16_sp_steps_over_its_immediate() {
    let mut chip = chip_with_program(&[0x08, 0x10, 0xC0]);
    chip.sp = 0xCAFE;
    chip.fetch();
    assert_eq!(chip.execute(), Ok(()));
    assert_eq!(chip.read_memory(0xC010), 0xFE);
    assert_eq!(chip.read_memory(0xC011), 0xCA);
    assert_eq!(chip.pc, 0x0103);
}

#[test]
fn the_advance_over_an_immediate_wraps() {
    let mut chip = Chip::new();
    chip.instr = 0x31;
    chip.byte2 = 0xFE;
    chip.byte3 = 0xFF;
    chip.pc = 0xFFFF;
    assert_eq!(chip.execute(), Ok(()));
    assert_eq!(chip.sp, 0xFFFE);
    assert_eq!(chip.pc, 0x0001);
}

#[test]
fn nop_and_halt_change_nothing() {
    for opcode in [0x00u8, 0x76] {
        let mut chip = Chip::new();
        chip.instr = opcode;
        chip.pc = 0x0101;
        chip.a = 0x33;
        chip.flags = Flags { zero: true, n: false, h: true, carry: false };
        let before = chip.clone();
        assert_eq!(chip.execute(), Ok(()));
        assert_eq!(chip, before);
    }
}

#[test]
fn execute_jr_back_by_two_from_0150() {
    let mut chip = Chip::new();
    chip.instr = 0x18;
    chip.byte2 = 0xFE;
    chip.pc = 0x0150;
    assert_eq!(chip.execute(), Ok(()));
    assert_eq!(chip.pc, 0x014E);
}

#[test]
fn execute_jr_cond_takes_the_condition_from_the_opcode() {
    let cases: [(u8, bool, bool, bool); 8] = [
        (0x20, false, false, true),
        (0x20, true, false, false),
        (0x28, false, false, false),
        (0x28, true, false, true),
        (0x30, false, false, true),
        (0x30, false, true, false),
        (0x38, false, false, false),
        (0x38, false, true, true),
    ];
    for (opcode, zero, carry, taken) in cases {
        let mut chip = Chip::new();
        chip.instr = opcode;
        chip.byte2 = 0x05;
        chip.pc = 0x0150;
        chip.flags.zero = zero;
        chip.flags.carry = carry;
        assert_eq!(chip.execute(), Ok(()));
        assert_eq!(chip.pc, if taken { 0x0155 } else { 0x0150 }, "opcode {:#04X}", opcode);
    }
}

#[test]
fn execute_selects_the_pair_of_a_16_bit_instruction() {
    for (opcode, code) in [(0x01u8, 0u8), (0x11, 2), (0x21, 4), (0x31, 6)] {
        let mut chip = Chip::new();
        chip.instr = opcode;
        chip.byte2 = 0xCD;
        chip.byte3 = 0xAB;
        assert_eq!(chip.execute(), Ok(()));
        assert_eq!(chip.get_r16_register_address(code), 0xABCD);
    }
    for (opcode, code) in [(0x03u8, 0u8), (0x13, 2), (0x23, 4), (0x33, 6)] {
        let mut chip = Chip::new();
        chip.instr = opcode;
        assert_eq!(chip.execute(), Ok(()));
        assert_eq!(chip.get_r16_register_address(code), 0x0001);
        chip.instr = opcode + 8;
        assert_eq!(chip.execute(), Ok(()));
        assert_eq!(chip.execute(), Ok(()));
        assert_eq!(chip.get_r16_register_address(code), 0xFFFF);
    }
    let mut chip = Chip::new();
    chip.h = 0x10;
    chip.d = 0x02;
    chip.e = 0x03;
    chip.instr = 0x19;
    assert_eq!(chip.execute(), Ok(()));
    assert_eq!((chip.h, chip.l), (0x12, 0x03));
}

#[test]
fn execute_stores_and_loads_a_through_the_pairs() {
    let mut chip = Chip::new();
    chip.a = 0x77;
    chip.h = 0xC0;
    chip.l = 0x00;
    chip.instr = 0x22;
    assert_eq!(chip.execute(), Ok(()));
    assert_eq!(chip.read_memory(0xC000), 0x77);
    assert_eq!((chip.h, chip.l), (0xC0, 0x01));
    chip.a = 0x88;
    chip.instr = 0x32;
    assert_eq!(chip.execute(), Ok(()));
    assert_eq!(chip.read_memory(0xC001), 0x88);
    assert_eq!((chip.h, chip.l), (0xC0, 0x00));
    chip.instr = 0x2A;
    assert_eq!(chip.execute(), Ok(()));
    assert_eq!(chip.a, 0x77);
    assert_eq!((chip.h, chip.l), (0xC0, 0x01));
    chip.instr = 0x3A;
    assert_eq!(chip.execute(), Ok(()));
    assert_eq!(chip.a, 0x88);
    assert_eq!((chip.h, chip.l), (0xC0, 0x00));
    chip.b = 0xC0;
    chip.c = 0x01;
    chip.a = 0x00;
    chip.instr = 0x0A;
    assert_eq!(chip.execute(), Ok(()));
    assert_eq!(chip.a, 0x88);
    chip.d = 0xC0;
    chip.e = 0x02;
    chip.instr = 0x12;
    assert_eq!(chip.execute(), Ok(()));
    assert_eq!(chip.read_memory(0xC002), 0x88);
}

#[test]
fn execute_inc_dec_and_load_select_the_operand_from_the_middle_field() {
    let mut chip = Chip::new();
    chip.instr = 0x3C;
    assert_eq!(chip.execute(), Ok(()));
    assert_eq!(chip.a, 1);
    chip.instr = 0x05;
    assert_eq!(chip.execute(), Ok(()));
    assert_eq!(chip.b, 0xFF);
    assert_eq!(chip.flags, Flags { zero: false, n: true, h: true, carry: false });
    chip.instr = 0x1E;
    chip.byte2 = 0x42;
    chip.pc = 0x0101;
    assert_eq!(chip.execute(), Ok(()));
    assert_eq!(chip.e, 0x42);
    assert_eq!(chip.pc, 0x0101);
}

#[test]
fn execute_ld_r8_r8_moves_source_to_destination() {
    let mut chip = Chip::new();
    chip.c = 0x5C;
    chip.instr = 0x41;
    assert_eq!(chip.execute(), Ok(()));
    assert_eq!((chip.b, chip.c), (0x5C, 0x5C));
    chip.h = 0xC0;
    chip.l = 0x08;
    chip.instr = 0x70;
    assert_eq!(chip.execute(), Ok(()));
    assert_eq!(chip.read_memory(0xC008), 0x5C);
    chip.instr = 0x7E;
    assert_eq!(chip.execute(), Ok(()));
    assert_eq!(chip.a, 0x5C);
}

#[test]
fn execute_alu_selects_operation_and_operand() {
    let mut chip = Chip::new();
    chip.a = 0x3C;
    chip.b = 0x12;
    chip.instr = 0x80;
    assert_eq!(chip.execute(), Ok(()));
    assert_eq!(chip.a, 0x4E);
    chip.instr = 0xAF;
    assert_eq!(chip.execute(), Ok(()));
    assert_eq!(chip.a, 0x00);
    assert_eq!(chip.flags, Flags { zero: true, n: false, h: false, carry: false });
    chip.d = 0x01;
    chip.instr = 0x92;
    assert_eq!(chip.execute(), Ok(()));
    assert_eq!(chip.a, 0xFF);
    assert_eq!(chip.flags, Flags { zero: false, n: true, h: true, carry: true });
    chip.l = 0xFF;
    chip.instr = 0xBD;
    assert_eq!(chip.execute(), Ok(()));
    assert_eq!(chip.a, 0xFF);
    assert_eq!(chip.flags, Flags { zero: true, n: true, h: false, carry: false });
}

#[test]
fn a_program_runs_until_an_opcode_is_refused() {
    let mut chip = chip_with_program(&[
        0x21, 0x00, 0xC0, // LD HL,0xC000
        0x3C, // INC A
        0x22, // LD (HL+),A
        0x3C, // INC A
        0x22, // LD (HL+),A
        0x00, // NOP
        0xC3, // JP u16
    ]);
    let mut steps = 0;
    let refused = loop {
        chip.fetch();
        match chip.execute() {
            Ok(()) => steps += 1,
            Err(error) => break error,
        }
    };
    assert_eq!(steps, 6);
    assert_eq!(refused, DecodeError::Unimplemented { opcode: 0xC3 });
    assert_eq!(chip.read_memory(0xC000), 1);
    assert_eq!(chip.read_memory(0xC001), 2);
    assert_eq!((chip.h, chip.l, chip.a), (0xC0, 0x02, 2));
    assert_eq!(chip.pc, 0x0109);
}
