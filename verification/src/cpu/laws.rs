//! Laws of the instruction set and of the memory bus, proved over the
//! model of the machine.

use vstd::prelude::*;
use crate::cpu::decode::{field2, field3, Instruction};
use crate::cpu::flags::{add_half_carry, diff16, diff8, lemma_low_nibble, sum16, sum8, Flags};
use crate::cpu::jumps::jump_target;
use crate::cpu::machine::{high_byte, low_byte, Machine};
use crate::cpu::memory::Region;
use crate::cpu::rom::{ENTRY_POINT, ROM_BANK_SIZE};

verus! {

/// INC followed by DEC on the same 8-bit operand brings the operand back to
/// the value it had and leaves the carry flag as it was. Where the operand
/// is a register, or a byte of memory with a bank behind it, nothing but the
/// other three flags differs from the machine before the two instructions.
pub proof fn lemma_inc_then_dec_r8(machine: Machine, code: u8)
    requires
        machine.wf(),
        code <= 7,
    ensures
        machine.inc_r8(code).dec_r8(code).r8(code) == machine.r8(code),
        machine.inc_r8(code).dec_r8(code).flags.carry == machine.flags.carry,
        code != 6 || Region::spec_of(machine.hl()).is_backed() ==> machine.inc_r8(code).dec_r8(
            code,
        ) == (Machine {
            flags: Flags {
                zero: machine.r8(code) == 0,
                n: true,
                h: add_half_carry(machine.r8(code), 1),
                carry: machine.flags.carry,
            },
            ..machine
        }),
{
    let after = machine.inc_r8(code).dec_r8(code);
    assert(after.mem =~= machine.mem);
}

/// ADD A,r8 with A = a and the operand = b leaves A = (a + b) mod 256,
/// Carry = (a + b >= 256), HalfCarry = ((a & 0xF) + (b & 0xF) >= 0x10),
/// Zero = (the new A is 0) and Subtract clear.
pub proof fn lemma_add_a_r8(machine: Machine, code: u8)
    requires
        code <= 7,
    ensures
        machine.add_a_r8(code).a == (machine.a + machine.r8(code)) % 256,
        machine.add_a_r8(code).flags.carry == (machine.a + machine.r8(code) >= 256),
        machine.add_a_r8(code).flags.h == ((machine.a & 0xF) + (machine.r8(code) & 0xF)
            >= 0x10),
        machine.add_a_r8(code).flags.zero == (machine.add_a_r8(code).a == 0),
        !machine.add_a_r8(code).flags.n,
{
    lemma_low_nibble(machine.a);
    lemma_low_nibble(machine.r8(code));
}

/// XOR A,A leaves A = 0 with Zero set and the other flags clear, whatever A
/// held.
pub proof fn lemma_xor_a_a(machine: Machine)
    ensures
        machine.xor_a_r8(7).a == 0,
        machine.xor_a_r8(7).flags == (Flags { zero: true, n: false, h: false, carry: false }),
{
    let a: u8 = machine.a;
    assert(a ^ a == 0) by (bit_vector);
}

/// Storing a value in an 8-bit operand and reading the operand back
/// returns the value, where the operand is a register or a byte of memory
/// with a bank behind it.
pub proof fn lemma_set_then_get_r8(machine: Machine, code: u8, value: u8)
    requires
        machine.wf(),
        code <= 7,
        code != 6 || Region::spec_of(machine.hl()).is_backed(),
    ensures
        machine.set_r8(code, value).r8(code) == value,
{
}

/// Storing a value in a 16-bit register and reading the register back
/// returns the value.
pub proof fn lemma_set_then_get_r16(machine: Machine, code: u8, value: u16)
    requires
        code <= 7,
    ensures
        machine.set_r16(code, value).r16(code) == value,
{
}

/// LD r16,u16 followed by a read of the same 16-bit register returns the
/// 16-bit immediate: the second immediate byte times 256 plus the first.
pub proof fn lemma_ld_r16_u16_then_get(machine: Machine, code: u8)
    requires
        code <= 7,
    ensures
        machine.ld_r16_u16(code).r16(code) == machine.imm16(),
        machine.imm16() == machine.byte3 * 256 + machine.byte2,
{
    lemma_set_then_get_r16(machine, code, machine.imm16());
}

/// A conditional relative jump whose condition does not hold changes
/// nothing; in particular JR Z leaves the program counter alone while Zero
/// is clear, and JR C while Carry is clear.
pub proof fn lemma_jr_cond_not_taken(machine: Machine, code: u8)
    requires
        code <= 7,
        !machine.condition(code),
    ensures
        machine.jr_cond(code) == machine,
        machine.jr_cond(code).pc == machine.pc,
{
}

/// JR Z jumps exactly when Zero is set.
pub proof fn lemma_jr_z(machine: Machine)
    ensures
        !machine.flags.zero ==> machine.jr_cond(5) == machine,
        machine.flags.zero ==> machine.jr_cond(5) == machine.jr(),
{
}

/// A relative jump moves the program counter forward by an offset below
/// 128 and back by 256 minus the offset otherwise, modulo 65536, and
/// changes nothing else.
pub proof fn lemma_jr(machine: Machine)
    ensures
        machine.jr() == (Machine { pc: machine.jr().pc, ..machine }),
        machine.byte2 < 128 ==> machine.jr().pc == sum16(machine.pc, machine.byte2 as u16),
        machine.byte2 >= 128 ==> machine.jr().pc == diff16(
            machine.pc,
            (256 - machine.byte2) as u16,
        ),
{
}

/// LD (HL+),A writes A to the address that HL held before the instruction
/// and leaves HL one higher; LD (HL-),A does the same and leaves HL one
/// lower. HL wraps modulo 65536.
pub proof fn lemma_ld_hl_step_a(machine: Machine)
    requires
        machine.wf(),
    ensures
        machine.ld_r16_addr_a(4).hl() == sum16(machine.hl(), 1),
        machine.ld_r16_addr_a(4).mem == machine.write(machine.hl(), machine.a).mem,
        machine.ld_r16_addr_a(6).hl() == diff16(machine.hl(), 1),
        machine.ld_r16_addr_a(6).mem == machine.write(machine.hl(), machine.a).mem,
        Region::spec_of(machine.hl()).is_backed() ==> machine.ld_r16_addr_a(4).read(machine.hl())
            == machine.a && machine.ld_r16_addr_a(6).read(machine.hl()) == machine.a,
{
    lemma_set_then_get_r16(machine, 4, sum16(machine.hl(), 1));
    lemma_set_then_get_r16(machine, 4, diff16(machine.hl(), 1));
}

/// A byte written to an address with a bank behind it is read back from
/// that address; a read after a write to any other address returns the idle
/// byte of the region, whatever was written. Every other address reads as
/// before the write.
pub proof fn lemma_write_then_read(machine: Machine, address: u16, value: u8, other: u16)
    requires
        machine.wf(),
    ensures
        machine.write(address, value).wf(),
        Region::spec_of(address).is_backed() ==> machine.write(address, value).read(address)
            == value,
        !Region::spec_of(address).is_backed() ==> machine.write(address, value).read(address)
            == Region::spec_of(address).idle_byte(),
        other != address ==> machine.write(address, value).read(other) == machine.read(other),
{
}

/// Work RAM bank 0 keeps what is written to it, and video RAM reads as 0
/// whatever is written to it.
pub proof fn lemma_work_ram_and_video_ram(machine: Machine, address: u16, value: u8)
    requires
        machine.wf(),
    ensures
        0xC000 <= address <= 0xCFFF ==> machine.write(address, value).read(address) == value,
        0x8000 <= address <= 0x9FFF ==> machine.write(address, value).read(address) == 0,
{
    lemma_write_then_read(machine, address, value, address);
}

/// The second machine is well formed and differs from the first in
/// nothing that an instruction has no business with: the fetched opcode,
/// its two immediate bytes and the loaded image.
pub open spec fn keeps_latches(before: Machine, after: Machine) -> bool {
    &&& after.wf()
    &&& after.instr == before.instr
    &&& after.byte2 == before.byte2
    &&& after.byte3 == before.byte3
    &&& after.rom == before.rom
}

/// Storing to an 8-bit operand keeps the latches and the program counter.
proof fn lemma_set_r8_frame(machine: Machine, code: u8, value: u8)
    requires
        machine.wf(),
    ensures
        keeps_latches(machine, machine.set_r8(code, value)),
        machine.set_r8(code, value).pc == machine.pc,
{
}

/// Storing to a 16-bit register keeps the latches and the program counter.
proof fn lemma_set_r16_frame(machine: Machine, code: u8, value: u16)
    requires
        machine.wf(),
    ensures
        keeps_latches(machine, machine.set_r16(code, value)),
        machine.set_r16(code, value).pc == machine.pc,
{
}

/// The arithmetic and logic group keeps the latches and the program
/// counter.
proof fn lemma_alu_frame(machine: Machine, opcode: u8, code: u8)
    requires
        machine.wf(),
    ensures
        keeps_latches(machine, machine.alu_a_r8(opcode, code)),
        machine.alu_a_r8(opcode, code).pc == machine.pc,
{
}

/// Loads and stores of A through a register pair keep the latches and the
/// program counter.
proof fn lemma_r16mem_frame(machine: Machine, code: u8)
    requires
        machine.wf(),
    ensures
        keeps_latches(machine, machine.ld_r16_addr_a(code)),
        machine.ld_r16_addr_a(code).pc == machine.pc,
        keeps_latches(machine, machine.ld_a_r16_addr(code)),
        machine.ld_a_r16_addr(code).pc == machine.pc,
{
    lemma_set_r16_frame(machine, 4, sum16(machine.hl(), 1));
    lemma_set_r16_frame(machine, 4, diff16(machine.hl(), 1));
}

/// The handler of the fetched instruction keeps the latches. A relative
/// jump sets the program counter to its target, a conditional one only
/// where its condition holds; every other handler leaves it alone.
proof fn lemma_handle_frame(machine: Machine)
    requires
        machine.wf(),
    ensures
        keeps_latches(machine, machine.handle()),
        machine.instruction() is Jr ==> machine.handle().pc == jump_target(
            machine.pc,
            machine.byte2,
        ),
        machine.instruction() is JrCond && machine.condition(field2(machine.instr))
            ==> machine.handle().pc == jump_target(machine.pc, machine.byte2),
        machine.instruction() is JrCond && !machine.condition(field2(machine.instr))
            ==> machine.handle().pc == machine.pc,
        !(machine.instruction() is Jr) && !(machine.instruction() is JrCond)
            ==> machine.handle().pc == machine.pc,
{
    let operand2: u8 = field2(machine.instr);
    let operand3: u8 = field3(machine.instr);
    match machine.instruction() {
        Instruction::LdImmSp => {
            let first = machine.write(machine.imm16(), low_byte(machine.sp));
            lemma_write_then_read(machine, machine.imm16(), low_byte(machine.sp), 0);
            lemma_write_then_read(first, sum16(machine.imm16(), 1), high_byte(machine.sp), 0);
        },
        Instruction::LdR16Imm => {
            lemma_set_r16_frame(machine, operand2, machine.imm16());
        },
        Instruction::AddHlR16 => {
            let flagged = Machine { flags: machine.add_hl_r16(operand2).flags, ..machine };
            lemma_set_r16_frame(flagged, 4, sum16(machine.r16(operand2), machine.hl()));
        },
        Instruction::LdR16MemA => {
            lemma_r16mem_frame(machine, operand2);
        },
        Instruction::LdAR16Mem => {
            lemma_r16mem_frame(machine, operand2);
        },
        Instruction::IncR16 => {
            lemma_set_r16_frame(machine, operand2, sum16(machine.r16(operand2), 1));
        },
        Instruction::DecR16 => {
            lemma_set_r16_frame(machine, operand2, diff16(machine.r16(operand2), 1));
        },
        Instruction::IncR8 => {
            let flagged = Machine { flags: machine.inc_r8(operand2).flags, ..machine };
            lemma_set_r8_frame(flagged, operand2, sum8(machine.r8(operand2), 1));
        },
        Instruction::DecR8 => {
            let flagged = Machine { flags: machine.dec_r8(operand2).flags, ..machine };
            lemma_set_r8_frame(flagged, operand2, diff8(machine.r8(operand2), 1));
        },
        Instruction::LdR8Imm => {
            lemma_set_r8_frame(machine, operand2, machine.byte2);
        },
        Instruction::LdR8R8 => {
            lemma_set_r8_frame(machine, operand2, machine.r8(operand3));
        },
        Instruction::Alu => {
            lemma_alu_frame(machine, operand2, operand3);
        },
        _ => {},
    }
}

/// Executing an instruction keeps the model well formed and leaves the
/// fetched opcode, its two immediate bytes and the loaded image as they
/// were. A relative jump sets the program counter to its target, a
/// conditional one only where its condition holds; every other instruction
/// moves the program counter by the advance of its family, modulo 65536.
pub proof fn lemma_execute_frame(machine: Machine)
    requires
        machine.wf(),
    ensures
        keeps_latches(machine, machine.execute()),
        machine.instruction() is Jr ==> machine.execute().pc == jump_target(
            machine.pc,
            machine.byte2,
        ),
        machine.instruction() is JrCond && machine.condition(field2(machine.instr))
            ==> machine.execute().pc == jump_target(machine.pc, machine.byte2),
        machine.instruction() is JrCond && !machine.condition(field2(machine.instr))
            ==> machine.execute().pc == machine.pc,
        !(machine.instruction() is Jr) && !(machine.instruction() is JrCond)
            ==> machine.execute().pc == sum16(machine.pc, machine.instruction().spec_advance()),
{
    lemma_handle_frame(machine);
}

/// The first cycle after an image was loaded runs the instruction at the
/// entry point. Where that is LD BC,u16, B holds the byte at 0x0102 of the
/// image, C the byte at 0x0101, and the program counter stands three bytes
/// past the entry point.
pub proof fn lemma_first_cycle_ld_bc(machine: Machine, image: Seq<u8>)
    requires
        machine.wf(),
        image.len() >= ROM_BANK_SIZE,
        image[ENTRY_POINT as int] == 0x01,
    ensures
        machine.load_rom(image).wf(),
        machine.load_rom(image).fetch().instr == 0x01,
        machine.load_rom(image).fetch().execute().b == image[ENTRY_POINT + 2],
        machine.load_rom(image).fetch().execute().c == image[ENTRY_POINT + 1],
        machine.load_rom(image).fetch().execute().pc == ENTRY_POINT + 3,
{
}

/// An opcode is refused exactly when its family is not executed. A
/// refusal changes nothing and names the opcode.
pub proof fn lemma_refusal(machine: Machine)
    ensures
        machine.outcome() is Err <==> !machine.instruction().is_executable(),
        machine.outcome() is Err ==> machine.execute() == machine,
        machine.outcome() matches Err(error) ==> error.spec_opcode() == machine.instr,
{
}

/// The opcodes that are no instruction are 0xDD, 0xE4, 0xEC, 0xED, 0xF4,
/// 0xFC and 0xFD. Below 0xC0 every opcode is executed but STOP (0x10) and
/// the eight opcodes of the first quarter that end in the bits 111; from
/// 0xC0 on none is.
pub proof fn lemma_refused_opcodes(opcode: u8)
    ensures
        Instruction::spec_decode(opcode) is Invalid <==> opcode == 0xDD || opcode == 0xE4
            || opcode == 0xEC || opcode == 0xED || opcode == 0xF4 || opcode == 0xFC || opcode
            == 0xFD,
        Instruction::spec_decode(opcode).is_executable() <==> opcode < 0xC0 && opcode != 0x10
            && !(opcode < 0x40 && opcode % 8 == 7),
{
}

} // verus!
