//! The decoder: from an opcode byte to the instruction family it belongs to.

use vstd::prelude::*;

verus! {

/// The instruction families. Every opcode belongs to exactly one.
#[derive(Clone, Copy, Debug, PartialEq, Eq, Structural)]
pub enum Instruction {
    /// NOP.
    Nop,
    /// LD (u16),SP.
    LdImmSp,
    /// JR i8.
    Jr,
    /// JR cc,i8.
    JrCond,
    /// LD r16,u16.
    LdR16Imm,
    /// ADD HL,r16.
    AddHlR16,
    /// LD (r16),A.
    LdR16MemA,
    /// LD A,(r16).
    LdAR16Mem,
    /// INC r16.
    IncR16,
    /// DEC r16.
    DecR16,
    /// INC r8.
    IncR8,
    /// DEC r8.
    DecR8,
    /// LD r8,u8.
    LdR8Imm,
    /// HALT.
    Halt,
    /// LD r8,r8.
    LdR8R8,
    /// ADD, ADC, SUB, SBC, AND, XOR, OR or CP on A and an 8-bit operand.
    Alu,
    /// An instruction of the processor that this core does not execute:
    /// STOP, the rotates and flag operations of the first quarter, and the
    /// stack and control-flow group of the last.
    Unimplemented,
    /// An opcode that is no instruction.
    Invalid,
}

/// Why an opcode was not executed.
#[derive(Clone, Copy, Debug, PartialEq, Eq, Structural)]
pub enum DecodeError {
    /// The opcode belongs to a family that this core does not execute.
    Unimplemented { opcode: u8 },
    /// The opcode is no instruction.
    Invalid { opcode: u8 },
}

/// Bits 7 and 6 of an opcode.
pub open spec fn field1(opcode: u8) -> u8 {
    opcode / 64
}

/// Bits 5 to 3 of an opcode.
pub open spec fn field2(opcode: u8) -> u8 {
    (opcode / 8) % 8
}

/// Bits 2 to 0 of an opcode.
pub open spec fn field3(opcode: u8) -> u8 {
    opcode % 8
}

/// Splits an opcode into its three bit fields, of 2, 3 and 3 bits.
pub fn fields(opcode: u8) -> (parts: (u8, u8, u8))
    ensures
        parts.0 == field1(opcode),
        parts.1 == field2(opcode),
        parts.2 == field3(opcode),
{
    assert((opcode & 0b1100_0000) >> 6 == opcode / 64) by (bit_vector);
    assert((opcode & 0b0011_1000) >> 3 == (opcode / 8) % 8) by (bit_vector);
    assert(opcode & 0b0000_0111 == opcode % 8) by (bit_vector);
    ((opcode & 0b1100_0000) >> 6, (opcode & 0b0011_1000) >> 3, opcode & 0b0000_0111)
}

impl Instruction {
    /// The family of the opcode with the given bit fields.
    pub open spec fn spec_dispatch(field1: u8, field2: u8, field3: u8) -> Instruction {
        if field1 == 0 {
            if field3 == 0 {
                if field2 == 0 {
                    Instruction::Nop
                } else if field2 == 1 {
                    Instruction::LdImmSp
                } else if field2 == 2 {
                    Instruction::Unimplemented
                } else if field2 == 3 {
                    Instruction::Jr
                } else {
                    Instruction::JrCond
                }
            } else if field3 == 1 {
                if field2 % 2 == 0 {
                    Instruction::LdR16Imm
                } else {
                    Instruction::AddHlR16
                }
            } else if field3 == 2 {
                if field2 % 2 == 0 {
                    Instruction::LdR16MemA
                } else {
                    Instruction::LdAR16Mem
                }
            } else if field3 == 3 {
                if field2 % 2 == 0 {
                    Instruction::IncR16
                } else {
                    Instruction::DecR16
                }
            } else if field3 == 4 {
                Instruction::IncR8
            } else if field3 == 5 {
                Instruction::DecR8
            } else if field3 == 6 {
                Instruction::LdR8Imm
            } else {
                Instruction::Unimplemented
            }
        } else if field1 == 1 {
            if field2 == 6 && field3 == 6 {
                Instruction::Halt
            } else {
                Instruction::LdR8R8
            }
        } else if field1 == 2 {
            Instruction::Alu
        } else if field3 == 4 && field2 >= 4 {
            Instruction::Invalid
        } else if field3 == 5 && field2 % 2 == 1 && field2 != 1 {
            Instruction::Invalid
        } else {
            Instruction::Unimplemented
        }
    }

    /// The family of `opcode`.
    pub open spec fn spec_decode(opcode: u8) -> Instruction {
        Instruction::spec_dispatch(field1(opcode), field2(opcode), field3(opcode))
    }

    /// This core executes the instruction.
    pub open spec fn is_executable(self) -> bool {
        !(self is Unimplemented) && !(self is Invalid)
    }

    /// How far the program counter moves once the instruction has run,
    /// beyond the one step that the fetch took: over the two immediate
    /// bytes of the forms that carry a 16-bit immediate. Every other family
    /// leaves the program counter where the fetch or its own jump put it.
    pub open spec fn spec_advance(self) -> u16 {
        if self is LdImmSp || self is LdR16Imm {
            2
        } else {
            0
        }
    }

    /// The family of the opcode with the given bit fields.
    #[verifier::when_used_as_spec(spec_dispatch)]
    pub fn dispatch(field1: u8, field2: u8, field3: u8) -> (instruction: Instruction)
        requires
            field1 <= 3,
            field2 <= 7,
            field3 <= 7,
        ensures
            instruction == Instruction::spec_dispatch(field1, field2, field3),
    {
        match (field1, field2, field3) {
            (0b00, 0b000, 0b000) => Instruction::Nop,
            (0b00, 0b001, 0b000) => Instruction::LdImmSp,
            (0b00, 0b010, 0b000) => Instruction::Unimplemented,
            (0b00, 0b011, 0b000) => Instruction::Jr,
            (0b00, 0b100..=0b111, 0b000) => Instruction::JrCond,
            (0b00, 0b000 | 0b010 | 0b100 | 0b110, 0b001) => Instruction::LdR16Imm,
            (0b00, 0b001 | 0b011 | 0b101 | 0b111, 0b001) => Instruction::AddHlR16,
            (0b00, 0b000 | 0b010 | 0b100 | 0b110, 0b010) => Instruction::LdR16MemA,
            (0b00, 0b001 | 0b011 | 0b101 | 0b111, 0b010) => Instruction::LdAR16Mem,
            (0b00, 0b000 | 0b010 | 0b100 | 0b110, 0b011) => Instruction::IncR16,
            (0b00, 0b001 | 0b011 | 0b101 | 0b111, 0b011) => Instruction::DecR16,
            (0b00, _, 0b100) => Instruction::IncR8,
            (0b00, _, 0b101) => Instruction::DecR8,
            (0b00, _, 0b110) => Instruction::LdR8Imm,
            (0b00, _, _) => Instruction::Unimplemented,
            (0b01, 0b110, 0b110) => Instruction::Halt,
            (0b01, _, _) => Instruction::LdR8R8,
            (0b10, _, _) => Instruction::Alu,
            (_, 0b100..=0b111, 0b100) => Instruction::Invalid,
            (_, 0b011 | 0b101 | 0b111, 0b101) => Instruction::Invalid,
            _ => Instruction::Unimplemented,
        }
    }

    /// The family of `opcode`.
    #[verifier::when_used_as_spec(spec_decode)]
    pub fn decode(opcode: u8) -> (instruction: Instruction)
        ensures
            instruction == Instruction::spec_decode(opcode),
    {
        let (field1, field2, field3): (u8, u8, u8) = fields(opcode);
        Instruction::dispatch(field1, field2, field3)
    }

    /// How far the program counter moves once the instruction has run,
    /// beyond the one step that the fetch took.
    #[verifier::when_used_as_spec(spec_advance)]
    pub fn advance(self) -> (bytes: u16)
        ensures
            bytes == self.spec_advance(),
    {
        match self {
            Instruction::LdImmSp | Instruction::LdR16Imm => 2,
            _ => 0,
        }
    }
}

impl DecodeError {
    /// The opcode that was refused.
    pub open spec fn spec_opcode(self) -> u8 {
        match self {
            DecodeError::Unimplemented { opcode } => opcode,
            DecodeError::Invalid { opcode } => opcode,
        }
    }

    /// The opcode that was refused.
    #[verifier::when_used_as_spec(spec_opcode)]
    pub fn opcode(self) -> (opcode: u8)
        ensures
            opcode == self.spec_opcode(),
    {
        match self {
            DecodeError::Unimplemented { opcode } => opcode,
            DecodeError::Invalid { opcode } => opcode,
        }
    }
}

} // verus!
