//! The fetch and execute cycle.

use vstd::prelude::*;
use crate::cpu::chip::Chip;
use crate::cpu::decode::{field2, field3, fields, DecodeError, Instruction};
use crate::cpu::flags::sum16;
use crate::cpu::machine::Machine;

verus! {

impl Machine {
    /// The machine after a fetch: the opcode at the program counter and the
    /// two bytes behind it are latched, and the program counter moves on by
    /// one, all modulo 65536.
    pub open spec fn fetch(self) -> Machine {
        Machine {
            instr: self.read(self.pc),
            byte2: self.read(sum16(self.pc, 1)),
            byte3: self.read(sum16(self.pc, 2)),
            pc: sum16(self.pc, 1),
            ..self
        }
    }

    /// The family of the fetched opcode.
    pub open spec fn instruction(self) -> Instruction {
        Instruction::spec_decode(self.instr)
    }

    /// What executing the fetched opcode reports: success for an opcode of
    /// a family that this core executes, and else the refusal with the
    /// opcode in it.
    pub open spec fn outcome(self) -> Result<(), DecodeError> {
        match self.instruction() {
            Instruction::Unimplemented => Err(DecodeError::Unimplemented { opcode: self.instr }),
            Instruction::Invalid => Err(DecodeError::Invalid { opcode: self.instr }),
            _ => Ok(()),
        }
    }

    /// The machine after the handler of the fetched instruction has run. An
    /// opcode that is refused has no handler and changes nothing.
    pub open spec fn handle(self) -> Machine {
        let operand2: u8 = field2(self.instr);
        let operand3: u8 = field3(self.instr);
        match self.instruction() {
            Instruction::Nop => self,
            Instruction::LdImmSp => self.ld_u16_sp(),
            Instruction::Jr => self.jr(),
            Instruction::JrCond => self.jr_cond(operand2),
            Instruction::LdR16Imm => self.ld_r16_u16(operand2),
            Instruction::AddHlR16 => self.add_hl_r16(operand2),
            Instruction::LdR16MemA => self.ld_r16_addr_a(operand2),
            Instruction::LdAR16Mem => self.ld_a_r16_addr(operand2),
            Instruction::IncR16 => self.inc_r16(operand2),
            Instruction::DecR16 => self.dec_r16(operand2),
            Instruction::IncR8 => self.inc_r8(operand2),
            Instruction::DecR8 => self.dec_r8(operand2),
            Instruction::LdR8Imm => self.ld_r8_n8(operand2),
            Instruction::Halt => self,
            Instruction::LdR8R8 => self.ld_r8_r8(operand3, operand2),
            Instruction::Alu => self.alu_a_r8(operand2, operand3),
            Instruction::Unimplemented => self,
            Instruction::Invalid => self,
        }
    }

    /// The machine after the fetched instruction was executed: its handler
    /// has run, and the program counter has moved over the immediate bytes
    /// that the instruction's family owns.
    pub open spec fn execute(self) -> Machine {
        let after = self.handle();
        Machine { pc: sum16(after.pc, self.instruction().spec_advance()), ..after }
    }
}

impl Chip {
    /// Fetches the next instruction: latches the opcode at the program
    /// counter and the two bytes that follow it, and moves the program
    /// counter on by one.
    pub fn fetch(&mut self)
        ensures
            final(self)@ == old(self)@.fetch(),
    {
        self.instr = self.read_memory(self.pc);
        self.byte2 = self.read_memory(self.pc.wrapping_add(1));
        self.byte3 = self.read_memory(self.pc.wrapping_add(2));
        self.pc = self.pc.wrapping_add(1);
    }

    /// Executes the fetched instruction. An opcode that this core does not
    /// execute is reported and changes nothing.
    pub fn execute(&mut self) -> (result: Result<(), DecodeError>)
        ensures
            result == old(self)@.outcome(),
            final(self)@ == old(self)@.execute(),
            result is Err ==> final(self)@ == old(self)@,
    {
        let opcode: u8 = self.instr;
        let (_, oct2, oct3): (u8, u8, u8) = fields(opcode);
        let instruction = Instruction::decode(opcode);
        match instruction {
            Instruction::Nop => {},
            Instruction::LdImmSp => self.ld_u16_sp(),
            Instruction::Jr => self.jr(),
            Instruction::JrCond => self.jr_cond(oct2),
            Instruction::LdR16Imm => self.ld_r16_u16(oct2),
            Instruction::AddHlR16 => self.add_hl_r16(oct2),
            Instruction::LdR16MemA => self.ld_r16_addr_a(oct2),
            Instruction::LdAR16Mem => self.ld_a_r16_addr(oct2),
            Instruction::IncR16 => self.inc_r16(oct2),
            Instruction::DecR16 => self.dec_r16(oct2),
            Instruction::IncR8 => self.inc_r8(oct2),
            Instruction::DecR8 => self.dec_r8(oct2),
            Instruction::LdR8Imm => self.ld_r8_n8(oct2),
            Instruction::Halt => self.halt(),
            Instruction::LdR8R8 => self.ld_r8_r8(oct3, oct2),
            Instruction::Alu => self.alu_a_r8(oct2, oct3),
            Instruction::Unimplemented => {
                return Err(DecodeError::Unimplemented { opcode });
            },
            Instruction::Invalid => {
                return Err(DecodeError::Invalid { opcode });
            },
        }
        self.pc = self.pc.wrapping_add(instruction.advance());
        Ok(())
    }
}

} // verus!
