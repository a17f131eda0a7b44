//! An instruction-set emulator core for the SM83, the 8-bit processor of the
//! Game Boy: register file, memory bus, opcode decoder and the state
//! transition of each instruction, with every transition proved against a
//! mathematical model of the machine.

pub mod cpu;
