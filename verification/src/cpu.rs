//! The processor: its state, its memory bus and its instruction set.

pub mod alu;
pub mod arith;
pub mod chip;
pub mod decode;
pub mod execute;
pub mod flags;
pub mod jumps;
pub mod laws;
pub mod loads;
pub mod machine;
pub mod memory;
pub mod registers;
pub mod rom;
