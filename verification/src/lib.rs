//! Instruction-level emulation of a 6502-family processor: memory, status
//! flags, operand addressing, and the fetch-decode-execute cycle, each stated
//! over a mathematical model of the machine and proved against it.

pub mod addressing;
pub mod cpu;
pub mod error;
pub mod memory;
pub mod opcodes;
pub mod status;
