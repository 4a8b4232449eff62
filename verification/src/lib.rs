//! Instruction-level core of an 8-bit cartridge console: a MOS 6502
//! interpreter, the memory bus that decodes its address space, and the
//! cartridge images the bus reads program code from.

pub mod alu;
pub mod bus;
pub mod cpu;
pub mod laws;
pub mod machine;
pub mod opcode;
pub mod rom;
