//! An interpreter for 32-bit RISC-V user-mode machine code (RV32I with the
//! RV32M multiply/divide extension), with a little-endian byte-addressed
//! memory and a 32-entry register file.

pub mod alu;
pub mod cpu;
pub mod decode;
pub mod machine;
pub mod memory;
pub mod opcodes;
pub mod register;

pub use cpu::CPU;
pub use machine::Fault;
pub use memory::Memory;
pub use register::Register;
