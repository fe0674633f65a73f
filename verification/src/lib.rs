//! The instruction core of an 8-bit console CPU: a memory bus over RAM and
//! ROM, the register file, and an interpreter that fetches, decodes and
//! executes one instruction at a time.

pub mod buffer;
pub mod cpu;
pub mod emulator;
pub mod error;
pub mod machine;
pub mod memory;
pub mod opcode;

pub use cpu::{Cpu, StatusFlags};
pub use emulator::Emulator;
pub use error::EmulatorError;
pub use memory::MemoryBus;
pub use opcode::Opcode;
