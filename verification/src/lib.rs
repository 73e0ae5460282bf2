pub mod cpu;
pub mod instruction_laws;
pub mod instructions;
pub mod laws;
pub mod memory;
pub mod opcodes;
pub mod semantics;

pub use cpu::{Cpu, CpuState, Registers, StatusFlags};
pub use memory::{FlatMemory, MemoryBus};
pub use opcodes::{Accumulator, AddrMode, Mnemonic, OpcodeEntry};
