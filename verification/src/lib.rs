pub mod alu;
pub mod cpu;
pub mod flags;
pub mod isa;
pub mod laws;
pub mod opcode_laws;
pub mod semantics;
pub mod state;
pub mod table_laws;

pub use cpu::CPU;
pub use flags::{CARRY, DECIMAL, INTERRUPT, NEGETIVE, OVERFLOW, ZERO};
pub use isa::{AddressingMode, Instruction};
