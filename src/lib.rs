//! An interpreter for the CHIP-8 virtual machine: the machine state, the
//! instruction decoder and the per-instruction execution semantics.

pub mod instruction;
pub mod machine;
pub mod computer;
pub mod laws;

pub use computer::Computer;
pub use instruction::{decode, Instruction};
pub use machine::Fault;
