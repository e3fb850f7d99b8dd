//! An interpreter for an 8-bit CPU of the Game Boy family: register file,
//! flag-computing ALU, quadrant-based opcode dispatch and the
//! fetch-decode-execute loop.

pub mod alu;
pub mod error;
pub mod memory;
pub mod registers;
pub mod machine;
pub mod handlers;
pub mod cpu;

pub use cpu::Cpu;
pub use error::CpuError;
pub use memory::Memory;
pub use registers::Registers;
