//! The conditions that stop execution.
use vstd::prelude::*;

verus! {

/// Why an instruction could not be carried out.
#[derive(Clone, Copy, Debug, PartialEq, Eq, Structural)]
pub enum CpuError {
    /// An access to an address outside the fixed memory capacity.
    MemoryOutOfBounds { address: u16 },
    /// A byte of a known quadrant that no implemented pattern matches.
    UnimplementedOpcode { opcode: u8 },
    /// The 64-bit cycle counter has no room left for another instruction.
    CycleCounterOverflow,
}

} // verus!
