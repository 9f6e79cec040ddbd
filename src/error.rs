//! The failures that executing an instruction can report.

use vstd::prelude::*;

verus! {

/// Everything that can stop an instruction from executing.
#[derive(Debug, Clone, Copy, PartialEq, Eq, Structural)]
pub enum ExecutionError {
    /// A computed address lies outside `[0, MEMORY_SIZE)`.
    MemoryFault,
    /// The opcode has no handler.
    UnimplementedOpcode,
    /// A special-purpose register index lies outside `[0, 32)`.
    InvalidRegisterIndex,
}

} // verus!
