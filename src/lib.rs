//! Execution core of a simulator for a 64-bit load/store architecture:
//! a register file, a flat byte-addressed memory arena and an engine that
//! applies one decoded instruction at a time.

pub mod engine;
pub mod error;
pub mod isa;
pub mod laws;
pub mod machine;
pub mod memory;

pub use engine::apply;
pub use error::ExecutionError;
pub use isa::{
    Instruction, OpCode, SpecialRegisterName, MAX_BYTE, MAX_NYBB, MAX_OCTA, MAX_S_BYTE, MAX_S_NYBB,
    MAX_S_OCTA, MAX_S_TTRA, MAX_S_WYDE, MAX_TTRA, MAX_WYDE, MIN_S_BYTE, MIN_S_NYBB, MIN_S_OCTA,
    MIN_S_TTRA, MIN_S_WYDE,
};
pub use machine::{
    MachineState, MmixMachine, Register, GENERAL_PURPOSE_REGISTER_COUNT,
    SPECIAL_PURPOSE_REGISTER_COUNT,
};
pub use memory::{Memory, MEMORY_SIZE};

