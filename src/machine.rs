//! The machine: general- and special-purpose register files and the memory
//! arena, with an abstract view that the engine's contracts speak of.

use vstd::prelude::*;

use crate::error::ExecutionError;
use crate::memory::{Memory, MEMORY_SIZE};

verus! {

/// Number of general-purpose registers; every 8-bit operand names one.
pub const GENERAL_PURPOSE_REGISTER_COUNT: usize = 256;
/// Number of special-purpose registers.
pub const SPECIAL_PURPOSE_REGISTER_COUNT: usize = 32;

/// One octabyte register.
pub type Register = u64;

/// The whole architectural state, owned by one simulation run.
pub struct MmixMachine {
    pub gp_regs: [Register; GENERAL_PURPOSE_REGISTER_COUNT],
    pub sp_regs: [Register; SPECIAL_PURPOSE_REGISTER_COUNT],
    pub memory: Memory,
}

/// Abstract machine state: the two register files and the memory contents.
pub struct MachineState {
    pub gp: Seq<u64>,
    pub sp: Seq<u64>,
    pub mem: Seq<u8>,
}

impl MachineState {
    /// The register files and the arena have their architectural sizes.
    pub open spec fn wf(self) -> bool {
        &&& self.gp.len() == GENERAL_PURPOSE_REGISTER_COUNT
        &&& self.sp.len() == SPECIAL_PURPOSE_REGISTER_COUNT
        &&& self.mem.len() == MEMORY_SIZE
    }

    /// This state with general-purpose register `x` set to `v`.
    pub open spec fn with_gp(self, x: u8, v: u64) -> MachineState {
        MachineState { gp: self.gp.update(x as int, v), ..self }
    }

    /// Every register and every byte of memory is zero.
    pub open spec fn is_zero(self) -> bool {
        &&& forall|r: int| 0 <= r < self.gp.len() ==> #[trigger] self.gp[r] == 0
        &&& forall|r: int| 0 <= r < self.sp.len() ==> #[trigger] self.sp[r] == 0
        &&& forall|a: int| 0 <= a < self.mem.len() ==> #[trigger] self.mem[a] == 0
    }
}

impl View for MmixMachine {
    type V = MachineState;

    open spec fn view(&self) -> MachineState {
        MachineState { gp: self.gp_regs@, sp: self.sp_regs@, mem: self.memory@ }
    }
}

impl MmixMachine {
    /// The memory arena is well formed; the register files are by their type.
    pub open spec fn wf(&self) -> bool {
        self.memory.wf()
    }

    /// A machine with every register and every byte of memory zero.
    pub fn new() -> (m: MmixMachine)
        ensures
            m.wf(),
            m@.wf(),
            m@.is_zero(),
    {
        let m = MmixMachine {
            gp_regs: [0u64; GENERAL_PURPOSE_REGISTER_COUNT],
            sp_regs: [0u64; SPECIAL_PURPOSE_REGISTER_COUNT],
            memory: Memory::new(),
        };
        m
    }

    /// Reads special-purpose register `index`, which must name one of the
    /// `SPECIAL_PURPOSE_REGISTER_COUNT` registers.
    pub fn read_sp(&self, index: usize) -> (r: Result<Register, ExecutionError>)
        ensures
            index < SPECIAL_PURPOSE_REGISTER_COUNT ==> r == Ok::<u64, ExecutionError>(
                self.sp_regs@[index as int],
            ),
            index >= SPECIAL_PURPOSE_REGISTER_COUNT ==> r == Err::<u64, ExecutionError>(
                ExecutionError::InvalidRegisterIndex,
            ),
    {
        if index < SPECIAL_PURPOSE_REGISTER_COUNT {
            Ok(self.sp_regs[index])
        } else {
            Err(ExecutionError::InvalidRegisterIndex)
        }
    }

    /// Writes special-purpose register `index`; an index past the register
    /// file is rejected and changes nothing.
    pub fn write_sp(&mut self, index: usize, value: Register) -> (r: Result<(), ExecutionError>)
        ensures
            final(self).gp_regs == old(self).gp_regs,
            final(self).memory == old(self).memory,
            index < SPECIAL_PURPOSE_REGISTER_COUNT ==> r is Ok && final(self).sp_regs@
                == old(self).sp_regs@.update(index as int, value),
            index >= SPECIAL_PURPOSE_REGISTER_COUNT ==> r == Err::<(), ExecutionError>(
                ExecutionError::InvalidRegisterIndex,
            ) && final(self).sp_regs == old(self).sp_regs,
    {
        if index < SPECIAL_PURPOSE_REGISTER_COUNT {
            self.sp_regs[index] = value;
            Ok(())
        } else {
            Err(ExecutionError::InvalidRegisterIndex)
        }
    }
}

} // verus!
