//! The execution engine: the numeric rules of each implemented opcode as spec
//! functions, the handlers that carry them out on a machine, and the total
//! dispatch from opcode tag to handler.

use vstd::prelude::*;

use crate::isa::{Instruction, OpCode};
use crate::machine::{MachineState, MmixMachine};
use crate::error::ExecutionError;
use crate::memory::MEMORY_SIZE;

verus! {

/// 2^64: the modulus of octabyte arithmetic.
pub open spec fn octa_modulus() -> int {
    0x1_0000_0000_0000_0000
}

/// Unsigned 64-bit addition with silent wraparound.
pub open spec fn wrapping_sum(a: u64, b: u64) -> u64 {
    ((a as int + b as int) % octa_modulus()) as u64
}

/// The value of a byte read as a two's-complement signed 8-bit integer.
pub open spec fn signed_byte(b: u8) -> int {
    if b < 128 {
        b as int
    } else {
        b as int - 256
    }
}

/// A byte widened to an octabyte with its sign bit copied into the high bits:
/// the two's-complement octabyte of its signed value.
pub open spec fn sign_extend(b: u8) -> u64 {
    (signed_byte(b) % octa_modulus()) as u64
}

/// A byte widened to an octabyte with zero high bits.
pub open spec fn zero_extend(b: u8) -> u64 {
    b as u64
}

/// Whether the engine has a handler for `op`.
pub open spec fn has_handler(op: OpCode) -> bool {
    op is ADDU_I || op is LDB || op is LDB_I || op is LDBU
}

/// The address that a load of the byte family reads: base register `y` plus
/// register `z` (register offset) or plus the immediate `z`.
pub open spec fn load_address(s: MachineState, i: Instruction) -> u64 {
    if i.op is LDB_I {
        wrapping_sum(s.gp[i.y as int], i.z as u64)
    } else {
        wrapping_sum(s.gp[i.y as int], s.gp[i.z as int])
    }
}

/// Loads the byte at `address` into register `x`, widened by sign or zero
/// extension; an address past the arena faults.
pub open spec fn load_byte(s: MachineState, x: u8, address: u64, signed: bool) -> Result<
    MachineState,
    ExecutionError,
> {
    if address < MEMORY_SIZE {
        let b = s.mem[address as int];
        Ok(s.with_gp(x, if signed { sign_extend(b) } else { zero_extend(b) }))
    } else {
        Err(ExecutionError::MemoryFault)
    }
}

/// The state that one instruction leads to, or the error it reports.
pub open spec fn execute(s: MachineState, i: Instruction) -> Result<MachineState, ExecutionError> {
    match i.op {
        OpCode::ADDU_I => Ok(s.with_gp(i.x, wrapping_sum(s.gp[i.y as int], i.z as u64))),
        OpCode::LDB => load_byte(s, i.x, load_address(s, i), true),
        OpCode::LDB_I => load_byte(s, i.x, load_address(s, i), true),
        OpCode::LDBU => load_byte(s, i.x, load_address(s, i), false),
        _ => Err(ExecutionError::UnimplementedOpcode),
    }
}

/// `after` and `r` are what executing `i` on `before` gives: the new state
/// and `Ok`, or the unchanged state and the error.
pub open spec fn executed(
    before: MachineState,
    i: Instruction,
    after: MachineState,
    r: Result<(), ExecutionError>,
) -> bool {
    match execute(before, i) {
        Ok(s) => r is Ok && after == s,
        Err(e) => r == Err::<(), ExecutionError>(e) && after == before,
    }
}

/// Runs `p` from `s`, stopping at the first instruction that fails: the state
/// reached, and `Ok` or the error that stopped the run.
pub open spec fn run(s: MachineState, p: Seq<Instruction>) -> (MachineState, Result<
    (),
    ExecutionError,
>)
    decreases p.len(),
{
    if p.len() == 0 {
        (s, Ok(()))
    } else {
        match execute(s, p[0]) {
            Ok(t) => run(t, p.drop_first()),
            Err(e) => (s, Err(e)),
        }
    }
}

/// Sign-extends a byte to an octabyte through the signed integer types.
fn sign_extend_byte(b: u8) -> (r: u64)
    ensures
        r == sign_extend(b),
{
    let r = b as i8 as i64 as u64;
    assert(b < 128 ==> r == b as u64) by (bit_vector)
        requires
            r == b as i8 as i64 as u64,
    ;
    assert(b >= 128 ==> r == (b as u64) + 0xFFFF_FFFF_FFFF_FF00u64) by (bit_vector)
        requires
            r == b as i8 as i64 as u64,
    ;
    r
}

/// `gp[x] = gp[y] + z`, wrapping at 2^64.
#[allow(non_snake_case)]
fn apply_ADDU_I(m: &mut MmixMachine, i: &Instruction) -> (r: Result<(), ExecutionError>)
    requires
        old(m).wf(),
        i.op is ADDU_I,
    ensures
        final(m).wf(),
        executed(old(m)@, *i, final(m)@, r),
{
    let sum = m.gp_regs[i.y as usize].wrapping_add(i.z as u64);
    m.gp_regs[i.x as usize] = sum;
    Ok(())
}

/// `gp[x] = sign_extend(memory[gp[y] + gp[z]])`.
#[allow(non_snake_case)]
fn apply_LDB(m: &mut MmixMachine, i: &Instruction) -> (r: Result<(), ExecutionError>)
    requires
        old(m).wf(),
        i.op is LDB,
    ensures
        final(m).wf(),
        executed(old(m)@, *i, final(m)@, r),
{
    let address = m.gp_regs[i.y as usize].wrapping_add(m.gp_regs[i.z as usize]);
    let b = m.memory.read_byte(address)?;
    m.gp_regs[i.x as usize] = sign_extend_byte(b);
    Ok(())
}

/// `gp[x] = sign_extend(memory[gp[y] + z])`, `z` an immediate.
#[allow(non_snake_case)]
fn apply_LDB_I(m: &mut MmixMachine, i: &Instruction) -> (r: Result<(), ExecutionError>)
    requires
        old(m).wf(),
        i.op is LDB_I,
    ensures
        final(m).wf(),
        executed(old(m)@, *i, final(m)@, r),
{
    let address = m.gp_regs[i.y as usize].wrapping_add(i.z as u64);
    let b = m.memory.read_byte(address)?;
    m.gp_regs[i.x as usize] = sign_extend_byte(b);
    Ok(())
}

/// `gp[x] = zero_extend(memory[gp[y] + gp[z]])`.
#[allow(non_snake_case)]
fn apply_LDBU(m: &mut MmixMachine, i: &Instruction) -> (r: Result<(), ExecutionError>)
    requires
        old(m).wf(),
        i.op is LDBU,
    ensures
        final(m).wf(),
        executed(old(m)@, *i, final(m)@, r),
{
    let address = m.gp_regs[i.y as usize].wrapping_add(m.gp_regs[i.z as usize]);
    let b = m.memory.read_byte(address)?;
    m.gp_regs[i.x as usize] = b as u64;
    Ok(())
}

/// Executes one instruction on `machine`. On success the machine is handed
/// back, so that applications chain; on failure nothing has changed.
pub fn apply<'a>(machine: &'a mut MmixMachine, instruction: &Instruction) -> (r: Result<
    &'a mut MmixMachine,
    ExecutionError,
>)
    requires
        old(machine).wf(),
    ensures
        r matches Ok(h) ==> h.wf(),
        r matches Ok(h) ==> Ok::<MachineState, ExecutionError>(h@) == execute(
            old(machine)@,
            *instruction,
        ),
        r matches Ok(h) ==> *final(machine) == *final(h),
        r matches Err(e) ==> Err::<MachineState, ExecutionError>(e) == execute(
            old(machine)@,
            *instruction,
        ),
        r is Err ==> final(machine).wf() && final(machine)@ == old(machine)@,
        !has_handler(instruction.op) ==> (r matches Err(e) && e is UnimplementedOpcode),
{
    let status = match instruction.op {
        OpCode::ADDU_I => apply_ADDU_I(machine, instruction),
        OpCode::LDB => apply_LDB(machine, instruction),
        OpCode::LDB_I => apply_LDB_I(machine, instruction),
        OpCode::LDBU => apply_LDBU(machine, instruction),
        _ => Err(ExecutionError::UnimplementedOpcode),
    };
    match status {
        Ok(()) => Ok(machine),
        Err(e) => Err(e),
    }
}

impl MmixMachine {
    /// Executes one instruction; see [`apply`].
    pub fn apply<'a>(&'a mut self, instruction: &Instruction) -> (r: Result<
        &'a mut MmixMachine,
        ExecutionError,
    >)
        requires
            old(self).wf(),
        ensures
            r matches Ok(h) ==> h.wf(),
            r matches Ok(h) ==> Ok::<MachineState, ExecutionError>(h@) == execute(
                old(self)@,
                *instruction,
            ),
            r matches Ok(h) ==> *final(self) == *final(h),
            r matches Err(e) ==> Err::<MachineState, ExecutionError>(e) == execute(
                old(self)@,
                *instruction,
            ),
            r is Err ==> final(self).wf() && final(self)@ == old(self)@,
            !has_handler(instruction.op) ==> (r matches Err(e) && e is UnimplementedOpcode),
    {
        apply(self, instruction)
    }

    /// Applies the instructions of `program` in order, stopping at the first
    /// one that fails; the machine keeps the state reached before it.
    pub fn run(&mut self, program: &[Instruction]) -> (r: Result<(), ExecutionError>)
        requires
            old(self).wf(),
        ensures
            final(self).wf(),
            (final(self)@, r) == run(old(self)@, program@),
    {
        let mut k: usize = 0;
        assert(program@.skip(0) == program@);
        while k < program.len()
            invariant
                self.wf(),
                0 <= k <= program@.len(),
                run(old(self)@, program@) == run(self@, program@.skip(k as int)),
            decreases program@.len() - k,
        {
            assert(program@.skip(k as int).drop_first() == program@.skip(k + 1));
            match apply(self, &program[k]) {
                Ok(_) => {},
                Err(e) => {
                    return Err(e);
                },
            }
            k = k + 1;
        }
        assert(program@.skip(k as int).len() == 0);
        Ok(())
    }
}

} // verus!
