//! Properties of the execution engine, stated over the abstract machine
//! state and proved from the opcode semantics.

use vstd::prelude::*;

use crate::engine::{execute, load_address, run, sign_extend, signed_byte, wrapping_sum};
use crate::isa::Instruction;
use crate::machine::{MachineState, GENERAL_PURPOSE_REGISTER_COUNT};
use crate::error::ExecutionError;
use crate::memory::MEMORY_SIZE;

verus! {

/// Unsigned add-immediate sets `gp[x]` to `gp[y] + z` modulo 2^64 and
/// changes no other register and no byte of memory.
pub proof fn lemma_add_immediate_effect(s: MachineState, i: Instruction)
    requires
        s.wf(),
        i.op is ADDU_I,
    ensures
        execute(s, i) is Ok,
        execute(s, i)->Ok_0.wf(),
        execute(s, i)->Ok_0.gp[i.x as int] as int == (s.gp[i.y as int] as int + i.z as int)
            % 0x1_0000_0000_0000_0000,
        forall|r: int|
            0 <= r < GENERAL_PURPOSE_REGISTER_COUNT && r != i.x as int
                ==> #[trigger] execute(s, i)->Ok_0.gp[r] == s.gp[r],
        execute(s, i)->Ok_0.sp == s.sp,
        execute(s, i)->Ok_0.mem == s.mem,
{
}

/// Folding a two-instruction program over a machine ends where applying the
/// first instruction and then the second ends.
pub proof fn lemma_run_pair(s: MachineState, i1: Instruction, i2: Instruction)
    ensures
        run(s, seq![i1, i2]) == match execute(s, i1) {
            Ok(t) => match execute(t, i2) {
                Ok(u) => (u, Ok::<(), ExecutionError>(())),
                Err(e) => (t, Err(e)),
            },
            Err(e) => (s, Err(e)),
        },
{
    let p = seq![i1, i2];
    assert(p[0] == i1);
    assert(p.drop_first() =~= seq![i2]);
    assert(seq![i2][0] == i2);
    assert(seq![i2].drop_first() =~= Seq::<Instruction>::empty());
    if let Ok(t) = execute(s, i1) {
        assert(run(s, p) == run(t, seq![i2]));
        if let Ok(u) = execute(t, i2) {
            assert(run(t, seq![i2]) == run(u, Seq::<Instruction>::empty()));
        }
    }
}

/// Running `p` and then `q` ends where running `p + q` ends; a run of `p`
/// that stops on an error stops the run of `p + q` there too.
pub proof fn lemma_run_concat(s: MachineState, p: Seq<Instruction>, q: Seq<Instruction>)
    ensures
        run(s, p + q) == if run(s, p).1 is Ok {
            run(run(s, p).0, q)
        } else {
            run(s, p)
        },
    decreases p.len(),
{
    if p.len() == 0 {
        assert(p + q == q);
    } else {
        assert((p + q)[0] == p[0]);
        assert((p + q).drop_first() == p.drop_first() + q);
        if let Ok(t) = execute(s, p[0]) {
            lemma_run_concat(t, p.drop_first(), q);
        }
    }
}

/// A byte stored where a byte load reads comes back from the load: sign
/// extended by the signed loads, with no bit above bit 7 by the unsigned one.
pub proof fn lemma_load_round_trip(s: MachineState, i: Instruction, b: u8)
    requires
        s.wf(),
        i.op is LDB || i.op is LDB_I || i.op is LDBU,
        load_address(s, i) < MEMORY_SIZE,
    ensures
        ({
            let stored = MachineState { mem: s.mem.update(load_address(s, i) as int, b), ..s };
            let loaded = execute(stored, i)->Ok_0.gp[i.x as int];
            &&& execute(stored, i) is Ok
            &&& i.op is LDBU ==> loaded == b as u64 && loaded < 256
            &&& !(i.op is LDBU) ==> loaded == sign_extend(b)
            &&& !(i.op is LDBU) && b < 128 ==> loaded == b as u64
            &&& !(i.op is LDBU) && b >= 128 ==> loaded == 0xFFFF_FFFF_FFFF_FF00 + b
            &&& !(i.op is LDBU) ==> loaded as int % 256 == b as int
        }),
{
    let stored = MachineState { mem: s.mem.update(load_address(s, i) as int, b), ..s };
    assert(load_address(stored, i) == load_address(s, i));
    assert(signed_byte(b) % 0x1_0000_0000_0000_0000 == if b < 128 {
        b as int
    } else {
        0xFFFF_FFFF_FFFF_FF00 + b
    });
}

/// Register-offset byte loads add the two registers modulo 2^64: base
/// `2^64 - 1` and offset `1` read memory offset 0 and do not fault.
pub proof fn lemma_address_wraps(s: MachineState, i: Instruction)
    requires
        s.wf(),
        i.op is LDB || i.op is LDBU,
        s.gp[i.y as int] == 0xFFFF_FFFF_FFFF_FFFF,
        s.gp[i.z as int] == 1,
    ensures
        load_address(s, i) == 0,
        execute(s, i) is Ok,
        i.op is LDB ==> execute(s, i)->Ok_0.gp[i.x as int] == sign_extend(s.mem[0]),
        i.op is LDBU ==> execute(s, i)->Ok_0.gp[i.x as int] == s.mem[0] as u64,
{
    assert(wrapping_sum(0xFFFF_FFFF_FFFF_FFFF, 1) == 0);
}

} // verus!
