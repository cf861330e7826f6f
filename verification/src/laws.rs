//! Laws relating the state-level operations: program bytes are fetched in
//! program order, timers stop at zero, and a call followed by a return
//! restores the program counter.
//!
//! The drawing laws (the XOR involution and the second-draw collision flag)
//! live beside the drawing model in [`crate::draw`].

use vstd::prelude::*;

use crate::opcodes::{call_ok, call_spec, ret_ok, ret_spec};
use crate::system::{fetch_spec, load_spec, tick_spec, StateView, MEMORY_LEN, PROGRAM_START};

verus! {

/// The instruction word that a fetch at instruction slot `k` reads: slot
/// `k` sits at `PROGRAM_START + 2 * k`.
pub open spec fn nth_instruction(w: StateView, k: int) -> u16 {
    fetch_spec(StateView { program_counter: (PROGRAM_START + 2 * k) as u16, ..w })
}

/// Loading a program that fits lays its bytes out in order from
/// `PROGRAM_START`, points the program counter there, and every instruction
/// fetch along the program reads the program's byte pairs in program order,
/// big-endian.
pub proof fn lemma_load_preserves_program_order(v: StateView, p: Seq<u8>)
    requires
        v.wf(),
        p.len() <= MEMORY_LEN - PROGRAM_START,
    ensures
        load_spec(v, p).program_counter == PROGRAM_START,
        forall|j: int| 0 <= j < p.len() ==> load_spec(v, p).memory[PROGRAM_START + j] == p[j],
        forall|k: int|
            0 <= 2 * k && 2 * k + 1 < p.len() ==> #[trigger] nth_instruction(load_spec(v, p), k)
                == p[2 * k] * 256 + p[2 * k + 1],
{
    assert forall|k: int| 0 <= 2 * k && 2 * k + 1 < p.len() implies #[trigger] nth_instruction(
        load_spec(v, p),
        k,
    ) == p[2 * k] * 256 + p[2 * k + 1] by {
        let pc = PROGRAM_START + 2 * k;
        assert(load_spec(v, p).memory[pc] == p[2 * k]);
        assert(load_spec(v, p).memory[pc + 1] == p[2 * k + 1]);
    }
}

/// Timers never go negative and a timer at zero stays at zero; a nonzero
/// timer moves down by exactly one per tick.
pub proof fn lemma_tick_timers_floor(v: StateView)
    ensures
        v.delay_timer == 0 ==> tick_spec(v).delay_timer == 0,
        v.sound_timer == 0 ==> tick_spec(v).sound_timer == 0,
        v.delay_timer > 0 ==> tick_spec(v).delay_timer == v.delay_timer - 1,
        v.sound_timer > 0 ==> tick_spec(v).sound_timer == v.sound_timer - 1,
        tick_spec(v).delay_timer >= 0,
        tick_spec(v).sound_timer >= 0,
{
}

/// A call followed by a return restores the program counter and the stack
/// pointer exactly.
pub proof fn lemma_call_ret_round_trip(v: StateView, address: u16)
    requires
        v.wf(),
        call_ok(v, address),
    ensures
        ret_ok(call_spec(v, address)),
        ret_spec(call_spec(v, address)).program_counter == v.program_counter,
        ret_spec(call_spec(v, address)).stack_pointer == v.stack_pointer,
        ret_spec(call_spec(v, address)).wf(),
{
}

} // verus!
