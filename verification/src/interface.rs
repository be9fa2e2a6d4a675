//! The calls user processes make: sleeping and forking.

use vstd::prelude::*;
use crate::attiny85_defs::IoRegisters;
use crate::interrupts::{init_timers, timers_initialised};
use crate::layout::{fresh_info, is_stack, slot, ProcInfo, ProcTable};

verus! {

/// Number of full chunks of 255 ticks in a sleep of `counts` ticks: all but
/// the last chunk are full, and the last holds what is left, at most 255.
pub open spec fn full_chunks(counts: int) -> int {
    if counts <= 255 {
        0
    } else {
        (counts - 1) / 255
    }
}

/// Number of 4 ms ticks in a sleep of `ms` milliseconds.
pub open spec fn delay_ticks(ms: u16) -> int {
    ms as int / 4
}

/// Sum of the chunks of a sleep plan.
pub open spec fn total(plan: Seq<u8>) -> int
    decreases plan.len(),
{
    if plan.len() == 0 {
        0
    } else {
        total(plan.drop_last()) + plan.last()
    }
}

/// The sleep of `ms` milliseconds, counted in 4 ms ticks and cut into the
/// sleep counts a process sets before each call of the scheduler: as many
/// chunks of 255 ticks as are needed, then what is left.
pub fn delay_ms(ms: u16) -> (plan: Vec<u8>)
    ensures
        plan.len() == full_chunks(delay_ticks(ms)) + 1,
        forall|i: int| 0 <= i < full_chunks(delay_ticks(ms)) ==> plan[i] == 255,
        plan[full_chunks(delay_ticks(ms))] == delay_ticks(ms) - 255 * full_chunks(delay_ticks(ms)),
{
    // 4 ms counts
    let mut counts: u16 = ms >> 2u16;
    assert(counts == ms / 4) by (bit_vector)
        requires
            counts == ms >> 2u16,
    ;
    let ghost c: int = delay_ticks(ms);
    let mut plan: Vec<u8> = Vec::new();
    while counts > 255
        invariant
            c == delay_ticks(ms),
            counts == c - 255 * plan.len(),
            plan.len() <= full_chunks(c),
            forall|i: int| 0 <= i < plan.len() ==> plan[i] == 255,
            counts > 255 ==> plan.len() < full_chunks(c),
            counts <= 255 ==> plan.len() == full_chunks(c),
        decreases counts,
    {
        counts -= 255;
        plan.push(255);
    }
    plan.push(counts as u8);
    plan
}

/// A run of full chunks adds up to 255 ticks each.
proof fn lemma_total_of_full_chunks(chunks: Seq<u8>)
    requires
        forall|i: int| 0 <= i < chunks.len() ==> chunks[i] == 255,
    ensures
        total(chunks) == 255 * chunks.len(),
    decreases chunks.len(),
{
    if chunks.len() > 0 {
        lemma_total_of_full_chunks(chunks.drop_last());
    }
}

/// A plan of `n` full chunks followed by one more adds up to `255 * n`
/// plus that one.
proof fn lemma_total_of_plan(plan: Seq<u8>, n: int)
    requires
        0 <= n,
        plan.len() == n + 1,
        forall|i: int| 0 <= i < n ==> plan[i] == 255,
    ensures
        total(plan) == 255 * n + plan[n],
{
    lemma_total_of_full_chunks(plan.drop_last());
}

/// A sleep plan adds up to the whole sleep, and no chunk exceeds 255
/// ticks.
pub proof fn lemma_delay_plan_total(ms: u16, plan: Seq<u8>)
    requires
        plan.len() == full_chunks(delay_ticks(ms)) + 1,
        forall|i: int| 0 <= i < full_chunks(delay_ticks(ms)) ==> plan[i] == 255,
        plan[full_chunks(delay_ticks(ms))] == delay_ticks(ms) - 255 * full_chunks(delay_ticks(ms)),
    ensures
        total(plan) == delay_ticks(ms),
{
    lemma_total_of_plan(plan, full_chunks(delay_ticks(ms)));
}

/// Starts the timers and claims a stack for a new process; returns the
/// address the new process starts with, or `None` when every stack is
/// taken.
pub fn fork(regs: &mut IoRegisters, table: &mut ProcTable) -> (stack_loc: Option<usize>)
    ensures
        final(regs)@ == timers_initialised(old(regs)@),
        match stack_loc {
            Some(loc) => {
                &&& is_stack(loc + 4)
                &&& !old(table).info(loc + 4).alive
                &&& forall|b: int|
                    is_stack(b) && b > loc + 4 ==> #[trigger] old(table).info(b).alive
                &&& final(table)@ == old(table)@.update(slot(loc + 4), fresh_info())
            },
            None => {
                &&& forall|b: int| is_stack(b) ==> #[trigger] old(table).info(b).alive
                &&& final(table)@ == old(table)@
            },
        },
{
    init_timers(regs);
    ProcInfo::fork(table)
}

} // verus!
