//! The control loop that performs a solved delay.
//!
//! The loop is a two-state machine. It starts in `Looping` with the solved
//! trip count; while the counter is positive, each transition runs one atom
//! and decrements; a zero counter terminates the loop in `Done`. The loop
//! carries nothing besides the counter, performs no input or output, and is
//! total: it cannot fail for any trip count. The runner here accounts for
//! every cycle such a run spends on the target, which is what ties the
//! solver's trip count back to elapsed time.

use vstd::prelude::*;
use crate::ATOM_DELAY_FINAL_ITERATION_CYCLES;
use crate::ATOM_DELAY_SUCCESSFUL_ITERATION_CYCLES;
use crate::atoms::twenty_five_cycles::CYCLES_PER_ATOM;
use crate::realized_cycles;

verus! {

/// The control loop's state: either some iterations remain to run, or the
/// loop has terminated.
#[derive(Clone, Copy, Debug, PartialEq, Eq, Structural)]
pub enum LoopState {
    /// The loop will still run this many iterations before terminating.
    Looping(u32),
    /// The terminal state: the delay has elapsed.
    Done,
}

/// What one transition of the control loop steps to: a zero counter moves to
/// the terminal state, any other counter runs one atom and decrements.
pub open spec fn transition(state: LoopState) -> LoopState {
    match state {
        LoopState::Looping(remaining) => if remaining == 0 {
            LoopState::Done
        } else {
            LoopState::Looping((remaining - 1) as u32)
        },
        LoopState::Done => LoopState::Done,
    }
}

/// How many transitions remain before the loop reaches its terminal state:
/// one per pending iteration plus the final, terminating check.
pub open spec fn remaining_transitions(state: LoopState) -> int {
    match state {
        LoopState::Looping(remaining) => remaining + 1,
        LoopState::Done => 0,
    }
}

/// One transition of the control loop.
pub fn loop_transition(state: LoopState) -> (next: LoopState)
    ensures
        next == transition(state),
{
    match state {
        LoopState::Looping(remaining) => if remaining == 0 {
            LoopState::Done
        } else {
            LoopState::Looping(remaining - 1)
        },
        LoopState::Done => LoopState::Done,
    }
}

/// Runs the control loop from its initial state to termination and accounts
/// for every cycle the run spends: one atom plus the per-iteration
/// bookkeeping for each of the `iteration_count` continuing iterations, then
/// the final failing check. The total is exactly the realized delay of the
/// solved trip count.
pub fn run_delay_loop(iteration_count: u32) -> (cycles_spent: u64)
    ensures
        cycles_spent == realized_cycles(iteration_count as int),
{
    let mut state: LoopState = LoopState::Looping(iteration_count);
    let mut cycles_spent: u64 = 0;
    loop
        invariant
            (match state {
                LoopState::Looping(remaining) => remaining <= iteration_count
                    && cycles_spent == (iteration_count - remaining) * (
                CYCLES_PER_ATOM + ATOM_DELAY_SUCCESSFUL_ITERATION_CYCLES),
                LoopState::Done => cycles_spent == realized_cycles(iteration_count as int),
            }),
        decreases remaining_transitions(state),
    {
        match state {
            LoopState::Looping(remaining) => {
                if remaining == 0 {
                    cycles_spent = cycles_spent + ATOM_DELAY_FINAL_ITERATION_CYCLES as u64;
                } else {
                    cycles_spent = cycles_spent + (CYCLES_PER_ATOM as u64
                        + ATOM_DELAY_SUCCESSFUL_ITERATION_CYCLES as u64);
                }
                state = loop_transition(state);
            },
            LoopState::Done => {
                return cycles_spent;
            },
        }
    }
}

} // verus!
