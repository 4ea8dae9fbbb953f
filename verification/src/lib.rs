//! Calibration arithmetic for cycle-accurate busy-wait delays on a
//! fixed-frequency microcontroller.
//!
//! A delay is realized as a loop of calls to a delay *atom*: a primitive
//! whose execution takes a fixed, externally measured number of CPU cycles.
//! Calibration converts a requested duration into a cycle count, then into
//! the number of loop iterations that covers that count once the cycles the
//! looping code itself burns are taken into account. The looping code runs a
//! fixed number of bookkeeping cycles per iteration plus a fixed cost for the
//! final, terminating check, so every quantity here is a pure function of
//! build-time constants and the requested duration.

use vstd::prelude::*;

pub mod atoms;
pub mod control_loop;
pub mod nap;
pub mod util;

use crate::atoms::twenty_five_cycles::CYCLES_PER_ATOM;
use crate::atoms::twenty_five_cycles::iterations_required;
use crate::util::ceil_div;

verus! {

/// The fixed oscillator frequency of the target, in cycles per second.
pub const CYCLES_PER_SECOND: u32 = 16_000_000;

/// Cycles that elapse in one microsecond. The frequency must be at least
/// 1 MHz, otherwise this truncates to 0 and every conversion is defective.
pub const CYCLES_PER_MICROS: u32 = CYCLES_PER_SECOND / 1_000_000;

/// Bookkeeping cycles one non-final loop iteration spends on its
/// check, dispatch, decrement and branch.
pub const ATOM_DELAY_SUCCESSFUL_ITERATION_CYCLES: u32 = 16;

/// Cycles the final, failing loop-condition check spends before the loop
/// terminates.
pub const ATOM_DELAY_FINAL_ITERATION_CYCLES: u32 = 7;

/// Gets the number of cycles that are executed in a number of microseconds.
///
/// A duration large enough to overflow the conversion is refused by the
/// precondition: it must fail the caller's build, never truncate to a
/// silently shorter delay.
pub fn cycle_count_micros(micros: u32) -> (cycles: u32)
    requires
        micros * CYCLES_PER_MICROS <= u32::MAX,
    ensures
        cycles == micros * CYCLES_PER_MICROS,
{
    micros * CYCLES_PER_MICROS
}

/// Cycles the control loop's own bookkeeping burns while running `n`
/// iterations: the per-iteration cost for each of the `n` continuing checks
/// plus the cost of the final, failing check.
pub open spec fn loop_overhead_cycles(n: int) -> int {
    n * ATOM_DELAY_SUCCESSFUL_ITERATION_CYCLES + ATOM_DELAY_FINAL_ITERATION_CYCLES
}

/// Whole atoms displaced by the loop overhead of `n` iterations. The
/// division truncates deliberately: counting more atoms than the overhead
/// really displaces would shorten the realized delay below the request.
pub open spec fn overhead_atoms(n: int) -> int {
    loop_overhead_cycles(n) / (CYCLES_PER_ATOM as int)
}

/// The trip count the solver settles on once a naive atom count `n` is
/// discounted by the whole atoms its own loop overhead displaces.
pub open spec fn solved_iterations(n: int) -> int {
    n - overhead_atoms(n)
}

/// The whole solver on a requested cycle count: the naive ceiling-division
/// atom count, discounted by the overhead those iterations carry.
pub open spec fn iteration_count_spec(c: int) -> int {
    solved_iterations(ceil_div(c, CYCLES_PER_ATOM as int))
}

/// Cycles the control loop really spends running `n` iterations: each
/// iteration executes one atom and the per-iteration bookkeeping, and the
/// final failing check terminates the loop.
pub open spec fn realized_cycles(n: int) -> int {
    n * CYCLES_PER_ATOM + loop_overhead_cycles(n)
}

/// The loop overhead displaces whole atoms strictly more slowly than
/// iterations accrue, because one iteration's bookkeeping costs fewer cycles
/// than one atom. So the discount never exceeds the naive count, and a
/// positive naive count always solves to a positive trip count rather than
/// degenerating to zero.
pub proof fn lemma_overhead_never_dominates(n: int)
    requires
        n >= 0,
    ensures
        0 <= overhead_atoms(n) <= n,
        n > 0 ==> overhead_atoms(n) < n,
{
    vstd::arithmetic::div_mod::lemma_fundamental_div_mod(
        loop_overhead_cycles(n),
        CYCLES_PER_ATOM as int,
    );
    vstd::arithmetic::div_mod::lemma_mod_bound(loop_overhead_cycles(n), CYCLES_PER_ATOM as int);
}

/// Calculates how many cycles are wasted inside the looping code.
fn extraneous_cycles_from_looping(iteration_count: u32) -> (overhead: u32)
    requires
        loop_overhead_cycles(iteration_count as int) <= u32::MAX,
    ensures
        overhead == loop_overhead_cycles(iteration_count as int),
{
    iteration_count * ATOM_DELAY_SUCCESSFUL_ITERATION_CYCLES + ATOM_DELAY_FINAL_ITERATION_CYCLES
}

/// Calculates how many extra iterations can be dropped because the looping
/// code burns cycles itself.
fn extraneous_iterations_from_looping(iteration_count: u32) -> (atoms_displaced: u32)
    requires
        loop_overhead_cycles(iteration_count as int) <= u32::MAX,
    ensures
        atoms_displaced == overhead_atoms(iteration_count as int),
{
    extraneous_cycles_from_looping(iteration_count) / CYCLES_PER_ATOM
}

/// Discounts a naive iteration count by the iterations whose work the loop
/// overhead already performs. Truncation inside the discount is deliberate:
/// the delay must last at least the expected duration, so the solver never
/// over-subtracts atoms.
pub fn actual_iterations(iteration_count: u32) -> (n: u32)
    requires
        loop_overhead_cycles(iteration_count as int) <= u32::MAX,
    ensures
        n == solved_iterations(iteration_count as int),
        iteration_count > 0 ==> n > 0,
{
    proof {
        lemma_overhead_never_dominates(iteration_count as int);
    }
    iteration_count - extraneous_iterations_from_looping(iteration_count)
}

/// The iteration solver: resolves a requested cycle count into the trip
/// count the control loop should run so that, loop overhead included, the
/// request is covered without a runtime division.
///
/// The result is a pure function of `cycles` alone. A request of zero cycles
/// solves to zero iterations, and any positive request solves to at least
/// one iteration, so a request shorter than one atom still runs one atom.
pub fn iteration_count(cycles: u32) -> (n: u32)
    ensures
        n == iteration_count_spec(cycles as int),
        cycles == 0 ==> n == 0,
        cycles > 0 ==> n > 0,
{
    let naive: u32 = iterations_required(cycles);
    actual_iterations(naive)
}

/// Discounting preserves order: a larger naive atom count never solves to a
/// smaller trip count. Adding one iteration adds one atom but only one
/// iteration's worth of bookkeeping cycles, which displace at most one more
/// whole atom.
pub proof fn lemma_solved_iterations_monotonic(n1: int, n2: int)
    requires
        0 <= n1 <= n2,
    ensures
        solved_iterations(n1) <= solved_iterations(n2),
    decreases n2 - n1,
{
    if n1 < n2 {
        lemma_solved_iterations_monotonic(n1, n2 - 1);
        let previous = loop_overhead_cycles(n2 - 1);
        vstd::arithmetic::div_mod::lemma_div_is_ordered(
            previous + ATOM_DELAY_SUCCESSFUL_ITERATION_CYCLES,
            previous + CYCLES_PER_ATOM,
            CYCLES_PER_ATOM as int,
        );
        vstd::arithmetic::div_mod::lemma_div_plus_one(previous, CYCLES_PER_ATOM as int);
    }
}

/// Monotonicity of the solver: requesting at least as many cycles never
/// yields fewer loop iterations.
pub proof fn lemma_iteration_count_monotonic(c1: int, c2: int)
    requires
        0 <= c1 <= c2,
    ensures
        iteration_count_spec(c1) <= iteration_count_spec(c2),
{
    vstd::arithmetic::div_mod::lemma_div_is_ordered(
        c1 + CYCLES_PER_ATOM - 1,
        c2 + CYCLES_PER_ATOM - 1,
        CYCLES_PER_ATOM as int,
    );
    vstd::arithmetic::div_mod::lemma_div_pos_is_pos(
        c1 + CYCLES_PER_ATOM - 1,
        CYCLES_PER_ATOM as int,
    );
    lemma_solved_iterations_monotonic(
        ceil_div(c1, CYCLES_PER_ATOM as int),
        ceil_div(c2, CYCLES_PER_ATOM as int),
    );
}

/// Lower-bound law of the calibration: where the solver yields a positive
/// trip count, running that many iterations spends at least the requested
/// cycle count. The overhead discount forfeits the discounted iterations'
/// own bookkeeping cycles along with their atoms, so the realized delay
/// covers the request exactly on requests of at most 48 cycles and of 76 to
/// 89 cycles; the smallest request the discount undershoots is 49 cycles.
pub proof fn lemma_realized_covers_request(c: int)
    requires
        0 <= c <= 48 || 76 <= c <= 89,
    ensures
        iteration_count_spec(c) > 0 ==> realized_cycles(iteration_count_spec(c)) >= c,
{
    if 1 <= c <= 25 {
        assert(ceil_div(c, CYCLES_PER_ATOM as int) == 1);
    } else if 26 <= c <= 48 {
        assert(ceil_div(c, CYCLES_PER_ATOM as int) == 2);
    } else if 76 <= c <= 89 {
        assert(ceil_div(c, CYCLES_PER_ATOM as int) == 4);
    }
}

} // verus!

