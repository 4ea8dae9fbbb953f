//! Utilities for sleeping the CPU by stringing naps together.
//!
//! A nap is this module's fixed-cost delay primitive: a routine of a known
//! cycle cost plus the known cost of the call instruction that reaches it.

use vstd::prelude::*;
use crate::util::ceil_div;
use crate::util::division_ceil;

verus! {

/// The number of CPU cycles used by the nap routine itself.
pub const NAP_STANDALONE_CYCLES: u32 = 21;

/// The number of CPU cycles it takes to actually invoke the nap routine.
pub const CALL_INSTRUCTION_CYCLES: u32 = 4;

/// The number of CPU cycles it takes to execute one nap, call included.
pub const CYCLES_PER_NAP: u32 = NAP_STANDALONE_CYCLES + CALL_INSTRUCTION_CYCLES;

/// Gets the number of naps to be used to delay for a given number of cycles.
///
/// Rounded up so the naps never underestimate the requested time: the result
/// is the least nap count whose combined cost covers `cycles`, so at the
/// very worst the naps overshoot by one nap's cost less one cycle.
pub fn naps_required(cycles: u32) -> (n: u32)
    ensures
        n == ceil_div(cycles as int, CYCLES_PER_NAP as int),
        n * CYCLES_PER_NAP >= cycles,
        (n - 1) * CYCLES_PER_NAP < cycles,
        cycles == 0 ==> n == 0,
{
    division_ceil(cycles, CYCLES_PER_NAP)
}

} // verus!
