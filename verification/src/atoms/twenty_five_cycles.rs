//! The 25-cycle delay atom.

use vstd::prelude::*;
use crate::util::ceil_div;
use crate::util::division_ceil;

verus! {

/// The number of CPU cycles it takes to execute the atom once, including the
/// call instruction that invokes it. This must match the real hardware
/// exactly: a silent mismatch breaks every guarantee built on top of it and
/// cannot be detected at runtime.
pub const CYCLES_PER_ATOM: u32 = 25;

/// Gets the number of atoms to be used to delay for a given number of
/// cycles.
///
/// The division rounds up deliberately: the atoms, executed back to back,
/// must cover the entire requested cycle count, and truncating here would
/// undershoot. The result is the least atom count whose combined cost
/// reaches `cycles`.
pub fn iterations_required(cycles: u32) -> (n: u32)
    ensures
        n == ceil_div(cycles as int, CYCLES_PER_ATOM as int),
        n * CYCLES_PER_ATOM >= cycles,
        (n - 1) * CYCLES_PER_ATOM < cycles,
        cycles == 0 ==> n == 0,
{
    division_ceil(cycles, CYCLES_PER_ATOM)
}

} // verus!
