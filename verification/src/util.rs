//! Integer helpers shared by the calibration arithmetic.

use vstd::prelude::*;

verus! {

/// Mathematical ceiling of `a / b` for a non-negative numerator and a
/// positive denominator.
pub open spec fn ceil_div(a: int, b: int) -> int
    recommends
        a >= 0,
        b > 0,
{
    (a + b - 1) / b
}

/// Takes the quotient of two numbers `a / b`, rounded up rather than
/// truncated.
///
/// The result is pinned down both as the ceiling of the quotient and by its
/// defining property: it is the least count of `b`-sized steps that covers
/// `a`.
pub fn division_ceil(a: u32, b: u32) -> (r: u32)
    requires
        b >= 1,
    ensures
        r == ceil_div(a as int, b as int),
        b * r >= a,
        b * (r - 1) < a,
{
    if a == 0 {
        proof {
            vstd::arithmetic::div_mod::lemma_basic_div(b - 1, b as int);
        }
        0
    } else {
        proof {
            let q: int = (a - 1) as int / b as int;
            assert(b * (q + 1) == b * q + b) by (nonlinear_arith);
            vstd::arithmetic::div_mod::lemma_div_plus_one(a - 1, b as int);
            vstd::arithmetic::div_mod::lemma_fundamental_div_mod(a - 1, b as int);
            vstd::arithmetic::div_mod::lemma_mod_bound(a - 1, b as int);
            vstd::arithmetic::div_mod::lemma_div_nonincreasing(a - 1, b as int);
            vstd::arithmetic::div_mod::lemma_div_pos_is_pos(a - 1, b as int);
        }
        (a - 1) / b + 1
    }
}

} // verus!
