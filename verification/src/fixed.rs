//! Fixed-point arithmetic.
//!
//! World coordinates, velocities, durations and rates are signed 64-bit
//! integers counting millionths of a unit: the value `FP_ONE` stands for
//! 1.0. Products of two fixed-point values are rescaled by `FP_ONE` with
//! the quotient rounded toward negative infinity (both factors are
//! non-negative wherever a product is taken, so this is ordinary
//! truncation).

use vstd::prelude::*;

verus! {

/// One world unit (1.0) in fixed-point representation.
pub const FP_ONE: i64 = 1_000_000;

/// Mathematical value of the fixed-point product of `a` and `b`:
/// the integer product rescaled by `FP_ONE`, rounded down.
pub open spec fn fp_mul_spec(a: int, b: int) -> int {
    (a * b) / (FP_ONE as int)
}

/// Fixed-point product of two non-negative values.
pub fn fp_mul(a: i64, b: i64) -> (r: i64)
    requires
        0 <= a,
        0 <= b,
        a * b <= i64::MAX,
    ensures
        r == fp_mul_spec(a as int, b as int),
        0 <= r,
        r <= a * b,
{
    let p: u64 = (a as u64) * (b as u64);
    let q: u64 = p / (FP_ONE as u64);
    q as i64
}

} // verus!
