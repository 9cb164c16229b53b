//! Fixed-point scalar arithmetic for the gauge engine.
//!
//! Every real-valued quantity of the instrument (normalized positions,
//! coverage, thicknesses, smoothing coefficients) is carried as an `i64`
//! number of micro-units: `FP_ONE` stands for 1.0.  All arithmetic is exact
//! integer arithmetic, so every operation has a precise contract.

use vstd::prelude::*;

verus! {

/// One whole unit (1.0) in micro-units.
pub const FP_ONE: i64 = 1_000_000;

/// Largest magnitude, in micro-units, that the engine accepts for a scalar
/// input.  Keeping inputs in this band makes every intermediate product of
/// the engine fit in an `i64`.
pub const FP_LIMIT: i64 = 1_000_000_000_000;

/// The value `v` pulled into the closed interval `[lo, hi]`.
pub open spec fn clamped(v: int, lo: int, hi: int) -> int {
    if v < lo {
        lo
    } else if v > hi {
        hi
    } else {
        v
    }
}

/// Clamp `v` into `[lo, hi]`.
pub fn clamp_i64(v: i64, lo: i64, hi: i64) -> (r: i64)
    requires
        lo <= hi,
    ensures
        r == clamped(v as int, lo as int, hi as int),
        lo <= r <= hi,
{
    if v < lo {
        lo
    } else if v > hi {
        hi
    } else {
        v
    }
}

/// Quotient of two non-negative numbers; truncating and Euclidean division
/// agree on them, so the result is the mathematical `a / b`.
pub fn div_nn(a: i64, b: i64) -> (r: i64)
    requires
        a >= 0,
        b > 0,
    ensures
        r == a as int / b as int,
        0 <= r <= a,
{
    let q: i64 = a / b;
    proof {
        vstd::arithmetic::div_mod::lemma_div_is_ordered_by_denominator(a as int, 1, b as int);
        vstd::arithmetic::div_mod::lemma_div_basics(a as int);
    }
    q
}

/// Normalized position of `value` inside the range `[min, max]`:
/// `(value - min) / (max - min)` scaled to micro-units, pinned to the ends
/// of `[0, FP_ONE]` for out-of-range values.
pub open spec fn normalized_spec(value: int, min: int, max: int) -> int {
    if value <= min {
        0
    } else if value >= max {
        FP_ONE as int
    } else {
        (value - min) * FP_ONE / (max - min)
    }
}

/// Map `value` into the dial's normalized `[0, FP_ONE]` band for the range
/// `[min, max]`.  Inside the range the quotient is exact (no clamping
/// occurs); outside it the result is exactly an endpoint.
pub fn normalized(value: i64, min: i64, max: i64) -> (r: i64)
    requires
        min < max,
        -FP_LIMIT <= value <= FP_LIMIT,
        -FP_LIMIT <= min <= FP_LIMIT,
        -FP_LIMIT <= max <= FP_LIMIT,
    ensures
        r == normalized_spec(value as int, min as int, max as int),
        0 <= r <= FP_ONE,
        value <= min ==> r == 0,
        value >= max ==> r == FP_ONE,
        min <= value <= max ==> r == (value - min) * FP_ONE / (max - min),
{
    let span: i64 = max - min;
    if value <= min {
        0
    } else if value >= max {
        proof {
            assert((max - min) * FP_ONE >= span * FP_ONE) by (nonlinear_arith)
                requires max - min >= span, FP_ONE > 0;
            vstd::arithmetic::div_mod::lemma_div_by_multiple(FP_ONE as int, span as int);
        }
        FP_ONE
    } else {
        let num: i64 = (value - min) * FP_ONE;
        proof {
            assert(0 <= (value - min) * FP_ONE <= span * FP_ONE) by (nonlinear_arith)
                requires 0 <= value - min <= span, FP_ONE > 0;
        }
        let q: i64 = div_nn(num, span);
        proof {
            vstd::arithmetic::div_mod::lemma_div_is_ordered(
                num as int,
                span * FP_ONE as int,
                span as int,
            );
            vstd::arithmetic::div_mod::lemma_div_by_multiple(FP_ONE as int, span as int);
        }
        q
    }
}

} // verus!
