//! Integer trigonometry for the gauge engine.
//!
//! Angles are carried as `i64` milli-degrees: a full turn is `TURN_MDEG`
//! (360 000).  Screen convention as everywhere in the engine: angle 0 points
//! along +x and angles grow clockwise because the y axis points down.
//!
//! `sin_mdeg` uses Bhaskara's rational approximation of the sine, and
//! `atan2_mdeg` a rational approximation of the arctangent; both are exact
//! at the axis angles, stay inside `[-FP_ONE, FP_ONE]` respectively the
//! right quadrant, and have fully pinned-down integer contracts.

use vstd::prelude::*;
use crate::fixed::{FP_ONE, FP_LIMIT};

verus! {

/// One full turn in milli-degrees.
pub const TURN_MDEG: i64 = 360_000;

/// Integer square root: the largest `r` with `r * r <= x`.
pub fn isqrt(x: u64) -> (r: u64)
    ensures
        r * r <= x,
        (r + 1) * (r + 1) > x,
        r <= 4_294_967_295,
{
    let mut lo: u64 = 0;
    let mut hi: u64 = 4_294_967_296;
    while hi - lo > 1
        invariant
            lo < hi <= 4_294_967_296,
            lo * lo <= x,
            hi * hi > x,
        decreases hi - lo,
    {
        let mid: u64 = lo + (hi - lo) / 2;
        proof {
            assert(mid * mid <= 4_294_967_295 * 4_294_967_295) by (nonlinear_arith)
                requires 0 <= mid <= 4_294_967_295;
        }
        if mid * mid <= x {
            lo = mid;
        } else {
            hi = mid;
        }
    }
    lo
}

/// Bhaskara's numerator term: `x * (180000 - x)` for `x` in milli-degrees.
pub open spec fn sin_half_y(x: int) -> int {
    x * (180_000 - x)
}

/// Bhaskara's sine approximation on the first half turn, scaled to
/// micro-units.
pub open spec fn sin_half_spec(x: int) -> int {
    4 * sin_half_y(x) * 1_000_000 / (40_500_000_000 - sin_half_y(x))
}

/// The engine's sine on `[0, TURN_MDEG)`: Bhaskara on the first half turn,
/// mirrored negative on the second.
pub open spec fn sin_spec(a: int) -> int {
    if a <= 180_000 {
        sin_half_spec(a)
    } else {
        -sin_half_spec(a - 180_000)
    }
}

/// The engine's cosine, as the sine a quarter turn ahead.
pub open spec fn cos_spec(a: int) -> int {
    if a < 270_000 {
        sin_spec(a + 90_000)
    } else {
        sin_spec(a - 270_000)
    }
}

proof fn lemma_sin_half_y_bounds(x: int)
    requires
        0 <= x <= 180_000,
    ensures
        0 <= sin_half_y(x) <= 8_100_000_000,
{
    assert(0 <= x * (180_000 - x)) by (nonlinear_arith)
        requires 0 <= x <= 180_000;
    assert(x * (180_000 - x) <= 8_100_000_000) by (nonlinear_arith)
        requires 0 <= x <= 180_000;
}

proof fn lemma_sin_half_range(x: int)
    requires
        0 <= x <= 180_000,
    ensures
        0 <= sin_half_spec(x) <= FP_ONE,
        x == 0 ==> sin_half_spec(x) == 0,
        x == 180_000 ==> sin_half_spec(x) == 0,
{
    lemma_sin_half_y_bounds(x);
    let y = sin_half_y(x);
    let num = 4 * y * 1_000_000;
    let den = 40_500_000_000 - y;
    assert(den >= 32_400_000_000);
    vstd::arithmetic::div_mod::lemma_div_pos_is_pos(num, den);
    assert(num <= den * 1_000_000) by (nonlinear_arith)
        requires
            0 <= y <= 8_100_000_000,
            den == 40_500_000_000 - y,
            num == 4 * y * 1_000_000;
    vstd::arithmetic::div_mod::lemma_div_is_ordered(num, den * 1_000_000, den);
    vstd::arithmetic::div_mod::lemma_div_by_multiple(1_000_000, den);
    if x == 0 || x == 180_000 {
        assert(y == 0) by (nonlinear_arith)
            requires y == x * (180_000 - x), x == 0 || x == 180_000;
        vstd::arithmetic::div_mod::lemma_div_basics(den);
    }
}

/// Sine of an angle in `[0, TURN_MDEG)`, in micro-units.
pub fn sin_mdeg(a: i64) -> (r: i64)
    requires
        0 <= a < TURN_MDEG,
    ensures
        r == sin_spec(a as int),
        -FP_ONE <= r <= FP_ONE,
        a == 0 ==> r == 0,
        a == 180_000 ==> r == 0,
{
    if a <= 180_000 {
        proof {
            lemma_sin_half_y_bounds(a as int);
            lemma_sin_half_range(a as int);
        }
        let y: i64 = a * (180_000 - a);
        let num: i64 = 4 * y * 1_000_000;
        let den: i64 = 40_500_000_000 - y;
        num / den
    } else {
        let x: i64 = a - 180_000;
        proof {
            lemma_sin_half_y_bounds(x as int);
            lemma_sin_half_range(x as int);
        }
        let y: i64 = x * (180_000 - x);
        let num: i64 = 4 * y * 1_000_000;
        let den: i64 = 40_500_000_000 - y;
        -(num / den)
    }
}

/// Cosine of an angle in `[0, TURN_MDEG)`, in micro-units.
pub fn cos_mdeg(a: i64) -> (r: i64)
    requires
        0 <= a < TURN_MDEG,
    ensures
        r == cos_spec(a as int),
        -FP_ONE <= r <= FP_ONE,
        a == 90_000 ==> r == 0,
        a == 270_000 ==> r == 0,
{
    if a < 270_000 {
        sin_mdeg(a + 90_000)
    } else {
        sin_mdeg(a - 270_000)
    }
}

/// Bring an angle into the canonical band `[0, TURN_MDEG)`.
pub fn wrap_mdeg(a: i64) -> (r: i64)
    requires
        -FP_LIMIT <= a <= FP_LIMIT,
    ensures
        0 <= r < TURN_MDEG,
        r == a as int % (TURN_MDEG as int),
{
    let mut v: i64 = a;
    while v < 0
        invariant
            v as int % (TURN_MDEG as int) == a as int % (TURN_MDEG as int),
            v >= -FP_LIMIT,
        decreases TURN_MDEG - v,
    {
        proof {
            vstd::arithmetic::div_mod::lemma_mod_add_multiples_vanish(v as int, TURN_MDEG as int);
        }
        v = v + TURN_MDEG;
    }
    while v >= TURN_MDEG
        invariant
            v >= 0,
            v as int % (TURN_MDEG as int) == a as int % (TURN_MDEG as int),
        decreases v,
    {
        proof {
            vstd::arithmetic::div_mod::lemma_mod_sub_multiples_vanish(v as int, TURN_MDEG as int);
        }
        v = v - TURN_MDEG;
    }
    proof {
        vstd::arithmetic::div_mod::lemma_small_mod(v as nat, TURN_MDEG as nat);
    }
    v
}

/// The arctangent approximation on `[0, FP_ONE]`, in milli-degrees:
/// `z * (45000 * FP_ONE + 15640 * (FP_ONE - z)) / FP_ONE^2`.
pub open spec fn atan_core_spec(z: int) -> int {
    z * (45_000_000_000 + 15_640 * (1_000_000 - z)) / 1_000_000_000_000
}

/// Arctangent of a ratio `z` in `[0, FP_ONE]`, in milli-degrees, exact at
/// both ends of the octant.
fn atan_core(z: i64) -> (r: i64)
    requires
        0 <= z <= FP_ONE,
    ensures
        r == atan_core_spec(z as int),
        0 <= r <= 45_000,
        z == 0 ==> r == 0,
        z == FP_ONE ==> r == 45_000,
{
    let inner: i64 = 45_000_000_000 + 15_640 * (1_000_000 - z);
    proof {
        assert(0 <= z * inner) by (nonlinear_arith)
            requires 0 <= z, inner >= 45_000_000_000;
        assert(z * inner <= 1_000_000 * 60_640_000_000) by (nonlinear_arith)
            requires 0 <= z <= 1_000_000, 0 <= inner <= 60_640_000_000;
    }
    let num: i64 = z * inner;
    proof {
        let w = 1_000_000 - z as int;
        assert(z * inner == 45_000_000_000_000_000 - 29_360_000_000 * w - 15_640 * w * w)
            by (nonlinear_arith)
            requires inner == 45_000_000_000 + 15_640 * w, z == 1_000_000 - w;
        assert(15_640 * w * w >= 0) by (nonlinear_arith)
            requires w >= 0;
        vstd::arithmetic::div_mod::lemma_div_pos_is_pos(num as int, 1_000_000_000_000);
        vstd::arithmetic::div_mod::lemma_div_is_ordered(
            num as int,
            45_000_000_000_000_000,
            1_000_000_000_000,
        );
        vstd::arithmetic::div_mod::lemma_div_by_multiple(45_000, 1_000_000_000_000);
        if z == 0 {
            vstd::arithmetic::div_mod::lemma_div_basics(1_000_000_000_000);
        }
    }
    num / 1_000_000_000_000
}

/// The angle, in `[0, TURN_MDEG)` milli-degrees, of the screen-space vector
/// `(dx, dy)`; 0 for the zero vector.  Octant folding around `atan_core`.
pub open spec fn atan2_spec(dy: int, dx: int) -> int {
    let ax = if dx >= 0 { dx } else { -dx };
    let ay = if dy >= 0 { dy } else { -dy };
    let t = if ax >= ay {
        if ax == 0 {
            0
        } else {
            atan_core_spec(ay * 1_000_000 / ax)
        }
    } else {
        90_000 - atan_core_spec(ax * 1_000_000 / ay)
    };
    if dx >= 0 && dy >= 0 {
        t
    } else if dx < 0 && dy >= 0 {
        180_000 - t
    } else if dx < 0 {
        180_000 + t
    } else if t == 0 {
        0
    } else {
        360_000 - t
    }
}

/// Polar angle of the pixel offset `(dx, dy)` from a circle's center, in
/// milli-degrees in `[0, TURN_MDEG)`; exact on the four axes and confined
/// to the right quadrant everywhere.
pub fn atan2_mdeg(dy: i64, dx: i64) -> (r: i64)
    requires
        -1_000_000_000 <= dx <= 1_000_000_000,
        -1_000_000_000 <= dy <= 1_000_000_000,
    ensures
        r == atan2_spec(dy as int, dx as int),
        0 <= r < TURN_MDEG,
        dy == 0 && dx > 0 ==> r == 0,
        dx == 0 && dy > 0 ==> r == 90_000,
        dy == 0 && dx < 0 ==> r == 180_000,
        dx == 0 && dy < 0 ==> r == 270_000,
        dx >= 0 && dy >= 0 ==> 0 <= r <= 90_000,
        dx < 0 && dy >= 0 ==> 90_000 <= r <= 180_000,
        dx < 0 && dy < 0 ==> 180_000 <= r <= 270_000,
        dx >= 0 && dy < 0 ==> r == 0 || 270_000 <= r < 360_000,
{
    let ax: i64 = if dx >= 0 { dx } else { -dx };
    let ay: i64 = if dy >= 0 { dy } else { -dy };
    let t: i64 = if ax >= ay {
        if ax == 0 {
            0
        } else {
            let z: i64 = crate::fixed::div_nn(ay * 1_000_000, ax);
            proof {
                assert(ay * 1_000_000 <= ax * 1_000_000) by (nonlinear_arith)
                    requires ay <= ax;
                vstd::arithmetic::div_mod::lemma_div_is_ordered(
                    ay * 1_000_000 as int,
                    ax * 1_000_000 as int,
                    ax as int,
                );
                vstd::arithmetic::div_mod::lemma_div_by_multiple(1_000_000, ax as int);
            }
            atan_core(z)
        }
    } else {
        let z: i64 = crate::fixed::div_nn(ax * 1_000_000, ay);
        proof {
            assert(ax * 1_000_000 <= ay * 1_000_000) by (nonlinear_arith)
                requires ax <= ay;
            vstd::arithmetic::div_mod::lemma_div_is_ordered(
                ax * 1_000_000 as int,
                ay * 1_000_000 as int,
                ay as int,
            );
            vstd::arithmetic::div_mod::lemma_div_by_multiple(1_000_000, ay as int);
        }
        90_000 - atan_core(z)
    };
    if dx >= 0 && dy >= 0 {
        t
    } else if dx < 0 && dy >= 0 {
        180_000 - t
    } else if dx < 0 {
        180_000 + t
    } else if t == 0 {
        0
    } else {
        360_000 - t
    }
}

} // verus!
