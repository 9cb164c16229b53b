//! Animated entities: exponential smoothing of needle positions and
//! highlight bounds.
//!
//! Every animated quantity holds a current and a target value and moves a
//! tenth of the remaining distance per frame (`current += (target -
//! current) * 0.1` in micro-units, the tenth rounded away from the
//! current value so that a nonzero error always shrinks).  The laws at
//! the end pin the filter down: after one step the error is exactly
//! `9 * err / 10` rounded down, so it never grows, loses at least one
//! micro-unit per step while nonzero, and reaches the target exactly
//! within a bounded number of steps.

use vstd::prelude::*;
use crate::fixed::{FP_ONE, FP_LIMIT, clamped, clamp_i64};

verus! {

/// One smoothing step: move a tenth of the way to the target, rounded up
/// so any nonzero distance closes by at least one micro-unit.
pub open spec fn lerp_step_spec(current: int, target: int) -> int {
    if target >= current {
        current + (target - current + 9) / 10
    } else {
        current - (current - target + 9) / 10
    }
}

/// Distance from the target.
pub open spec fn smoothing_err(current: int, target: int) -> int {
    if target >= current {
        target - current
    } else {
        current - target
    }
}

/// Advance `current` one smoothing step toward `target`.
pub fn lerp(current: i64, target: i64) -> (r: i64)
    requires
        -FP_LIMIT <= current <= FP_LIMIT,
        -FP_LIMIT <= target <= FP_LIMIT,
    ensures
        r == lerp_step_spec(current as int, target as int),
        current <= target ==> current <= r <= target,
        target <= current ==> target <= r <= current,
{
    proof {
        lemma_ceil_tenth(if target >= current { target - current } else {
            current - target
        });
    }
    if target >= current {
        let d: i64 = target - current;
        let q: i64 = crate::fixed::div_nn(d + 9, 10);
        current + q
    } else {
        let d: i64 = current - target;
        let q: i64 = crate::fixed::div_nn(d + 9, 10);
        current - q
    }
}

/// The rounded-up tenth of a distance `e` removes between one micro-unit
/// and the whole distance, and leaves exactly `9 * e / 10` behind.
proof fn lemma_ceil_tenth(e: int)
    requires
        e >= 0,
    ensures
        0 <= (e + 9) / 10 <= e,
        e >= 1 ==> 1 <= (e + 9) / 10,
        e - (e + 9) / 10 == 9 * e / 10,
{
    let q = (e + 9) / 10;
    vstd::arithmetic::div_mod::lemma_fundamental_div_mod(e + 9, 10);
    vstd::arithmetic::div_mod::lemma_mod_bound(e + 9, 10);
    vstd::arithmetic::div_mod::lemma_div_pos_is_pos(e + 9, 10);
    if e >= 1 {
        vstd::arithmetic::div_mod::lemma_div_is_ordered(10, e + 9, 10);
        vstd::arithmetic::div_mod::lemma_div_by_multiple(1, 10);
    }
    if e == 0 {
        vstd::arithmetic::div_mod::lemma_basic_div(9, 10);
    }
    // 10q lies in [e, e + 9], so 9e = 10(e - q) + (10q - e) with the
    // remainder in [0, 10), which pins 9e / 10 down to e - q.
    vstd::arithmetic::div_mod::lemma_fundamental_div_mod_converse(
        9 * e, 10, e - q, 10 * q - e);
}

/// The position after `n` smoothing steps toward a fixed target.
pub open spec fn lerp_iter_spec(current: int, target: int, n: nat) -> int
    decreases n,
{
    if n == 0 {
        current
    } else {
        lerp_step_spec(lerp_iter_spec(current, target, (n - 1) as nat), target)
    }
}

/// One smoothing step leaves exactly nine tenths of the error, rounded
/// down: the error never increases, and while it is nonzero every step
/// closes at least one micro-unit without overshooting the target.
pub proof fn lemma_smoothing_step(current: int, target: int)
    requires
        -FP_LIMIT <= current <= FP_LIMIT,
        -FP_LIMIT <= target <= FP_LIMIT,
    ensures
        smoothing_err(lerp_step_spec(current, target), target)
            == 9 * smoothing_err(current, target) / 10,
        smoothing_err(lerp_step_spec(current, target), target)
            <= smoothing_err(current, target),
        smoothing_err(current, target) >= 1
            ==> smoothing_err(lerp_step_spec(current, target), target)
                <= smoothing_err(current, target) - 1,
{
    let e = smoothing_err(current, target);
    lemma_ceil_tenth(e);
}

/// Repeated smoothing toward a fixed target within `[0, FP_ONE]` stays in
/// `[0, FP_ONE]`, loses at least one micro-unit of error per step while
/// any remains, and therefore reaches the target exactly within a
/// bounded number of steps: after `FP_ONE` steps the error is zero.
pub proof fn lemma_smoothing_convergence(current: int, target: int, n: nat)
    requires
        0 <= current <= FP_ONE,
        0 <= target <= FP_ONE,
    ensures
        0 <= lerp_iter_spec(current, target, n) <= FP_ONE,
        smoothing_err(lerp_iter_spec(current, target, n), target)
            <= smoothing_err(current, target) - n
            || smoothing_err(lerp_iter_spec(current, target, n), target) == 0,
        n >= FP_ONE ==> lerp_iter_spec(current, target, n) == target,
    decreases n,
{
    if n == 0 {
    } else {
        lemma_smoothing_convergence(current, target, (n - 1) as nat);
        let prev = lerp_iter_spec(current, target, (n - 1) as nat);
        lemma_smoothing_step(prev, target);
    }
}

/// An animated pointer: a normalized position smoothed toward a
/// normalized target, both always in `[0, FP_ONE]`.
pub struct Needle {
    pub pos: i64,
    pub target_pos: i64,
}

impl Needle {
    /// Both the position and the target lie in the unit band.
    pub open spec fn wf(self) -> bool {
        0 <= self.pos <= FP_ONE && 0 <= self.target_pos <= FP_ONE
    }

    /// A fresh needle resting at mid-scale.
    pub fn new() -> (n: Needle)
        ensures
            n.wf(),
            n.pos == FP_ONE / 2,
            n.target_pos == FP_ONE / 2,
    {
        Needle { pos: 500_000, target_pos: 500_000 }
    }

    /// Aim the needle at `target`, clamped into the unit band.
    pub fn set_target_pos(&mut self, target: i64)
        requires
            old(self).wf(),
        ensures
            final(self).wf(),
            final(self).pos == old(self).pos,
            final(self).target_pos == clamped(target as int, 0, FP_ONE as int),
    {
        self.target_pos = clamp_i64(target, 0, FP_ONE);
    }

    /// Move the position one smoothing step toward the target.
    pub fn update_position(&mut self)
        requires
            old(self).wf(),
        ensures
            final(self).wf(),
            final(self).target_pos == old(self).target_pos,
            final(self).pos
                == lerp_step_spec(old(self).pos as int, old(self).target_pos as int),
    {
        let next: i64 = lerp(self.pos, self.target_pos);
        self.pos = clamp_i64(next, 0, FP_ONE);
    }

    /// Idle drift for a needle that has never seen a real value: with
    /// probability 1% pick a fresh uniform random target.  Whatever the
    /// dice say, the position is untouched and the target stays in the
    /// unit band.
    pub fn update_random(&mut self)
        requires
            old(self).wf(),
        ensures
            final(self).wf(),
            final(self).pos == old(self).pos,
    {
        let roll: u64 = crate::rng::random_below(100);
        if roll < 1 {
            let fresh: u64 = crate::rng::random_below(1_000_001);
            self.target_pos = fresh as i64;
        }
    }
}

/// The highlighted sub-range of the dial: a pair of bound values, each
/// smoothed toward its own target exactly like a needle position.
pub struct HighlightBounds {
    pub lower: i64,
    pub upper: i64,
    pub target_lower: i64,
    pub target_upper: i64,
}

impl HighlightBounds {
    /// All four values stay inside the engine's scalar band.
    pub open spec fn wf(self) -> bool {
        &&& -FP_LIMIT <= self.lower <= FP_LIMIT
        &&& -FP_LIMIT <= self.upper <= FP_LIMIT
        &&& -FP_LIMIT <= self.target_lower <= FP_LIMIT
        &&& -FP_LIMIT <= self.target_upper <= FP_LIMIT
    }

    /// Bounds that start at their targets.
    pub fn new(lower: i64, upper: i64) -> (b: HighlightBounds)
        requires
            -FP_LIMIT <= lower <= FP_LIMIT,
            -FP_LIMIT <= upper <= FP_LIMIT,
        ensures
            b.wf(),
            b.lower == lower,
            b.upper == upper,
            b.target_lower == lower,
            b.target_upper == upper,
    {
        HighlightBounds { lower, upper, target_lower: lower, target_upper: upper }
    }

    /// Re-aim both bounds.
    pub fn set_target_bounds(&mut self, lower: i64, upper: i64)
        requires
            old(self).wf(),
            -FP_LIMIT <= lower <= FP_LIMIT,
            -FP_LIMIT <= upper <= FP_LIMIT,
        ensures
            final(self).wf(),
            final(self).lower == old(self).lower,
            final(self).upper == old(self).upper,
            final(self).target_lower == lower,
            final(self).target_upper == upper,
    {
        self.target_lower = lower;
        self.target_upper = upper;
    }

    /// Move both bounds one smoothing step toward their targets.
    pub fn update_position(&mut self)
        requires
            old(self).wf(),
        ensures
            final(self).wf(),
            final(self).target_lower == old(self).target_lower,
            final(self).target_upper == old(self).target_upper,
            final(self).lower
                == lerp_step_spec(old(self).lower as int, old(self).target_lower as int),
            final(self).upper
                == lerp_step_spec(old(self).upper as int, old(self).target_upper as int),
    {
        self.lower = lerp(self.lower, self.target_lower);
        self.upper = lerp(self.upper, self.target_upper);
    }

    /// The current pair of bounds.
    pub fn get_bounds(&self) -> (r: (i64, i64))
        ensures
            r.0 == self.lower,
            r.1 == self.upper,
    {
        (self.lower, self.upper)
    }
}

} // verus!
