//! Analytic anti-aliased drawing primitives.
//!
//! Every shape computes, per pixel, a fractional coverage in
//! `[0, FP_ONE]` micro-units from the pixel's distance to the shape's
//! analytic boundary, and composites through `Canvas::blend_pixel` — no
//! primitive touches the buffer any other way.  Distances are carried in
//! milli-pixels (`sqrt_floor` of a squared distance scaled by a million),
//! so every coverage value is a pinned-down integer.

use vstd::prelude::*;
use crate::fixed::{FP_ONE, clamped, clamp_i64, div_nn};
use crate::trig::{TURN_MDEG, isqrt, atan2_mdeg, atan2_spec};
use crate::canvas::Canvas;
use crate::Color;

verus! {

/// Floor of the square root, defined by counting up.
pub open spec fn sqrt_floor(x: int) -> int
    decreases x,
{
    if x < 1 {
        0
    } else {
        let r = sqrt_floor(x - 1);
        if (r + 1) * (r + 1) <= x {
            r + 1
        } else {
            r
        }
    }
}

/// `sqrt_floor(x)` really is the floor of the square root of `x`.
pub proof fn lemma_sqrt_floor(x: int)
    requires
        x >= 0,
    ensures
        sqrt_floor(x) >= 0,
        sqrt_floor(x) * sqrt_floor(x) <= x,
        (sqrt_floor(x) + 1) * (sqrt_floor(x) + 1) > x,
    decreases x,
{
    if x >= 1 {
        lemma_sqrt_floor(x - 1);
        let r = sqrt_floor(x - 1);
        if (r + 1) * (r + 1) <= x {
            assert((r + 2) * (r + 2) > x) by (nonlinear_arith)
                requires (r + 1) * (r + 1) > x - 1, r >= 0;
        }
    }
}

/// Any `r` with `r^2 <= x < (r+1)^2` is `sqrt_floor(x)`.
pub proof fn lemma_sqrt_floor_unique(x: int, r: int)
    requires
        x >= 0,
        r >= 0,
        r * r <= x,
        (r + 1) * (r + 1) > x,
    ensures
        r == sqrt_floor(x),
{
    lemma_sqrt_floor(x);
    let s = sqrt_floor(x);
    if r < s {
        assert((r + 1) * (r + 1) <= s * s) by (nonlinear_arith)
            requires 0 <= r + 1 <= s;
    }
    if s < r {
        assert((s + 1) * (s + 1) <= r * r) by (nonlinear_arith)
            requires 0 <= s + 1 <= r;
    }
}

/// Coverage of a pixel at distance `dist` from a shape whose soft edge
/// begins at `edge` (both in micro-pixels): full inside the edge, fading
/// linearly to zero over one pixel beyond it.
pub open spec fn edge_coverage_spec(dist: int, edge: int) -> int {
    clamped(FP_ONE - (dist - edge), 0, FP_ONE as int)
}

/// Compute `edge_coverage_spec` on machine integers.
pub fn edge_coverage(dist: i64, edge: i64) -> (cov: i64)
    requires
        0 <= dist <= 2_000_000_000_000,
        0 <= edge <= 2_000_000_000_000,
    ensures
        cov == edge_coverage_spec(dist as int, edge as int),
        0 <= cov <= FP_ONE,
{
    clamp_i64(FP_ONE - (dist - edge), 0, FP_ONE)
}

/// Coverage is exactly full anywhere inside the edge (in particular on the
/// shape's centerline, distance zero) and never increases as the distance
/// grows.
pub proof fn lemma_edge_coverage_monotone(d1: int, d2: int, edge: int)
    requires
        0 <= d1 <= d2,
        0 <= edge,
    ensures
        edge_coverage_spec(0, edge) == FP_ONE,
        d1 <= edge ==> edge_coverage_spec(d1, edge) == FP_ONE,
        edge_coverage_spec(d1, edge) >= edge_coverage_spec(d2, edge),
{
}

/// Half-width of the tapered needle line at parametric position `t` in
/// `[0, FP_ONE]` along the segment: the thickness shrinks by 95% from
/// start to end.
pub open spec fn tapered_half_width_spec(thickness: int, t: int) -> int {
    thickness * (FP_ONE - 19 * t / 20) / (2 * FP_ONE)
}

/// Compute the tapered half-width.  At `t == 0` it equals the plain
/// half-width `thickness / 2`, and it never falls below one twentieth of
/// it, so the taper never vanishes.
pub fn tapered_half_width(thickness: i64, t: i64) -> (hw: i64)
    requires
        0 <= thickness <= 1_000_000_000,
        0 <= t <= FP_ONE,
    ensures
        hw == tapered_half_width_spec(thickness as int, t as int),
        t == 0 ==> hw == thickness / 2,
        0 <= hw <= thickness / 2,
        hw >= thickness / 40,
{
    let fade: i64 = FP_ONE - (19 * t) / 20;
    proof {
        assert(19 * t / 20 <= FP_ONE) by {
            vstd::arithmetic::div_mod::lemma_div_is_ordered(19 * t, 20 * FP_ONE, 20);
            vstd::arithmetic::div_mod::lemma_div_by_multiple(FP_ONE as int, 20);
        }
        assert(19 * t / 20 >= 0) by {
            vstd::arithmetic::div_mod::lemma_div_pos_is_pos(19 * t, 20);
        }
        assert(50_000 <= fade <= FP_ONE) by {
            vstd::arithmetic::div_mod::lemma_div_is_ordered(19 * t, 19 * FP_ONE, 20);
            assert(19 * FP_ONE / 20 == 950_000) by {
                vstd::arithmetic::div_mod::lemma_div_by_multiple(950_000, 20);
            }
        }
        assert(thickness * 50_000 <= thickness * fade <= thickness * FP_ONE)
            by (nonlinear_arith)
            requires thickness >= 0, 50_000 <= fade <= FP_ONE;
    }
    let num: i64 = thickness * fade;
    let hw: i64 = num / (2 * FP_ONE);
    proof {
        vstd::arithmetic::div_mod::lemma_div_pos_is_pos(num as int, 2 * FP_ONE);
        vstd::arithmetic::div_mod::lemma_div_is_ordered(
            num as int,
            thickness * FP_ONE as int,
            2 * FP_ONE,
        );
        vstd::arithmetic::div_mod::lemma_div_is_ordered(
            thickness * 50_000,
            num as int,
            2 * FP_ONE,
        );
        assert(thickness * FP_ONE / (2 * FP_ONE) == thickness as int / 2) by {
            vstd::arithmetic::div_mod::lemma_div_denominator(
                thickness * FP_ONE as int,
                FP_ONE as int,
                2,
            );
            vstd::arithmetic::div_mod::lemma_div_by_multiple(thickness as int, FP_ONE as int);
        }
        assert(thickness * 50_000 / (2 * FP_ONE) == thickness as int / 40) by {
            vstd::arithmetic::div_mod::lemma_div_denominator(
                thickness * 50_000,
                50_000,
                40,
            );
            vstd::arithmetic::div_mod::lemma_div_by_multiple(thickness as int, 50_000);
        }
        if t == 0 {
            assert(fade == FP_ONE);
        }
    }
    hw
}

/// Whether the polar angle `angle` lies on the arc running clockwise from
/// `start` to `end` (all in `[0, TURN_MDEG)` milli-degrees).  When the arc
/// crosses the 0-degree seam (`start > end`) membership wraps around;
/// coincident bounds describe an empty arc.
pub open spec fn arc_contains_spec(angle: int, start: int, end: int) -> bool {
    if start == end {
        false
    } else if start < end {
        start <= angle <= end
    } else {
        angle >= start || angle <= end
    }
}

/// Decide arc membership, wraparound included.
pub fn arc_contains(angle: i64, start: i64, end: i64) -> (r: bool)
    ensures
        r == arc_contains_spec(angle as int, start as int, end as int),
{
    if start == end {
        false
    } else if start < end {
        start <= angle && angle <= end
    } else {
        angle >= start || angle <= end
    }
}

/// An arc that crosses the seam contains the angles just past 0 degrees
/// and excludes those just before its start.
pub proof fn lemma_arc_wraparound()
    ensures
        arc_contains_spec(5_000, 350_000, 10_000),
        !arc_contains_spec(340_000, 350_000, 10_000),
        arc_contains_spec(355_000, 350_000, 10_000),
        !arc_contains_spec(180_000, 350_000, 10_000),
{
}

/// Radial coverage of the dial's ring: full between the inner rim
/// `r - thickness` and the outer rim `r`, fading over one pixel on each
/// side (all arguments in micro-pixels).
pub open spec fn ring_radial_spec(dist: int, r: int, thickness: int) -> int {
    if dist > r {
        clamped(FP_ONE - (dist - r), 0, FP_ONE as int)
    } else if dist < r - thickness {
        clamped(FP_ONE - (r - thickness - dist), 0, FP_ONE as int)
    } else {
        FP_ONE as int
    }
}

/// Compute the ring's radial coverage.
pub fn ring_radial(dist: i64, r: i64, thickness: i64) -> (cov: i64)
    requires
        0 <= dist <= 1_000_000_000_000,
        0 <= r <= 1_000_000_000_000,
        0 <= thickness <= 1_000_000_000_000,
    ensures
        cov == ring_radial_spec(dist as int, r as int, thickness as int),
        0 <= cov <= FP_ONE,
{
    if dist > r {
        clamp_i64(FP_ONE - (dist - r), 0, FP_ONE)
    } else if dist < r - thickness {
        clamp_i64(FP_ONE - ((r - thickness) - dist), 0, FP_ONE)
    } else {
        FP_ONE
    }
}

/// Product of two unit-interval quantities, in micro-units.
pub open spec fn mul_unit_spec(a: int, b: int) -> int {
    a * b / (FP_ONE as int)
}

/// Multiply two coverage-like values in `[0, FP_ONE]`.
pub fn mul_unit(a: i64, b: i64) -> (r: i64)
    requires
        0 <= a <= FP_ONE,
        0 <= b <= FP_ONE,
    ensures
        r == mul_unit_spec(a as int, b as int),
        0 <= r <= FP_ONE,
{
    proof {
        assert(0 <= a * b <= FP_ONE * FP_ONE) by (nonlinear_arith)
            requires 0 <= a <= FP_ONE, 0 <= b <= FP_ONE;
        vstd::arithmetic::div_mod::lemma_div_pos_is_pos(a * b, FP_ONE as int);
        vstd::arithmetic::div_mod::lemma_div_is_ordered(
            a * b,
            FP_ONE * FP_ONE,
            FP_ONE as int,
        );
        vstd::arithmetic::div_mod::lemma_div_by_multiple(FP_ONE as int, FP_ONE as int);
    }
    (a * b) / FP_ONE
}

/// Linear ramp toward a band edge: coverage `1 - min(d, softness) / softness`
/// for a pixel whose angular distance to the nearer boundary is `d`
/// milli-degrees, over a softness window of `softness` milli-degrees.
pub open spec fn soft_ramp_spec(d: int, softness: int) -> int {
    FP_ONE - (if d < softness { d } else { softness }) * FP_ONE / softness
}

/// Compute the angular edge ramp.
pub fn soft_ramp(d: i64, softness: i64) -> (r: i64)
    requires
        0 <= d <= 2 * TURN_MDEG,
        1 <= softness <= TURN_MDEG,
    ensures
        r == soft_ramp_spec(d as int, softness as int),
        0 <= r <= FP_ONE,
{
    let m: i64 = if d < softness { d } else { softness };
    let q: i64 = div_nn(m * FP_ONE, softness);
    proof {
        assert(m * FP_ONE <= softness * FP_ONE) by (nonlinear_arith)
            requires m <= softness, FP_ONE > 0;
        vstd::arithmetic::div_mod::lemma_div_is_ordered(
            m * FP_ONE as int,
            softness * FP_ONE as int,
            softness as int,
        );
        vstd::arithmetic::div_mod::lemma_div_by_multiple(FP_ONE as int, softness as int);
    }
    FP_ONE - q
}

/// Angular coverage of the highlight band for a pixel at polar angle
/// `angle`, with boundaries `start` and `end` and an angular softness
/// window, all in milli-degrees.  Inside a non-wrapped band coverage is
/// full; outside it ramps down over the softness window; when the band
/// wraps past 0 degrees the pixel outside both edges measures its distance
/// to the nearer boundary the short way around the circle.
pub open spec fn band_angular_spec(angle: int, start: int, end: int, softness: int) -> int {
    if start <= end {
        if angle < start {
            soft_ramp_spec(start - angle, softness)
        } else if angle > end {
            soft_ramp_spec(angle - end, softness)
        } else {
            FP_ONE as int
        }
    } else {
        if angle < end {
            soft_ramp_spec(end - angle, softness)
        } else if angle > start {
            soft_ramp_spec(angle - start, softness)
        } else {
            let to_start = start - angle;
            let to_end = angle - end;
            soft_ramp_spec(if to_start < to_end { to_start } else { to_end }, softness)
        }
    }
}

/// Compute the band's angular coverage.
pub fn band_angular(angle: i64, start: i64, end: i64, softness: i64) -> (r: i64)
    requires
        0 <= angle < TURN_MDEG,
        0 <= start < TURN_MDEG,
        0 <= end < TURN_MDEG,
        1 <= softness <= TURN_MDEG,
    ensures
        r == band_angular_spec(angle as int, start as int, end as int, softness as int),
        0 <= r <= FP_ONE,
{
    if start <= end {
        if angle < start {
            soft_ramp(start - angle, softness)
        } else if angle > end {
            soft_ramp(angle - end, softness)
        } else {
            FP_ONE
        }
    } else {
        if angle < end {
            soft_ramp(end - angle, softness)
        } else if angle > start {
            soft_ramp(angle - start, softness)
        } else {
            let to_start: i64 = start - angle;
            let to_end: i64 = angle - end;
            let m: i64 = if to_start < to_end { to_start } else { to_end };
            soft_ramp(m, softness)
        }
    }
}

/// Radial coverage of the highlight band: zero well inside the inner
/// radius, ramping over two pixels at each radius, full in between (all in
/// micro-pixels).
pub open spec fn band_radial_spec(dist: int, inner: int, outer: int) -> int {
    if dist < inner - FP_ONE {
        0
    } else if dist < inner + FP_ONE {
        clamped((dist - (inner - FP_ONE)) / 2, 0, FP_ONE as int)
    } else if dist <= outer - FP_ONE {
        FP_ONE as int
    } else if dist <= outer + FP_ONE {
        FP_ONE - clamped((dist - (outer - FP_ONE)) / 2, 0, FP_ONE as int)
    } else {
        0
    }
}

/// Compute the band's radial coverage.
pub fn band_radial(dist: i64, inner: i64, outer: i64) -> (r: i64)
    requires
        0 <= dist <= 1_000_000_000_000,
        0 <= inner <= 1_000_000_000_000,
        0 <= outer <= 1_000_000_000_000,
    ensures
        r == band_radial_spec(dist as int, inner as int, outer as int),
        0 <= r <= FP_ONE,
{
    if dist < inner - FP_ONE {
        0
    } else if dist < inner + FP_ONE {
        clamp_i64((dist - (inner - FP_ONE)) / 2, 0, FP_ONE)
    } else if dist <= outer - FP_ONE {
        FP_ONE
    } else if dist <= outer + FP_ONE {
        FP_ONE - clamp_i64((dist - (outer - FP_ONE)) / 2, 0, FP_ONE)
    } else {
        0
    }
}

/// Clamped parametric position of pixel offset `(px, py)` projected onto
/// the segment direction `(dx, dy)`, in micro-units of the segment length.
pub open spec fn project_t_spec(px: int, py: int, dx: int, dy: int) -> int {
    let lsq = dx * dx + dy * dy;
    let num = (px * dx + py * dy) * FP_ONE;
    if lsq == 0 {
        0
    } else if num <= 0 {
        0
    } else if num >= lsq * FP_ONE {
        FP_ONE as int
    } else {
        num / lsq
    }
}

/// Project a pixel onto a segment, clamped to the segment's ends.
pub fn project_t(px: i64, py: i64, dx: i64, dy: i64) -> (t: i64)
    requires
        -500_000 <= px <= 500_000,
        -500_000 <= py <= 500_000,
        -500_000 <= dx <= 500_000,
        -500_000 <= dy <= 500_000,
    ensures
        t == project_t_spec(px as int, py as int, dx as int, dy as int),
        0 <= t <= FP_ONE,
{
    proof {
        assert(-250_000_000_000 <= px * dx <= 250_000_000_000) by (nonlinear_arith)
            requires -500_000 <= px <= 500_000, -500_000 <= dx <= 500_000;
        assert(-250_000_000_000 <= py * dy <= 250_000_000_000) by (nonlinear_arith)
            requires -500_000 <= py <= 500_000, -500_000 <= dy <= 500_000;
        assert(0 <= dx * dx <= 250_000_000_000) by (nonlinear_arith)
            requires -500_000 <= dx <= 500_000;
        assert(0 <= dy * dy <= 250_000_000_000) by (nonlinear_arith)
            requires -500_000 <= dy <= 500_000;
    }
    let lsq: i64 = dx * dx + dy * dy;
    let num: i64 = (px * dx + py * dy) * FP_ONE;
    if lsq == 0 {
        0
    } else if num <= 0 {
        0
    } else {
        proof {
            assert(lsq * FP_ONE <= 500_000_000_000 * FP_ONE) by (nonlinear_arith)
                requires lsq <= 500_000_000_000, FP_ONE > 0;
        }
        if num >= lsq * FP_ONE {
            FP_ONE
        } else {
            let q: i64 = div_nn(num, lsq);
            proof {
                vstd::arithmetic::div_mod::lemma_div_is_ordered(
                    num as int,
                    lsq * FP_ONE as int,
                    lsq as int,
                );
                vstd::arithmetic::div_mod::lemma_div_by_multiple(FP_ONE as int, lsq as int);
            }
            q
        }
    }
}

/// `t * d / 1000` for a micro-unit `t` and a signed pixel offset `d`,
/// rounded toward zero.
pub open spec fn scale_offset_spec(t: int, d: int) -> int {
    if d >= 0 {
        t * d / 1000
    } else {
        -(t * (-d) / 1000)
    }
}

/// Scale a signed pixel offset by a parametric position, yielding
/// milli-pixels.
pub fn scale_offset(t: i64, d: i64) -> (r: i64)
    requires
        0 <= t <= FP_ONE,
        -500_000 <= d <= 500_000,
    ensures
        r == scale_offset_spec(t as int, d as int),
        -500_000_000 <= r <= 500_000_000,
{
    if d >= 0 {
        proof {
            assert(0 <= t * d <= 500_000_000_000) by (nonlinear_arith)
                requires 0 <= t <= FP_ONE, 0 <= d <= 500_000;
        }
        let q: i64 = div_nn(t * d, 1000);
        proof {
            vstd::arithmetic::div_mod::lemma_div_is_ordered(
                t * d as int,
                500_000_000_000,
                1000,
            );
            vstd::arithmetic::div_mod::lemma_div_by_multiple(500_000_000, 1000);
        }
        q
    } else {
        proof {
            assert(0 <= t * (-d) <= 500_000_000_000) by (nonlinear_arith)
                requires 0 <= t <= FP_ONE, -500_000 <= d < 0;
        }
        let q: i64 = div_nn(t * (-d), 1000);
        proof {
            vstd::arithmetic::div_mod::lemma_div_is_ordered(
                t * (-d) as int,
                500_000_000_000,
                1000,
            );
            vstd::arithmetic::div_mod::lemma_div_by_multiple(500_000_000, 1000);
        }
        -q
    }
}

/// Distance, in milli-pixels, from pixel `(x, y)` to its clamped
/// projection on the segment `(x0, y0)-(x1, y1)`.
pub open spec fn line_dist_m_spec(x: int, y: int, x0: int, y0: int, x1: int, y1: int) -> int {
    let dx = x1 - x0;
    let dy = y1 - y0;
    let t = project_t_spec(x - x0, y - y0, dx, dy);
    let exm = 1000 * x0 + scale_offset_spec(t, dx) - 1000 * x;
    let eym = 1000 * y0 + scale_offset_spec(t, dy) - 1000 * y;
    sqrt_floor(exm * exm + eym * eym)
}

/// Coverage of pixel `(x, y)` under a thick (optionally tapered) line:
/// distance to the clamped projection against the half-width at the
/// projected parametric position.
pub open spec fn line_cov_spec(
    x: int, y: int, x0: int, y0: int, x1: int, y1: int, thickness: int, tapered: bool,
) -> int {
    let t = project_t_spec(x - x0, y - y0, x1 - x0, y1 - y0);
    let hw = if tapered {
        tapered_half_width_spec(thickness, t)
    } else {
        thickness / 2
    };
    edge_coverage_spec(1000 * line_dist_m_spec(x, y, x0, y0, x1, y1), hw)
}

/// Compute a pixel's line coverage.
pub fn line_coverage(
    x: i64, y: i64, x0: i64, y0: i64, x1: i64, y1: i64, thickness: i64, tapered: bool,
) -> (cov: i64)
    requires
        -250_000 <= x <= 250_000,
        -250_000 <= y <= 250_000,
        -250_000 <= x0 <= 250_000,
        -250_000 <= y0 <= 250_000,
        -250_000 <= x1 <= 250_000,
        -250_000 <= y1 <= 250_000,
        0 <= thickness <= 1_000_000_000,
    ensures
        cov == line_cov_spec(
            x as int, y as int, x0 as int, y0 as int, x1 as int, y1 as int,
            thickness as int, tapered),
        0 <= cov <= FP_ONE,
{
    let dx: i64 = x1 - x0;
    let dy: i64 = y1 - y0;
    let t: i64 = project_t(x - x0, y - y0, dx, dy);
    let exm: i64 = 1000 * x0 + scale_offset(t, dx) - 1000 * x;
    let eym: i64 = 1000 * y0 + scale_offset(t, dy) - 1000 * y;
    proof {
        assert(exm * exm + eym * eym <= 2 * (1_000_000_000 * 1_000_000_000)) by (nonlinear_arith)
            requires
                -1_000_000_000 <= exm <= 1_000_000_000,
                -1_000_000_000 <= eym <= 1_000_000_000;
        assert(exm * exm >= 0) by (nonlinear_arith);
        assert(eym * eym >= 0) by (nonlinear_arith);
    }
    let sq: i64 = exm * exm + eym * eym;
    let d: u64 = isqrt(sq as u64);
    proof {
        lemma_sqrt_floor_unique(sq as int, d as int);
        assert(d <= 1_500_000_000) by (nonlinear_arith)
            requires d * d <= 2_000_000_000_000_000_000, d >= 0;
    }
    let dist_m: i64 = d as i64;
    let hw: i64 = if tapered {
        tapered_half_width(thickness, t)
    } else {
        thickness / 2
    };
    edge_coverage(1000 * dist_m, hw)
}

/// Squared pixel distance scaled to square-milli-pixels.
pub open spec fn dist_m_spec(dx: int, dy: int) -> int {
    sqrt_floor((dx * dx + dy * dy) * 1_000_000)
}

/// Distance from the origin of the pixel offset `(dx, dy)`, in
/// milli-pixels.
pub fn dist_m(dx: i64, dy: i64) -> (r: i64)
    requires
        -200_000 <= dx <= 200_000,
        -200_000 <= dy <= 200_000,
    ensures
        r == dist_m_spec(dx as int, dy as int),
        0 <= r <= 300_000_000,
{
    proof {
        assert(0 <= dx * dx <= 40_000_000_000) by (nonlinear_arith)
            requires -200_000 <= dx <= 200_000;
        assert(0 <= dy * dy <= 40_000_000_000) by (nonlinear_arith)
            requires -200_000 <= dy <= 200_000;
    }
    let sq: i64 = (dx * dx + dy * dy) * 1_000_000;
    let d: u64 = isqrt(sq as u64);
    proof {
        lemma_sqrt_floor_unique(sq as int, d as int);
        assert(d * d <= 80_000_000_000_000_000);
        assert(d <= 300_000_000) by (nonlinear_arith)
            requires d * d <= 80_000_000_000_000_000, d >= 0;
    }
    d as i64
}

/// Coverage of pixel offset `(dx, dy)` under a filled circle of the given
/// radius: full inside, fading over one pixel beyond the rim.
pub open spec fn circle_cov_spec(dx: int, dy: int, radius: int) -> int {
    edge_coverage_spec(1000 * dist_m_spec(dx, dy), radius * FP_ONE)
}

/// Compute a pixel's circle coverage.
pub fn circle_coverage(dx: i64, dy: i64, radius: i64) -> (cov: i64)
    requires
        -200_000 <= dx <= 200_000,
        -200_000 <= dy <= 200_000,
        0 <= radius <= 100_000,
    ensures
        cov == circle_cov_spec(dx as int, dy as int, radius as int),
        0 <= cov <= FP_ONE,
{
    let d: i64 = dist_m(dx, dy);
    edge_coverage(1000 * d, radius * FP_ONE)
}

/// Effective coverage of pixel `(x, y)` under the dial's ring arc: zero
/// off the arc's angular span or outside the rim band, the radial fade
/// otherwise.
pub open spec fn arc_pixel_cov_spec(
    x: int, y: int, cx: int, cy: int, r: int, thickness: int, start: int, end: int,
) -> int {
    let dist = 1000 * dist_m_spec(x - cx, y - cy);
    let angle = atan2_spec(y - cy, x - cx);
    if arc_contains_spec(angle, start, end)
        && dist >= (r - thickness - 1) * FP_ONE
        && dist <= (r + 1) * FP_ONE {
        ring_radial_spec(dist, r * FP_ONE, thickness * FP_ONE)
    } else {
        0
    }
}

/// Compute a pixel's ring-arc coverage.
pub fn arc_pixel_coverage(
    x: i64, y: i64, cx: i64, cy: i64, r: i64, thickness: i64, start: i64, end: i64,
) -> (cov: i64)
    requires
        -100_000 <= x <= 100_000,
        -100_000 <= y <= 100_000,
        -100_000 <= cx <= 100_000,
        -100_000 <= cy <= 100_000,
        0 <= r <= 100_000,
        0 <= thickness <= 100_000,
        0 <= start < TURN_MDEG,
        0 <= end < TURN_MDEG,
    ensures
        cov == arc_pixel_cov_spec(
            x as int, y as int, cx as int, cy as int, r as int, thickness as int,
            start as int, end as int),
        0 <= cov <= FP_ONE,
{
    let dist: i64 = 1000 * dist_m(x - cx, y - cy);
    let angle: i64 = atan2_mdeg(y - cy, x - cx);
    if arc_contains(angle, start, end)
        && dist >= (r - thickness - 1) * FP_ONE
        && dist <= (r + 1) * FP_ONE {
        ring_radial(dist, r * FP_ONE, thickness * FP_ONE)
    } else {
        0
    }
}

/// Effective coverage of pixel `(x, y)` under the highlight band: the
/// product of angular coverage (soft edges, wraparound aware), radial
/// coverage, and the band's own opacity.
pub open spec fn band_pixel_cov_spec(
    x: int, y: int, cx: int, cy: int, start: int, end: int,
    inner: int, outer: int, softness: int, alpha: int,
) -> int {
    let dist = 1000 * dist_m_spec(x - cx, y - cy);
    let angle = atan2_spec(y - cy, x - cx);
    mul_unit_spec(
        mul_unit_spec(
            band_angular_spec(angle, start, end, softness),
            band_radial_spec(dist, inner, outer),
        ),
        alpha,
    )
}

/// Compute a pixel's highlight-band coverage.
pub fn band_pixel_coverage(
    x: i64, y: i64, cx: i64, cy: i64, start: i64, end: i64,
    inner: i64, outer: i64, softness: i64, alpha: i64,
) -> (cov: i64)
    requires
        -100_000 <= x <= 100_000,
        -100_000 <= y <= 100_000,
        -100_000 <= cx <= 100_000,
        -100_000 <= cy <= 100_000,
        0 <= start < TURN_MDEG,
        0 <= end < TURN_MDEG,
        0 <= inner <= 1_000_000_000_000,
        0 <= outer <= 1_000_000_000_000,
        1 <= softness <= TURN_MDEG,
        0 <= alpha <= FP_ONE,
    ensures
        cov == band_pixel_cov_spec(
            x as int, y as int, cx as int, cy as int, start as int, end as int,
            inner as int, outer as int, softness as int, alpha as int),
        0 <= cov <= FP_ONE,
{
    let dist: i64 = 1000 * dist_m(x - cx, y - cy);
    let angle: i64 = atan2_mdeg(y - cy, x - cx);
    let ang_cov: i64 = band_angular(angle, start, end, softness);
    let rad_cov: i64 = band_radial(dist, inner, outer);
    mul_unit(mul_unit(ang_cov, rad_cov), alpha)
}

/// Row-major scan order: pixel `(px, py)` lies before position `(xx, yy)`.
pub open spec fn scanned_before(px: int, py: int, xx: int, yy: int) -> bool {
    py < yy || (py == yy && px < xx)
}

/// The padded bounding box a line draw visits.
pub open spec fn line_bbox_spec(
    x0: int, y0: int, x1: int, y1: int, thickness: int, px: int, py: int,
) -> bool {
    let pad = thickness / (FP_ONE as int) + 2;
    let mnx = if x0 < x1 { x0 } else { x1 };
    let mxx = if x0 < x1 { x1 } else { x0 };
    let mny = if y0 < y1 { y0 } else { y1 };
    let mxy = if y0 < y1 { y1 } else { y0 };
    mnx - pad <= px <= mxx + pad && mny - pad <= py <= mxy + pad
}

/// What a line draw leaves in pixel `(px, py)`: the composite at the
/// pixel's analytic coverage where that coverage clears the rendering
/// threshold inside the bounding box, the untouched pixel everywhere else.
pub open spec fn line_pixel_after(
    cold: Canvas, cnew: Canvas, px: int, py: int,
    x0: int, y0: int, x1: int, y1: int, thickness: int, tapered: bool, color: Color,
) -> bool {
    let cov = line_cov_spec(px, py, x0, y0, x1, y1, thickness, tapered);
    if line_bbox_spec(x0, y0, x1, y1, thickness, px, py) && cov > 10_000 {
        crate::canvas::pixel_blended(cold, cnew, px, py, color, cov)
    } else {
        crate::canvas::pixel_unchanged(cold, cnew, px, py)
    }
}

/// Composite an anti-aliased thick line, optionally tapered, onto the
/// canvas.  Every canvas pixel ends exactly as `line_pixel_after`
/// prescribes: blended at its analytic coverage inside the padded
/// bounding box, untouched outside it.
fn draw_line_impl(
    canvas: &mut Canvas, x0: i32, y0: i32, x1: i32, y1: i32,
    thickness: i64, tapered: bool, color: Color,
)
    requires
        old(canvas).wf(),
        old(canvas).width <= 100_000,
        old(canvas).height <= 100_000,
        -250_000 <= x0 <= 250_000,
        -250_000 <= y0 <= 250_000,
        -250_000 <= x1 <= 250_000,
        -250_000 <= y1 <= 250_000,
        0 <= thickness <= 1_000_000_000,
    ensures
        final(canvas).wf(),
        old(canvas).same_dims(*final(canvas)),
        final(canvas).buffer.len() == old(canvas).buffer.len(),
        old(canvas).alpha_opaque() ==> final(canvas).alpha_opaque(),
        forall|px: int, py: int|
            0 <= px < old(canvas).width && 0 <= py < old(canvas).height
                ==> #[trigger] line_pixel_after(
                    *old(canvas), *final(canvas), px, py,
                    x0 as int, y0 as int, x1 as int, y1 as int, thickness as int, tapered, color),
{
    let ghost snap = *canvas;
    let pad: i64 = thickness / FP_ONE + 2;
    let mnx: i64 = (if x0 < x1 { x0 } else { x1 }) as i64 - pad;
    let mxx: i64 = (if x0 < x1 { x1 } else { x0 }) as i64 + pad;
    let mny: i64 = (if y0 < y1 { y0 } else { y1 }) as i64 - pad;
    let mxy: i64 = (if y0 < y1 { y1 } else { y0 }) as i64 + pad;
    let mut yy: i64 = mny;
    while yy <= mxy
        invariant
            canvas.wf(),
            snap.wf(),
            canvas.width == snap.width,
            canvas.height == snap.height,
            canvas.buffer.len() == snap.buffer.len(),
            snap.width <= 100_000,
            snap.height <= 100_000,
            -250_000 <= x0 <= 250_000,
            -250_000 <= y0 <= 250_000,
            -250_000 <= x1 <= 250_000,
            -250_000 <= y1 <= 250_000,
            0 <= thickness <= 1_000_000_000,
            pad == thickness / FP_ONE + 2,
            mnx == (if x0 < x1 { x0 as int } else { x1 as int }) - pad,
            mxx == (if x0 < x1 { x1 as int } else { x0 as int }) + pad,
            mny == (if y0 < y1 { y0 as int } else { y1 as int }) - pad,
            mxy == (if y0 < y1 { y1 as int } else { y0 as int }) + pad,
            mny <= yy <= mxy + 1,
            snap.alpha_opaque() ==> canvas.alpha_opaque(),
            forall|px: int, py: int|
                0 <= px < snap.width && 0 <= py < snap.height
                    && scanned_before(px, py, mnx as int, yy as int)
                    ==> #[trigger] line_pixel_after(
                        snap, *canvas, px, py,
                        x0 as int, y0 as int, x1 as int, y1 as int,
                        thickness as int, tapered, color),
            forall|px: int, py: int|
                0 <= px < snap.width && 0 <= py < snap.height
                    && !scanned_before(px, py, mnx as int, yy as int)
                    ==> #[trigger] crate::canvas::pixel_unchanged(snap, *canvas, px, py),
        decreases mxy + 1 - yy,
    {
        let mut xx: i64 = mnx;
        while xx <= mxx
            invariant
                canvas.wf(),
                snap.wf(),
                canvas.width == snap.width,
                canvas.height == snap.height,
                canvas.buffer.len() == snap.buffer.len(),
                snap.width <= 100_000,
                snap.height <= 100_000,
                -250_000 <= x0 <= 250_000,
                -250_000 <= y0 <= 250_000,
                -250_000 <= x1 <= 250_000,
                -250_000 <= y1 <= 250_000,
                0 <= thickness <= 1_000_000_000,
                pad == thickness / FP_ONE + 2,
                mnx == (if x0 < x1 { x0 as int } else { x1 as int }) - pad,
                mxx == (if x0 < x1 { x1 as int } else { x0 as int }) + pad,
                mny == (if y0 < y1 { y0 as int } else { y1 as int }) - pad,
                mxy == (if y0 < y1 { y1 as int } else { y0 as int }) + pad,
                mny <= yy <= mxy,
                mnx <= xx <= mxx + 1,
                snap.alpha_opaque() ==> canvas.alpha_opaque(),
                forall|px: int, py: int|
                    0 <= px < snap.width && 0 <= py < snap.height
                        && scanned_before(px, py, xx as int, yy as int)
                        ==> #[trigger] line_pixel_after(
                            snap, *canvas, px, py,
                            x0 as int, y0 as int, x1 as int, y1 as int,
                            thickness as int, tapered, color),
                forall|px: int, py: int|
                    0 <= px < snap.width && 0 <= py < snap.height
                        && !scanned_before(px, py, xx as int, yy as int)
                        ==> #[trigger] crate::canvas::pixel_unchanged(snap, *canvas, px, py),
            decreases mxx + 1 - xx,
        {
            let ghost before = *canvas;
            if 0 <= xx && xx < canvas.width as i64 && 0 <= yy && yy < canvas.height as i64 {
                let cov: i64 = line_coverage(
                    xx, yy, x0 as i64, y0 as i64, x1 as i64, y1 as i64, thickness, tapered);
                if cov > 10_000 {
                    proof {
                        crate::canvas::lemma_pixel_bytes_in_bounds(
                            *canvas, xx as int, yy as int);
                        assert(crate::canvas::pixel_unchanged(snap, *canvas, xx as int, yy as int));
                    }
                    canvas.blend_pixel(xx as usize, yy as usize, color, cov);
                }
            }
            proof {
                let xi = xx as int;
                let yi = yy as int;
                let covg = line_cov_spec(
                    xi, yi, x0 as int, y0 as int, x1 as int, y1 as int,
                    thickness as int, tapered);
                if 0 <= xi < snap.width && 0 <= yi < snap.height {
                    if covg > 10_000 {
                        assert(crate::canvas::pixel_blended(snap, *canvas, xi, yi, color, covg));
                    } else {
                        assert(crate::canvas::pixel_unchanged(snap, *canvas, xi, yi));
                    }
                }
                assert forall|px: int, py: int|
                    0 <= px < snap.width && 0 <= py < snap.height
                        && scanned_before(px, py, xi + 1, yi)
                    implies #[trigger] line_pixel_after(
                        snap, *canvas, px, py,
                        x0 as int, y0 as int, x1 as int, y1 as int,
                        thickness as int, tapered, color) by {
                    if px == xi && py == yi {
                        assert(line_bbox_spec(
                            x0 as int, y0 as int, x1 as int, y1 as int, thickness as int, px, py));
                        assert(crate::canvas::pixel_unchanged(snap, before, px, py));
                    } else {
                        assert(scanned_before(px, py, xi, yi));
                        assert(line_pixel_after(
                            snap, before, px, py,
                            x0 as int, y0 as int, x1 as int, y1 as int,
                            thickness as int, tapered, color));
                        if 0 <= xi < snap.width && 0 <= yi < snap.height {
                            crate::canvas::lemma_pixel_index_distinct(
                                snap.width as int, px, py, xi, yi);
                            crate::canvas::lemma_pixel_bytes_in_bounds(snap, px, py);
                            crate::canvas::lemma_pixel_bytes_in_bounds(snap, xi, yi);
                        }
                    }
                }
                assert forall|px: int, py: int|
                    0 <= px < snap.width && 0 <= py < snap.height
                        && !scanned_before(px, py, xi + 1, yi)
                    implies #[trigger] crate::canvas::pixel_unchanged(snap, *canvas, px, py) by {
                    assert(!scanned_before(px, py, xi, yi));
                    assert(crate::canvas::pixel_unchanged(snap, before, px, py));
                    if 0 <= xi < snap.width && 0 <= yi < snap.height {
                        crate::canvas::lemma_pixel_index_distinct(
                            snap.width as int, px, py, xi, yi);
                        crate::canvas::lemma_pixel_bytes_in_bounds(snap, px, py);
                        crate::canvas::lemma_pixel_bytes_in_bounds(snap, xi, yi);
                    }
                }
            }
            xx = xx + 1;
        }
        proof {
            assert forall|px: int, py: int|
                0 <= px < snap.width && 0 <= py < snap.height
                    && scanned_before(px, py, mnx as int, yy + 1)
                implies #[trigger] line_pixel_after(
                    snap, *canvas, px, py,
                    x0 as int, y0 as int, x1 as int, y1 as int,
                    thickness as int, tapered, color) by {
                if !scanned_before(px, py, mxx as int + 1, yy as int) {
                    assert(!line_bbox_spec(
                        x0 as int, y0 as int, x1 as int, y1 as int, thickness as int, px, py));
                    assert(crate::canvas::pixel_unchanged(snap, *canvas, px, py));
                }
            }
            assert forall|px: int, py: int|
                0 <= px < snap.width && 0 <= py < snap.height
                    && !scanned_before(px, py, mnx as int, yy + 1)
                implies #[trigger] crate::canvas::pixel_unchanged(snap, *canvas, px, py) by {
                assert(!scanned_before(px, py, mxx as int + 1, yy as int));
            }
        }
        yy = yy + 1;
    }
    proof {
        assert forall|px: int, py: int|
            0 <= px < snap.width && 0 <= py < snap.height
            implies #[trigger] line_pixel_after(
                snap, *canvas, px, py,
                x0 as int, y0 as int, x1 as int, y1 as int, thickness as int, tapered, color) by {
            if !scanned_before(px, py, mnx as int, mxy as int + 1) {
                assert(!line_bbox_spec(
                    x0 as int, y0 as int, x1 as int, y1 as int, thickness as int, px, py));
                assert(crate::canvas::pixel_unchanged(snap, *canvas, px, py));
            }
        }
    }
}

/// Draw an anti-aliased straight line of constant thickness.
pub fn draw_thick_line_aa(
    canvas: &mut Canvas, x0: i32, y0: i32, x1: i32, y1: i32, thickness: i64, color: Color,
)
    requires
        old(canvas).wf(),
        old(canvas).width <= 100_000,
        old(canvas).height <= 100_000,
        -250_000 <= x0 <= 250_000,
        -250_000 <= y0 <= 250_000,
        -250_000 <= x1 <= 250_000,
        -250_000 <= y1 <= 250_000,
        0 <= thickness <= 1_000_000_000,
    ensures
        final(canvas).wf(),
        old(canvas).same_dims(*final(canvas)),
        old(canvas).alpha_opaque() ==> final(canvas).alpha_opaque(),
        forall|px: int, py: int|
            0 <= px < old(canvas).width && 0 <= py < old(canvas).height
                ==> #[trigger] line_pixel_after(
                    *old(canvas), *final(canvas), px, py,
                    x0 as int, y0 as int, x1 as int, y1 as int, thickness as int, false, color),
{
    draw_line_impl(canvas, x0, y0, x1, y1, thickness, false, color)
}

/// Draw an anti-aliased line whose thickness tapers by 95% from start to
/// end — the needle's forward pointer.
pub fn draw_thick_line_tapered_aa(
    canvas: &mut Canvas, x0: i32, y0: i32, x1: i32, y1: i32, thickness: i64, color: Color,
)
    requires
        old(canvas).wf(),
        old(canvas).width <= 100_000,
        old(canvas).height <= 100_000,
        -250_000 <= x0 <= 250_000,
        -250_000 <= y0 <= 250_000,
        -250_000 <= x1 <= 250_000,
        -250_000 <= y1 <= 250_000,
        0 <= thickness <= 1_000_000_000,
    ensures
        final(canvas).wf(),
        old(canvas).same_dims(*final(canvas)),
        old(canvas).alpha_opaque() ==> final(canvas).alpha_opaque(),
        forall|px: int, py: int|
            0 <= px < old(canvas).width && 0 <= py < old(canvas).height
                ==> #[trigger] line_pixel_after(
                    *old(canvas), *final(canvas), px, py,
                    x0 as int, y0 as int, x1 as int, y1 as int, thickness as int, true, color),
{
    draw_line_impl(canvas, x0, y0, x1, y1, thickness, true, color)
}

/// The box of pixels a circle draw visits.
pub open spec fn circle_bbox_spec(cx: int, cy: int, radius: int, px: int, py: int) -> bool {
    cx - radius <= px <= cx + radius && cy - radius <= py <= cy + radius
}

/// What a circle draw leaves in pixel `(px, py)`.
pub open spec fn circle_pixel_after(
    cold: Canvas, cnew: Canvas, px: int, py: int, cx: int, cy: int, radius: int, color: Color,
) -> bool {
    let cov = circle_cov_spec(px - cx, py - cy, radius);
    if circle_bbox_spec(cx, cy, radius, px, py) && cov > 0 {
        crate::canvas::pixel_blended(cold, cnew, px, py, color, cov)
    } else {
        crate::canvas::pixel_unchanged(cold, cnew, px, py)
    }
}

/// Composite an anti-aliased filled circle onto the canvas: full coverage
/// inside the radius, fading to nothing over one pixel beyond the rim.
pub fn draw_circle(canvas: &mut Canvas, cx: i32, cy: i32, radius: i32, color: Color)
    requires
        old(canvas).wf(),
        old(canvas).width <= 100_000,
        old(canvas).height <= 100_000,
        -100_000 <= cx <= 100_000,
        -100_000 <= cy <= 100_000,
        0 <= radius <= 100_000,
    ensures
        final(canvas).wf(),
        old(canvas).same_dims(*final(canvas)),
        final(canvas).buffer.len() == old(canvas).buffer.len(),
        old(canvas).alpha_opaque() ==> final(canvas).alpha_opaque(),
        forall|px: int, py: int|
            0 <= px < old(canvas).width && 0 <= py < old(canvas).height
                ==> #[trigger] circle_pixel_after(
                    *old(canvas), *final(canvas), px, py,
                    cx as int, cy as int, radius as int, color),
{
    let ghost snap = *canvas;
    let mnx: i64 = cx as i64 - radius as i64;
    let mxx: i64 = cx as i64 + radius as i64;
    let mny: i64 = cy as i64 - radius as i64;
    let mxy: i64 = cy as i64 + radius as i64;
    let mut yy: i64 = mny;
    while yy <= mxy
        invariant
            canvas.wf(),
            snap.wf(),
            canvas.width == snap.width,
            canvas.height == snap.height,
            canvas.buffer.len() == snap.buffer.len(),
            snap.width <= 100_000,
            snap.height <= 100_000,
            -100_000 <= cx <= 100_000,
            -100_000 <= cy <= 100_000,
            0 <= radius <= 100_000,
            mnx == cx - radius,
            mxx == cx + radius,
            mny == cy - radius,
            mxy == cy + radius,
            mny <= yy <= mxy + 1,
            snap.alpha_opaque() ==> canvas.alpha_opaque(),
            forall|px: int, py: int|
                0 <= px < snap.width && 0 <= py < snap.height
                    && scanned_before(px, py, mnx as int, yy as int)
                    ==> #[trigger] circle_pixel_after(
                        snap, *canvas, px, py, cx as int, cy as int, radius as int, color),
            forall|px: int, py: int|
                0 <= px < snap.width && 0 <= py < snap.height
                    && !scanned_before(px, py, mnx as int, yy as int)
                    ==> #[trigger] crate::canvas::pixel_unchanged(snap, *canvas, px, py),
        decreases mxy + 1 - yy,
    {
        let mut xx: i64 = mnx;
        while xx <= mxx
            invariant
                canvas.wf(),
                snap.wf(),
                canvas.width == snap.width,
                canvas.height == snap.height,
                canvas.buffer.len() == snap.buffer.len(),
                snap.width <= 100_000,
                snap.height <= 100_000,
                -100_000 <= cx <= 100_000,
                -100_000 <= cy <= 100_000,
                0 <= radius <= 100_000,
                mnx == cx - radius,
                mxx == cx + radius,
                mny == cy - radius,
                mxy == cy + radius,
                mny <= yy <= mxy,
                mnx <= xx <= mxx + 1,
                snap.alpha_opaque() ==> canvas.alpha_opaque(),
                forall|px: int, py: int|
                    0 <= px < snap.width && 0 <= py < snap.height
                        && scanned_before(px, py, xx as int, yy as int)
                        ==> #[trigger] circle_pixel_after(
                            snap, *canvas, px, py, cx as int, cy as int, radius as int, color),
                forall|px: int, py: int|
                    0 <= px < snap.width && 0 <= py < snap.height
                        && !scanned_before(px, py, xx as int, yy as int)
                        ==> #[trigger] crate::canvas::pixel_unchanged(snap, *canvas, px, py),
            decreases mxx + 1 - xx,
        {
            let ghost before = *canvas;
            if 0 <= xx && xx < canvas.width as i64 && 0 <= yy && yy < canvas.height as i64 {
                let cov: i64 = circle_coverage(xx - cx as i64, yy - cy as i64, radius as i64);
                if cov > 0 {
                    proof {
                        crate::canvas::lemma_pixel_bytes_in_bounds(
                            *canvas, xx as int, yy as int);
                        assert(crate::canvas::pixel_unchanged(snap, *canvas, xx as int, yy as int));
                    }
                    canvas.blend_pixel(xx as usize, yy as usize, color, cov);
                }
            }
            proof {
                let xi = xx as int;
                let yi = yy as int;
                let covg = circle_cov_spec(xi - cx as int, yi - cy as int, radius as int);
                if 0 <= xi < snap.width && 0 <= yi < snap.height {
                    if covg > 0 {
                        assert(crate::canvas::pixel_blended(snap, *canvas, xi, yi, color, covg));
                    } else {
                        assert(crate::canvas::pixel_unchanged(snap, *canvas, xi, yi));
                    }
                }
                assert forall|px: int, py: int|
                    0 <= px < snap.width && 0 <= py < snap.height
                        && scanned_before(px, py, xi + 1, yi)
                    implies #[trigger] circle_pixel_after(
                        snap, *canvas, px, py, cx as int, cy as int, radius as int, color) by {
                    if px == xi && py == yi {
                        assert(circle_bbox_spec(cx as int, cy as int, radius as int, px, py));
                        assert(crate::canvas::pixel_unchanged(snap, before, px, py));
                    } else {
                        assert(scanned_before(px, py, xi, yi));
                        assert(circle_pixel_after(
                            snap, before, px, py, cx as int, cy as int, radius as int, color));
                        if 0 <= xi < snap.width && 0 <= yi < snap.height {
                            crate::canvas::lemma_pixel_index_distinct(
                                snap.width as int, px, py, xi, yi);
                            crate::canvas::lemma_pixel_bytes_in_bounds(snap, px, py);
                            crate::canvas::lemma_pixel_bytes_in_bounds(snap, xi, yi);
                        }
                    }
                }
                assert forall|px: int, py: int|
                    0 <= px < snap.width && 0 <= py < snap.height
                        && !scanned_before(px, py, xi + 1, yi)
                    implies #[trigger] crate::canvas::pixel_unchanged(snap, *canvas, px, py) by {
                    assert(!scanned_before(px, py, xi, yi));
                    assert(crate::canvas::pixel_unchanged(snap, before, px, py));
                    if 0 <= xi < snap.width && 0 <= yi < snap.height {
                        crate::canvas::lemma_pixel_index_distinct(
                            snap.width as int, px, py, xi, yi);
                        crate::canvas::lemma_pixel_bytes_in_bounds(snap, px, py);
                        crate::canvas::lemma_pixel_bytes_in_bounds(snap, xi, yi);
                    }
                }
            }
            xx = xx + 1;
        }
        proof {
            assert forall|px: int, py: int|
                0 <= px < snap.width && 0 <= py < snap.height
                    && scanned_before(px, py, mnx as int, yy + 1)
                implies #[trigger] circle_pixel_after(
                    snap, *canvas, px, py, cx as int, cy as int, radius as int, color) by {
                if !scanned_before(px, py, mxx as int + 1, yy as int) {
                    assert(!circle_bbox_spec(cx as int, cy as int, radius as int, px, py));
                    assert(crate::canvas::pixel_unchanged(snap, *canvas, px, py));
                }
            }
            assert forall|px: int, py: int|
                0 <= px < snap.width && 0 <= py < snap.height
                    && !scanned_before(px, py, mnx as int, yy + 1)
                implies #[trigger] crate::canvas::pixel_unchanged(snap, *canvas, px, py) by {
                assert(!scanned_before(px, py, mxx as int + 1, yy as int));
            }
        }
        yy = yy + 1;
    }
    proof {
        assert forall|px: int, py: int|
            0 <= px < snap.width && 0 <= py < snap.height
            implies #[trigger] circle_pixel_after(
                snap, *canvas, px, py, cx as int, cy as int, radius as int, color) by {
            if !scanned_before(px, py, mnx as int, mxy as int + 1) {
                assert(!circle_bbox_spec(cx as int, cy as int, radius as int, px, py));
                assert(crate::canvas::pixel_unchanged(snap, *canvas, px, py));
            }
        }
    }
}


/// A band radius measured inward from the dial rim, floored at the center.
pub open spec fn band_rim_spec(r: int, offset: int) -> int {
    if r * FP_ONE - offset > 0 {
        r * FP_ONE - offset
    } else {
        0
    }
}

/// What a ring-arc draw leaves in pixel `(px, py)`.
pub open spec fn arc_pixel_after(
    cold: Canvas, cnew: Canvas, px: int, py: int, cx: int, cy: int, r: int, thickness: int, start: int, end: int, color: Color,
) -> bool {
    let cov = arc_pixel_cov_spec(px, py, cx, cy, r, thickness, start, end);
    if cov > 0 {
        crate::canvas::pixel_blended(cold, cnew, px, py, color, cov)
    } else {
        crate::canvas::pixel_unchanged(cold, cnew, px, py)
    }
}

/// Composite the dial's ring arc onto the whole canvas: every pixel whose
/// polar angle lies on the (possibly seam-crossing) arc is blended at its
/// radial coverage.
pub fn render_arc_immediate(
    canvas: &mut Canvas, cx: i32, cy: i32, r: i32, thickness: i32, start_angle: i64, arc_span: i64, color: Color,
)
    requires
        old(canvas).wf(),
        old(canvas).width <= 100_000,
        old(canvas).height <= 100_000,
        -100_000 <= cx <= 100_000,
        -100_000 <= cy <= 100_000,
        0 <= r <= 100_000,
        0 <= thickness <= 100_000,
        -500_000_000_000 <= start_angle <= 500_000_000_000,
        -500_000_000_000 <= arc_span <= 500_000_000_000,
    ensures
        final(canvas).wf(),
        old(canvas).same_dims(*final(canvas)),
        final(canvas).buffer.len() == old(canvas).buffer.len(),
        old(canvas).alpha_opaque() ==> final(canvas).alpha_opaque(),
        forall|px: int, py: int|
            0 <= px < old(canvas).width && 0 <= py < old(canvas).height
                ==> #[trigger] arc_pixel_after(
                    *old(canvas), *final(canvas), px, py, cx as int, cy as int, r as int, thickness as int,
                    (start_angle as int) % (TURN_MDEG as int),
                    ((start_angle + arc_span) as int) % (TURN_MDEG as int), color),
{
    let ghost snap = *canvas;
    let start_n: i64 = crate::trig::wrap_mdeg(start_angle);
    let end_n: i64 = crate::trig::wrap_mdeg(start_angle + arc_span);
    let w: i64 = canvas.width as i64;
    let h: i64 = canvas.height as i64;
    let mut yy: i64 = 0;
    while yy < h
        invariant
            canvas.wf(),
            snap.wf(),
            canvas.width == snap.width,
            canvas.height == snap.height,
            canvas.buffer.len() == snap.buffer.len(),
            snap.width <= 100_000,
            snap.height <= 100_000,
            w == snap.width,
            h == snap.height,
            -100_000 <= cx <= 100_000,
            -100_000 <= cy <= 100_000,
            0 <= r <= 100_000,
            0 <= thickness <= 100_000,
            0 <= start_n < TURN_MDEG,
            0 <= end_n < TURN_MDEG,
            start_n == (start_angle as int) % (TURN_MDEG as int),
            end_n == ((start_angle + arc_span) as int) % (TURN_MDEG as int),
            0 <= yy <= h,
            snap.alpha_opaque() ==> canvas.alpha_opaque(),
            forall|px: int, py: int|
                0 <= px < snap.width && 0 <= py < snap.height
                    && scanned_before(px, py, 0, yy as int)
                    ==> #[trigger] arc_pixel_after(
                        snap, *canvas, px, py, cx as int, cy as int, r as int, thickness as int,
                    (start_angle as int) % (TURN_MDEG as int),
                    ((start_angle + arc_span) as int) % (TURN_MDEG as int), color),
            forall|px: int, py: int|
                0 <= px < snap.width && 0 <= py < snap.height
                    && !scanned_before(px, py, 0, yy as int)
                    ==> #[trigger] crate::canvas::pixel_unchanged(snap, *canvas, px, py),
        decreases h - yy,
    {
        let mut xx: i64 = 0;
        while xx < w
            invariant
                canvas.wf(),
                snap.wf(),
                canvas.width == snap.width,
                canvas.height == snap.height,
                canvas.buffer.len() == snap.buffer.len(),
                snap.width <= 100_000,
                snap.height <= 100_000,
                w == snap.width,
                h == snap.height,
                -100_000 <= cx <= 100_000,
            -100_000 <= cy <= 100_000,
            0 <= r <= 100_000,
            0 <= thickness <= 100_000,
            0 <= start_n < TURN_MDEG,
            0 <= end_n < TURN_MDEG,
            start_n == (start_angle as int) % (TURN_MDEG as int),
            end_n == ((start_angle + arc_span) as int) % (TURN_MDEG as int),
                0 <= yy < h,
                0 <= xx <= w,
                snap.alpha_opaque() ==> canvas.alpha_opaque(),
                forall|px: int, py: int|
                    0 <= px < snap.width && 0 <= py < snap.height
                        && scanned_before(px, py, xx as int, yy as int)
                        ==> #[trigger] arc_pixel_after(
                            snap, *canvas, px, py, cx as int, cy as int, r as int, thickness as int,
                    (start_angle as int) % (TURN_MDEG as int),
                    ((start_angle + arc_span) as int) % (TURN_MDEG as int), color),
                forall|px: int, py: int|
                    0 <= px < snap.width && 0 <= py < snap.height
                        && !scanned_before(px, py, xx as int, yy as int)
                        ==> #[trigger] crate::canvas::pixel_unchanged(snap, *canvas, px, py),
            decreases w - xx,
        {
            let ghost before = *canvas;
            let cov: i64 = arc_pixel_coverage(xx, yy, cx as i64, cy as i64, r as i64, thickness as i64, start_n, end_n);
            if cov > 0 {
                proof {
                    crate::canvas::lemma_pixel_bytes_in_bounds(*canvas, xx as int, yy as int);
                    assert(crate::canvas::pixel_unchanged(snap, *canvas, xx as int, yy as int));
                }
                canvas.blend_pixel(xx as usize, yy as usize, color, cov);
            }
            proof {
                let xi = xx as int;
                let yi = yy as int;
                let covg = arc_pixel_cov_spec(xi, yi, cx as int, cy as int, r as int, thickness as int, start_n as int, end_n as int);
                if covg > 0 {
                    assert(crate::canvas::pixel_blended(snap, *canvas, xi, yi, color, covg));
                } else {
                    assert(crate::canvas::pixel_unchanged(snap, *canvas, xi, yi));
                }
                assert forall|px: int, py: int|
                    0 <= px < snap.width && 0 <= py < snap.height
                        && scanned_before(px, py, xi + 1, yi)
                    implies #[trigger] arc_pixel_after(
                        snap, *canvas, px, py, cx as int, cy as int, r as int, thickness as int,
                    (start_angle as int) % (TURN_MDEG as int),
                    ((start_angle + arc_span) as int) % (TURN_MDEG as int), color) by {
                    if !(px == xi && py == yi) {
                        assert(scanned_before(px, py, xi, yi));
                        assert(arc_pixel_after(
                            snap, before, px, py, cx as int, cy as int, r as int, thickness as int,
                    (start_angle as int) % (TURN_MDEG as int),
                    ((start_angle + arc_span) as int) % (TURN_MDEG as int), color));
                        crate::canvas::lemma_pixel_index_distinct(
                            snap.width as int, px, py, xi, yi);
                        crate::canvas::lemma_pixel_bytes_in_bounds(snap, px, py);
                        crate::canvas::lemma_pixel_bytes_in_bounds(snap, xi, yi);
                    }
                }
                assert forall|px: int, py: int|
                    0 <= px < snap.width && 0 <= py < snap.height
                        && !scanned_before(px, py, xi + 1, yi)
                    implies #[trigger] crate::canvas::pixel_unchanged(snap, *canvas, px, py) by {
                    assert(!scanned_before(px, py, xi, yi));
                    assert(crate::canvas::pixel_unchanged(snap, before, px, py));
                    crate::canvas::lemma_pixel_index_distinct(
                        snap.width as int, px, py, xi, yi);
                    crate::canvas::lemma_pixel_bytes_in_bounds(snap, px, py);
                    crate::canvas::lemma_pixel_bytes_in_bounds(snap, xi, yi);
                }
            }
            xx = xx + 1;
        }
        yy = yy + 1;
    }
}

/// What a highlight-band draw leaves in pixel `(px, py)`.
pub open spec fn band_pixel_after(
    cold: Canvas, cnew: Canvas, px: int, py: int, cx: int, cy: int, start: int, end: int, inner: int, outer: int, softness: int, alpha: int, color: Color,
) -> bool {
    let cov = band_pixel_cov_spec(px, py, cx, cy, start, end, inner, outer, softness, alpha);
    if cov > 10_000 {
        crate::canvas::pixel_blended(cold, cnew, px, py, color, cov)
    } else {
        crate::canvas::pixel_unchanged(cold, cnew, px, py)
    }
}

/// Composite the highlight band onto the whole canvas: a colored
/// angular-and-radial region between `r - inner_radius` and
/// `r - outer_radius`, with configurable angular edge softness and
/// opacity.
pub fn render_highlight_band_immediate(
    canvas: &mut Canvas, cx: i32, cy: i32, r: i32, start_angle: i64, end_angle: i64,
    inner_radius: i64, outer_radius: i64, softness: i64, alpha: i64, color: Color,
)
    requires
        old(canvas).wf(),
        old(canvas).width <= 100_000,
        old(canvas).height <= 100_000,
        -100_000 <= cx <= 100_000,
        -100_000 <= cy <= 100_000,
        0 <= r <= 100_000,
        -500_000_000_000 <= start_angle <= 500_000_000_000,
        -500_000_000_000 <= end_angle <= 500_000_000_000,
        0 <= inner_radius <= 1_000_000_000_000,
        0 <= outer_radius <= 1_000_000_000_000,
        1 <= softness <= TURN_MDEG,
        0 <= alpha <= FP_ONE,
    ensures
        final(canvas).wf(),
        old(canvas).same_dims(*final(canvas)),
        final(canvas).buffer.len() == old(canvas).buffer.len(),
        old(canvas).alpha_opaque() ==> final(canvas).alpha_opaque(),
        forall|px: int, py: int|
            0 <= px < old(canvas).width && 0 <= py < old(canvas).height
                ==> #[trigger] band_pixel_after(
                    *old(canvas), *final(canvas), px, py, cx as int, cy as int,
                    (start_angle as int) % (TURN_MDEG as int),
                    (end_angle as int) % (TURN_MDEG as int),
                    band_rim_spec(r as int, inner_radius as int),
                    band_rim_spec(r as int, outer_radius as int),
                    softness as int, alpha as int, color),
{
    let ghost snap = *canvas;
    let start_n: i64 = crate::trig::wrap_mdeg(start_angle);
    let end_n: i64 = crate::trig::wrap_mdeg(end_angle);
    let bi: i64 = if r as i64 * FP_ONE - inner_radius > 0 { r as i64 * FP_ONE - inner_radius } else { 0 };
    let bo: i64 = if r as i64 * FP_ONE - outer_radius > 0 { r as i64 * FP_ONE - outer_radius } else { 0 };
    let w: i64 = canvas.width as i64;
    let h: i64 = canvas.height as i64;
    let mut yy: i64 = 0;
    while yy < h
        invariant
            canvas.wf(),
            snap.wf(),
            canvas.width == snap.width,
            canvas.height == snap.height,
            canvas.buffer.len() == snap.buffer.len(),
            snap.width <= 100_000,
            snap.height <= 100_000,
            w == snap.width,
            h == snap.height,
            -100_000 <= cx <= 100_000,
            -100_000 <= cy <= 100_000,
            0 <= start_n < TURN_MDEG,
            0 <= end_n < TURN_MDEG,
            start_n == (start_angle as int) % (TURN_MDEG as int),
            end_n == (end_angle as int) % (TURN_MDEG as int),
            bi == band_rim_spec(r as int, inner_radius as int),
            bo == band_rim_spec(r as int, outer_radius as int),
            0 <= bi <= 100_000_000_000,
            0 <= bo <= 100_000_000_000,
            1 <= softness <= TURN_MDEG,
            0 <= alpha <= FP_ONE,
            0 <= yy <= h,
            snap.alpha_opaque() ==> canvas.alpha_opaque(),
            forall|px: int, py: int|
                0 <= px < snap.width && 0 <= py < snap.height
                    && scanned_before(px, py, 0, yy as int)
                    ==> #[trigger] band_pixel_after(
                        snap, *canvas, px, py, cx as int, cy as int,
                    (start_angle as int) % (TURN_MDEG as int),
                    (end_angle as int) % (TURN_MDEG as int),
                    band_rim_spec(r as int, inner_radius as int),
                    band_rim_spec(r as int, outer_radius as int),
                    softness as int, alpha as int, color),
            forall|px: int, py: int|
                0 <= px < snap.width && 0 <= py < snap.height
                    && !scanned_before(px, py, 0, yy as int)
                    ==> #[trigger] crate::canvas::pixel_unchanged(snap, *canvas, px, py),
        decreases h - yy,
    {
        let mut xx: i64 = 0;
        while xx < w
            invariant
                canvas.wf(),
                snap.wf(),
                canvas.width == snap.width,
                canvas.height == snap.height,
                canvas.buffer.len() == snap.buffer.len(),
                snap.width <= 100_000,
                snap.height <= 100_000,
                w == snap.width,
                h == snap.height,
                -100_000 <= cx <= 100_000,
            -100_000 <= cy <= 100_000,
            0 <= start_n < TURN_MDEG,
            0 <= end_n < TURN_MDEG,
            start_n == (start_angle as int) % (TURN_MDEG as int),
            end_n == (end_angle as int) % (TURN_MDEG as int),
            bi == band_rim_spec(r as int, inner_radius as int),
            bo == band_rim_spec(r as int, outer_radius as int),
            0 <= bi <= 100_000_000_000,
            0 <= bo <= 100_000_000_000,
            1 <= softness <= TURN_MDEG,
            0 <= alpha <= FP_ONE,
                0 <= yy < h,
                0 <= xx <= w,
                snap.alpha_opaque() ==> canvas.alpha_opaque(),
                forall|px: int, py: int|
                    0 <= px < snap.width && 0 <= py < snap.height
                        && scanned_before(px, py, xx as int, yy as int)
                        ==> #[trigger] band_pixel_after(
                            snap, *canvas, px, py, cx as int, cy as int,
                    (start_angle as int) % (TURN_MDEG as int),
                    (end_angle as int) % (TURN_MDEG as int),
                    band_rim_spec(r as int, inner_radius as int),
                    band_rim_spec(r as int, outer_radius as int),
                    softness as int, alpha as int, color),
                forall|px: int, py: int|
                    0 <= px < snap.width && 0 <= py < snap.height
                        && !scanned_before(px, py, xx as int, yy as int)
                        ==> #[trigger] crate::canvas::pixel_unchanged(snap, *canvas, px, py),
            decreases w - xx,
        {
            let ghost before = *canvas;
            let cov: i64 = band_pixel_coverage(
                xx, yy, cx as i64, cy as i64, start_n, end_n, bi, bo, softness, alpha);
            if cov > 10_000 {
                proof {
                    crate::canvas::lemma_pixel_bytes_in_bounds(*canvas, xx as int, yy as int);
                    assert(crate::canvas::pixel_unchanged(snap, *canvas, xx as int, yy as int));
                }
                canvas.blend_pixel(xx as usize, yy as usize, color, cov);
            }
            proof {
                let xi = xx as int;
                let yi = yy as int;
                let covg = band_pixel_cov_spec(
                    xi, yi, cx as int, cy as int, start_n as int, end_n as int,
                    bi as int, bo as int, softness as int, alpha as int);
                if covg > 10_000 {
                    assert(crate::canvas::pixel_blended(snap, *canvas, xi, yi, color, covg));
                } else {
                    assert(crate::canvas::pixel_unchanged(snap, *canvas, xi, yi));
                }
                assert forall|px: int, py: int|
                    0 <= px < snap.width && 0 <= py < snap.height
                        && scanned_before(px, py, xi + 1, yi)
                    implies #[trigger] band_pixel_after(
                        snap, *canvas, px, py, cx as int, cy as int,
                    (start_angle as int) % (TURN_MDEG as int),
                    (end_angle as int) % (TURN_MDEG as int),
                    band_rim_spec(r as int, inner_radius as int),
                    band_rim_spec(r as int, outer_radius as int),
                    softness as int, alpha as int, color) by {
                    if !(px == xi && py == yi) {
                        assert(scanned_before(px, py, xi, yi));
                        assert(band_pixel_after(
                            snap, before, px, py, cx as int, cy as int,
                    (start_angle as int) % (TURN_MDEG as int),
                    (end_angle as int) % (TURN_MDEG as int),
                    band_rim_spec(r as int, inner_radius as int),
                    band_rim_spec(r as int, outer_radius as int),
                    softness as int, alpha as int, color));
                        crate::canvas::lemma_pixel_index_distinct(
                            snap.width as int, px, py, xi, yi);
                        crate::canvas::lemma_pixel_bytes_in_bounds(snap, px, py);
                        crate::canvas::lemma_pixel_bytes_in_bounds(snap, xi, yi);
                    }
                }
                assert forall|px: int, py: int|
                    0 <= px < snap.width && 0 <= py < snap.height
                        && !scanned_before(px, py, xi + 1, yi)
                    implies #[trigger] crate::canvas::pixel_unchanged(snap, *canvas, px, py) by {
                    assert(!scanned_before(px, py, xi, yi));
                    assert(crate::canvas::pixel_unchanged(snap, before, px, py));
                    crate::canvas::lemma_pixel_index_distinct(
                        snap.width as int, px, py, xi, yi);
                    crate::canvas::lemma_pixel_bytes_in_bounds(snap, px, py);
                    crate::canvas::lemma_pixel_bytes_in_bounds(snap, xi, yi);
                }
            }
            xx = xx + 1;
        }
        yy = yy + 1;
    }
}

} // verus!
