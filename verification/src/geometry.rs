//! Dial geometry: where on the canvas a gauge face sits and how a
//! normalized position maps onto an angle of its sweep.

use vstd::prelude::*;
use crate::fixed::{FP_ONE, div_nn};
use crate::instrument::InstrumentConfig;

verus! {

/// A gauge face: center, radius, ring thickness, and the angular sweep
/// over which values map to positions.  Angles are milli-degrees; the
/// canonical face sweeps 270 degrees clockwise starting straight down
/// (90 degrees in screen convention).
pub struct Dial {
    pub cx: i32,
    pub cy: i32,
    pub r: i32,
    pub thickness: i32,
    pub arc_span: i64,
    pub start_angle: i64,
}

/// The larger of `v` and zero.
pub open spec fn max0(v: int) -> int {
    if v > 0 {
        v
    } else {
        0
    }
}

/// The smaller of two canvas dimensions.
pub open spec fn min_dim(w: int, h: int) -> int {
    if w < h {
        w
    } else {
        h
    }
}

impl Dial {
    /// The dial's fields lie inside the engine's drawing bands.
    pub open spec fn wf(self) -> bool {
        &&& 0 <= self.cx <= 100_000
        &&& -100_000 <= self.cy <= 100_000
        &&& 0 <= self.r <= 100_000
        &&& 0 <= self.thickness <= 100_000
        &&& 0 <= self.start_angle <= 360_000
        &&& 0 <= self.arc_span <= 360_000
    }

    /// The primary dial: centered on the canvas, radius half the smaller
    /// dimension minus the margin (floored at zero for degenerate
    /// canvases), sweeping the canonical 270 degrees from straight down.
    pub fn new(width: usize, height: usize, config: &InstrumentConfig) -> (d: Dial)
        requires
            config.wf(),
            width <= 100_000,
            height <= 100_000,
        ensures
            d.wf(),
            d.cx == width as int / 2,
            d.cy == height as int / 2,
            d.r == max0(min_dim(width as int, height as int) / 2 - config.dial_margin),
            d.thickness == config.dial_thickness,
            d.start_angle == 90_000,
            d.arc_span == 270_000,
    {
        let cx: i32 = (width / 2) as i32;
        let cy: i32 = (height / 2) as i32;
        let half_min: i32 = (if width < height { width } else { height } / 2) as i32;
        let r: i32 = if half_min - config.dial_margin > 0 {
            half_min - config.dial_margin
        } else {
            0
        };
        Dial {
            cx,
            cy,
            r,
            thickness: config.dial_thickness,
            arc_span: 270_000,
            start_angle: 90_000,
        }
    }

    /// The chronograph's smaller dial, horizontally centered near the top
    /// of the canvas: its radius is the smaller canvas dimension divided
    /// by the configured size factor, minus the chronograph margin.
    pub fn new_chronograph(width: usize, height: usize, config: &InstrumentConfig) -> (d: Dial)
        requires
            config.wf(),
            width <= 100_000,
            height <= 100_000,
        ensures
            d.wf(),
            d.cx == width as int / 2,
            d.r == max0(
                min_dim(width as int, height as int) * FP_ONE / (config.chronograph_dial_size as int)
                    - config.chronograph_dial_margin),
            d.cy == crate::fixed::clamped(
                d.r + config.chronograph_dial_margin + config.chronograph_dial_shift,
                -100_000, 100_000),
            d.thickness == config.chronograph_dial_thickness,
            d.start_angle == 90_000,
            d.arc_span == 270_000,
    {
        let m: i64 = (if width < height { width } else { height }) as i64;
        let scaled: i64 = div_nn(m * FP_ONE, config.chronograph_dial_size);
        proof {
            vstd::arithmetic::div_mod::lemma_div_is_ordered(
                m * FP_ONE as int,
                100_000 * FP_ONE as int,
                config.chronograph_dial_size as int,
            );
            vstd::arithmetic::div_mod::lemma_div_is_ordered_by_denominator(
                100_000 * FP_ONE as int,
                FP_ONE as int,
                config.chronograph_dial_size as int,
            );
            vstd::arithmetic::div_mod::lemma_div_by_multiple(100_000, FP_ONE as int);
        }
        let r64: i64 = scaled - config.chronograph_dial_margin as i64;
        let r: i32 = if r64 > 0 { r64 as i32 } else { 0 };
        let cy: i64 =
            r as i64 + config.chronograph_dial_margin as i64
                + config.chronograph_dial_shift as i64;
        let cy_clamped: i32 = crate::fixed::clamp_i64(cy, -100_000, 100_000) as i32;
        Dial {
            cx: (width / 2) as i32,
            cy: cy_clamped,
            r,
            thickness: config.chronograph_dial_thickness,
            arc_span: 270_000,
            start_angle: 90_000,
        }
    }

    /// The secondary chronograph's dial, horizontally centered and
    /// vertically shifted from the canvas center.
    pub fn new_secondary_chronograph(
        width: usize, height: usize, config: &InstrumentConfig,
    ) -> (d: Dial)
        requires
            config.wf(),
            width <= 100_000,
            height <= 100_000,
        ensures
            d.wf(),
            d.cx == width as int / 2,
            d.r == max0(
                min_dim(width as int, height as int) * FP_ONE
                    / (config.secondary_chronograph_dial_size as int)
                    - config.secondary_chronograph_dial_margin),
            d.cy == crate::fixed::clamped(
                height as int / 2 + config.secondary_chronograph_dial_shift,
                -100_000, 100_000),
            d.thickness == config.secondary_chronograph_dial_thickness,
            d.start_angle == 90_000,
            d.arc_span == 270_000,
    {
        let m: i64 = (if width < height { width } else { height }) as i64;
        let scaled: i64 = div_nn(m * FP_ONE, config.secondary_chronograph_dial_size);
        proof {
            vstd::arithmetic::div_mod::lemma_div_is_ordered(
                m * FP_ONE as int,
                100_000 * FP_ONE as int,
                config.secondary_chronograph_dial_size as int,
            );
            vstd::arithmetic::div_mod::lemma_div_is_ordered_by_denominator(
                100_000 * FP_ONE as int,
                FP_ONE as int,
                config.secondary_chronograph_dial_size as int,
            );
            vstd::arithmetic::div_mod::lemma_div_by_multiple(100_000, FP_ONE as int);
        }
        let r64: i64 = scaled - config.secondary_chronograph_dial_margin as i64;
        let r: i32 = if r64 > 0 { r64 as i32 } else { 0 };
        let cy0: i64 = (height / 2) as i64 + config.secondary_chronograph_dial_shift as i64;
        let cy: i32 = crate::fixed::clamp_i64(cy0, -100_000, 100_000) as i32;
        Dial {
            cx: (width / 2) as i32,
            cy,
            r,
            thickness: config.secondary_chronograph_dial_thickness,
            arc_span: 270_000,
            start_angle: 90_000,
        }
    }
}

/// The dial angle of a normalized position:
/// `start_angle + arc_span * pos`, in milli-degrees.
pub open spec fn dial_angle_spec(start_angle: int, arc_span: int, pos: int) -> int {
    start_angle + arc_span * pos / (FP_ONE as int)
}

/// Map a normalized position in `[0, FP_ONE]` onto the dial's sweep.
pub fn dial_angle(dial: &Dial, pos: i64) -> (a: i64)
    requires
        dial.wf(),
        0 <= pos <= FP_ONE,
    ensures
        a == dial_angle_spec(dial.start_angle as int, dial.arc_span as int, pos as int),
        dial.start_angle <= a <= dial.start_angle + dial.arc_span,
{
    proof {
        assert(0 <= dial.arc_span * pos <= dial.arc_span * FP_ONE) by (nonlinear_arith)
            requires 0 <= pos <= FP_ONE, 0 <= dial.arc_span;
    }
    let swept: i64 = div_nn(dial.arc_span * pos, FP_ONE);
    proof {
        vstd::arithmetic::div_mod::lemma_div_is_ordered(
            dial.arc_span * pos as int,
            dial.arc_span * FP_ONE as int,
            FP_ONE as int,
        );
        vstd::arithmetic::div_mod::lemma_div_by_multiple(dial.arc_span as int, FP_ONE as int);
    }
    dial.start_angle + swept
}

} // verus!
