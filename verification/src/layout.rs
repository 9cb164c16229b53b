//! The layout pass: from dial geometry, animated state, and configuration
//! to the frame's command list.
//!
//! Every builder appends a precisely described group of commands, so the
//! scene's z-order — highlight band, dial ring, ticks and labels, curved
//! text, needles, readout, warning glyph — is pinned by the contracts,
//! not just by the code.

use vstd::prelude::*;
use crate::fixed::{FP_ONE, FP_LIMIT, clamped, clamp_i64, div_nn};
use crate::trig::{cos_spec, sin_spec};
use crate::geometry::{Dial, dial_angle_spec};
use crate::scene::{Scene, DrawCommand, polar_offset_spec, polar_offset};
use crate::anim::Needle;
use crate::state::AppState;
use crate::instrument::InstrumentConfig;
use crate::fixed::normalized_spec;
use crate::text::{dec_seq_i64, frac3_seq};
use crate::canvas::Canvas;
use vstd::string::StringExecFns;

verus! {

/// An angle brought into `[0, TURN_MDEG)`, as the render pass wraps it.
pub open spec fn wrapped(a: int) -> int {
    a % 360_000
}

/// Round a micro-unit value to the nearest whole unit, halves away from
/// zero.
pub open spec fn round_units_spec(v: int) -> int {
    if v >= 0 {
        (v + 500_000) / (FP_ONE as int)
    } else {
        -(((-v) + 500_000) / (FP_ONE as int))
    }
}

/// Round a micro-unit value to whole units.
pub fn round_units(v: i64) -> (r: i64)
    requires
        -4_000_000_000_000_000_000 <= v <= 4_000_000_000_000_000_000,
    ensures
        r == round_units_spec(v as int),
{
    if v >= 0 {
        div_nn(v + 500_000, FP_ONE)
    } else {
        -div_nn((-v) + 500_000, FP_ONE)
    }
}

/// A needle length capped at the engine's drawing band.
pub open spec fn capped_len(v: int) -> int {
    if v > 140_000 {
        140_000
    } else {
        v
    }
}

/// The tip of the needle at normalized position `pos`: the dial center
/// pushed along the needle's angle by the dial radius scaled by the
/// length factor.
pub open spec fn needle_tip_cmd(
    dial: Dial, pos: int, length_factor: int, width: int, color: (u8, u8, u8),
) -> DrawCommand {
    let angle = wrapped(dial_angle_spec(dial.start_angle as int, dial.arc_span as int, pos));
    let len = capped_len(dial.r * length_factor / (FP_ONE as int));
    DrawCommand::NeedleLine {
        x0: dial.cx,
        y0: dial.cy,
        x1: (dial.cx + polar_offset_spec(cos_spec(angle), len)) as i32,
        y1: (dial.cy + polar_offset_spec(sin_spec(angle), len)) as i32,
        thickness: width as i64,
        tapered: true,
        color,
    }
}

/// The needle's back counterweight: the center pushed the opposite way by
/// the configured back length.
pub open spec fn needle_back_cmd(
    dial: Dial, pos: int, back_length: int, width: int, color: (u8, u8, u8),
) -> DrawCommand {
    let angle = wrapped(dial_angle_spec(dial.start_angle as int, dial.arc_span as int, pos));
    let len = back_length / (FP_ONE as int);
    DrawCommand::NeedleLine {
        x0: dial.cx,
        y0: dial.cy,
        x1: (dial.cx - polar_offset_spec(cos_spec(angle), len)) as i32,
        y1: (dial.cy - polar_offset_spec(sin_spec(angle), len)) as i32,
        thickness: width as i64,
        tapered: false,
        color,
    }
}

/// The needle's hub dot.
pub open spec fn needle_dot_cmd(dial: Dial, dot_radius: int, color: (u8, u8, u8)) -> DrawCommand {
    DrawCommand::Circle { cx: dial.cx, cy: dial.cy, radius: dot_radius as i32, color }
}

/// Append one needle: its tapered forward pointer, its plain back
/// counterweight, and the hub dot, in that order.
pub fn add_needle(
    scene: &mut Scene, dial: &Dial, needle: &Needle, color: (u8, u8, u8),
    length_factor: i64, width: i64, back_length: i64, dot_radius: i32,
)
    requires
        old(scene).wf(),
        dial.wf(),
        needle.wf(),
        0 <= length_factor <= 10_000_000,
        0 <= width <= 1_000_000_000,
        0 <= back_length <= 1_000_000_000,
        0 <= dot_radius <= 100_000,
    ensures
        final(scene).wf(),
        final(scene).width == old(scene).width,
        final(scene).height == old(scene).height,
        final(scene).commands@ == old(scene).commands@
            + seq![
                needle_tip_cmd(*dial, needle.pos as int, length_factor as int,
                    width as int, color),
                needle_back_cmd(*dial, needle.pos as int, back_length as int,
                    width as int, color),
                needle_dot_cmd(*dial, dot_radius as int, color),
            ],
{
    let angle: i64 = crate::geometry::dial_angle(dial, needle.pos);
    let wrapped_angle: i64 = crate::trig::wrap_mdeg(angle);
    let cos_a: i64 = crate::trig::cos_mdeg(wrapped_angle);
    let sin_a: i64 = crate::trig::sin_mdeg(wrapped_angle);
    proof {
        assert(0 <= dial.r * length_factor <= 100_000 * 10_000_000) by (nonlinear_arith)
            requires 0 <= dial.r <= 100_000, 0 <= length_factor <= 10_000_000;
        vstd::arithmetic::div_mod::lemma_div_is_ordered(
            dial.r * length_factor as int, 1_000_000_000_000, FP_ONE as int);
        vstd::arithmetic::div_mod::lemma_div_by_multiple(1_000_000, FP_ONE as int);
        vstd::arithmetic::div_mod::lemma_div_pos_is_pos(
            dial.r * length_factor as int, FP_ONE as int);
    }
    let len0: i64 = div_nn(dial.r as i64 * length_factor, FP_ONE);
    let len: i64 = if len0 > 140_000 { 140_000 } else { len0 };
    let tip_x: i64 = dial.cx as i64 + polar_offset(cos_a, len);
    let tip_y: i64 = dial.cy as i64 + polar_offset(sin_a, len);
    let back_px: i64 = div_nn(back_length, FP_ONE);
    let back_x: i64 = dial.cx as i64 - polar_offset(cos_a, back_px);
    let back_y: i64 = dial.cy as i64 - polar_offset(sin_a, back_px);
    scene.add_command(DrawCommand::NeedleLine {
        x0: dial.cx,
        y0: dial.cy,
        x1: tip_x as i32,
        y1: tip_y as i32,
        thickness: width,
        tapered: true,
        color,
    });
    scene.add_command(DrawCommand::NeedleLine {
        x0: dial.cx,
        y0: dial.cy,
        x1: back_x as i32,
        y1: back_y as i32,
        thickness: width,
        tapered: false,
        color,
    });
    scene.add_command(DrawCommand::Circle {
        cx: dial.cx,
        cy: dial.cy,
        radius: dot_radius,
        color,
    });
}

/// Append the out-of-range warning: a red exclamation glyph above the
/// dial's center.
pub fn build_warning_commands(scene: &mut Scene, dial: &Dial, exclamation_size: i64)
    requires
        old(scene).wf(),
        dial.wf(),
        0 <= exclamation_size <= 1_000_000_000,
    ensures
        final(scene).wf(),
        final(scene).width == old(scene).width,
        final(scene).height == old(scene).height,
        final(scene).commands@.len() == old(scene).commands@.len() + 1,
        forall|k: int| 0 <= k < old(scene).commands@.len()
            ==> final(scene).commands@[k] == old(scene).commands@[k],
        final(scene).commands@.last() matches DrawCommand::Text {
            x, y, text, font_size, color,
        } && x == dial.cx
            && y == dial.cy - dial.r / 4
            && text@ == "!"@
            && font_size == exclamation_size
            && color == (0xffu8, 0x00u8, 0x00u8),
{
    proof {
        reveal_strlit("!");
    }
    let text: String = String::from_str("!");
    scene.add_command(DrawCommand::Text {
        x: dial.cx,
        y: dial.cy - dial.r / 4,
        text,
        font_size: exclamation_size,
        color: (0xff, 0x00, 0x00),
    });
}

/// Sum of two floors never exceeds the floor of the sum.
proof fn lemma_div_add_le(a: int, b: int, c: int)
    requires
        a >= 0,
        b >= 0,
        c > 0,
    ensures
        a / c + b / c <= (a + b) / c,
{
    vstd::arithmetic::div_mod::lemma_fundamental_div_mod(a, c);
    vstd::arithmetic::div_mod::lemma_fundamental_div_mod(b, c);
    vstd::arithmetic::div_mod::lemma_mod_bound(a, c);
    vstd::arithmetic::div_mod::lemma_mod_bound(b, c);
    vstd::arithmetic::div_mod::lemma_div_pos_is_pos(a, c);
    vstd::arithmetic::div_mod::lemma_div_pos_is_pos(b, c);
    assert(c * (a / c + b / c) <= a + b) by (nonlinear_arith)
        requires
            a == c * (a / c) + a % c,
            b == c * (b / c) + b % c,
            a % c >= 0,
            b % c >= 0;
    vstd::arithmetic::div_mod::lemma_div_multiples_vanish(a / c + b / c, c);
    vstd::arithmetic::div_mod::lemma_div_is_ordered(c * (a / c + b / c), a + b, c);
}

/// The dial's ring arc command.
pub open spec fn arc_cmd(dial: Dial, color: (u8, u8, u8)) -> DrawCommand {
    DrawCommand::Arc {
        cx: dial.cx,
        cy: dial.cy,
        r: dial.r,
        thickness: dial.thickness,
        start_angle: dial.start_angle,
        arc_span: dial.arc_span,
        color,
    }
}

/// Normalized position of major tick `i` among `tc` ticks.
pub open spec fn tick_t(i: int, tc: int) -> int {
    i * FP_ONE / (tc - 1)
}

/// The major tick command at position `i`.
pub open spec fn major_tick_cmd(
    dial: Dial, i: int, tc: int, length: int, thickness: int, color: (u8, u8, u8),
) -> DrawCommand {
    DrawCommand::Tick {
        cx: dial.cx,
        cy: dial.cy,
        r: dial.r,
        angle: dial_angle_spec(
            dial.start_angle as int, dial.arc_span as int, tick_t(i, tc)) as i64,
        length: length as i32,
        thickness: thickness as i64,
        color,
    }
}

/// Normalized position of minor tick `j` after major tick `i`.
pub open spec fn minor_t(i: int, j: int, tc: int, m: int) -> int {
    tick_t(i, tc) + j * FP_ONE / (m * (tc - 1))
}

/// The minor tick command `j` in interval `i`.
pub open spec fn minor_tick_cmd(
    dial: Dial, i: int, j: int, tc: int, m: int, length: int, thickness: int,
    color: (u8, u8, u8),
) -> DrawCommand {
    DrawCommand::Tick {
        cx: dial.cx,
        cy: dial.cy,
        r: dial.r,
        angle: dial_angle_spec(
            dial.start_angle as int, dial.arc_span as int, minor_t(i, j, tc, m)) as i64,
        length: length as i32,
        thickness: thickness as i64,
        color,
    }
}

/// The numeric value major tick `i` labels, in whole units.
pub open spec fn label_value_spec(min: int, max: int, i: int, tc: int) -> int {
    round_units_spec(min + tick_t(i, tc) * (max - min) / (FP_ONE as int))
}

/// Pixel radius at which tick labels sit.
pub open spec fn label_radius_spec(dial: Dial, tick_length: int, dist: int) -> int {
    clamped(dial.r - tick_length - dist / (FP_ONE as int), 0, 100_000)
}

/// The label center of major tick `i`.
pub open spec fn label_center_spec(
    dial: Dial, i: int, tc: int, tick_length: int, dist: int,
) -> (int, int) {
    let angle = wrapped(dial_angle_spec(dial.start_angle as int, dial.arc_span as int,
        tick_t(i, tc)));
    let lr = label_radius_spec(dial, tick_length, dist);
    (
        clamped(dial.cx + polar_offset_spec(cos_spec(angle), lr), -150_000, 150_000),
        clamped(dial.cy + polar_offset_spec(sin_spec(angle), lr), -150_000, 150_000),
    )
}

/// Index of major tick `i`'s command group, `base` being where the ring
/// arc went.
pub open spec fn tick_group_idx(base: int, i: int, m: int) -> int {
    base + 1 + i * (2 + m)
}

/// Index of major tick `i`'s label command.
pub open spec fn label_idx(base: int, i: int, tc: int, m: int) -> int {
    tick_group_idx(base, i, m) + 1 + (if i < tc - 1 { m } else { 0 })
}

/// Number of commands a dial group appends: the arc, the majors, the
/// minors, and the labels.
pub open spec fn dial_group_len(tc: int, m: int) -> int {
    1 + (tc - 1) * (2 + m) + 2
}

/// Append a dial's face: the ring arc first, then for each major tick its
/// tick mark, the minor ticks of its interval, and its numeric label.
pub fn add_dial_with_ticks(
    scene: &mut Scene, dial: &Dial, range_min: i64, range_max: i64,
    ticks_count: usize, tick_length: i32, major_tick_thickness: i64,
    minor_tick_thickness: i64, minor_ticks_per_interval: usize, minor_tick_length: i32,
    font_size: i64, ticks_to_numbers_distance: i64, dial_color: (u8, u8, u8),
)
    requires
        old(scene).wf(),
        dial.wf(),
        -FP_LIMIT <= range_min < range_max <= FP_LIMIT,
        2 <= ticks_count <= 1000,
        minor_ticks_per_interval <= 1000,
        0 <= tick_length <= 100_000,
        0 <= minor_tick_length <= 100_000,
        0 <= major_tick_thickness <= 1_000_000_000,
        0 <= minor_tick_thickness <= 1_000_000_000,
        0 <= font_size <= 1_000_000_000,
        0 <= ticks_to_numbers_distance <= 1_000_000_000,
    ensures
        final(scene).wf(),
        final(scene).width == old(scene).width,
        final(scene).height == old(scene).height,
        final(scene).commands@.len() == old(scene).commands@.len()
            + dial_group_len(ticks_count as int, minor_ticks_per_interval as int),
        forall|k: int| 0 <= k < old(scene).commands@.len()
            ==> final(scene).commands@[k] == old(scene).commands@[k],
        final(scene).commands@[old(scene).commands@.len() as int] == arc_cmd(*dial, dial_color),
        forall|i: int| 0 <= i < ticks_count
            ==> final(scene).commands@[
                    tick_group_idx(old(scene).commands@.len() as int, i,
                        minor_ticks_per_interval as int)]
                == #[trigger] major_tick_cmd(*dial, i, ticks_count as int,
                    tick_length as int, major_tick_thickness as int, dial_color),
        forall|i: int, j: int| 0 <= i < ticks_count - 1 && 0 <= j < minor_ticks_per_interval
            ==> final(scene).commands@[
                    tick_group_idx(old(scene).commands@.len() as int, i,
                        minor_ticks_per_interval as int) + 1 + j]
                == #[trigger] minor_tick_cmd(*dial, i, j + 1, ticks_count as int,
                    minor_ticks_per_interval as int, minor_tick_length as int,
                    minor_tick_thickness as int, dial_color),
        forall|i: int| 0 <= i < ticks_count
            ==> ((#[trigger] final(scene).commands@[
                    label_idx(old(scene).commands@.len() as int, i, ticks_count as int,
                        minor_ticks_per_interval as int)])
                matches DrawCommand::Text { x, y, text, font_size: fs, color: c }
                && (x as int, y as int) == label_center_spec(*dial, i, ticks_count as int,
                    tick_length as int, ticks_to_numbers_distance as int)
                && text@ == dec_seq_i64(label_value_spec(
                    range_min as int, range_max as int, i, ticks_count as int))
                && fs == font_size
                && c == dial_color),
{
    let ghost base = scene.commands@.len() as int;
    let tc: usize = ticks_count;
    let m: usize = minor_ticks_per_interval;
    scene.add_command(DrawCommand::Arc {
        cx: dial.cx,
        cy: dial.cy,
        r: dial.r,
        thickness: dial.thickness,
        start_angle: dial.start_angle,
        arc_span: dial.arc_span,
        color: dial_color,
    });
    let mut i: usize = 0;
    while i < tc
        invariant
            scene.wf(),
            dial.wf(),
            scene.width == old(scene).width,
            scene.height == old(scene).height,
            base == old(scene).commands@.len(),
            2 <= tc <= 1000,
            m <= 1000,
            tc == ticks_count,
            m == minor_ticks_per_interval,
            i <= tc,
            -FP_LIMIT <= range_min < range_max <= FP_LIMIT,
            0 <= tick_length <= 100_000,
            0 <= minor_tick_length <= 100_000,
            0 <= major_tick_thickness <= 1_000_000_000,
            0 <= minor_tick_thickness <= 1_000_000_000,
            0 <= font_size <= 1_000_000_000,
            0 <= ticks_to_numbers_distance <= 1_000_000_000,
            i < tc ==> scene.commands@.len() == base + 1 + i * (2 + m),
            i == tc ==> scene.commands@.len()
                == base + dial_group_len(tc as int, m as int),
            forall|k: int| 0 <= k < base ==> scene.commands@[k] == old(scene).commands@[k],
            scene.commands@[base] == arc_cmd(*dial, dial_color),
            forall|q: int| 0 <= q < i
                ==> scene.commands@[tick_group_idx(base, q, m as int)]
                    == #[trigger] major_tick_cmd(*dial, q, tc as int,
                        tick_length as int, major_tick_thickness as int, dial_color),
            forall|q: int, j: int| 0 <= q < i && q < tc - 1 && 0 <= j < m
                ==> scene.commands@[tick_group_idx(base, q, m as int) + 1 + j]
                    == #[trigger] minor_tick_cmd(*dial, q, j + 1, tc as int, m as int,
                        minor_tick_length as int, minor_tick_thickness as int, dial_color),
            forall|q: int| 0 <= q < i
                ==> ((#[trigger] scene.commands@[label_idx(base, q, tc as int, m as int)])
                    matches DrawCommand::Text { x, y, text, font_size: fs, color: c }
                    && (x as int, y as int) == label_center_spec(*dial, q, tc as int,
                        tick_length as int, ticks_to_numbers_distance as int)
                    && text@ == dec_seq_i64(label_value_spec(
                        range_min as int, range_max as int, q, tc as int))
                    && fs == font_size
                    && c == dial_color),
        decreases tc - i,
    {
        proof {
            let mi = m as int;
            let ii = i as int;
            assert(((ii) + 1) * (2 + mi) == ii * (2 + mi) + 2 + mi) by (nonlinear_arith);
            assert forall|q: int| 0 <= q < ii
                implies #[trigger] tick_group_idx(base, q, mi) + 2 + mi
                    <= base + 1 + ii * (2 + mi) by {
                assert((q + 1) * (2 + mi) <= ii * (2 + mi)) by (nonlinear_arith)
                    requires q + 1 <= ii, mi >= 0;
                assert((q + 1) * (2 + mi) == q * (2 + mi) + 2 + mi) by (nonlinear_arith);
            }
        }
        proof {
            assert(i * 1_000_000 <= (tc - 1) * 1_000_000) by (nonlinear_arith)
                requires i <= tc - 1;
            vstd::arithmetic::div_mod::lemma_div_is_ordered(
                i as int * 1_000_000, (tc - 1) as int * 1_000_000, (tc - 1) as int);
            vstd::arithmetic::div_mod::lemma_div_by_multiple(1_000_000, (tc - 1) as int);
        }
        let t: i64 = div_nn(i as i64 * FP_ONE, tc as i64 - 1);
        let angle: i64 = crate::geometry::dial_angle(dial, t);
        scene.add_command(DrawCommand::Tick {
            cx: dial.cx,
            cy: dial.cy,
            r: dial.r,
            angle,
            length: tick_length,
            thickness: major_tick_thickness,
            color: dial_color,
        });
        if i < tc - 1 {
            let mut j: usize = 1;
            while j <= m
                invariant
                    scene.wf(),
                    dial.wf(),
                    scene.width == old(scene).width,
                    scene.height == old(scene).height,
                    base == old(scene).commands@.len(),
                    2 <= tc <= 1000,
                    m <= 1000,
                    i < tc - 1,
                    1 <= j <= m + 1,
                    -FP_LIMIT <= range_min < range_max <= FP_LIMIT,
                    0 <= tick_length <= 100_000,
                    0 <= minor_tick_length <= 100_000,
                    0 <= major_tick_thickness <= 1_000_000_000,
                    0 <= minor_tick_thickness <= 1_000_000_000,
                    0 <= font_size <= 1_000_000_000,
                    0 <= ticks_to_numbers_distance <= 1_000_000_000,
                    t == tick_t(i as int, tc as int),
                    0 <= t <= FP_ONE,
                    scene.commands@.len() == base + 1 + i * (2 + m) + 1 + (j - 1),
                    forall|k: int| 0 <= k < base
                        ==> scene.commands@[k] == old(scene).commands@[k],
                    scene.commands@[base] == arc_cmd(*dial, dial_color),
                    forall|q: int| 0 <= q <= i
                        ==> scene.commands@[tick_group_idx(base, q, m as int)]
                            == #[trigger] major_tick_cmd(*dial, q, tc as int,
                                tick_length as int, major_tick_thickness as int, dial_color),
                    forall|q: int, jj: int| 0 <= q < i && q < tc - 1 && 0 <= jj < m
                        ==> scene.commands@[tick_group_idx(base, q, m as int) + 1 + jj]
                            == #[trigger] minor_tick_cmd(*dial, q, jj + 1, tc as int, m as int,
                                minor_tick_length as int, minor_tick_thickness as int,
                                dial_color),
                    forall|jj: int| 0 <= jj < j - 1
                        ==> scene.commands@[tick_group_idx(base, i as int, m as int) + 1 + jj]
                            == #[trigger] minor_tick_cmd(*dial, i as int, jj + 1, tc as int,
                                m as int, minor_tick_length as int,
                                minor_tick_thickness as int, dial_color),
                    forall|q: int| 0 <= q < i
                        ==> ((#[trigger] scene.commands@[label_idx(base, q, tc as int, m as int)])
                            matches DrawCommand::Text { x, y, text, font_size: fs, color: c }
                            && (x as int, y as int) == label_center_spec(*dial, q, tc as int,
                                tick_length as int, ticks_to_numbers_distance as int)
                            && text@ == dec_seq_i64(label_value_spec(
                                range_min as int, range_max as int, q, tc as int))
                            && fs == font_size
                            && c == dial_color),
                decreases m + 1 - j,
            {
                proof {
                    let mi = m as int;
                    let ii = i as int;
                    assert((m as i64) * (tc as i64 - 1) <= 1_000_000) by (nonlinear_arith)
                        requires m <= 1000, tc <= 1000, m >= 1, tc >= 2;
                    assert forall|q: int| 0 <= q < ii
                        implies #[trigger] tick_group_idx(base, q, mi) + 2 + mi
                            <= base + 1 + ii * (2 + mi) by {
                        assert((q + 1) * (2 + mi) <= ii * (2 + mi)) by (nonlinear_arith)
                            requires q + 1 <= ii, mi >= 0;
                        assert((q + 1) * (2 + mi) == q * (2 + mi) + 2 + mi)
                            by (nonlinear_arith);
                    }
                }
                proof {
                    assert(j * 1_000_000 <= m * 1_000_000) by (nonlinear_arith)
                        requires j <= m;
                    assert(0 < m * (tc - 1)) by (nonlinear_arith)
                        requires m >= 1, tc >= 2;
                    assert(m * 1_000_000 <= (m * (tc - 1)) * 1_000_000) by (nonlinear_arith)
                        requires m >= 1, tc >= 2;
                    vstd::arithmetic::div_mod::lemma_div_is_ordered(
                        j as int * 1_000_000, (m * (tc - 1)) as int * 1_000_000,
                        (m * (tc - 1)) as int);
                    vstd::arithmetic::div_mod::lemma_div_by_multiple(
                        1_000_000, (m * (tc - 1)) as int);
                    lemma_div_add_le(
                        i as int * 1_000_000, 1_000_000, (tc - 1) as int);
                    assert(j as int * 1_000_000 <= (tc - 1) as int * 1_000_000 / (tc - 1) as int
                        * (m * (tc - 1)) as int) by (nonlinear_arith)
                        requires j <= m, tc >= 2, m >= 1;
                }
                let denom: i64 = (m as i64) * (tc as i64 - 1);
                let d: i64 = div_nn(j as i64 * FP_ONE, denom);
                proof {
                    // d <= FP_ONE / (tc - 1), and t <= i * FP / (tc-1), so the sum
                    // stays within the dial sweep.
                    vstd::arithmetic::div_mod::lemma_div_denominator(
                        (m as int) * 1_000_000, m as int, (tc - 1) as int);
                    vstd::arithmetic::div_mod::lemma_div_by_multiple(1_000_000, m as int);
                    vstd::arithmetic::div_mod::lemma_div_is_ordered(
                        j as int * 1_000_000, (m as int) * 1_000_000, (m * (tc - 1)) as int);
                    assert((i as int) * 1_000_000 + 1_000_000 == (i + 1) as int * 1_000_000)
                        by (nonlinear_arith);
                    assert((i + 1) as int * 1_000_000 <= (tc - 1) as int * 1_000_000)
                        by (nonlinear_arith)
                        requires i + 1 <= tc - 1;
                    vstd::arithmetic::div_mod::lemma_div_is_ordered(
                        (i + 1) as int * 1_000_000, (tc - 1) as int * 1_000_000,
                        (tc - 1) as int);
                    vstd::arithmetic::div_mod::lemma_div_by_multiple(
                        1_000_000, (tc - 1) as int);
                }
                let mt: i64 = t + d;
                let minor_angle: i64 = crate::geometry::dial_angle(dial, mt);
                scene.add_command(DrawCommand::Tick {
                    cx: dial.cx,
                    cy: dial.cy,
                    r: dial.r,
                    angle: minor_angle,
                    length: minor_tick_length,
                    thickness: minor_tick_thickness,
                    color: dial_color,
                });
                j = j + 1;
            }
        }
        let wrapped_angle: i64 = crate::trig::wrap_mdeg(angle);
        let cos_a: i64 = crate::trig::cos_mdeg(wrapped_angle);
        let sin_a: i64 = crate::trig::sin_mdeg(wrapped_angle);
        let dist_px: i64 = div_nn(ticks_to_numbers_distance, FP_ONE);
        let lr: i64 = clamp_i64(dial.r as i64 - tick_length as i64 - dist_px, 0, 100_000);
        let lx: i64 = clamp_i64(
            dial.cx as i64 + polar_offset(cos_a, lr), -150_000, 150_000);
        let ly: i64 = clamp_i64(
            dial.cy as i64 + polar_offset(sin_a, lr), -150_000, 150_000);
        proof {
            assert(-4_000_000_000_000_000_000 <= t * ((range_max - range_min) as int)
                <= 4_000_000_000_000_000_000) by (nonlinear_arith)
                requires 0 <= t <= 1_000_000, 0 < range_max - range_min <= 2_000_000_000_000;
            assert(0 <= t * ((range_max - range_min) as int)) by (nonlinear_arith)
                requires 0 <= t, range_max - range_min > 0;
            vstd::arithmetic::div_mod::lemma_div_pos_is_pos(
                t as int * ((range_max - range_min) as int), FP_ONE as int);
            vstd::arithmetic::div_mod::lemma_div_is_ordered(
                t as int * ((range_max - range_min) as int),
                4_000_000_000_000_000_000, FP_ONE as int);
            vstd::arithmetic::div_mod::lemma_div_by_multiple(
                4_000_000_000_000, FP_ONE as int);
        }
        let swept: i64 = div_nn(t * (range_max - range_min), FP_ONE);
        let value: i64 = range_min + swept;
        let rounded: i64 = round_units(value);
        let text: String = crate::text::i64_to_string(rounded);
        scene.add_command(DrawCommand::Text {
            x: lx as i32,
            y: ly as i32,
            text,
            font_size,
            color: dial_color,
        });
        proof {
            let mi = m as int;
            let ii = i as int;
            assert((ii + 1) * (2 + mi) == ii * (2 + mi) + 2 + mi) by (nonlinear_arith);
            assert forall|q: int| 0 <= q < ii + 1
                implies #[trigger] tick_group_idx(base, q, mi) + 2 + mi
                    <= base + 1 + (ii + 1) * (2 + mi) by {
                assert((q + 1) * (2 + mi) <= (ii + 1) * (2 + mi)) by (nonlinear_arith)
                    requires q + 1 <= ii + 1, mi >= 0;
                assert((q + 1) * (2 + mi) == q * (2 + mi) + 2 + mi) by (nonlinear_arith);
            }
        }
        i = i + 1;
    }
}

/// Clamp into the text-command coordinate band.
pub open spec fn cl150(v: int) -> int {
    clamped(v, -150_000, 150_000)
}

/// Clamp into the line-command coordinate band.
pub open spec fn cl250(v: int) -> int {
    clamped(v, -250_000, 250_000)
}

/// Integer part of a micro-unit value, truncated toward zero.
pub open spec fn trunc_units_spec(v: int) -> int {
    if v >= 0 {
        v / (FP_ONE as int)
    } else {
        -((-v) / (FP_ONE as int))
    }
}

/// The readout's three-digit fractional part: the first three decimals of
/// the value's magnitude past the point, rounded, pinned at 999; zero for
/// negative values.
pub open spec fn readout_frac_spec(v: int) -> int {
    if v >= 0 {
        let f = (v % (FP_ONE as int)) * 1000 + 500_000;
        clamped(f / (FP_ONE as int), 0, 999)
    } else {
        0
    }
}

/// Number of characters in the decimal string of `v`.
pub open spec fn dec_len(v: int) -> int
    decreases (if v >= 0 { 2 * v } else { 1 - 2 * v }),
{
    if 0 <= v < 10 {
        1
    } else if v >= 10 {
        1 + dec_len(v / 10)
    } else {
        1 + dec_len(-v)
    }
}

/// `dec_len` counts exactly the characters of the decimal string.
pub proof fn lemma_dec_len(v: int)
    requires
        v > i64::MIN,
    ensures
        dec_len(v) == dec_seq_i64(v).len(),
        1 <= dec_len(v),
    decreases (if v >= 0 { 2 * v } else { 1 - 2 * v }),
{
    if 0 <= v < 10 {
    } else if v >= 10 {
        lemma_dec_len(v / 10);
        lemma_dec_seq_len(v as nat);
    } else {
        lemma_dec_len(-v);
    }
}

/// Length of the digit string of a natural number.
proof fn lemma_dec_seq_len(n: nat)
    ensures
        dec_seq_i64(n as int).len() == (if n < 10 { 1int } else {
            1 + dec_seq_i64((n / 10) as int).len() as int
        }),
    decreases n,
{
    if n >= 10 {
        lemma_dec_seq_len(n / 10);
    }
}

/// Count the characters of `v`'s decimal string.
pub fn digit_count(v: i64) -> (c: i64)
    requires
        v > i64::MIN,
    ensures
        c == dec_len(v as int),
        1 <= c <= 20,
    decreases (if v >= 0 { 2 * (v as int) } else { 1 - 2 * (v as int) }),
{
    proof {
        lemma_dec_len(v as int);
        lemma_dec_len_small(v as int);
    }
    if 0 <= v && v < 10 {
        1
    } else if v >= 10 {
        1 + digit_count(v / 10)
    } else {
        1 + digit_count(-v)
    }
}

/// Powers of ten.
pub open spec fn pow10(k: nat) -> int
    decreases k,
{
    if k == 0 {
        1
    } else {
        10 * pow10((k - 1) as nat)
    }
}

/// A value below the `k`-th power of ten has at most `k` digits.
proof fn lemma_dec_len_pow(v: int, k: nat)
    requires
        k >= 1,
        0 <= v < pow10(k),
    ensures
        dec_len(v) <= k,
    decreases k,
{
    if v < 10 {
    } else {
        assert(pow10(k) == 10 * pow10((k - 1) as nat));
        vstd::arithmetic::div_mod::lemma_div_is_ordered(
            v, 10 * pow10((k - 1) as nat) - 1, 10);
        vstd::arithmetic::div_mod::lemma_fundamental_div_mod_converse(
            10 * pow10((k - 1) as nat) - 1, 10, pow10((k - 1) as nat) - 1, 9);
        assert(k >= 2) by {
            if k == 1 {
                assert(pow10(1nat) == 10);
            }
        }
        lemma_dec_len_pow(v / 10, (k - 1) as nat);
    }
}

/// A 64-bit value never takes more than 20 characters.
proof fn lemma_dec_len_small(v: int)
    requires
        v > i64::MIN,
        v <= i64::MAX,
    ensures
        dec_len(v) <= 20,
{
    proof_pow10_19();
    if v >= 0 {
        lemma_dec_len_pow(v, 19);
    } else {
        lemma_dec_len_pow(-v, 19);
    }
}

proof fn proof_pow10_19()
    ensures
        pow10(19) == 10_000_000_000_000_000_000,
{
    reveal_with_fuel(pow10, 21);
}

/// One edge of the readout's frame box.
pub open spec fn box_line_cmd(
    x0: int, y0: int, x1: int, y1: int, thickness: int, color: (u8, u8, u8),
) -> DrawCommand {
    DrawCommand::NeedleLine {
        x0: cl250(x0) as i32,
        y0: cl250(y0) as i32,
        x1: cl250(x1) as i32,
        y1: cl250(y1) as i32,
        thickness: thickness as i64,
        tapered: false,
        color,
    }
}

/// Append the four edges of the readout's frame box, in top, bottom,
/// left, right order.
pub fn build_readout_box_commands(
    scene: &mut Scene, label_x: i64, label_y: i64, frac_x: i64, frac_y: i64,
    int_len: i64, box_padding: i32, box_thickness: i64, big_font_size: i64,
    color: (u8, u8, u8),
)
    requires
        old(scene).wf(),
        -150_000 <= label_x <= 150_000,
        -150_000 <= label_y <= 150_000,
        -200_000 <= frac_x <= 200_000,
        -200_000 <= frac_y <= 200_000,
        1 <= int_len <= 100_000,
        0 <= box_padding <= 100_000,
        0 <= box_thickness <= 1_000_000_000,
        0 <= big_font_size <= 1_000_000_000,
    ensures
        final(scene).wf(),
        final(scene).width == old(scene).width,
        final(scene).height == old(scene).height,
        final(scene).commands@ == old(scene).commands@ + readout_box_cmds(
            label_x as int, label_y as int, frac_x as int, frac_y as int,
            int_len as int, box_padding as int, box_thickness as int,
            big_font_size as int, color),
{
    let font_size_px: i64 = div_nn(big_font_size, 11 * FP_ONE);
    proof {
        vstd::arithmetic::div_mod::lemma_div_is_ordered(
            big_font_size as int, 1_000_000_000, 11 * FP_ONE);
        assert(0 <= font_size_px * int_len <= 91 * 100_000) by (nonlinear_arith)
            requires 0 <= font_size_px <= 91, 1 <= int_len <= 100_000;
    }
    let box_left: i64 = label_x - box_padding as i64 - font_size_px * int_len;
    let box_top: i64 = label_y - box_padding as i64;
    let box_right: i64 = frac_x + box_padding as i64 + 5;
    let box_bottom: i64 = frac_y + box_padding as i64;
    let lf: i64 = clamp_i64(box_left, -250_000, 250_000);
    let tp: i64 = clamp_i64(box_top, -250_000, 250_000);
    let rt: i64 = clamp_i64(box_right, -250_000, 250_000);
    let bt: i64 = clamp_i64(box_bottom, -250_000, 250_000);
    scene.add_command(DrawCommand::NeedleLine {
        x0: lf as i32, y0: tp as i32, x1: rt as i32, y1: tp as i32,
        thickness: box_thickness, tapered: false, color,
    });
    scene.add_command(DrawCommand::NeedleLine {
        x0: lf as i32, y0: bt as i32, x1: rt as i32, y1: bt as i32,
        thickness: box_thickness, tapered: false, color,
    });
    scene.add_command(DrawCommand::NeedleLine {
        x0: lf as i32, y0: tp as i32, x1: lf as i32, y1: bt as i32,
        thickness: box_thickness, tapered: false, color,
    });
    scene.add_command(DrawCommand::NeedleLine {
        x0: rt as i32, y0: tp as i32, x1: rt as i32, y1: bt as i32,
        thickness: box_thickness, tapered: false, color,
    });
    proof {
        assert(scene.commands@ =~= old(scene).commands@ + readout_box_cmds(
            label_x as int, label_y as int, frac_x as int, frac_y as int,
            int_len as int, box_padding as int, box_thickness as int,
            big_font_size as int, color));
    }
}

/// The four frame-box commands of the readout.
pub open spec fn readout_box_cmds(
    label_x: int, label_y: int, frac_x: int, frac_y: int, int_len: int,
    box_padding: int, box_thickness: int, big_font_size: int, color: (u8, u8, u8),
) -> Seq<DrawCommand> {
    let fs = big_font_size / (11 * FP_ONE as int);
    let left = label_x - box_padding - fs * int_len;
    let top = label_y - box_padding;
    let right = frac_x + box_padding + 5;
    let bottom = frac_y + box_padding;
    seq![
        box_line_cmd(left, top, right, top, box_thickness, color),
        box_line_cmd(left, bottom, right, bottom, box_thickness, color),
        box_line_cmd(left, top, left, bottom, box_thickness, color),
        box_line_cmd(right, top, right, bottom, box_thickness, color),
    ]
}

/// Append the digital readout: the integer part in the big font, the
/// three-digit fractional part in the small font, then its frame box —
/// six commands.
pub fn build_readout_commands(
    scene: &mut Scene, width: usize, height: usize, value: i64, color: (u8, u8, u8),
    int_width: i32, config: &crate::instrument::InstrumentConfig,
)
    requires
        old(scene).wf(),
        config.wf(),
        width <= 100_000,
        height <= 100_000,
        -FP_LIMIT <= value <= FP_LIMIT,
        0 <= int_width <= 100_000,
    ensures
        final(scene).wf(),
        final(scene).width == old(scene).width,
        final(scene).height == old(scene).height,
        final(scene).commands@.len() == old(scene).commands@.len() + 6,
        forall|k: int| 0 <= k < old(scene).commands@.len()
            ==> final(scene).commands@[k] == old(scene).commands@[k],
        final(scene).commands@[old(scene).commands@.len() as int]
            matches DrawCommand::Text { x, y, text, font_size, color: c }
            && x == width as int * config.readout_x_factor / (FP_ONE as int)
            && y == height as int * config.readout_y_factor / (FP_ONE as int)
            && text@ == dec_seq_i64(trunc_units_spec(value as int))
            && font_size == config.readout_big_font_size
            && c == color,
        final(scene).commands@[old(scene).commands@.len() as int + 1]
            matches DrawCommand::Text { x, y, text, font_size, color: c }
            && x == cl150(width as int * config.readout_x_factor / (FP_ONE as int)
                + int_width / 2 + 28)
            && y == cl150(height as int * config.readout_y_factor / (FP_ONE as int) + 2)
            && text@ == frac3_seq(readout_frac_spec(value as int))
            && font_size == config.readout_small_font_size
            && c == color,
        forall|k: int| 2 <= k < 6
            ==> #[trigger] final(scene).commands@[old(scene).commands@.len() as int + k]
                == readout_box_cmds(
                    width as int * config.readout_x_factor / (FP_ONE as int),
                    height as int * config.readout_y_factor / (FP_ONE as int),
                    cl150(width as int * config.readout_x_factor / (FP_ONE as int)
                        + int_width / 2 + 28),
                    cl150(height as int * config.readout_y_factor / (FP_ONE as int) + 2),
                    dec_len(trunc_units_spec(value as int)),
                    config.readout_box_padding as int,
                    config.readout_box_thickness as int,
                    config.readout_big_font_size as int,
                    color)[k - 2],
{
    proof {
        assert(0 <= width as int * config.readout_x_factor <= 100_000_000_000)
            by (nonlinear_arith)
            requires 0 <= width <= 100_000, 0 <= config.readout_x_factor <= 1_000_000;
        assert(0 <= height as int * config.readout_y_factor <= 100_000_000_000)
            by (nonlinear_arith)
            requires 0 <= height <= 100_000, 0 <= config.readout_y_factor <= 1_000_000;
        vstd::arithmetic::div_mod::lemma_div_is_ordered(
            width as int * config.readout_x_factor, 100_000_000_000, FP_ONE as int);
        vstd::arithmetic::div_mod::lemma_div_is_ordered(
            height as int * config.readout_y_factor, 100_000_000_000, FP_ONE as int);
        vstd::arithmetic::div_mod::lemma_div_by_multiple(100_000, FP_ONE as int);
    }
    let label_x: i64 = div_nn(width as i64 * config.readout_x_factor, FP_ONE);
    let label_y: i64 = div_nn(height as i64 * config.readout_y_factor, FP_ONE);
    let value_int: i64 = if value >= 0 {
        div_nn(value, FP_ONE)
    } else {
        -div_nn(-value, FP_ONE)
    };
    let value_frac: i64 = if value >= 0 {
        proof {
            vstd::arithmetic::div_mod::lemma_mod_bound(value as int, FP_ONE as int);
        }
        let f: i64 = (value % FP_ONE) * 1000 + 500_000;
        let q: i64 = div_nn(f, FP_ONE);
        clamp_i64(q, 0, 999)
    } else {
        0
    };
    let int_text: String = crate::text::i64_to_string(value_int);
    scene.add_command(DrawCommand::Text {
        x: label_x as i32,
        y: label_y as i32,
        text: int_text,
        font_size: config.readout_big_font_size,
        color,
    });
    let frac_x: i64 = clamp_i64(label_x + int_width as i64 / 2 + 28, -150_000, 150_000);
    let frac_y: i64 = clamp_i64(label_y + 2, -150_000, 150_000);
    let frac_text: String = crate::text::format_frac3(value_frac as u64);
    scene.add_command(DrawCommand::Text {
        x: frac_x as i32,
        y: frac_y as i32,
        text: frac_text,
        font_size: config.readout_small_font_size,
        color,
    });
    let int_len: i64 = digit_count(value_int);
    build_readout_box_commands(
        scene, label_x, label_y, frac_x, frac_y, int_len,
        config.readout_box_padding, config.readout_box_thickness,
        config.readout_big_font_size, color);
}

/// Whether either needle's raw value lies outside the range.
pub open spec fn out_of_range_spec(st: AppState) -> bool {
    ||| (st.value1 matches Some(v) && (v < st.min_value || v > st.max_value))
    ||| (st.value2 matches Some(v) && (v < st.min_value || v > st.max_value))
}

/// The frame's base color: alert red out of range, black otherwise.
pub open spec fn base_color_spec(st: AppState) -> (u8, u8, u8) {
    if out_of_range_spec(st) {
        (0xff, 0x00, 0x00)
    } else {
        (0x00, 0x00, 0x00)
    }
}

/// The primary needle's color.
pub open spec fn n1_color_spec(st: AppState) -> (u8, u8, u8) {
    if out_of_range_spec(st) {
        (0xff, 0x00, 0x00)
    } else {
        (0x00, 0x00, 0x00)
    }
}

/// The secondary needle's color.
pub open spec fn n2_color_spec(st: AppState) -> (u8, u8, u8) {
    if out_of_range_spec(st) {
        (0xff, 0x00, 0x00)
    } else {
        (0x00, 0x7f, 0xff)
    }
}

/// The chronograph needle's color.
pub open spec fn chrono_color_spec(st: AppState) -> (u8, u8, u8) {
    if out_of_range_spec(st) {
        (0xff, 0x00, 0x00)
    } else {
        (0xff, 0x80, 0x00)
    }
}

/// The secondary chronograph needle's color.
pub open spec fn sec_chrono_color_spec(st: AppState) -> (u8, u8, u8) {
    if out_of_range_spec(st) {
        (0xff, 0x00, 0x00)
    } else {
        (0x00, 0x80, 0xff)
    }
}

/// The primary dial a canvas of the given size carries.
pub open spec fn primary_dial_spec(w: int, h: int, cfg: InstrumentConfig) -> Dial {
    Dial {
        cx: (w / 2) as i32,
        cy: (h / 2) as i32,
        r: crate::geometry::max0(
            crate::geometry::min_dim(w, h) / 2 - cfg.dial_margin) as i32,
        thickness: cfg.dial_thickness,
        arc_span: 270_000,
        start_angle: 90_000,
    }
}

/// The highlight band command for the current bounds.
pub open spec fn band_cmd_spec(st: AppState, cfg: InstrumentConfig, dial: Dial) -> DrawCommand {
    let lo = st.highlight_bounds->0.lower as int;
    let hi = st.highlight_bounds->0.upper as int;
    DrawCommand::HighlightBand {
        cx: dial.cx,
        cy: dial.cy,
        r: dial.r,
        start_angle: dial_angle_spec(dial.start_angle as int, dial.arc_span as int,
            normalized_spec(lo, st.min_value as int, st.max_value as int)) as i64,
        end_angle: dial_angle_spec(dial.start_angle as int, dial.arc_span as int,
            normalized_spec(hi, st.min_value as int, st.max_value as int)) as i64,
        inner_radius: (cfg.highlight_band_width as int * FP_ONE) as i64,
        outer_radius: 0,
        softness: cfg.highlight_band_edge_softness,
        alpha: cfg.highlight_band_alpha,
        color: (cfg.highlight_band_color.r, cfg.highlight_band_color.g,
            cfg.highlight_band_color.b),
    }
}

/// How many commands the highlight band contributes.
pub open spec fn band_ct(st: AppState) -> int {
    if st.highlight_bounds is Some {
        1
    } else {
        0
    }
}

/// How many commands a needle slot contributes.
pub open spec fn needle_ct(o: Option<Needle>) -> int {
    if o is Some {
        3
    } else {
        0
    }
}

/// How many commands the chronograph contributes: its dial face and its
/// needle.
pub open spec fn chrono_ct(st: AppState, cfg: InstrumentConfig) -> int {
    if st.chronograph is Some {
        dial_group_len(cfg.chronograph_ticks_count as int,
            cfg.chronograph_minor_ticks_per_interval as int) + 3
    } else {
        0
    }
}

/// How many commands the secondary chronograph contributes.
pub open spec fn sec_chrono_ct(st: AppState, cfg: InstrumentConfig) -> int {
    if st.secondary_chronograph is Some {
        dial_group_len(cfg.secondary_chronograph_ticks_count as int,
            cfg.secondary_chronograph_minor_ticks_per_interval as int) + 3
    } else {
        0
    }
}

/// How many commands the readout contributes.
pub open spec fn readout_ct(st: AppState) -> int {
    if st.readout_value is Some {
        6
    } else {
        0
    }
}

/// How many commands the warning glyph contributes.
pub open spec fn warn_ct(st: AppState) -> int {
    if out_of_range_spec(st) {
        1
    } else {
        0
    }
}

/// Index of the main dial's ring arc.
pub open spec fn arc_idx(st: AppState) -> int {
    1 + band_ct(st)
}

/// Index of the curved text command.
pub open spec fn curved_idx(st: AppState, cfg: InstrumentConfig) -> int {
    arc_idx(st) + dial_group_len(cfg.ticks_count as int,
        cfg.minor_ticks_per_interval as int)
}

/// Index of the primary needle's first command.
pub open spec fn n1_idx(st: AppState, cfg: InstrumentConfig) -> int {
    curved_idx(st, cfg) + 1
}

/// Index of the secondary needle's first command.
pub open spec fn n2_idx(st: AppState, cfg: InstrumentConfig) -> int {
    n1_idx(st, cfg) + needle_ct(st.needle1)
}

/// Index of the chronograph group.
pub open spec fn chrono_idx(st: AppState, cfg: InstrumentConfig) -> int {
    n2_idx(st, cfg) + needle_ct(st.needle2)
}

/// Index of the secondary chronograph group.
pub open spec fn sec_chrono_idx(st: AppState, cfg: InstrumentConfig) -> int {
    chrono_idx(st, cfg) + chrono_ct(st, cfg)
}

/// Index of the readout group.
pub open spec fn readout_idx(st: AppState, cfg: InstrumentConfig) -> int {
    sec_chrono_idx(st, cfg) + sec_chrono_ct(st, cfg)
}

/// Index of the warning glyph.
pub open spec fn warn_idx(st: AppState, cfg: InstrumentConfig) -> int {
    readout_idx(st, cfg) + readout_ct(st)
}

/// Total number of commands one frame's scene holds.
pub open spec fn scene_len(st: AppState, cfg: InstrumentConfig) -> int {
    warn_idx(st, cfg) + warn_ct(st)
}

/// The dial group length is at least 3 and bounded.
pub proof fn lemma_dial_group_len_bounds(tc: int, m: int)
    requires
        2 <= tc <= 1000,
        0 <= m <= 1000,
    ensures
        3 <= dial_group_len(tc, m) <= 1_005_000,
{
    assert(1 <= (tc - 1) * (2 + m) <= 999 * 1002) by (nonlinear_arith)
        requires 1 <= tc - 1 <= 999, 2 <= 2 + m <= 1002;
}

/// The scene lists its groups in ascending index order: the highlight
/// band (when present) right after the clear, then the dial ring, then
/// the major ticks in order, then the primary needle's commands, then the
/// readout's — whatever the configuration's numeric values.  This is the
/// painter's-algorithm z-order the render pass replays.
pub proof fn lemma_scene_ordering(st: AppState, cfg: InstrumentConfig)
    requires
        cfg.wf(),
        st.highlight_bounds is Some,
        st.needle1 is Some,
        st.readout_value is Some,
    ensures
        arc_idx(st) == 2,
        forall|i: int, j: int| 0 <= i < j < cfg.ticks_count
            ==> arc_idx(st) < #[trigger] tick_group_idx(arc_idx(st), i,
                    cfg.minor_ticks_per_interval as int)
                < #[trigger] tick_group_idx(arc_idx(st), j,
                    cfg.minor_ticks_per_interval as int)
                < n1_idx(st, cfg),
        n1_idx(st, cfg) + 2 < readout_idx(st, cfg),
        readout_idx(st, cfg) < scene_len(st, cfg),
{
    lemma_dial_group_len_bounds(cfg.ticks_count as int, cfg.minor_ticks_per_interval as int);
    let m = cfg.minor_ticks_per_interval as int;
    let tc = cfg.ticks_count as int;
    assert forall|i: int, j: int| 0 <= i < j < tc
        implies arc_idx(st) < #[trigger] tick_group_idx(arc_idx(st), i, m)
            < #[trigger] tick_group_idx(arc_idx(st), j, m)
            < n1_idx(st, cfg) by {
        assert(0 <= i * (2 + m) < j * (2 + m)) by (nonlinear_arith)
            requires 0 <= i < j, m >= 0;
        assert(j * (2 + m) <= (tc - 1) * (2 + m)) by (nonlinear_arith)
            requires j <= tc - 1, m >= 0;
    }
    if st.chronograph is Some {
        lemma_dial_group_len_bounds(cfg.chronograph_ticks_count as int,
            cfg.chronograph_minor_ticks_per_interval as int);
    }
    if st.secondary_chronograph is Some {
        lemma_dial_group_len_bounds(cfg.secondary_chronograph_ticks_count as int,
            cfg.secondary_chronograph_minor_ticks_per_interval as int);
    }
}

/// The chronograph's dial for a canvas of the given size.
pub open spec fn chrono_dial_spec(w: int, h: int, cfg: InstrumentConfig) -> Dial {
    let r = crate::geometry::max0(
        crate::geometry::min_dim(w, h) * FP_ONE / (cfg.chronograph_dial_size as int)
            - cfg.chronograph_dial_margin);
    Dial {
        cx: (w / 2) as i32,
        cy: clamped(r + cfg.chronograph_dial_margin + cfg.chronograph_dial_shift,
            -100_000, 100_000) as i32,
        r: r as i32,
        thickness: cfg.chronograph_dial_thickness,
        arc_span: 270_000,
        start_angle: 90_000,
    }
}

/// The secondary chronograph's dial for a canvas of the given size.
pub open spec fn sec_chrono_dial_spec(w: int, h: int, cfg: InstrumentConfig) -> Dial {
    Dial {
        cx: (w / 2) as i32,
        cy: clamped(h / 2 + cfg.secondary_chronograph_dial_shift, -100_000, 100_000) as i32,
        r: crate::geometry::max0(
            crate::geometry::min_dim(w, h) * FP_ONE
                / (cfg.secondary_chronograph_dial_size as int)
                - cfg.secondary_chronograph_dial_margin) as i32,
        thickness: cfg.secondary_chronograph_dial_thickness,
        arc_span: 270_000,
        start_angle: 90_000,
    }
}

/// Index of the chronograph's needle commands.
pub open spec fn chrono_needle_idx(st: AppState, cfg: InstrumentConfig) -> int {
    chrono_idx(st, cfg) + dial_group_len(cfg.chronograph_ticks_count as int,
        cfg.chronograph_minor_ticks_per_interval as int)
}

/// Index of the secondary chronograph's needle commands.
pub open spec fn sec_chrono_needle_idx(st: AppState, cfg: InstrumentConfig) -> int {
    sec_chrono_idx(st, cfg) + dial_group_len(
        cfg.secondary_chronograph_ticks_count as int,
        cfg.secondary_chronograph_minor_ticks_per_interval as int)
}

/// The structure one frame's command list has: its exact length, the
/// clear first, the highlight band, the main dial's ring and major
/// ticks, the curved text, the needles, the chronograph groups, the
/// readout texts, and the warning glyph, each at its computed index.
pub open spec fn instrument_scene_spec(
    st: AppState, cfg: InstrumentConfig, w: int, h: int, cmds: Seq<DrawCommand>,
) -> bool {
    &&& (cmds.len() == scene_len(st, cfg))
    &&& (cmds[0] matches DrawCommand::Clear(c) && c == (0xffu8, 0xffu8, 0xffu8))
    &&& (st.highlight_bounds is Some ==> cmds[1]
            == band_cmd_spec(st, cfg,
                primary_dial_spec(w, h, cfg)))
    &&& (cmds[arc_idx(st)] == arc_cmd(
            primary_dial_spec(w, h, cfg), base_color_spec(st)))
    &&& (forall|i: int| 0 <= i < cfg.ticks_count
            ==> cmds[tick_group_idx(arc_idx(st), i,
                    cfg.minor_ticks_per_interval as int)]
                == #[trigger] major_tick_cmd(
                    primary_dial_spec(w, h, cfg), i,
                    cfg.ticks_count as int, cfg.major_tick_length as int,
                    cfg.major_tick_thickness as int, base_color_spec(st)))
    &&& (cmds[curved_idx(st, cfg)] matches DrawCommand::CurvedText {
            cx, cy, radius, text, font_size, arc_span, start_angle, color,
        } && cx == primary_dial_spec(w, h, cfg).cx
            && cy == primary_dial_spec(w, h, cfg).cy
            && radius == clamped(
                primary_dial_spec(w, h, cfg).r * FP_ONE
                    + cfg.curved_text_radius_offset, FP_ONE as int, 100_000_000_000)
            && text@ == cfg.curved_text@
            && font_size == cfg.curved_text_font_size
            && arc_span == cfg.curved_text_arc_span
            && start_angle == cfg.curved_text_angle
            && color == base_color_spec(st))
    &&& (st.needle1 matches Some(n) ==> {
            let d = primary_dial_spec(w, h, cfg);
            &&& cmds[n1_idx(st, cfg)] == needle_tip_cmd(d, n.pos as int,
                cfg.needle_length_factor as int, cfg.needle_width as int,
                n1_color_spec(st))
            &&& cmds[n1_idx(st, cfg) + 1] == needle_back_cmd(d, n.pos as int,
                cfg.needle_back_length as int, cfg.needle_width as int,
                n1_color_spec(st))
            &&& cmds[n1_idx(st, cfg) + 2] == needle_dot_cmd(d,
                cfg.dot_radius as int, n1_color_spec(st))
        })
    &&& (st.needle2 matches Some(n) ==> {
            let d = primary_dial_spec(w, h, cfg);
            &&& cmds[n2_idx(st, cfg)] == needle_tip_cmd(d, n.pos as int,
                cfg.needle_length_factor as int, cfg.needle_width as int,
                n2_color_spec(st))
            &&& cmds[n2_idx(st, cfg) + 1] == needle_back_cmd(d, n.pos as int,
                cfg.needle_back_length as int, cfg.needle_width as int,
                n2_color_spec(st))
            &&& cmds[n2_idx(st, cfg) + 2] == needle_dot_cmd(d,
                cfg.dot_radius as int, n2_color_spec(st))
        })
    &&& (st.chronograph matches Some(n) ==> {
            let d = chrono_dial_spec(w, h, cfg);
            &&& cmds[chrono_idx(st, cfg)] == arc_cmd(d, (0x00u8, 0x00u8, 0x00u8))
            &&& cmds[chrono_needle_idx(st, cfg)] == needle_tip_cmd(d,
                n.pos as int, cfg.chronograph_needle_length_factor as int,
                cfg.chronograph_needle_width as int, chrono_color_spec(st))
        })
    &&& (st.secondary_chronograph matches Some(n) ==> {
            let d = sec_chrono_dial_spec(w, h, cfg);
            &&& cmds[sec_chrono_idx(st, cfg)]
                == arc_cmd(d, (0x00u8, 0x00u8, 0x00u8))
            &&& cmds[sec_chrono_needle_idx(st, cfg)] == needle_tip_cmd(d,
                n.pos as int, cfg.secondary_chronograph_needle_length_factor as int,
                cfg.secondary_chronograph_needle_width as int,
                sec_chrono_color_spec(st))
        })
    &&& (st.readout_value matches Some(v) ==> {
            &&& (cmds[readout_idx(st, cfg)] matches DrawCommand::Text {
                text, font_size, ..
            } && text@ == dec_seq_i64(trunc_units_spec(v as int))
                && font_size == cfg.readout_big_font_size)
            &&& (cmds[readout_idx(st, cfg) + 1] matches DrawCommand::Text {
                text, font_size, ..
            } && text@ == frac3_seq(readout_frac_spec(v as int))
                && font_size == cfg.readout_small_font_size)
        })
    &&& (out_of_range_spec(st) ==> (cmds[warn_idx(st, cfg)]
            matches DrawCommand::Text { x, y, text, font_size, color }
            && x == primary_dial_spec(w, h, cfg).cx
            && y == primary_dial_spec(w, h, cfg).cy - primary_dial_spec(w, h, cfg).r / 4
            && text@ == "!"@
            && font_size == cfg.exclamation_mark_size
            && color == (0xffu8, 0x00u8, 0x00u8)))
}

/// Build one frame's scene from the animated state and the
/// configuration: clear, highlight band, the main dial's face, the curved
/// text, the needles, the chronograph dials, the readout, and the warning
/// glyph — in exactly that order.
#[verifier::rlimit(100)]
pub fn build_instrument_scene(
    st: &AppState, config: &InstrumentConfig, width: usize, height: usize,
    readout_int_width: i32,
) -> (s: Scene)
    requires
        st.wf(),
        config.wf(),
        width <= 100_000,
        height <= 100_000,
        0 <= readout_int_width <= 100_000,
    ensures
        s.wf(),
        s.width == width,
        s.height == height,
        instrument_scene_spec(*st, *config, width as int, height as int, s.commands@),

{
    proof {
        lemma_dial_group_len_bounds(config.ticks_count as int,
            config.minor_ticks_per_interval as int);
        lemma_dial_group_len_bounds(config.chronograph_ticks_count as int,
            config.chronograph_minor_ticks_per_interval as int);
        lemma_dial_group_len_bounds(config.secondary_chronograph_ticks_count as int,
            config.secondary_chronograph_minor_ticks_per_interval as int);
    }
    let mut scene: Scene = Scene::new(width, height);
    scene.add_command(DrawCommand::Clear((0xff, 0xff, 0xff)));
    let dial: Dial = Dial::new(width, height, config);
    proof {
        assert(dial == primary_dial_spec(width as int, height as int, *config));
    }
    let out: bool = st.is_out_of_range();
    let base_color: (u8, u8, u8) = if out {
        (0xff, 0x00, 0x00)
    } else {
        (0x00, 0x00, 0x00)
    };
    match &st.highlight_bounds {
        Some(b) => {
            let ns: i64 = crate::fixed::normalized(b.lower, st.min_value, st.max_value);
            let ne: i64 = crate::fixed::normalized(b.upper, st.min_value, st.max_value);
            let sa: i64 = crate::geometry::dial_angle(&dial, ns);
            let ea: i64 = crate::geometry::dial_angle(&dial, ne);
            scene.add_command(DrawCommand::HighlightBand {
                cx: dial.cx,
                cy: dial.cy,
                r: dial.r,
                start_angle: sa,
                end_angle: ea,
                inner_radius: config.highlight_band_width as i64 * FP_ONE,
                outer_radius: 0,
                softness: config.highlight_band_edge_softness,
                alpha: config.highlight_band_alpha,
                color: (config.highlight_band_color.r, config.highlight_band_color.g,
                    config.highlight_band_color.b),
            });
        },
        None => {},
    }
    add_dial_with_ticks(
        &mut scene, &dial, st.min_value, st.max_value, config.ticks_count,
        config.major_tick_length, config.major_tick_thickness,
        config.minor_tick_thickness, config.minor_ticks_per_interval,
        config.minor_tick_length, config.dial_numbers_font_size,
        config.dial_ticks_to_numbers_distance, base_color);
    let radius: i64 = clamp_i64(
        dial.r as i64 * FP_ONE + config.curved_text_radius_offset,
        FP_ONE, 100_000_000_000);
    scene.add_command(DrawCommand::CurvedText {
        cx: dial.cx,
        cy: dial.cy,
        radius,
        text: config.curved_text.clone(),
        font_size: config.curved_text_font_size,
        arc_span: config.curved_text_arc_span,
        start_angle: config.curved_text_angle,
        color: base_color,
    });
    match &st.needle1 {
        Some(n) => {
            let color: (u8, u8, u8) = if out {
                (0xff, 0x00, 0x00)
            } else {
                (0x00, 0x00, 0x00)
            };
            add_needle(&mut scene, &dial, n, color, config.needle_length_factor,
                config.needle_width, config.needle_back_length, config.dot_radius);
        },
        None => {},
    }
    match &st.needle2 {
        Some(n) => {
            let color: (u8, u8, u8) = if out {
                (0xff, 0x00, 0x00)
            } else {
                (0x00, 0x7f, 0xff)
            };
            add_needle(&mut scene, &dial, n, color, config.needle_length_factor,
                config.needle_width, config.needle_back_length, config.dot_radius);
        },
        None => {},
    }
    match &st.chronograph {
        Some(n) => {
            let cd: Dial = Dial::new_chronograph(width, height, config);
            proof {
                assert(cd == chrono_dial_spec(width as int, height as int, *config));
            }
            add_dial_with_ticks(
                &mut scene, &cd, st.chronograph_range.0, st.chronograph_range.1,
                config.chronograph_ticks_count, config.chronograph_tick_length,
                config.chronograph_major_tick_thickness,
                config.chronograph_minor_tick_thickness,
                config.chronograph_minor_ticks_per_interval,
                config.chronograph_minor_tick_length,
                config.chronograph_dial_numbers_font_size,
                config.chronograph_dial_ticks_to_numbers_distance, (0x00, 0x00, 0x00));
            let color: (u8, u8, u8) = if out {
                (0xff, 0x00, 0x00)
            } else {
                (0xff, 0x80, 0x00)
            };
            add_needle(&mut scene, &cd, n, color,
                config.chronograph_needle_length_factor,
                config.chronograph_needle_width,
                config.chronograph_needle_back_length,
                config.chronograph_dial_dot_radius);
        },
        None => {},
    }
    match &st.secondary_chronograph {
        Some(n) => {
            let cd: Dial = Dial::new_secondary_chronograph(width, height, config);
            proof {
                assert(cd == sec_chrono_dial_spec(width as int, height as int, *config));
            }
            add_dial_with_ticks(
                &mut scene, &cd,
                st.secondary_chronograph_range.0, st.secondary_chronograph_range.1,
                config.secondary_chronograph_ticks_count,
                config.secondary_chronograph_tick_length,
                config.secondary_chronograph_major_tick_thickness,
                config.secondary_chronograph_minor_tick_thickness,
                config.secondary_chronograph_minor_ticks_per_interval,
                config.secondary_chronograph_minor_tick_length,
                config.secondary_chronograph_dial_numbers_font_size,
                config.secondary_chronograph_dial_ticks_to_numbers_distance,
                (0x00, 0x00, 0x00));
            let color: (u8, u8, u8) = if out {
                (0xff, 0x00, 0x00)
            } else {
                (0x00, 0x80, 0xff)
            };
            add_needle(&mut scene, &cd, n, color,
                config.secondary_chronograph_needle_length_factor,
                config.secondary_chronograph_needle_width,
                config.secondary_chronograph_needle_back_length,
                config.secondary_chronograph_dial_dot_radius);
        },
        None => {},
    }
    match &st.readout_value {
        Some(v) => {
            build_readout_commands(&mut scene, width, height, *v, base_color,
                readout_int_width, config);
        },
        None => {},
    }
    if out {
        build_warning_commands(&mut scene, &dial, config.exclamation_mark_size);
    }
    proof {
        let m = config.minor_ticks_per_interval as int;
        let tc = config.ticks_count as int;
        let a = arc_idx(*st);
        assert forall|i: int| 0 <= i < tc
            implies scene.commands@[tick_group_idx(a, i, m)]
                == #[trigger] major_tick_cmd(
                    primary_dial_spec(width as int, height as int, *config), i,
                    tc, config.major_tick_length as int,
                    config.major_tick_thickness as int, base_color_spec(*st)) by {
            assert(0 <= i * (2 + m) <= (tc - 1) * (2 + m)) by (nonlinear_arith)
                requires 0 <= i <= tc - 1, m >= 0;
        }
    }
    scene
}

/// Append a dial face the grouped-configuration way: the highlight band
/// when a range is given, then the ring, ticks, and labels.
pub fn build_dial_commands(
    scene: &mut Scene, dial: &Dial, range_min: i64, range_max: i64,
    color: (u8, u8, u8), highlight_range: Option<(i64, i64)>,
    config: &crate::config::Config,
)
    requires
        old(scene).wf(),
        dial.wf(),
        -FP_LIMIT <= range_min < range_max <= FP_LIMIT,
        highlight_range matches Some(p)
            ==> -FP_LIMIT <= p.0 <= FP_LIMIT && -FP_LIMIT <= p.1 <= FP_LIMIT,
        2 <= config.ticks.num_ticks <= 1000,
        config.ticks.minor_ticks_per_interval <= 1000,
        0 <= config.ticks.major_length <= 100_000,
        0 <= config.ticks.minor_length <= 100_000,
        0 <= config.ticks.major_thickness <= 1_000_000_000,
        0 <= config.ticks.minor_thickness <= 1_000_000_000,
        0 <= config.dial.numbers_font_size <= 1_000_000_000,
        0 <= config.dial.ticks_to_numbers_distance <= 1_000_000_000,
        0 <= config.highlight_band.width <= 100_000,
        0 <= config.highlight_band.alpha <= FP_ONE,
        1 <= config.highlight_band.edge_softness <= 360_000,
    ensures
        final(scene).wf(),
        final(scene).width == old(scene).width,
        final(scene).height == old(scene).height,
        final(scene).commands@.len() == old(scene).commands@.len()
            + (if highlight_range is Some { 1int } else { 0int })
            + dial_group_len(config.ticks.num_ticks as int,
                config.ticks.minor_ticks_per_interval as int),
        forall|k: int| 0 <= k < old(scene).commands@.len()
            ==> final(scene).commands@[k] == old(scene).commands@[k],
        highlight_range is Some
            ==> final(scene).commands@[old(scene).commands@.len() as int]
                is HighlightBand,
        final(scene).commands@[old(scene).commands@.len()
            + (if highlight_range is Some { 1int } else { 0int })]
            == arc_cmd(*dial, color),
        forall|i: int| 0 <= i < config.ticks.num_ticks
            ==> final(scene).commands@[
                    tick_group_idx(old(scene).commands@.len()
                        + (if highlight_range is Some { 1int } else { 0int }), i,
                        config.ticks.minor_ticks_per_interval as int)]
                == #[trigger] major_tick_cmd(*dial, i, config.ticks.num_ticks as int,
                    config.ticks.major_length as int,
                    config.ticks.major_thickness as int, color),
        forall|i: int, j: int| 0 <= i < config.ticks.num_ticks - 1
                && 0 <= j < config.ticks.minor_ticks_per_interval
            ==> final(scene).commands@[
                    tick_group_idx(old(scene).commands@.len()
                        + (if highlight_range is Some { 1int } else { 0int }), i,
                        config.ticks.minor_ticks_per_interval as int) + 1 + j]
                == #[trigger] minor_tick_cmd(*dial, i, j + 1,
                    config.ticks.num_ticks as int,
                    config.ticks.minor_ticks_per_interval as int,
                    config.ticks.minor_length as int,
                    config.ticks.minor_thickness as int, color),
        forall|i: int| 0 <= i < config.ticks.num_ticks
            ==> ((final(scene).commands@[
                    label_idx(old(scene).commands@.len()
                        + (if highlight_range is Some { 1int } else { 0int }), i,
                        config.ticks.num_ticks as int,
                        config.ticks.minor_ticks_per_interval as int)])
                matches DrawCommand::Text { x, y, text, font_size: fs, color: c }
                && (x as int, y as int) == label_center_spec(*dial, i,
                    config.ticks.num_ticks as int,
                    config.ticks.major_length as int,
                    config.dial.ticks_to_numbers_distance as int)
                && text@ == dec_seq_i64(#[trigger] label_value_spec(
                    range_min as int, range_max as int, i, config.ticks.num_ticks as int))
                && fs == config.dial.numbers_font_size
                && c == color),
{
    match highlight_range {
        Some((hl_start, hl_end)) => {
            let ns: i64 = crate::fixed::normalized(hl_start, range_min, range_max);
            let ne: i64 = crate::fixed::normalized(hl_end, range_min, range_max);
            let sa: i64 = crate::geometry::dial_angle(dial, ns);
            let ea: i64 = crate::geometry::dial_angle(dial, ne);
            scene.add_command(DrawCommand::HighlightBand {
                cx: dial.cx,
                cy: dial.cy,
                r: dial.r,
                start_angle: sa,
                end_angle: ea,
                inner_radius: config.highlight_band.width as i64 * FP_ONE,
                outer_radius: 0,
                softness: config.highlight_band.edge_softness,
                alpha: config.highlight_band.alpha,
                color: (config.highlight_band.color.r, config.highlight_band.color.g,
                    config.highlight_band.color.b),
            });
        },
        None => {},
    }
    add_dial_with_ticks(
        scene, dial, range_min, range_max, config.ticks.num_ticks,
        config.ticks.major_length, config.ticks.major_thickness,
        config.ticks.minor_thickness, config.ticks.minor_ticks_per_interval,
        config.ticks.minor_length, config.dial.numbers_font_size,
        config.dial.ticks_to_numbers_distance, color);
}

/// Append a needle the grouped-configuration way.
pub fn build_needle_commands(
    scene: &mut Scene, needle: &Needle, dial: &Dial, color: (u8, u8, u8),
    config: &crate::config::Config,
)
    requires
        old(scene).wf(),
        dial.wf(),
        needle.wf(),
        0 <= config.needle.length_factor <= 10_000_000,
        0 <= config.needle.width <= 1_000_000_000,
        0 <= config.needle.back_length <= 1_000_000_000,
        0 <= config.font.dot_radius <= 100_000,
    ensures
        final(scene).wf(),
        final(scene).width == old(scene).width,
        final(scene).height == old(scene).height,
        final(scene).commands@ == old(scene).commands@
            + seq![
                needle_tip_cmd(*dial, needle.pos as int,
                    config.needle.length_factor as int, config.needle.width as int, color),
                needle_back_cmd(*dial, needle.pos as int,
                    config.needle.back_length as int, config.needle.width as int, color),
                needle_dot_cmd(*dial, config.font.dot_radius as int, color),
            ],
{
    add_needle(scene, dial, needle, color, config.needle.length_factor,
        config.needle.width, config.needle.back_length, config.font.dot_radius);
}

/// Draw the readout's frame box straight onto the canvas: four
/// anti-aliased edges around the readout text.
pub fn draw_readout_box(
    canvas: &mut Canvas, label_x: i32, label_y: i32, frac_x: i32, frac_y: i32,
    int_len: i64, box_padding: i32, box_thickness: i64, big_font_size: i64,
    color: crate::Color,
)
    requires
        old(canvas).wf(),
        old(canvas).width <= 100_000,
        old(canvas).height <= 100_000,
        -150_000 <= label_x <= 150_000,
        -150_000 <= label_y <= 150_000,
        -200_000 <= frac_x <= 200_000,
        -200_000 <= frac_y <= 200_000,
        1 <= int_len <= 100_000,
        0 <= box_padding <= 100_000,
        0 <= box_thickness <= 1_000_000_000,
        0 <= big_font_size <= 1_000_000_000,
    ensures
        final(canvas).wf(),
        old(canvas).same_dims(*final(canvas)),
        old(canvas).alpha_opaque() ==> final(canvas).alpha_opaque(),
        crate::scene::render_rel(
            readout_box_cmds(label_x as int, label_y as int, frac_x as int, frac_y as int,
                int_len as int, box_padding as int, box_thickness as int,
                big_font_size as int, (color.r, color.g, color.b)),
            Seq::<crate::text::RasterRun>::empty(), 0, *old(canvas), *final(canvas)),
{
    let font_size_px: i64 = div_nn(big_font_size, 11 * FP_ONE);
    proof {
        vstd::arithmetic::div_mod::lemma_div_is_ordered(
            big_font_size as int, 1_000_000_000, 11 * FP_ONE);
        assert(0 <= font_size_px * int_len <= 91 * 100_000) by (nonlinear_arith)
            requires 0 <= font_size_px <= 91, 1 <= int_len <= 100_000;
    }
    let lf: i64 = clamp_i64(
        label_x as i64 - box_padding as i64 - font_size_px * int_len, -250_000, 250_000);
    let tp: i64 = clamp_i64(label_y as i64 - box_padding as i64, -250_000, 250_000);
    let rt: i64 = clamp_i64(frac_x as i64 + box_padding as i64 + 5, -250_000, 250_000);
    let bt: i64 = clamp_i64(frac_y as i64 + box_padding as i64, -250_000, 250_000);
    let ghost cmds = readout_box_cmds(label_x as int, label_y as int, frac_x as int,
        frac_y as int, int_len as int, box_padding as int, box_thickness as int,
        big_font_size as int, (color.r, color.g, color.b));
    let ghost no_runs = Seq::<crate::text::RasterRun>::empty();
    let ghost s0 = *canvas;
    crate::primitives::draw_thick_line_aa(
        canvas, lf as i32, tp as i32, rt as i32, tp as i32, box_thickness, color);
    let ghost s1 = *canvas;
    crate::primitives::draw_thick_line_aa(
        canvas, lf as i32, bt as i32, rt as i32, bt as i32, box_thickness, color);
    let ghost s2 = *canvas;
    crate::primitives::draw_thick_line_aa(
        canvas, lf as i32, tp as i32, lf as i32, bt as i32, box_thickness, color);
    let ghost s3 = *canvas;
    crate::primitives::draw_thick_line_aa(
        canvas, rt as i32, tp as i32, rt as i32, bt as i32, box_thickness, color);
    proof {
        let empty = Seq::<DrawCommand>::empty();
        let p1 = empty.push(cmds[0]);
        let p2 = p1.push(cmds[1]);
        let p3 = p2.push(cmds[2]);
        let p4 = p3.push(cmds[3]);
        assert(crate::scene::cmd_canvas_rel(cmds[0], no_runs, 0, s0, s1));
        assert(crate::scene::cmd_canvas_rel(cmds[1], no_runs, 0, s1, s2));
        assert(crate::scene::cmd_canvas_rel(cmds[2], no_runs, 0, s2, s3));
        assert(crate::scene::cmd_canvas_rel(cmds[3], no_runs, 0, s3, *canvas));
        assert(crate::scene::render_rel(empty, no_runs, 0, s0, s0));
        crate::scene::lemma_render_rel_snoc(empty, no_runs, 0, s0, s0, s1, cmds[0]);
        crate::scene::lemma_runs_consumed_snoc(empty, cmds[0]);
        crate::scene::lemma_render_rel_snoc(p1, no_runs, 0, s0, s1, s2, cmds[1]);
        crate::scene::lemma_runs_consumed_snoc(p1, cmds[1]);
        crate::scene::lemma_render_rel_snoc(p2, no_runs, 0, s0, s2, s3, cmds[2]);
        crate::scene::lemma_runs_consumed_snoc(p2, cmds[2]);
        crate::scene::lemma_render_rel_snoc(p3, no_runs, 0, s0, s3, *canvas, cmds[3]);
        assert(p4 =~= cmds);
    }
}

/// Build and replay one frame: clear the canvas and composite the whole
/// instrument in the scene's order.  The final canvas stands in the
/// render relation to a command list with the frame's exact structure.
pub fn render_instrument(
    canvas: &mut Canvas, st: &AppState, config: &crate::instrument::InstrumentConfig,
    readout_int_width: i32, runs: &Vec<crate::text::RasterRun>,
)
    requires
        old(canvas).wf(),
        old(canvas).width <= 100_000,
        old(canvas).height <= 100_000,
        st.wf(),
        config.wf(),
        0 <= readout_int_width <= 100_000,
        forall|i: int| 0 <= i < runs.len() ==> (#[trigger] runs[i]).wf(),
    ensures
        final(canvas).wf(),
        old(canvas).same_dims(*final(canvas)),
        final(canvas).alpha_opaque(),
        exists|cmds: Seq<DrawCommand>|
            #[trigger] crate::scene::render_rel(cmds, runs@, 0, *old(canvas), *final(canvas))
                && instrument_scene_spec(
                    *st, *config, old(canvas).width as int, old(canvas).height as int, cmds),
{
    let scene: Scene = build_instrument_scene(
        st, config, canvas.width, canvas.height, readout_int_width);
    scene.render(canvas, runs);
    proof {
        assert(crate::scene::render_rel(
            scene.commands@, runs@, 0, *old(canvas), *canvas));
    }
}

} // verus!
