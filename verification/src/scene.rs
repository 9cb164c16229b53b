//! The retained-mode scene: a typed, ordered command list built by the
//! layout pass and replayed once per frame onto the canvas.
//!
//! Painter's algorithm: commands composite strictly in push order, later
//! commands over earlier ones, and the render walk dispatches every
//! variant through an exhaustive match — no command can be skipped or
//! reordered.  Text commands consume pre-rasterized glyph runs supplied by
//! the font collaborator, one run per text command, in command order.

use vstd::prelude::*;
use crate::fixed::{FP_ONE, clamp_i64};
use crate::canvas::Canvas;
use crate::text::RasterRun;
use crate::canvas::{pixel_filled};
use crate::primitives::{arc_pixel_after, band_pixel_after, line_pixel_after, circle_pixel_after};
use crate::trig::{cos_spec, sin_spec, TURN_MDEG};
use crate::Color;

verus! {

/// One drawing instruction.  Coordinates are pixels, thicknesses and
/// radii in `_fp` positions micro-pixels, angles milli-degrees.
#[derive(Debug)]
pub enum DrawCommand {
    Clear((u8, u8, u8)),
    Arc {
        cx: i32,
        cy: i32,
        r: i32,
        thickness: i32,
        start_angle: i64,
        arc_span: i64,
        color: (u8, u8, u8),
    },
    HighlightBand {
        cx: i32,
        cy: i32,
        r: i32,
        start_angle: i64,
        end_angle: i64,
        inner_radius: i64,
        outer_radius: i64,
        softness: i64,
        alpha: i64,
        color: (u8, u8, u8),
    },
    Tick {
        cx: i32,
        cy: i32,
        r: i32,
        angle: i64,
        length: i32,
        thickness: i64,
        color: (u8, u8, u8),
    },
    Text {
        x: i32,
        y: i32,
        text: String,
        font_size: i64,
        color: (u8, u8, u8),
    },
    CurvedText {
        cx: i32,
        cy: i32,
        radius: i64,
        text: String,
        font_size: i64,
        arc_span: i64,
        start_angle: i64,
        color: (u8, u8, u8),
    },
    NeedleLine {
        x0: i32,
        y0: i32,
        x1: i32,
        y1: i32,
        thickness: i64,
        tapered: bool,
        color: (u8, u8, u8),
    },
    Circle {
        cx: i32,
        cy: i32,
        radius: i32,
        color: (u8, u8, u8),
    },
}

/// The bounds a command's fields must respect for the primitives to
/// accept it.
pub open spec fn cmd_wf(cmd: DrawCommand) -> bool {
    match cmd {
        DrawCommand::Clear(_) => true,
        DrawCommand::Arc { cx, cy, r, thickness, start_angle, arc_span, .. } => {
            &&& -100_000 <= cx <= 100_000
            &&& -100_000 <= cy <= 100_000
            &&& 0 <= r <= 100_000
            &&& 0 <= thickness <= 100_000
            &&& -500_000_000_000 <= start_angle <= 500_000_000_000
            &&& -500_000_000_000 <= arc_span <= 500_000_000_000
        },
        DrawCommand::HighlightBand {
            cx, cy, r, start_angle, end_angle, inner_radius, outer_radius, softness, alpha, ..
        } => {
            &&& -100_000 <= cx <= 100_000
            &&& -100_000 <= cy <= 100_000
            &&& 0 <= r <= 100_000
            &&& -500_000_000_000 <= start_angle <= 500_000_000_000
            &&& -500_000_000_000 <= end_angle <= 500_000_000_000
            &&& 0 <= inner_radius <= 1_000_000_000_000
            &&& 0 <= outer_radius <= 1_000_000_000_000
            &&& 1 <= softness <= 360_000
            &&& 0 <= alpha <= FP_ONE
        },
        DrawCommand::Tick { cx, cy, r, angle, length, thickness, .. } => {
            &&& -100_000 <= cx <= 100_000
            &&& -100_000 <= cy <= 100_000
            &&& 0 <= r <= 100_000
            &&& -1_000_000_000 <= angle <= 1_000_000_000
            &&& 0 <= length <= 100_000
            &&& 0 <= thickness <= 1_000_000_000
        },
        DrawCommand::Text { x, y, .. } => {
            &&& -150_000 <= x <= 150_000
            &&& -150_000 <= y <= 150_000
        },
        DrawCommand::CurvedText { cx, cy, radius, arc_span, start_angle, .. } => {
            &&& -100_000 <= cx <= 100_000
            &&& -100_000 <= cy <= 100_000
            &&& FP_ONE <= radius <= 100_000_000_000
            &&& 0 <= arc_span <= 360_000
            &&& -1_000_000_000 <= start_angle <= 1_000_000_000
        },
        DrawCommand::NeedleLine { x0, y0, x1, y1, thickness, .. } => {
            &&& -250_000 <= x0 <= 250_000
            &&& -250_000 <= y0 <= 250_000
            &&& -250_000 <= x1 <= 250_000
            &&& -250_000 <= y1 <= 250_000
            &&& 0 <= thickness <= 1_000_000_000
        },
        DrawCommand::Circle { cx, cy, radius, .. } => {
            &&& -100_000 <= cx <= 100_000
            &&& -100_000 <= cy <= 100_000
            &&& 0 <= radius <= 100_000
        },
    }
}

/// Rounded pixel offset of a polar coordinate: `trig * len / FP_ONE`,
/// rounded to the nearest pixel.
pub open spec fn polar_offset_spec(trig: int, len: int) -> int {
    if trig >= 0 {
        (trig * len + 500_000) / (FP_ONE as int)
    } else {
        -(((-trig) * len + 500_000) / (FP_ONE as int))
    }
}

/// Scale a unit trig value by a pixel length, rounding to nearest.
pub fn polar_offset(trig: i64, len: i64) -> (r: i64)
    requires
        -FP_ONE <= trig <= FP_ONE,
        0 <= len <= 200_000,
    ensures
        r == polar_offset_spec(trig as int, len as int),
        -len - 1 <= r <= len + 1,
{
    if trig >= 0 {
        proof {
            assert(0 <= trig * len <= len * FP_ONE && trig * len <= 200_000 * FP_ONE)
                by (nonlinear_arith)
                requires 0 <= trig <= FP_ONE, 0 <= len <= 200_000;
        }
        let q: i64 = crate::fixed::div_nn(trig * len + 500_000, FP_ONE);
        proof {
            vstd::arithmetic::div_mod::lemma_div_is_ordered(
                trig * len + 500_000, (len + 1) * FP_ONE as int, FP_ONE as int);
            vstd::arithmetic::div_mod::lemma_div_by_multiple(len + 1, FP_ONE as int);
        }
        q
    } else {
        proof {
            assert(0 <= (-trig) * len <= len * FP_ONE && (-trig) * len <= 200_000 * FP_ONE)
                by (nonlinear_arith)
                requires 0 <= -trig <= FP_ONE, 0 <= len <= 200_000;
        }
        let q: i64 = crate::fixed::div_nn((-trig) * len + 500_000, FP_ONE);
        proof {
            vstd::arithmetic::div_mod::lemma_div_is_ordered(
                (-trig) * len + 500_000, (len + 1) * FP_ONE as int, FP_ONE as int);
            vstd::arithmetic::div_mod::lemma_div_by_multiple(len + 1, FP_ONE as int);
        }
        -q
    }
}

/// The endpoints a tick command's line is drawn between: the tick runs
/// from just inside the rim toward the center by its length, along the
/// tick's polar angle.
pub open spec fn tick_endpoints(cx: int, cy: int, r: int, angle: int, length: int)
    -> (int, int, int, int) {
    let a = angle % (TURN_MDEG as int);
    let outer_len = if r >= 1 { r - 1 } else { 0 };
    let inner_len = crate::fixed::clamped(r - length, 0, 100_000);
    (
        cx + polar_offset_spec(cos_spec(a), inner_len),
        cy + polar_offset_spec(sin_spec(a), inner_len),
        cx + polar_offset_spec(cos_spec(a), outer_len),
        cy + polar_offset_spec(sin_spec(a), outer_len),
    )
}

/// Whether a command consumes one rasterized glyph run.
pub open spec fn cmd_uses_run(cmd: DrawCommand) -> bool {
    cmd is Text || cmd is CurvedText
}

/// How many glyph runs the first elements of a command list consume.
pub open spec fn runs_consumed(cmds: Seq<DrawCommand>) -> int
    decreases cmds.len(),
{
    if cmds.len() == 0 {
        0
    } else {
        (if cmd_uses_run(cmds[0]) { 1int } else { 0int })
            + runs_consumed(cmds.subrange(1, cmds.len() as int))
    }
}

/// What one dispatched command leaves of the canvas: the exact per-pixel
/// relation of its primitive.  A text command with no run left to consume
/// draws nothing; one with a run composites glyph masks, which preserves
/// the dimensions and full opacity.
pub open spec fn cmd_canvas_rel(
    cmd: DrawCommand, runs: Seq<RasterRun>, ri: int, cin: Canvas, cout: Canvas,
) -> bool {
    &&& cin.same_dims(cout)
    &&& cout.wf()
    &&& match cmd {
        DrawCommand::Clear(color) => {
            &&& cout.alpha_opaque()
            &&& forall|p: int| 0 <= p < cout.width * cout.height
                ==> #[trigger] pixel_filled(cout, p, color)
        },
        DrawCommand::Arc { cx, cy, r, thickness, start_angle, arc_span, color } => {
            forall|px: int, py: int| 0 <= px < cin.width && 0 <= py < cin.height
                ==> #[trigger] arc_pixel_after(
                    cin, cout, px, py, cx as int, cy as int, r as int, thickness as int,
                    (start_angle as int) % (TURN_MDEG as int),
                    ((start_angle + arc_span) as int) % (TURN_MDEG as int),
                    Color { r: color.0, g: color.1, b: color.2 })
        },
        DrawCommand::HighlightBand {
            cx, cy, r, start_angle, end_angle, inner_radius, outer_radius,
            softness, alpha, color,
        } => {
            forall|px: int, py: int| 0 <= px < cin.width && 0 <= py < cin.height
                ==> #[trigger] band_pixel_after(
                    cin, cout, px, py, cx as int, cy as int,
                    (start_angle as int) % (TURN_MDEG as int),
                    (end_angle as int) % (TURN_MDEG as int),
                    crate::primitives::band_rim_spec(r as int, inner_radius as int),
                    crate::primitives::band_rim_spec(r as int, outer_radius as int),
                    softness as int, alpha as int,
                    Color { r: color.0, g: color.1, b: color.2 })
        },
        DrawCommand::Tick { cx, cy, r, angle, length, thickness, color } => {
            let e = tick_endpoints(cx as int, cy as int, r as int, angle as int,
                length as int);
            forall|px: int, py: int| 0 <= px < cin.width && 0 <= py < cin.height
                ==> #[trigger] line_pixel_after(
                    cin, cout, px, py, e.0, e.1, e.2, e.3, thickness as int, false,
                    Color { r: color.0, g: color.1, b: color.2 })
        },
        DrawCommand::Text { .. } => {
            if ri < runs.len() {
                cin.alpha_opaque() ==> cout.alpha_opaque()
            } else {
                cout == cin
            }
        },
        DrawCommand::CurvedText { .. } => {
            if ri < runs.len() {
                cin.alpha_opaque() ==> cout.alpha_opaque()
            } else {
                cout == cin
            }
        },
        DrawCommand::NeedleLine { x0, y0, x1, y1, thickness, tapered, color } => {
            forall|px: int, py: int| 0 <= px < cin.width && 0 <= py < cin.height
                ==> #[trigger] line_pixel_after(
                    cin, cout, px, py, x0 as int, y0 as int, x1 as int, y1 as int,
                    thickness as int, tapered,
                    Color { r: color.0, g: color.1, b: color.2 })
        },
        DrawCommand::Circle { cx, cy, radius, color } => {
            forall|px: int, py: int| 0 <= px < cin.width && 0 <= py < cin.height
                ==> #[trigger] circle_pixel_after(
                    cin, cout, px, py, cx as int, cy as int, radius as int,
                    Color { r: color.0, g: color.1, b: color.2 })
        },
    }
}

/// The render relation: `cout` is what replaying `cmds` in order onto
/// `cin` leaves, each command standing in its own pixel relation to the
/// canvas the commands before it produced, text commands consuming runs
/// from index `ri` on, in command order.
pub open spec fn render_rel(
    cmds: Seq<DrawCommand>, runs: Seq<RasterRun>, ri: int, cin: Canvas, cout: Canvas,
) -> bool
    decreases cmds.len(),
{
    if cmds.len() == 0 {
        cout == cin
    } else {
        exists|mid: Canvas|
            #[trigger] cmd_canvas_rel(cmds[0], runs, ri, cin, mid)
                && render_rel(cmds.subrange(1, cmds.len() as int), runs,
                    ri + (if cmd_uses_run(cmds[0]) { 1int } else { 0int }), mid, cout)
    }
}

/// Extending a replayed command list by one command extends the render
/// relation.
pub proof fn lemma_render_rel_snoc(
    cmds: Seq<DrawCommand>, runs: Seq<RasterRun>, ri: int,
    cin: Canvas, mid: Canvas, cout: Canvas, cmd: DrawCommand,
)
    requires
        render_rel(cmds, runs, ri, cin, mid),
        cmd_canvas_rel(cmd, runs, ri + runs_consumed(cmds), mid, cout),
    ensures
        render_rel(cmds.push(cmd), runs, ri, cin, cout),
    decreases cmds.len(),
{
    if cmds.len() == 0 {
        assert(cmds.push(cmd)[0] == cmd);
        assert(cmds.push(cmd).subrange(1, 1) =~= Seq::<DrawCommand>::empty());
        assert(mid == cin);
        assert(cmd_canvas_rel(cmds.push(cmd)[0], runs, ri, cin, cout));
        assert(render_rel(cmds.push(cmd).subrange(1, 1), runs,
            ri + (if cmd_uses_run(cmd) { 1int } else { 0int }), cout, cout));
    } else {
        let tail = cmds.subrange(1, cmds.len() as int);
        let m1 = choose|m: Canvas|
            #[trigger] cmd_canvas_rel(cmds[0], runs, ri, cin, m)
                && render_rel(tail, runs,
                    ri + (if cmd_uses_run(cmds[0]) { 1int } else { 0int }), m, mid);
        let ri1 = ri + (if cmd_uses_run(cmds[0]) { 1int } else { 0int });
        assert(ri1 + runs_consumed(tail) == ri + runs_consumed(cmds));
        lemma_render_rel_snoc(tail, runs, ri1, m1, mid, cout, cmd);
        assert(cmds.push(cmd)[0] == cmds[0]);
        assert(cmds.push(cmd).subrange(1, cmds.len() as int + 1) =~= tail.push(cmd));
        assert(cmd_canvas_rel(cmds.push(cmd)[0], runs, ri, cin, m1)
            && render_rel(cmds.push(cmd).subrange(1, cmds.len() as int + 1), runs, ri1, m1, cout));
    }
}

/// Consumed-run counts grow by one exactly at text commands.
pub proof fn lemma_runs_consumed_snoc(cmds: Seq<DrawCommand>, cmd: DrawCommand)
    ensures
        runs_consumed(cmds.push(cmd))
            == runs_consumed(cmds) + (if cmd_uses_run(cmd) { 1int } else { 0int }),
    decreases cmds.len(),
{
    let s2 = cmds.push(cmd);
    if cmds.len() == 0 {
        assert(s2[0] == cmd);
        assert(s2.subrange(1, 1) =~= Seq::<DrawCommand>::empty());
        assert(runs_consumed(s2.subrange(1, 1)) == 0);
        assert(runs_consumed(s2)
            == (if cmd_uses_run(s2[0]) { 1int } else { 0int })
                + runs_consumed(s2.subrange(1, s2.len() as int)));
    } else {
        let tail = cmds.subrange(1, cmds.len() as int);
        lemma_runs_consumed_snoc(tail, cmd);
        assert(s2[0] == cmds[0]);
        assert(s2.subrange(1, s2.len() as int) =~= tail.push(cmd));
        assert(runs_consumed(cmds)
            == (if cmd_uses_run(cmds[0]) { 1int } else { 0int }) + runs_consumed(tail));
        assert(runs_consumed(s2)
            == (if cmd_uses_run(s2[0]) { 1int } else { 0int })
                + runs_consumed(s2.subrange(1, s2.len() as int)));
    }
}

/// The retained command list for one frame.
pub struct Scene {
    pub commands: Vec<DrawCommand>,
    pub width: usize,
    pub height: usize,
}

impl Scene {
    /// Every queued command respects the primitives' bounds.
    pub open spec fn wf(self) -> bool {
        forall|i: int| 0 <= i < self.commands.len() ==> #[trigger] cmd_wf(self.commands[i])
    }

    /// An empty scene for a canvas of the given dimensions.
    pub fn new(width: usize, height: usize) -> (s: Scene)
        ensures
            s.wf(),
            s.commands@.len() == 0,
            s.width == width,
            s.height == height,
    {
        Scene { commands: Vec::new(), width, height }
    }

    /// Append one command; everything already queued stays in place.
    pub fn add_command(&mut self, command: DrawCommand)
        requires
            old(self).wf(),
            cmd_wf(command),
        ensures
            final(self).wf(),
            final(self).commands@ == old(self).commands@.push(command),
            final(self).width == old(self).width,
            final(self).height == old(self).height,
    {
        self.commands.push(command);
    }

    /// Drop every queued command.
    pub fn clear(&mut self)
        ensures
            final(self).wf(),
            final(self).commands@.len() == 0,
            final(self).width == old(self).width,
            final(self).height == old(self).height,
    {
        self.commands.clear();
    }

    /// Replay the command list onto the canvas, in push order, later
    /// commands compositing over earlier ones.  `runs` supplies the
    /// rasterized glyphs for the text commands, one run per `Text` or
    /// `CurvedText` command in command order; a text command beyond the
    /// supplied runs draws nothing.  The final canvas stands in the
    /// render relation to the whole command list: every command
    /// dispatched, none skipped or reordered.
    pub fn render(&self, canvas: &mut Canvas, runs: &Vec<RasterRun>)
        requires
            self.wf(),
            old(canvas).wf(),
            old(canvas).width <= 100_000,
            old(canvas).height <= 100_000,
            forall|i: int| 0 <= i < runs.len() ==> (#[trigger] runs[i]).wf(),
        ensures
            final(canvas).wf(),
            old(canvas).same_dims(*final(canvas)),
            old(canvas).alpha_opaque() ==> final(canvas).alpha_opaque(),
            self.commands@.len() > 0 && self.commands@[0] is Clear
                ==> final(canvas).alpha_opaque(),
            render_rel(self.commands@, runs@, 0, *old(canvas), *final(canvas)),
    {
        let ghost snap = *canvas;
        let mut i: usize = 0;
        let mut run_idx: usize = 0;
        proof {
            assert(self.commands@.subrange(0, 0) =~= Seq::<DrawCommand>::empty());
        }
        while i < self.commands.len()
            invariant
                self.wf(),
                canvas.wf(),
                canvas.width == snap.width,
                canvas.height == snap.height,
                snap.width <= 100_000,
                snap.height <= 100_000,
                snap.alpha_opaque() ==> canvas.alpha_opaque(),
                i <= self.commands.len(),
                run_idx <= i,
                i > 0 && self.commands@[0] is Clear ==> canvas.alpha_opaque(),
                run_idx == runs_consumed(self.commands@.subrange(0, i as int)),
                render_rel(self.commands@.subrange(0, i as int), runs@, 0, snap, *canvas),
                forall|j: int| 0 <= j < runs.len() ==> (#[trigger] runs[j]).wf(),
            decreases self.commands.len() - i,
        {
            let ghost before = *canvas;
            let ghost prefix = self.commands@.subrange(0, i as int);
            let ghost cur = self.commands@[i as int];
            let ghost ri0 = run_idx as int;
            proof {
                assert(cmd_wf(self.commands@[i as int]));
            }
            match &self.commands[i] {
                DrawCommand::Clear(color) => {
                    canvas.clear(*color);
                    proof {
                        assert(cmd_canvas_rel(cur, runs@, ri0, before, *canvas));
                    }
                },
                DrawCommand::Arc { cx, cy, r, thickness, start_angle, arc_span, color } => {
                    crate::primitives::render_arc_immediate(
                        canvas, *cx, *cy, *r, *thickness, *start_angle, *arc_span,
                        Color { r: color.0, g: color.1, b: color.2 });
                    proof {
                        assert(cmd_canvas_rel(cur, runs@, ri0, before, *canvas));
                    }
                },
                DrawCommand::HighlightBand {
                    cx, cy, r, start_angle, end_angle, inner_radius, outer_radius,
                    softness, alpha, color,
                } => {
                    crate::primitives::render_highlight_band_immediate(
                        canvas, *cx, *cy, *r, *start_angle, *end_angle,
                        *inner_radius, *outer_radius, *softness, *alpha,
                        Color { r: color.0, g: color.1, b: color.2 });
                    proof {
                        assert(cmd_canvas_rel(cur, runs@, ri0, before, *canvas));
                    }
                },
                DrawCommand::Tick { cx, cy, r, angle, length, thickness, color } => {
                    let a: i64 = crate::trig::wrap_mdeg(*angle);
                    let cos_a: i64 = crate::trig::cos_mdeg(a);
                    let sin_a: i64 = crate::trig::sin_mdeg(a);
                    let outer_len: i64 = if *r >= 1 { *r as i64 - 1 } else { 0 };
                    let inner_len: i64 = clamp_i64(*r as i64 - *length as i64, 0, 100_000);
                    let outer_x: i64 = *cx as i64 + polar_offset(cos_a, outer_len);
                    let outer_y: i64 = *cy as i64 + polar_offset(sin_a, outer_len);
                    let inner_x: i64 = *cx as i64 + polar_offset(cos_a, inner_len);
                    let inner_y: i64 = *cy as i64 + polar_offset(sin_a, inner_len);
                    crate::primitives::draw_thick_line_aa(
                        canvas,
                        inner_x as i32, inner_y as i32, outer_x as i32, outer_y as i32,
                        *thickness, Color { r: color.0, g: color.1, b: color.2 });
                    proof {
                        let e = tick_endpoints(*cx as int, *cy as int, *r as int,
                            *angle as int, *length as int);
                        assert(e.0 == inner_x && e.1 == inner_y
                            && e.2 == outer_x && e.3 == outer_y);
                        assert(cmd_canvas_rel(cur, runs@, ri0, before, *canvas));
                    }
                },
                DrawCommand::Text { x, y, color, .. } => {
                    if run_idx < runs.len() {
                        crate::text::draw_text(
                            canvas, *x, *y, &runs[run_idx],
                            Color { r: color.0, g: color.1, b: color.2 });
                    }
                    run_idx = run_idx + 1;
                    proof {
                        assert(cmd_canvas_rel(cur, runs@, ri0, before, *canvas));
                    }
                },
                DrawCommand::CurvedText {
                    cx, cy, radius, arc_span, start_angle, color, ..
                } => {
                    if run_idx < runs.len() {
                        crate::text::draw_curved_text(
                            canvas, *cx, *cy, *radius, &runs[run_idx],
                            *arc_span, *start_angle,
                            Color { r: color.0, g: color.1, b: color.2 });
                    }
                    run_idx = run_idx + 1;
                    proof {
                        assert(cmd_canvas_rel(cur, runs@, ri0, before, *canvas));
                    }
                },
                DrawCommand::NeedleLine { x0, y0, x1, y1, thickness, tapered, color } => {
                    if *tapered {
                        crate::primitives::draw_thick_line_tapered_aa(
                            canvas, *x0, *y0, *x1, *y1, *thickness,
                            Color { r: color.0, g: color.1, b: color.2 });
                    } else {
                        crate::primitives::draw_thick_line_aa(
                            canvas, *x0, *y0, *x1, *y1, *thickness,
                            Color { r: color.0, g: color.1, b: color.2 });
                    }
                    proof {
                        assert(cmd_canvas_rel(cur, runs@, ri0, before, *canvas));
                    }
                },
                DrawCommand::Circle { cx, cy, radius, color } => {
                    crate::primitives::draw_circle(
                        canvas, *cx, *cy, *radius,
                        Color { r: color.0, g: color.1, b: color.2 });
                    proof {
                        assert(cmd_canvas_rel(cur, runs@, ri0, before, *canvas));
                    }
                },
            }
            proof {
                lemma_render_rel_snoc(prefix, runs@, 0, snap, before, *canvas, cur);
                lemma_runs_consumed_snoc(prefix, cur);
                assert(self.commands@.subrange(0, i as int + 1) =~= prefix.push(cur));
            }
            i = i + 1;
        }
        proof {
            assert(self.commands@.subrange(0, self.commands@.len() as int)
                =~= self.commands@);
        }
    }
}

} // verus!
