//! Text layout and glyph compositing.
//!
//! The engine renders text from rasterized glyph masks the font
//! collaborator supplies: per glyph a coverage bitmap, its bounding box
//! relative to the run's baseline layout, and its advance.  The layout
//! math — decimal label formatting, run bounding boxes, the angular walk
//! of curved text, bilinear sub-pixel splatting — is all verified integer
//! arithmetic; only the font rasterization itself lives outside.

use vstd::prelude::*;
use vstd::string::StringExecFns;
use crate::fixed::{FP_ONE, div_nn};
use crate::canvas::Canvas;
use crate::Color;

verus! {

/// The decimal digit character for `d` in `[0, 9]`.
pub open spec fn digit_char(d: int) -> char {
    if d == 0 {
        '0'
    } else if d == 1 {
        '1'
    } else if d == 2 {
        '2'
    } else if d == 3 {
        '3'
    } else if d == 4 {
        '4'
    } else if d == 5 {
        '5'
    } else if d == 6 {
        '6'
    } else if d == 7 {
        '7'
    } else if d == 8 {
        '8'
    } else {
        '9'
    }
}

/// The decimal digit string of a natural number, most significant digit
/// first.
pub open spec fn dec_seq(n: nat) -> Seq<char>
    decreases n,
{
    if n < 10 {
        seq![digit_char(n as int)]
    } else {
        dec_seq(n / 10).push(digit_char((n % 10) as int))
    }
}

/// The decimal string of a signed number: a minus sign ahead of the digits
/// for negative values.
pub open spec fn dec_seq_i64(v: int) -> Seq<char> {
    if v >= 0 {
        dec_seq(v as nat)
    } else {
        seq!['-'] + dec_seq((-v) as nat)
    }
}

/// The one-character string for a single decimal digit.
fn digit_str(d: u64) -> (s: &'static str)
    requires
        d <= 9,
    ensures
        s@ == seq![digit_char(d as int)],
{
    proof {
        reveal_strlit("0");
        reveal_strlit("1");
        reveal_strlit("2");
        reveal_strlit("3");
        reveal_strlit("4");
        reveal_strlit("5");
        reveal_strlit("6");
        reveal_strlit("7");
        reveal_strlit("8");
        reveal_strlit("9");
    }
    if d == 0 {
        "0"
    } else if d == 1 {
        "1"
    } else if d == 2 {
        "2"
    } else if d == 3 {
        "3"
    } else if d == 4 {
        "4"
    } else if d == 5 {
        "5"
    } else if d == 6 {
        "6"
    } else if d == 7 {
        "7"
    } else if d == 8 {
        "8"
    } else {
        "9"
    }
}

/// Format a natural number in decimal.
pub fn u64_to_string(n: u64) -> (s: String)
    ensures
        s@ == dec_seq(n as nat),
    decreases n,
{
    if n < 10 {
        String::from_str(digit_str(n))
    } else {
        let mut s: String = u64_to_string(n / 10);
        s.append(digit_str(n % 10));
        proof {
            assert(s@ =~= dec_seq((n / 10) as nat).push(digit_char((n % 10) as int)));
        }
        s
    }
}

/// Format a signed number in decimal, minus sign included.
pub fn i64_to_string(v: i64) -> (s: String)
    requires
        v > i64::MIN,
    ensures
        s@ == dec_seq_i64(v as int),
{
    if v >= 0 {
        u64_to_string(v as u64)
    } else {
        proof {
            reveal_strlit("-");
        }
        let mut s: String = String::from_str("-");
        let digits: String = u64_to_string((-v) as u64);
        s.append(digits.as_str());
        proof {
            assert(s@ =~= seq!['-'] + dec_seq((-(v as int)) as nat));
        }
        s
    }
}

/// The three digits of a fractional part in `[0, 999]`, zero padded.
pub open spec fn frac3_seq(n: int) -> Seq<char> {
    seq![digit_char(n / 100), digit_char((n / 10) % 10), digit_char(n % 10)]
}

/// Format a three-digit fractional part, zero padded.
pub fn format_frac3(n: u64) -> (s: String)
    requires
        n <= 999,
    ensures
        s@ == frac3_seq(n as int),
{
    let mut s: String = String::from_str(digit_str(n / 100));
    s.append(digit_str((n / 10) % 10));
    s.append(digit_str(n % 10));
    proof {
        assert(s@ =~= frac3_seq(n as int));
    }
    s
}

/// One rasterized glyph: a coverage bitmap (one byte per pixel, 255 fully
/// covered), its pixel bounding box in run coordinates, and where it sits
/// along the run's baseline (micro-pixels).
pub struct RasterGlyph {
    pub bb_min_x: i32,
    pub bb_min_y: i32,
    pub width: usize,
    pub height: usize,
    pub cov: Vec<u8>,
    pub pos_x: i64,
    pub advance: i64,
}

impl RasterGlyph {
    /// The bitmap matches its dimensions and everything sits inside the
    /// engine's drawing bands.  A glyph with no visible pixels (a space)
    /// has zero width.
    pub open spec fn wf(self) -> bool {
        &&& self.cov.len() == self.width * self.height
        &&& self.width <= 10_000
        &&& self.height <= 10_000
        &&& -100_000 <= self.bb_min_x <= 100_000
        &&& -100_000 <= self.bb_min_y <= 100_000
        &&& -1_000_000_000 <= self.pos_x <= 1_000_000_000
        &&& 0 <= self.advance <= 1_000_000_000
    }
}

/// A rasterized run: the glyphs of one string at one font size, in order.
pub struct RasterRun {
    pub glyphs: Vec<RasterGlyph>,
}

impl RasterRun {
    /// Every glyph of the run is well formed.
    pub open spec fn wf(self) -> bool {
        forall|i: int| 0 <= i < self.glyphs.len() ==> #[trigger] self.glyphs[i].wf()
    }
}

/// Smallest left edge among the first `n` visible glyphs (`i32::MAX` when
/// none is visible).
pub open spec fn run_min_x(s: Seq<RasterGlyph>, n: int) -> int
    decreases n,
{
    if n <= 0 {
        i32::MAX as int
    } else {
        let prev = run_min_x(s, n - 1);
        let g = s[n - 1];
        if g.width > 0 && g.bb_min_x < prev {
            g.bb_min_x as int
        } else {
            prev
        }
    }
}

/// Largest right edge among the first `n` visible glyphs (`i32::MIN` when
/// none is visible).
pub open spec fn run_max_x(s: Seq<RasterGlyph>, n: int) -> int
    decreases n,
{
    if n <= 0 {
        i32::MIN as int
    } else {
        let prev = run_max_x(s, n - 1);
        let g = s[n - 1];
        if g.width > 0 && g.bb_min_x + g.width > prev {
            g.bb_min_x + g.width
        } else {
            prev
        }
    }
}

/// Pixel width of a glyph run: the spread of the visible glyphs' bounding
/// boxes, zero for a run with no visible pixels.
pub open spec fn run_width_spec(s: Seq<RasterGlyph>) -> int {
    let mn = run_min_x(s, s.len() as int);
    let mx = run_max_x(s, s.len() as int);
    if mn < mx {
        mx - mn
    } else {
        0
    }
}

/// Measure the pixel width of a rasterized run.
pub fn calculate_text_width(run: &RasterRun) -> (w: i32)
    requires
        run.wf(),
    ensures
        w == run_width_spec(run.glyphs@),
        0 <= w <= 400_000,
{
    let mut mn: i32 = i32::MAX;
    let mut mx: i32 = i32::MIN;
    let mut i: usize = 0;
    while i < run.glyphs.len()
        invariant
            run.wf(),
            i <= run.glyphs.len(),
            mn == run_min_x(run.glyphs@, i as int),
            mx == run_max_x(run.glyphs@, i as int),
            mn == i32::MAX || -100_000 <= mn <= 100_000,
            mx == i32::MIN || -100_000 <= mx <= 200_000,
        decreases run.glyphs.len() - i,
    {
        proof {
            assert(run.glyphs@[i as int].wf());
        }
        let g = &run.glyphs[i];
        if g.width > 0 {
            let right: i32 = g.bb_min_x + g.width as i32;
            if g.bb_min_x < mn {
                mn = g.bb_min_x;
            }
            if right > mx {
                mx = right;
            }
        }
        i = i + 1;
    }
    if mn < mx {
        mx - mn
    } else {
        0
    }
}

/// The four bilinear weights of a sub-pixel position, in micro-units:
/// `(1-fx)(1-fy)`, `fx(1-fy)`, `(1-fx)fy`, `fx fy` for fractional offsets
/// `fx`, `fy`.
pub open spec fn bilinear_weights_spec(fx: int, fy: int) -> (int, int, int, int) {
    (
        (FP_ONE - fx) * (FP_ONE - fy) / (FP_ONE as int),
        fx * (FP_ONE - fy) / (FP_ONE as int),
        (FP_ONE - fx) * fy / (FP_ONE as int),
        fx * fy / (FP_ONE as int),
    )
}

/// Compute the bilinear weights; each lies in `[0, FP_ONE]` and together
/// they never exceed one whole pixel of coverage.
pub fn bilinear_weights(fx: i64, fy: i64) -> (w: (i64, i64, i64, i64))
    requires
        0 <= fx < FP_ONE,
        0 <= fy < FP_ONE,
    ensures
        (w.0 as int, w.1 as int, w.2 as int, w.3 as int)
            == bilinear_weights_spec(fx as int, fy as int),
        0 <= w.0 <= FP_ONE,
        0 <= w.1 <= FP_ONE,
        0 <= w.2 <= FP_ONE,
        0 <= w.3 <= FP_ONE,
        w.0 + w.1 + w.2 + w.3 <= FP_ONE,
{
    let w0: i64 = crate::primitives::mul_unit(FP_ONE - fx, FP_ONE - fy);
    let w1: i64 = crate::primitives::mul_unit(fx, FP_ONE - fy);
    let w2: i64 = crate::primitives::mul_unit(FP_ONE - fx, fy);
    let w3: i64 = crate::primitives::mul_unit(fx, fy);
    proof {
        let a = fx as int;
        let b = fy as int;
        let f = FP_ONE as int;
        assert((f - a) * (f - b) + a * (f - b) + (f - a) * b + a * b == f * f)
            by (nonlinear_arith);
        vstd::arithmetic::div_mod::lemma_fundamental_div_mod((f - a) * (f - b), f);
        vstd::arithmetic::div_mod::lemma_fundamental_div_mod(a * (f - b), f);
        vstd::arithmetic::div_mod::lemma_fundamental_div_mod((f - a) * b, f);
        vstd::arithmetic::div_mod::lemma_fundamental_div_mod(a * b, f);
        vstd::arithmetic::div_mod::lemma_mod_bound((f - a) * (f - b), f);
        vstd::arithmetic::div_mod::lemma_mod_bound(a * (f - b), f);
        vstd::arithmetic::div_mod::lemma_mod_bound((f - a) * b, f);
        vstd::arithmetic::div_mod::lemma_mod_bound(a * b, f);
        assert((w0 + w1 + w2 + w3) * f <= f * f) by (nonlinear_arith)
            requires
                f * (w0 as int) <= (f - a) * (f - b) < f * (w0 as int) + f,
                f * (w1 as int) <= a * (f - b) < f * (w1 as int) + f,
                f * (w2 as int) <= (f - a) * b < f * (w2 as int) + f,
                f * (w3 as int) <= a * b < f * (w3 as int) + f,
                (f - a) * (f - b) + a * (f - b) + (f - a) * b + a * b == f * f,
                f > 0;
        assert(w0 + w1 + w2 + w3 <= f) by (nonlinear_arith)
            requires (w0 + w1 + w2 + w3) * f <= f * f, f > 0;
    }
    (w0, w1, w2, w3)
}

/// Floor of a micro-pixel coordinate, as a whole pixel.
pub open spec fn floor_px_spec(v: int) -> int {
    if v >= 0 {
        v / (FP_ONE as int)
    } else {
        -((-v + FP_ONE - 1) / (FP_ONE as int))
    }
}

/// Whole-pixel floor of a micro-pixel coordinate.
pub fn floor_px(v: i64) -> (r: i64)
    requires
        -1_000_000_000_000 <= v <= 1_000_000_000_000,
    ensures
        r == floor_px_spec(v as int),
        -1_000_001 <= r <= 1_000_000,
        0 <= v - r * FP_ONE < FP_ONE,
{
    if v >= 0 {
        let q: i64 = div_nn(v, FP_ONE);
        proof {
            vstd::arithmetic::div_mod::lemma_fundamental_div_mod(v as int, FP_ONE as int);
            vstd::arithmetic::div_mod::lemma_mod_bound(v as int, FP_ONE as int);
            vstd::arithmetic::div_mod::lemma_div_is_ordered(
                v as int, 1_000_000_000_000, FP_ONE as int);
        }
        q
    } else {
        let q: i64 = div_nn(-v + FP_ONE - 1, FP_ONE);
        proof {
            let n = (-(v as int) + FP_ONE - 1);
            vstd::arithmetic::div_mod::lemma_fundamental_div_mod(n, FP_ONE as int);
            vstd::arithmetic::div_mod::lemma_mod_bound(n, FP_ONE as int);
            vstd::arithmetic::div_mod::lemma_div_is_ordered(
                n, 1_000_000_000_000 + FP_ONE - 1, FP_ONE as int);
        }
        -q
    }
}

/// The four pixels a sub-pixel sample lands on: the integer neighbors of
/// `(x, y)` micro-pixels, in row-major order.
pub open spec fn splat_target(x: int, y: int, k: int) -> (int, int) {
    let xf = floor_px_spec(x);
    let yf = floor_px_spec(y);
    if k == 0 {
        (xf, yf)
    } else if k == 1 {
        (xf + 1, yf)
    } else if k == 2 {
        (xf, yf + 1)
    } else {
        (xf + 1, yf + 1)
    }
}

/// The coverage neighbor `k` receives: the sample's alpha scaled by its
/// bilinear weight.
pub open spec fn splat_alpha(x: int, y: int, alpha: int, k: int) -> int {
    let fx = x - floor_px_spec(x) * FP_ONE;
    let fy = y - floor_px_spec(y) * FP_ONE;
    let w = bilinear_weights_spec(fx, fy);
    crate::primitives::mul_unit_spec(
        if k == 0 {
            w.0
        } else if k == 1 {
            w.1
        } else if k == 2 {
            w.2
        } else {
            w.3
        },
        alpha,
    )
}

/// Whether `(px, py)` is one of the sample's four neighbors.
pub open spec fn is_splat_target(x: int, y: int, px: int, py: int) -> bool {
    ||| (px, py) == splat_target(x, y, 0)
    ||| (px, py) == splat_target(x, y, 1)
    ||| (px, py) == splat_target(x, y, 2)
    ||| (px, py) == splat_target(x, y, 3)
}

/// Deposit one weighted sample on a single pixel: blended at exactly its
/// share when the pixel is on the canvas and the share clears the
/// rendering threshold, untouched otherwise — and no other pixel moves.
fn splat_one(canvas: &mut Canvas, tx: i64, ty: i64, a: i64, color: Color)
    requires
        old(canvas).wf(),
        old(canvas).width <= 100_000,
        old(canvas).height <= 100_000,
        -2_000_000 <= tx <= 2_000_000,
        -2_000_000 <= ty <= 2_000_000,
        0 <= a <= FP_ONE,
    ensures
        final(canvas).wf(),
        old(canvas).same_dims(*final(canvas)),
        old(canvas).alpha_opaque() ==> final(canvas).alpha_opaque(),
        0 <= tx < old(canvas).width && 0 <= ty < old(canvas).height && a > 1_000
            ==> crate::canvas::pixel_blended(
                *old(canvas), *final(canvas), tx as int, ty as int, color, a as int),
        !(0 <= tx < old(canvas).width && 0 <= ty < old(canvas).height && a > 1_000)
            ==> final(canvas).buffer@ == old(canvas).buffer@,
        forall|px: int, py: int|
            0 <= px < old(canvas).width && 0 <= py < old(canvas).height
                && !(px == tx && py == ty)
                ==> #[trigger] crate::canvas::pixel_unchanged(
                    *old(canvas), *final(canvas), px, py),
{
    let ghost snap = *canvas;
    if a > 1_000 && tx >= 0 && ty >= 0
        && tx < canvas.width as i64 && ty < canvas.height as i64 {
        canvas.blend_pixel(tx as usize, ty as usize, color, a);
    }
    proof {
        assert forall|px: int, py: int|
            0 <= px < snap.width && 0 <= py < snap.height
                && !(px == tx && py == ty)
            implies #[trigger] crate::canvas::pixel_unchanged(snap, *canvas, px, py) by {
            crate::canvas::lemma_pixel_bytes_in_bounds(snap, px, py);
            if 0 <= tx < snap.width && 0 <= ty < snap.height {
                crate::canvas::lemma_pixel_index_distinct(
                    snap.width as int, px, py, tx as int, ty as int);
            }
        }
    }
}

/// Splat one sub-pixel sample onto the four surrounding pixels with
/// bilinear weights: each in-canvas neighbor whose share clears a
/// thousandth of a pixel is blended at exactly that share, every other
/// pixel is untouched.
#[verifier::rlimit(100)]
pub fn draw_antialiased_pixel(canvas: &mut Canvas, x: i64, y: i64, color: Color, alpha: i64)
    requires
        old(canvas).wf(),
        old(canvas).width <= 100_000,
        old(canvas).height <= 100_000,
        -1_000_000_000_000 <= x <= 1_000_000_000_000,
        -1_000_000_000_000 <= y <= 1_000_000_000_000,
        0 <= alpha <= FP_ONE,
    ensures
        final(canvas).wf(),
        old(canvas).same_dims(*final(canvas)),
        old(canvas).alpha_opaque() ==> final(canvas).alpha_opaque(),
        forall|px: int, py: int|
            0 <= px < old(canvas).width && 0 <= py < old(canvas).height
                && !is_splat_target(x as int, y as int, px, py)
                ==> #[trigger] crate::canvas::pixel_unchanged(
                    *old(canvas), *final(canvas), px, py),
        forall|k: int| 0 <= k < 4 ==> {
            let t = #[trigger] splat_target(x as int, y as int, k);
            let a = splat_alpha(x as int, y as int, alpha as int, k);
            &&& (0 <= t.0 < old(canvas).width && 0 <= t.1 < old(canvas).height && a > 1_000
                ==> crate::canvas::pixel_blended(
                    *old(canvas), *final(canvas), t.0, t.1, color, a))
            &&& (0 <= t.0 < old(canvas).width && 0 <= t.1 < old(canvas).height && a <= 1_000
                ==> crate::canvas::pixel_unchanged(*old(canvas), *final(canvas), t.0, t.1))
        },
{
    let xf: i64 = floor_px(x);
    let yf: i64 = floor_px(y);
    let fx: i64 = x - xf * FP_ONE;
    let fy: i64 = y - yf * FP_ONE;
    let w: (i64, i64, i64, i64) = bilinear_weights(fx, fy);
    let ghost snap = *canvas;
    let a0: i64 = crate::primitives::mul_unit(w.0, alpha);
    let a1: i64 = crate::primitives::mul_unit(w.1, alpha);
    let a2: i64 = crate::primitives::mul_unit(w.2, alpha);
    let a3: i64 = crate::primitives::mul_unit(w.3, alpha);
    splat_one(canvas, xf, yf, a0, color);
    let ghost g1 = *canvas;
    splat_one(canvas, xf + 1, yf, a1, color);
    let ghost g2 = *canvas;
    splat_one(canvas, xf, yf + 1, a2, color);
    let ghost g3 = *canvas;
    splat_one(canvas, xf + 1, yf + 1, a3, color);
    proof {
        let xi = x as int;
        let yi = y as int;
        assert(a0 == splat_alpha(xi, yi, alpha as int, 0));
        assert(a1 == splat_alpha(xi, yi, alpha as int, 1));
        assert(a2 == splat_alpha(xi, yi, alpha as int, 2));
        assert(a3 == splat_alpha(xi, yi, alpha as int, 3));
        assert forall|px: int, py: int|
            0 <= px < snap.width && 0 <= py < snap.height
                && !is_splat_target(xi, yi, px, py)
            implies #[trigger] crate::canvas::pixel_unchanged(snap, *canvas, px, py) by {
            assert(crate::canvas::pixel_unchanged(snap, g1, px, py));
            assert(crate::canvas::pixel_unchanged(g1, g2, px, py));
            assert(crate::canvas::pixel_unchanged(g2, g3, px, py));
            assert(crate::canvas::pixel_unchanged(g3, *canvas, px, py));
        }
        assert forall|k: int| 0 <= k < 4 implies {
            let t = #[trigger] splat_target(xi, yi, k);
            let a = splat_alpha(xi, yi, alpha as int, k);
            &&& (0 <= t.0 < snap.width && 0 <= t.1 < snap.height && a > 1_000
                ==> crate::canvas::pixel_blended(snap, *canvas, t.0, t.1, color, a))
            &&& (0 <= t.0 < snap.width && 0 <= t.1 < snap.height && a <= 1_000
                ==> crate::canvas::pixel_unchanged(snap, *canvas, t.0, t.1))
        } by {
            let t = splat_target(xi, yi, k);
            let a = splat_alpha(xi, yi, alpha as int, k);
            if 0 <= t.0 < snap.width && 0 <= t.1 < snap.height {
                if k == 0 {
                    assert(crate::canvas::pixel_unchanged(g1, g2, t.0, t.1));
                    assert(crate::canvas::pixel_unchanged(g2, g3, t.0, t.1));
                    assert(crate::canvas::pixel_unchanged(g3, *canvas, t.0, t.1));
                    if a <= 1_000 {
                        assert(g1.buffer@ == snap.buffer@);
                    }
                } else if k == 1 {
                    assert(crate::canvas::pixel_unchanged(snap, g1, t.0, t.1));
                    assert(crate::canvas::pixel_unchanged(g2, g3, t.0, t.1));
                    assert(crate::canvas::pixel_unchanged(g3, *canvas, t.0, t.1));
                    if a <= 1_000 {
                        assert(g2.buffer@ == g1.buffer@);
                    }
                } else if k == 2 {
                    assert(crate::canvas::pixel_unchanged(snap, g1, t.0, t.1));
                    assert(crate::canvas::pixel_unchanged(g1, g2, t.0, t.1));
                    assert(crate::canvas::pixel_unchanged(g3, *canvas, t.0, t.1));
                    if a <= 1_000 {
                        assert(g3.buffer@ == g2.buffer@);
                    }
                } else {
                    assert(crate::canvas::pixel_unchanged(snap, g1, t.0, t.1));
                    assert(crate::canvas::pixel_unchanged(g1, g2, t.0, t.1));
                    assert(crate::canvas::pixel_unchanged(g2, g3, t.0, t.1));
                    if a <= 1_000 {
                        assert(canvas.buffer@ == g3.buffer@);
                    }
                }
            }
        }
    }
}

/// Topmost edge among the first `n` visible glyphs.
pub open spec fn run_min_y(s: Seq<RasterGlyph>, n: int) -> int
    decreases n,
{
    if n <= 0 {
        i32::MAX as int
    } else {
        let prev = run_min_y(s, n - 1);
        let g = s[n - 1];
        if g.width > 0 && g.bb_min_y < prev {
            g.bb_min_y as int
        } else {
            prev
        }
    }
}

/// Bottommost edge among the first `n` visible glyphs.
pub open spec fn run_max_y(s: Seq<RasterGlyph>, n: int) -> int
    decreases n,
{
    if n <= 0 {
        i32::MIN as int
    } else {
        let prev = run_max_y(s, n - 1);
        let g = s[n - 1];
        if g.width > 0 && g.bb_min_y + g.height > prev {
            g.bb_min_y + g.height
        } else {
            prev
        }
    }
}

/// Coverage of one mask byte, in micro-units.
pub open spec fn byte_coverage_spec(b: int) -> int {
    b * FP_ONE / 255
}

/// Convert a mask byte to a coverage value.
pub fn byte_coverage(b: u8) -> (c: i64)
    ensures
        c == byte_coverage_spec(b as int),
        0 <= c <= FP_ONE,
{
    let c: i64 = div_nn(b as i64 * FP_ONE, 255);
    proof {
        vstd::arithmetic::div_mod::lemma_div_is_ordered(
            b as int * FP_ONE, 255 * FP_ONE, 255);
        vstd::arithmetic::div_mod::lemma_div_by_multiple(FP_ONE as int, 255);
    }
    c
}

/// A run with no visible pixels: every glyph's bitmap is empty.
pub open spec fn run_all_blank(s: Seq<RasterGlyph>) -> bool {
    forall|i: int| 0 <= i < s.len() ==> (#[trigger] s[i]).width == 0
}

/// A blank run spans no bounding box.
proof fn lemma_blank_run(s: Seq<RasterGlyph>, n: int)
    requires
        0 <= n <= s.len(),
        run_all_blank(s),
    ensures
        run_min_y(s, n) == i32::MAX,
    decreases n,
{
    if n > 0 {
        lemma_blank_run(s, n - 1);
    }
}

/// Composite a rasterized glyph run onto the canvas, the run's tight
/// bounding box centered on `(x, y)`.  A run with no visible glyph —
/// an empty string, or glyphs without bounding boxes — draws nothing.
pub fn draw_text(canvas: &mut Canvas, x: i32, y: i32, run: &RasterRun, color: Color)
    requires
        old(canvas).wf(),
        old(canvas).width <= 100_000,
        old(canvas).height <= 100_000,
        run.wf(),
        -150_000 <= x <= 150_000,
        -150_000 <= y <= 150_000,
    ensures
        final(canvas).wf(),
        old(canvas).same_dims(*final(canvas)),
        old(canvas).alpha_opaque() ==> final(canvas).alpha_opaque(),
        run_all_blank(run.glyphs@) ==> final(canvas).buffer@ == old(canvas).buffer@,
{
    let width_px: i32 = calculate_text_width(run);
    let mut mny: i32 = i32::MAX;
    let mut mxy: i32 = i32::MIN;
    let mut i: usize = 0;
    while i < run.glyphs.len()
        invariant
            run.wf(),
            i <= run.glyphs.len(),
            mny == run_min_y(run.glyphs@, i as int),
            mxy == run_max_y(run.glyphs@, i as int),
            mny == i32::MAX || -100_000 <= mny <= 100_000,
            mxy == i32::MIN || -100_000 <= mxy <= 200_000,
        decreases run.glyphs.len() - i,
    {
        proof {
            assert(run.glyphs@[i as int].wf());
        }
        let g = &run.glyphs[i];
        if g.width > 0 {
            let bottom: i32 = g.bb_min_y + g.height as i32;
            if g.bb_min_y < mny {
                mny = g.bb_min_y;
            }
            if bottom > mxy {
                mxy = bottom;
            }
        }
        i = i + 1;
    }
    if mny == i32::MAX {
        return ;
    }
    proof {
        if run_all_blank(run.glyphs@) {
            lemma_blank_run(run.glyphs@, run.glyphs@.len() as int);
        }
    }
    let height_px: i32 = if mny < mxy { mxy - mny } else { 0 };
    let min_x_run: i32 = {
        let mut mn: i32 = i32::MAX;
        let mut j: usize = 0;
        while j < run.glyphs.len()
            invariant
                run.wf(),
                j <= run.glyphs.len(),
                mn == run_min_x(run.glyphs@, j as int),
                mn == i32::MAX || -100_000 <= mn <= 100_000,
            decreases run.glyphs.len() - j,
        {
            proof {
                assert(run.glyphs@[j as int].wf());
            }
            let g = &run.glyphs[j];
            if g.width > 0 && g.bb_min_x < mn {
                mn = g.bb_min_x;
            }
            j = j + 1;
        }
        if mn == i32::MAX { 0 } else { mn }
    };
    let min_y_run: i32 = if mny == i32::MAX { 0 } else { mny };
    let offset_x: i32 = x - width_px / 2;
    let offset_y: i32 = y - height_px / 2;
    let mut gi: usize = 0;
    while gi < run.glyphs.len()
        invariant
            canvas.wf(),
            canvas.width == old(canvas).width,
            canvas.height == old(canvas).height,
            old(canvas).width <= 100_000,
            old(canvas).height <= 100_000,
            old(canvas).alpha_opaque() ==> canvas.alpha_opaque(),
            run.wf(),
            gi <= run.glyphs.len(),
            -400_000 <= offset_x <= 400_000,
            -400_000 <= offset_y <= 400_000,
            -100_000 <= min_x_run <= 100_000,
            -100_000 <= min_y_run <= 100_000,
        decreases run.glyphs.len() - gi,
    {
        proof {
            assert(run.glyphs@[gi as int].wf());
        }
        let g = &run.glyphs[gi];
        let mut gy: usize = 0;
        while gy < g.height
            invariant
                canvas.wf(),
                canvas.width == old(canvas).width,
                canvas.height == old(canvas).height,
                old(canvas).width <= 100_000,
                old(canvas).height <= 100_000,
                old(canvas).alpha_opaque() ==> canvas.alpha_opaque(),
                g.wf(),
                gy <= g.height,
                -400_000 <= offset_x <= 400_000,
                -400_000 <= offset_y <= 400_000,
                -100_000 <= min_x_run <= 100_000,
                -100_000 <= min_y_run <= 100_000,
            decreases g.height - gy,
        {
            let mut gx: usize = 0;
            while gx < g.width
                invariant
                    canvas.wf(),
                    canvas.width == old(canvas).width,
                    canvas.height == old(canvas).height,
                    old(canvas).width <= 100_000,
                    old(canvas).height <= 100_000,
                    old(canvas).alpha_opaque() ==> canvas.alpha_opaque(),
                    g.wf(),
                    gy < g.height,
                    gx <= g.width,
                    -400_000 <= offset_x <= 400_000,
                    -400_000 <= offset_y <= 400_000,
                    -100_000 <= min_x_run <= 100_000,
                    -100_000 <= min_y_run <= 100_000,
                decreases g.width - gx,
            {
                proof {
                    assert(gy * g.width + gx < g.width * g.height) by (nonlinear_arith)
                        requires gy < g.height, gx < g.width;
                }
                let v: u8 = g.cov[gy * g.width + gx];
                if v > 0 {
                    let px: i64 = offset_x as i64 + gx as i64 + g.bb_min_x as i64
                        - min_x_run as i64;
                    let py: i64 = offset_y as i64 + gy as i64 + g.bb_min_y as i64
                        - min_y_run as i64;
                    if px >= 0 && py >= 0
                        && px < canvas.width as i64 && py < canvas.height as i64 {
                        let cov: i64 = byte_coverage(v);
                        canvas.blend_pixel(px as usize, py as usize, color, cov);
                    }
                }
                gx = gx + 1;
            }
            gy = gy + 1;
        }
        gi = gi + 1;
    }
}

/// Milli-degrees per radian, to the engine's angular resolution.
pub const MDEG_PER_RAD: i64 = 57_296;

/// The arc span curved text actually uses: the span its width subtends at
/// the given radius, capped at the configured maximum.
pub open spec fn curved_used_span_spec(total_width: int, radius: int, max_span: int) -> int {
    let needed = total_width * MDEG_PER_RAD / radius;
    if needed < max_span {
        needed
    } else {
        max_span
    }
}

/// Compute the used arc span of a curved-text run.
pub fn curved_used_span(total_width: i64, radius: i64, max_span: i64) -> (r: i64)
    requires
        0 <= total_width <= 4_000_000_000,
        FP_ONE <= radius <= 1_000_000_000_000,
        0 <= max_span <= 360_000,
    ensures
        r == curved_used_span_spec(total_width as int, radius as int, max_span as int),
        0 <= r <= max_span,
{
    let needed: i64 = div_nn(total_width * MDEG_PER_RAD, radius);
    if needed < max_span {
        needed
    } else {
        max_span
    }
}

/// Composite one rotated glyph, centered at `(center_x, center_y)`
/// micro-pixels and turned by `rotation` milli-degrees, each mask pixel
/// splatted bilinearly at its rotated sub-pixel position.  A glyph with
/// no visible pixels draws nothing.
pub fn draw_rotated_glyph_improved(
    canvas: &mut Canvas, glyph: &RasterGlyph,
    center_x: i64, center_y: i64, rotation: i64, color: Color,
)
    requires
        old(canvas).wf(),
        old(canvas).width <= 100_000,
        old(canvas).height <= 100_000,
        glyph.wf(),
        -200_000_000_000 <= center_x <= 200_000_000_000,
        -200_000_000_000 <= center_y <= 200_000_000_000,
        -1_000_000_000_000 <= rotation <= 1_000_000_000_000,
    ensures
        final(canvas).wf(),
        old(canvas).same_dims(*final(canvas)),
        old(canvas).alpha_opaque() ==> final(canvas).alpha_opaque(),
        glyph.width == 0 || glyph.height == 0
            ==> final(canvas).buffer@ == old(canvas).buffer@,
{
    if glyph.width == 0 || glyph.height == 0 {
        return ;
    }
    let rot: i64 = crate::trig::wrap_mdeg(rotation);
    let cos_r: i64 = crate::trig::cos_mdeg(rot);
    let sin_r: i64 = crate::trig::sin_mdeg(rot);
    let glyph_cx: i64 = (2 * glyph.bb_min_x as i64 + glyph.width as i64) * 500_000;
    let glyph_cy: i64 = (2 * glyph.bb_min_y as i64 + glyph.height as i64) * 500_000;
    let mut gy: usize = 0;
    while gy < glyph.height
        invariant
            canvas.wf(),
            canvas.width == old(canvas).width,
            canvas.height == old(canvas).height,
            old(canvas).width <= 100_000,
            old(canvas).height <= 100_000,
            old(canvas).alpha_opaque() ==> canvas.alpha_opaque(),
            glyph.wf(),
            gy <= glyph.height,
            -FP_ONE <= cos_r <= FP_ONE,
            -FP_ONE <= sin_r <= FP_ONE,
            -210_000_000_000 <= glyph_cx <= 210_000_000_000,
            -210_000_000_000 <= glyph_cy <= 210_000_000_000,
            -200_000_000_000 <= center_x <= 200_000_000_000,
            -200_000_000_000 <= center_y <= 200_000_000_000,
        decreases glyph.height - gy,
    {
        let mut gx: usize = 0;
        while gx < glyph.width
            invariant
                canvas.wf(),
                canvas.width == old(canvas).width,
                canvas.height == old(canvas).height,
                old(canvas).width <= 100_000,
                old(canvas).height <= 100_000,
                old(canvas).alpha_opaque() ==> canvas.alpha_opaque(),
                glyph.wf(),
                gy < glyph.height,
                gx <= glyph.width,
                -FP_ONE <= cos_r <= FP_ONE,
                -FP_ONE <= sin_r <= FP_ONE,
                -210_000_000_000 <= glyph_cx <= 210_000_000_000,
                -210_000_000_000 <= glyph_cy <= 210_000_000_000,
                -200_000_000_000 <= center_x <= 200_000_000_000,
                -200_000_000_000 <= center_y <= 200_000_000_000,
            decreases glyph.width - gx,
        {
            proof {
                assert(gy * glyph.width + gx < glyph.width * glyph.height)
                    by (nonlinear_arith)
                    requires gy < glyph.height, gx < glyph.width;
            }
            let v: u8 = glyph.cov[gy * glyph.width + gx];
            if v > 0 {
                let px: i64 = (gx as i64 + glyph.bb_min_x as i64) * FP_ONE;
                let py: i64 = (gy as i64 + glyph.bb_min_y as i64) * FP_ONE;
                let local_x: i64 = px - glyph_cx;
                let local_y: i64 = py - glyph_cy;
                proof {
                    assert(-330_000_000_000_000_000 <= local_x * cos_r <= 330_000_000_000_000_000)
                        by (nonlinear_arith)
                        requires
                            -330_000_000_000 <= local_x <= 330_000_000_000,
                            -FP_ONE <= cos_r <= FP_ONE;
                    assert(-330_000_000_000_000_000 <= local_y * sin_r <= 330_000_000_000_000_000)
                        by (nonlinear_arith)
                        requires
                            -330_000_000_000 <= local_y <= 330_000_000_000,
                            -FP_ONE <= sin_r <= FP_ONE;
                    assert(-330_000_000_000_000_000 <= local_x * sin_r <= 330_000_000_000_000_000)
                        by (nonlinear_arith)
                        requires
                            -330_000_000_000 <= local_x <= 330_000_000_000,
                            -FP_ONE <= sin_r <= FP_ONE;
                    assert(-330_000_000_000_000_000 <= local_y * cos_r <= 330_000_000_000_000_000)
                        by (nonlinear_arith)
                        requires
                            -330_000_000_000 <= local_y <= 330_000_000_000,
                            -FP_ONE <= cos_r <= FP_ONE;
                }
                let rotated_x: i64 = (local_x * cos_r - local_y * sin_r) / FP_ONE;
                let rotated_y: i64 = (local_x * sin_r + local_y * cos_r) / FP_ONE;
                proof {
                    vstd::arithmetic::div_mod::lemma_div_is_ordered(
                        local_x * cos_r - local_y * sin_r, 660_000_000_000_000_000, FP_ONE as int);
                    vstd::arithmetic::div_mod::lemma_div_is_ordered(
                        -660_000_000_000_000_000, local_x * cos_r - local_y * sin_r, FP_ONE as int);
                    vstd::arithmetic::div_mod::lemma_div_is_ordered(
                        local_x * sin_r + local_y * cos_r, 660_000_000_000_000_000, FP_ONE as int);
                    vstd::arithmetic::div_mod::lemma_div_is_ordered(
                        -660_000_000_000_000_000, local_x * sin_r + local_y * cos_r, FP_ONE as int);
                    vstd::arithmetic::div_mod::lemma_div_by_multiple(660_000_000_000, FP_ONE as int);
                    vstd::arithmetic::div_mod::lemma_div_multiples_vanish(-660_000_000_000, FP_ONE as int);
                }
                let final_x: i64 = center_x + rotated_x;
                let final_y: i64 = center_y + rotated_y;
                let alpha: i64 = byte_coverage(v);
                draw_antialiased_pixel(canvas, final_x, final_y, color, alpha);
            }
            gx = gx + 1;
        }
        gy = gy + 1;
    }
}

/// Composite a glyph run along a circular arc: the run's width sets the
/// span it subtends (capped at `arc_span`), that span is centered on
/// `center_angle`, and each glyph is rotated a quarter turn past its
/// radial angle so its local up points outward.  An empty run, or one
/// whose total advance is not positive, draws nothing.
pub fn draw_curved_text(
    canvas: &mut Canvas, cx: i32, cy: i32, radius: i64, run: &RasterRun,
    arc_span: i64, center_angle: i64, color: Color,
)
    requires
        old(canvas).wf(),
        old(canvas).width <= 100_000,
        old(canvas).height <= 100_000,
        run.wf(),
        -100_000 <= cx <= 100_000,
        -100_000 <= cy <= 100_000,
        FP_ONE <= radius <= 100_000_000_000,
        0 <= arc_span <= 360_000,
        -1_000_000_000 <= center_angle <= 1_000_000_000,
    ensures
        final(canvas).wf(),
        old(canvas).same_dims(*final(canvas)),
        old(canvas).alpha_opaque() ==> final(canvas).alpha_opaque(),
        run.glyphs@.len() == 0 ==> final(canvas).buffer@ == old(canvas).buffer@,
        run.glyphs@.len() > 0
            && run.glyphs@.last().pos_x - run.glyphs@[0].pos_x
                + run.glyphs@.last().advance <= 0
            ==> final(canvas).buffer@ == old(canvas).buffer@,
{
    if run.glyphs.len() == 0 {
        return ;
    }
    proof {
        assert(run.glyphs@[0].wf());
        assert(run.glyphs@[run.glyphs@.len() - 1].wf());
    }
    let first_pos: i64 = run.glyphs[0].pos_x;
    let last_idx: usize = run.glyphs.len() - 1;
    let last = &run.glyphs[last_idx];
    let total_width: i64 = last.pos_x - first_pos + last.advance;
    if total_width <= 0 {
        return ;
    }
    let used_span: i64 = curved_used_span(
        if total_width > 4_000_000_000 { 4_000_000_000 } else { total_width },
        radius, arc_span);
    let start_angle: i64 = center_angle - used_span / 2;
    let mut gi: usize = 0;
    while gi < run.glyphs.len()
        invariant
            canvas.wf(),
            canvas.width == old(canvas).width,
            canvas.height == old(canvas).height,
            old(canvas).width <= 100_000,
            old(canvas).height <= 100_000,
            old(canvas).alpha_opaque() ==> canvas.alpha_opaque(),
            run.wf(),
            gi <= run.glyphs.len(),
            -1_000_000_000 <= first_pos <= 1_000_000_000,
            -1_000_360_000 <= start_angle <= 1_000_000_000,
            FP_ONE <= radius <= 100_000_000_000,
            -100_000 <= cx <= 100_000,
            -100_000 <= cy <= 100_000,
        decreases run.glyphs.len() - gi,
    {
        proof {
            assert(run.glyphs@[gi as int].wf());
        }
        let g = &run.glyphs[gi];
        if g.width > 0 {
            let rel: i64 = g.pos_x - first_pos + g.advance / 2;
            let swept: i64 = if rel >= 0 {
                let q: i64 = div_nn(rel * MDEG_PER_RAD, radius);
                proof {
                    vstd::arithmetic::div_mod::lemma_div_is_ordered_by_denominator(
                        rel * MDEG_PER_RAD as int, FP_ONE as int, radius as int);
                    vstd::arithmetic::div_mod::lemma_div_is_ordered(
                        rel * MDEG_PER_RAD as int,
                        2_500_000_000 * MDEG_PER_RAD as int,
                        FP_ONE as int);
                    vstd::arithmetic::div_mod::lemma_div_by_multiple(
                        143_240_000, 1_000_000);
                }
                q
            } else {
                let q: i64 = div_nn((-rel) * MDEG_PER_RAD, radius);
                proof {
                    vstd::arithmetic::div_mod::lemma_div_is_ordered_by_denominator(
                        (-rel) * MDEG_PER_RAD as int, FP_ONE as int, radius as int);
                    vstd::arithmetic::div_mod::lemma_div_is_ordered(
                        (-rel) * MDEG_PER_RAD as int,
                        2_500_000_000 * MDEG_PER_RAD as int,
                        FP_ONE as int);
                    vstd::arithmetic::div_mod::lemma_div_by_multiple(
                        143_240_000, 1_000_000);
                }
                -q
            };
            let char_angle: i64 = start_angle + swept;
            let wrapped: i64 = crate::trig::wrap_mdeg(char_angle);
            let cos_a: i64 = crate::trig::cos_mdeg(wrapped);
            let sin_a: i64 = crate::trig::sin_mdeg(wrapped);
            proof {
                assert(-100_000_000_000_000_000 <= cos_a * radius <= 100_000_000_000_000_000)
                    by (nonlinear_arith)
                    requires -FP_ONE <= cos_a <= FP_ONE, 0 <= radius <= 100_000_000_000;
                assert(-100_000_000_000_000_000 <= sin_a * radius <= 100_000_000_000_000_000)
                    by (nonlinear_arith)
                    requires -FP_ONE <= sin_a <= FP_ONE, 0 <= radius <= 100_000_000_000;
                vstd::arithmetic::div_mod::lemma_div_is_ordered(
                    cos_a * radius, 100_000_000_000_000_000, FP_ONE as int);
                vstd::arithmetic::div_mod::lemma_div_is_ordered(
                    -100_000_000_000_000_000, cos_a * radius, FP_ONE as int);
                vstd::arithmetic::div_mod::lemma_div_is_ordered(
                    sin_a * radius, 100_000_000_000_000_000, FP_ONE as int);
                vstd::arithmetic::div_mod::lemma_div_is_ordered(
                    -100_000_000_000_000_000, sin_a * radius, FP_ONE as int);
                vstd::arithmetic::div_mod::lemma_div_by_multiple(
                    100_000_000_000, FP_ONE as int);
                vstd::arithmetic::div_mod::lemma_div_multiples_vanish(
                    -100_000_000_000, FP_ONE as int);
            }
            let char_x: i64 = cx as i64 * FP_ONE + (cos_a * radius) / FP_ONE;
            let char_y: i64 = cy as i64 * FP_ONE + (sin_a * radius) / FP_ONE;
            let rotation: i64 = char_angle + 90_000;
            draw_rotated_glyph_improved(canvas, g, char_x, char_y, rotation, color);
        }
        gi = gi + 1;
    }
}

} // verus!
