//! The mutable RGBA pixel buffer all drawing composites onto.
//!
//! A `Canvas` owns `width * height` pixels of 4 bytes each (RGBA order).
//! `blend_pixel` is the single compositing primitive every shape goes
//! through: standard "over" blending of a source color against the
//! destination at a fractional coverage, with the destination alpha pinned
//! to fully opaque.  Out-of-bounds writes are silently ignored.

use vstd::prelude::*;
use crate::fixed::FP_ONE;
use crate::Color;

verus! {

/// One channel blended: `src * cov + dst * (1 - cov)` in micro-units.
pub open spec fn blend_channel(dst: int, src: int, cov: int) -> int {
    (src * cov + dst * (FP_ONE - cov)) / (FP_ONE as int)
}

/// Blending at zero coverage returns the destination channel, at full
/// coverage the source channel, and always lands in a byte.
pub proof fn lemma_blend_channel(dst: int, src: int, cov: int)
    requires
        0 <= dst <= 255,
        0 <= src <= 255,
        0 <= cov <= FP_ONE,
    ensures
        0 <= blend_channel(dst, src, cov) <= 255,
        cov == 0 ==> blend_channel(dst, src, cov) == dst,
        cov == FP_ONE ==> blend_channel(dst, src, cov) == src,
{
    let num = src * cov + dst * (FP_ONE - cov);
    assert(0 <= num <= 255 * FP_ONE) by (nonlinear_arith)
        requires
            0 <= dst <= 255,
            0 <= src <= 255,
            0 <= cov <= FP_ONE,
            num == src * cov + dst * (FP_ONE - cov);
    vstd::arithmetic::div_mod::lemma_div_pos_is_pos(num, FP_ONE as int);
    vstd::arithmetic::div_mod::lemma_div_is_ordered(num, 255 * FP_ONE, FP_ONE as int);
    vstd::arithmetic::div_mod::lemma_div_by_multiple(255, FP_ONE as int);
    if cov == 0 {
        vstd::arithmetic::div_mod::lemma_div_by_multiple(dst, FP_ONE as int);
    }
    if cov == FP_ONE {
        assert(num == src * FP_ONE) by (nonlinear_arith)
            requires
                num == src * cov + dst * (FP_ONE - cov),
                cov == FP_ONE;
        vstd::arithmetic::div_mod::lemma_div_by_multiple(src, FP_ONE as int);
    }
}

/// Pixel `p` of `c` holds `color` at full alpha.
pub open spec fn pixel_filled(c: Canvas, p: int, color: (u8, u8, u8)) -> bool {
    &&& c.buffer[4 * p] == color.0
    &&& c.buffer[4 * p + 1] == color.1
    &&& c.buffer[4 * p + 2] == color.2
    &&& c.buffer[4 * p + 3] == 255
}

/// Pixel `(x, y)` of `new` holds `old`'s pixel composited with `color` at
/// coverage `cov`, alpha pinned opaque.
pub open spec fn pixel_blended(
    old: Canvas, new: Canvas, x: int, y: int, color: Color, cov: int,
) -> bool {
    let idx = 4 * (y * old.width + x);
    &&& new.buffer[idx] == blend_channel(old.buffer[idx] as int, color.r as int, cov)
    &&& new.buffer[idx + 1] == blend_channel(old.buffer[idx + 1] as int, color.g as int, cov)
    &&& new.buffer[idx + 2] == blend_channel(old.buffer[idx + 2] as int, color.b as int, cov)
    &&& new.buffer[idx + 3] == 255
}

/// Pixel `(x, y)` carries the same four bytes in `new` as in `old`.
pub open spec fn pixel_unchanged(old: Canvas, new: Canvas, x: int, y: int) -> bool {
    let idx = 4 * (y * old.width + x);
    &&& new.buffer[idx] == old.buffer[idx]
    &&& new.buffer[idx + 1] == old.buffer[idx + 1]
    &&& new.buffer[idx + 2] == old.buffer[idx + 2]
    &&& new.buffer[idx + 3] == old.buffer[idx + 3]
}

/// Two different pixels of one canvas never share a pixel slot.
pub proof fn lemma_pixel_index_distinct(w: int, x1: int, y1: int, x2: int, y2: int)
    requires
        0 <= x1 < w,
        0 <= x2 < w,
        y1 >= 0,
        y2 >= 0,
        !(x1 == x2 && y1 == y2),
    ensures
        y1 * w + x1 != y2 * w + x2,
{
    if y1 == y2 {
    } else if y1 < y2 {
        assert((y1 + 1) * w <= y2 * w) by (nonlinear_arith)
            requires y1 + 1 <= y2, w > 0;
        assert(y1 * w + x1 < (y1 + 1) * w) by (nonlinear_arith)
            requires x1 < w;
    } else {
        assert((y2 + 1) * w <= y1 * w) by (nonlinear_arith)
            requires y2 + 1 <= y1, w > 0;
        assert(y2 * w + x2 < (y2 + 1) * w) by (nonlinear_arith)
            requires x2 < w;
    }
}

/// A pixel slot's bytes sit inside the buffer.
pub proof fn lemma_pixel_bytes_in_bounds(c: Canvas, x: int, y: int)
    requires
        c.wf(),
        0 <= x < c.width,
        0 <= y < c.height,
    ensures
        0 <= 4 * (y * c.width + x),
        4 * (y * c.width + x) + 3 < c.buffer.len(),
{
    assert(0 <= y * c.width + x < c.width * c.height) by (nonlinear_arith)
        requires 0 <= x < c.width, 0 <= y < c.height;
    assert(4 * (y * c.width + x) + 3 < c.width * c.height * 4) by (nonlinear_arith)
        requires 0 <= y * c.width + x < c.width * c.height;
}

/// An owned RGBA byte buffer with its pixel dimensions.
pub struct Canvas {
    pub buffer: Vec<u8>,
    pub width: usize,
    pub height: usize,
}

impl Canvas {
    /// The buffer holds exactly 4 bytes for every pixel.
    pub open spec fn wf(self) -> bool {
        self.buffer.len() == self.width * self.height * 4
    }

    /// Byte index of the first channel of pixel `(x, y)`.
    pub open spec fn idx_of(self, x: int, y: int) -> int {
        4 * (y * self.width + x)
    }

    /// Every pixel's alpha byte is fully opaque.
    pub open spec fn alpha_opaque(self) -> bool {
        forall|p: int|
            0 <= p < self.width * self.height ==> #[trigger] self.buffer[4 * p + 3] == 255
    }

    /// The two canvases have the same dimensions.
    pub open spec fn same_dims(self, other: Canvas) -> bool {
        self.width == other.width && self.height == other.height
    }

    /// A fresh all-zero canvas of the given dimensions.
    pub fn new(width: usize, height: usize) -> (c: Canvas)
        requires
            width * height * 4 <= usize::MAX,
        ensures
            c.wf(),
            c.width == width,
            c.height == height,
    {
        proof {
            assert(width * height * 4 == (width * height) * 4) by (nonlinear_arith);
            assert(width * height >= 0) by (nonlinear_arith);
        }
        let n: usize = width * height * 4;
        let buffer: Vec<u8> = vec![0u8; n];
        Canvas { buffer, width, height }
    }

    /// Fill every pixel with `color` at full alpha.
    pub fn clear(&mut self, color: (u8, u8, u8))
        requires
            old(self).wf(),
        ensures
            final(self).wf(),
            old(self).same_dims(*final(self)),
            final(self).alpha_opaque(),
            forall|p: int|
                0 <= p < final(self).width * final(self).height
                    ==> #[trigger] pixel_filled(*final(self), p, color),
    {
        proof {
            assert(self.width * self.height * 4 == (self.width * self.height) * 4)
                by (nonlinear_arith);
        }
        let n: usize = self.width * self.height;
        let mut p: usize = 0;
        while p < n
            invariant
                n == self.width * self.height,
                self.buffer.len() == n * 4,
                p <= n,
                self.width == old(self).width,
                self.height == old(self).height,
                forall|q: int| 0 <= q < p ==> #[trigger] pixel_filled(*self, q, color),
            decreases n - p,
        {
            proof {
                assert(4 * p + 3 < 4 * n) by (nonlinear_arith)
                    requires p < n;
            }
            let ghost snap = *self;
            let base: usize = 4 * p;
            self.buffer[base] = color.0;
            self.buffer[base + 1] = color.1;
            self.buffer[base + 2] = color.2;
            self.buffer[base + 3] = 255;
            proof {
                assert forall|q: int| 0 <= q < p + 1
                    implies #[trigger] pixel_filled(*self, q, color) by {
                    if q < p {
                        assert(pixel_filled(snap, q, color));
                        assert(4 * q + 3 < 4 * p);
                    }
                }
            }
            p = p + 1;
        }
        proof {
            assert forall|q: int| 0 <= q < self.width * self.height
                implies #[trigger] self.buffer[4 * q + 3] == 255 by {
                assert(pixel_filled(*self, q, color));
            }
        }
    }

    /// Composite `color` onto pixel `(x, y)` at coverage `cov` micro-units.
    /// Out-of-bounds coordinates and zero coverage change nothing at all;
    /// full coverage overwrites the color channels exactly.
    pub fn blend_pixel(&mut self, x: usize, y: usize, color: Color, cov: i64)
        requires
            old(self).wf(),
            0 <= cov <= FP_ONE,
        ensures
            final(self).wf(),
            old(self).same_dims(*final(self)),
            final(self).buffer.len() == old(self).buffer.len(),
            cov == 0 ==> final(self).buffer@ == old(self).buffer@,
            !(x < old(self).width && y < old(self).height)
                ==> final(self).buffer@ == old(self).buffer@,
            cov > 0 && x < old(self).width && y < old(self).height ==> {
                let idx = old(self).idx_of(x as int, y as int);
                &&& forall|j: int|
                    0 <= j < final(self).buffer.len() && !(idx <= j < idx + 4)
                        ==> final(self).buffer[j] == old(self).buffer[j]
                &&& final(self).buffer[idx] == blend_channel(
                    old(self).buffer[idx] as int, color.r as int, cov as int)
                &&& final(self).buffer[idx + 1] == blend_channel(
                    old(self).buffer[idx + 1] as int, color.g as int, cov as int)
                &&& final(self).buffer[idx + 2] == blend_channel(
                    old(self).buffer[idx + 2] as int, color.b as int, cov as int)
                &&& final(self).buffer[idx + 3] == 255
            },
            old(self).alpha_opaque() ==> final(self).alpha_opaque(),
    {
        if cov == 0 {
            return ;
        }
        if x < self.width && y < self.height {
            proof {
                assert(y * self.width + x < self.width * self.height) by (nonlinear_arith)
                    requires x < self.width, y < self.height;
                assert(4 * (y * self.width + x) + 3 < (self.width * self.height) * 4)
                    by (nonlinear_arith)
                    requires y * self.width + x < self.width * self.height;
                assert(self.width * self.height * 4 == (self.width * self.height) * 4)
                    by (nonlinear_arith);
            }
            let idx: usize = 4 * (y * self.width + x);
            let d0: i64 = self.buffer[idx] as i64;
            let d1: i64 = self.buffer[idx + 1] as i64;
            let d2: i64 = self.buffer[idx + 2] as i64;
            proof {
                lemma_blend_channel(d0 as int, color.r as int, cov as int);
                lemma_blend_channel(d1 as int, color.g as int, cov as int);
                lemma_blend_channel(d2 as int, color.b as int, cov as int);
            }
            let o0: i64 = (color.r as i64 * cov + d0 * (FP_ONE - cov)) / FP_ONE;
            let o1: i64 = (color.g as i64 * cov + d1 * (FP_ONE - cov)) / FP_ONE;
            let o2: i64 = (color.b as i64 * cov + d2 * (FP_ONE - cov)) / FP_ONE;
            self.buffer[idx] = o0 as u8;
            self.buffer[idx + 1] = o1 as u8;
            self.buffer[idx + 2] = o2 as u8;
            self.buffer[idx + 3] = 255;
            proof {
                if old(self).alpha_opaque() {
                    assert forall|p: int| 0 <= p < self.width * self.height
                        implies #[trigger] self.buffer[4 * p + 3] == 255 by {
                        if 4 * p + 3 != idx + 3 {
                            assert(!(idx <= 4 * p + 3 < idx + 4));
                            assert(4 * p + 3 < (self.width * self.height) * 4)
                                by (nonlinear_arith)
                                requires 0 <= p < self.width * self.height;
                        }
                    }
                }
            }
        }
    }
}

} // verus!
