//! The render loop's state: one animated needle per channel, the last raw
//! values seen, and the highlight bounds.
//!
//! Updates arrive as drained queue batches.  Every message is a total
//! overwrite of its slot, so only the last batch of a drain decides each
//! slot's target; needles are created the first time their slot carries a
//! value and destroyed when the latest batch omits it.  A highlight
//! override, once set, permanently shuts streamed bound updates out.
//! Out-of-range detection compares the raw, un-normalized values against
//! the range, so an out-of-range value pegs the needle at an end of the
//! scale while the alert fires.

use vstd::prelude::*;
use crate::fixed::{FP_ONE, FP_LIMIT, normalized_spec, normalized};
use crate::anim::{Needle, HighlightBounds, lerp_step_spec};
use crate::instrument::InstrumentCommand;

verus! {

/// One drained queue message: the slots it carries, each a total
/// overwrite of that channel.
#[derive(Debug, Clone)]
pub struct UpdateBatch {
    pub needle1: Option<i64>,
    pub needle2: Option<i64>,
    pub highlight_lower: Option<i64>,
    pub highlight_upper: Option<i64>,
    pub readout: Option<i64>,
}

/// Every value a batch carries fits in the engine's scalar band.
pub open spec fn batch_wf(b: UpdateBatch) -> bool {
    &&& (b.needle1 matches Some(v) ==> -FP_LIMIT <= v <= FP_LIMIT)
    &&& (b.needle2 matches Some(v) ==> -FP_LIMIT <= v <= FP_LIMIT)
    &&& (b.highlight_lower matches Some(v) ==> -FP_LIMIT <= v <= FP_LIMIT)
    &&& (b.highlight_upper matches Some(v) ==> -FP_LIMIT <= v <= FP_LIMIT)
    &&& (b.readout matches Some(v) ==> -FP_LIMIT <= v <= FP_LIMIT)
}

/// The primary value the first `i` commands leave pending, `init` if none
/// of them touches the primary channel.
pub open spec fn last_primary(s: Seq<InstrumentCommand>, i: int, init: Option<i64>) -> Option<i64>
    decreases i,
{
    if i <= 0 {
        init
    } else {
        match s[i - 1] {
            InstrumentCommand::SetPrimaryNeedle(v) => Some(v),
            InstrumentCommand::SetBothNeedles(v, _) => Some(v),
            InstrumentCommand::SetAllNeedles(v, _, _, _) => Some(v),
            _ => last_primary(s, i - 1, init),
        }
    }
}

/// The secondary value the first `i` commands leave pending.
pub open spec fn last_secondary(s: Seq<InstrumentCommand>, i: int, init: Option<i64>) -> Option<i64>
    decreases i,
{
    if i <= 0 {
        init
    } else {
        match s[i - 1] {
            InstrumentCommand::SetSecondaryNeedle(v) => Some(v),
            InstrumentCommand::SetBothNeedles(_, v) => Some(v),
            InstrumentCommand::SetAllNeedles(_, v, _, _) => Some(v),
            _ => last_secondary(s, i - 1, init),
        }
    }
}

/// The chronograph value the first `i` commands leave pending.
pub open spec fn last_chronograph(
    s: Seq<InstrumentCommand>, i: int, init: Option<i64>,
) -> Option<i64>
    decreases i,
{
    if i <= 0 {
        init
    } else {
        match s[i - 1] {
            InstrumentCommand::SetChronograph(v) => Some(v),
            InstrumentCommand::SetBothChronographs(v, _) => Some(v),
            InstrumentCommand::SetAllNeedles(_, _, v, _) => Some(v),
            _ => last_chronograph(s, i - 1, init),
        }
    }
}

/// The secondary chronograph value the first `i` commands leave pending.
pub open spec fn last_secondary_chronograph(
    s: Seq<InstrumentCommand>, i: int, init: Option<i64>,
) -> Option<i64>
    decreases i,
{
    if i <= 0 {
        init
    } else {
        match s[i - 1] {
            InstrumentCommand::SetSecondaryChronograph(v) => Some(v),
            InstrumentCommand::SetBothChronographs(_, v) => Some(v),
            InstrumentCommand::SetAllNeedles(_, _, _, v) => Some(v),
            _ => last_secondary_chronograph(s, i - 1, init),
        }
    }
}

/// The highlight bounds the first `i` commands leave pending.
pub open spec fn last_highlight(
    s: Seq<InstrumentCommand>, i: int, init: Option<(i64, i64)>,
) -> Option<(i64, i64)>
    decreases i,
{
    if i <= 0 {
        init
    } else {
        match s[i - 1] {
            InstrumentCommand::SetHighlightBounds(a, b) => Some((a, b)),
            _ => last_highlight(s, i - 1, init),
        }
    }
}

/// The readout value the first `i` commands leave pending.
pub open spec fn last_readout(s: Seq<InstrumentCommand>, i: int, init: Option<i64>) -> Option<i64>
    decreases i,
{
    if i <= 0 {
        init
    } else {
        match s[i - 1] {
            InstrumentCommand::SetReadout(v) => Some(v),
            _ => last_readout(s, i - 1, init),
        }
    }
}

/// The position a needle slot holds, or `d` when the slot is empty.
pub open spec fn needle_pos_or(o: Option<Needle>, d: int) -> int {
    match o {
        Some(n) => n.pos as int,
        None => d,
    }
}

/// The pair of values the two bounds of `lo` and `hi` sort into.
pub open spec fn sorted_pair(lo: int, hi: int) -> (int, int) {
    if lo <= hi {
        (lo, hi)
    } else {
        (hi, lo)
    }
}

/// The render loop's whole state for one instrument.
pub struct AppState {
    pub needle1: Option<Needle>,
    pub needle2: Option<Needle>,
    pub chronograph: Option<Needle>,
    pub secondary_chronograph: Option<Needle>,
    pub value1: Option<i64>,
    pub value2: Option<i64>,
    pub readout_value: Option<i64>,
    pub min_value: i64,
    pub max_value: i64,
    pub chronograph_range: (i64, i64),
    pub secondary_chronograph_range: (i64, i64),
    pub highlight_bounds: Option<HighlightBounds>,
    pub highlight_override: Option<(i64, i64)>,
    pub seen_input: bool,
}

impl AppState {
    /// Ranges are non-degenerate and every held value sits in the
    /// engine's bands.
    pub open spec fn wf(self) -> bool {
        &&& -FP_LIMIT <= self.min_value < self.max_value <= FP_LIMIT
        &&& -FP_LIMIT <= self.chronograph_range.0 < self.chronograph_range.1 <= FP_LIMIT
        &&& -FP_LIMIT <= self.secondary_chronograph_range.0
            < self.secondary_chronograph_range.1 <= FP_LIMIT
        &&& (self.needle1 matches Some(n) ==> n.wf())
        &&& (self.needle2 matches Some(n) ==> n.wf())
        &&& (self.chronograph matches Some(n) ==> n.wf())
        &&& (self.secondary_chronograph matches Some(n) ==> n.wf())
        &&& (self.value1 matches Some(v) ==> -FP_LIMIT <= v <= FP_LIMIT)
        &&& (self.value2 matches Some(v) ==> -FP_LIMIT <= v <= FP_LIMIT)
        &&& (self.readout_value matches Some(v) ==> -FP_LIMIT <= v <= FP_LIMIT)
        &&& (self.highlight_bounds matches Some(b) ==> b.wf())
        &&& (self.highlight_override matches Some(p)
            ==> -FP_LIMIT <= p.0 <= FP_LIMIT && -FP_LIMIT <= p.1 <= FP_LIMIT)
    }

    /// A fresh state with no needles and no input seen yet.
    pub fn new(min_value: i64, max_value: i64) -> (s: AppState)
        requires
            -FP_LIMIT <= min_value < max_value <= FP_LIMIT,
        ensures
            s.wf(),
            s.min_value == min_value,
            s.max_value == max_value,
            s.needle1 is None,
            s.needle2 is None,
            s.chronograph is None,
            s.secondary_chronograph is None,
            s.value1 is None,
            s.value2 is None,
            s.readout_value is None,
            s.highlight_bounds is None,
            s.highlight_override is None,
            !s.seen_input,
            s.chronograph_range == (0i64, 60_000_000i64),
            s.secondary_chronograph_range == (0i64, 60_000_000i64),
    {
        AppState {
            needle1: None,
            needle2: None,
            chronograph: None,
            secondary_chronograph: None,
            value1: None,
            value2: None,
            readout_value: None,
            min_value,
            max_value,
            chronograph_range: (0, 60_000_000),
            secondary_chronograph_range: (0, 60_000_000),
            highlight_bounds: None,
            highlight_override: None,
            seen_input: false,
        }
    }

    /// Aim the primary needle at `value`, creating the needle at
    /// mid-scale if this is its first value, and remember the raw value
    /// for the out-of-range check.
    pub fn set_primary_value(&mut self, value: i64)
        requires
            old(self).wf(),
            -FP_LIMIT <= value <= FP_LIMIT,
        ensures
            final(self).wf(),
            final(self).needle1 matches Some(n) && {
                &&& n.target_pos == normalized_spec(
                    value as int, old(self).min_value as int, old(self).max_value as int)
                &&& n.pos == needle_pos_or(old(self).needle1, FP_ONE as int / 2)
            },
            final(self).value1 == Some(value),
            *final(self) == (AppState {
                needle1: final(self).needle1,
                value1: final(self).value1,
                ..*old(self)
            }),
    {
        let target: i64 = normalized(value, self.min_value, self.max_value);
        let mut n: Needle = match &self.needle1 {
            Some(existing) => Needle { pos: existing.pos, target_pos: existing.target_pos },
            None => Needle::new(),
        };
        n.set_target_pos(target);
        self.needle1 = Some(n);
        self.value1 = Some(value);
    }

    /// Aim the secondary needle, as `set_primary_value` does the primary.
    pub fn set_secondary_value(&mut self, value: i64)
        requires
            old(self).wf(),
            -FP_LIMIT <= value <= FP_LIMIT,
        ensures
            final(self).wf(),
            final(self).needle2 matches Some(n) && {
                &&& n.target_pos == normalized_spec(
                    value as int, old(self).min_value as int, old(self).max_value as int)
                &&& n.pos == needle_pos_or(old(self).needle2, FP_ONE as int / 2)
            },
            final(self).value2 == Some(value),
            *final(self) == (AppState {
                needle2: final(self).needle2,
                value2: final(self).value2,
                ..*old(self)
            }),
    {
        let target: i64 = normalized(value, self.min_value, self.max_value);
        let mut n: Needle = match &self.needle2 {
            Some(existing) => Needle { pos: existing.pos, target_pos: existing.target_pos },
            None => Needle::new(),
        };
        n.set_target_pos(target);
        self.needle2 = Some(n);
        self.value2 = Some(value);
    }

    /// Aim the chronograph needle inside the chronograph range.
    pub fn set_chronograph_value(&mut self, value: i64)
        requires
            old(self).wf(),
            -FP_LIMIT <= value <= FP_LIMIT,
        ensures
            final(self).wf(),
            final(self).chronograph matches Some(n) && {
                &&& n.target_pos == normalized_spec(
                    value as int,
                    old(self).chronograph_range.0 as int,
                    old(self).chronograph_range.1 as int)
                &&& n.pos == needle_pos_or(old(self).chronograph, FP_ONE as int / 2)
            },
            *final(self) == (AppState { chronograph: final(self).chronograph, ..*old(self) }),
    {
        let target: i64 = normalized(
            value, self.chronograph_range.0, self.chronograph_range.1);
        let mut n: Needle = match &self.chronograph {
            Some(existing) => Needle { pos: existing.pos, target_pos: existing.target_pos },
            None => Needle::new(),
        };
        n.set_target_pos(target);
        self.chronograph = Some(n);
    }

    /// Aim the secondary chronograph needle inside its range.
    pub fn set_secondary_chronograph_value(&mut self, value: i64)
        requires
            old(self).wf(),
            -FP_LIMIT <= value <= FP_LIMIT,
        ensures
            final(self).wf(),
            final(self).secondary_chronograph matches Some(n) && {
                &&& n.target_pos == normalized_spec(
                    value as int,
                    old(self).secondary_chronograph_range.0 as int,
                    old(self).secondary_chronograph_range.1 as int)
                &&& n.pos == needle_pos_or(
                    old(self).secondary_chronograph, FP_ONE as int / 2)
            },
            *final(self) == (AppState {
                secondary_chronograph: final(self).secondary_chronograph,
                ..*old(self)
            }),
    {
        let target: i64 = normalized(
            value,
            self.secondary_chronograph_range.0,
            self.secondary_chronograph_range.1);
        let mut n: Needle = match &self.secondary_chronograph {
            Some(existing) => Needle { pos: existing.pos, target_pos: existing.target_pos },
            None => Needle::new(),
        };
        n.set_target_pos(target);
        self.secondary_chronograph = Some(n);
    }

    /// Remember the readout's raw value.
    pub fn set_readout_value(&mut self, value: i64)
        requires
            old(self).wf(),
            -FP_LIMIT <= value <= FP_LIMIT,
        ensures
            final(self).wf(),
            *final(self) == (AppState { readout_value: Some(value), ..*old(self) }),
    {
        self.readout_value = Some(value);
    }

    /// Aim the highlight bounds at the sorted pair of `lower` and
    /// `upper`, creating them at their targets if absent — unless an
    /// override holds them fixed.
    pub fn set_highlight_bounds(&mut self, lower: i64, upper: i64)
        requires
            old(self).wf(),
            -FP_LIMIT <= lower <= FP_LIMIT,
            -FP_LIMIT <= upper <= FP_LIMIT,
        ensures
            final(self).wf(),
            old(self).highlight_override is Some ==> *final(self) == *old(self),
            old(self).highlight_override is None ==> {
                &&& final(self).highlight_bounds matches Some(b) && {
                    let p = sorted_pair(lower as int, upper as int);
                    &&& b.target_lower == p.0
                    &&& b.target_upper == p.1
                    &&& (old(self).highlight_bounds matches Some(c)
                        ==> b.lower == c.lower && b.upper == c.upper)
                    &&& (old(self).highlight_bounds is None
                        ==> b.lower == p.0 && b.upper == p.1)
                }
                &&& *final(self) == (AppState {
                    highlight_bounds: final(self).highlight_bounds,
                    ..*old(self)
                })
            },
    {
        if self.highlight_override.is_some() {
            return ;
        }
        let mn: i64 = if lower <= upper { lower } else { upper };
        let mx: i64 = if lower <= upper { upper } else { lower };
        let b: HighlightBounds = match &self.highlight_bounds {
            Some(existing) => {
                let mut copy = HighlightBounds {
                    lower: existing.lower,
                    upper: existing.upper,
                    target_lower: existing.target_lower,
                    target_upper: existing.target_upper,
                };
                copy.set_target_bounds(mn, mx);
                copy
            },
            None => HighlightBounds::new(mn, mx),
        };
        self.highlight_bounds = Some(b);
    }

    /// Aim the highlight bounds as `set_highlight_bounds` does; the name
    /// the streamed path uses.  Order-normalizing makes the call
    /// commutative in its two arguments.
    pub fn set_highlight_range(&mut self, lower: i64, upper: i64)
        requires
            old(self).wf(),
            -FP_LIMIT <= lower <= FP_LIMIT,
            -FP_LIMIT <= upper <= FP_LIMIT,
        ensures
            final(self).wf(),
            old(self).highlight_override is Some ==> *final(self) == *old(self),
            old(self).highlight_override is None ==> {
                &&& final(self).highlight_bounds matches Some(b) && {
                    let p = sorted_pair(lower as int, upper as int);
                    &&& b.target_lower == p.0
                    &&& b.target_upper == p.1
                    &&& (old(self).highlight_bounds matches Some(c)
                        ==> b.lower == c.lower && b.upper == c.upper)
                    &&& (old(self).highlight_bounds is None
                        ==> b.lower == p.0 && b.upper == p.1)
                }
                &&& *final(self) == (AppState {
                    highlight_bounds: final(self).highlight_bounds,
                    ..*old(self)
                })
            },
    {
        self.set_highlight_bounds(lower, upper);
    }

    /// Fix the highlight to the sorted pair for good: streamed bound
    /// updates are ignored from here on.
    pub fn set_highlight_override(&mut self, lower: i64, upper: i64)
        requires
            old(self).wf(),
            -FP_LIMIT <= lower <= FP_LIMIT,
            -FP_LIMIT <= upper <= FP_LIMIT,
        ensures
            final(self).wf(),
            final(self).highlight_override == Some((
                sorted_pair(lower as int, upper as int).0 as i64,
                sorted_pair(lower as int, upper as int).1 as i64,
            )),
            final(self).highlight_bounds matches Some(b) && {
                let p = sorted_pair(lower as int, upper as int);
                b.target_lower == p.0 && b.target_upper == p.1
            },
    {
        let mn: i64 = if lower <= upper { lower } else { upper };
        let mx: i64 = if lower <= upper { upper } else { lower };
        let b: HighlightBounds = match &self.highlight_bounds {
            Some(existing) => {
                let mut copy = HighlightBounds {
                    lower: existing.lower,
                    upper: existing.upper,
                    target_lower: existing.target_lower,
                    target_upper: existing.target_upper,
                };
                copy.set_target_bounds(mn, mx);
                copy
            },
            None => HighlightBounds::new(mn, mx),
        };
        self.highlight_bounds = Some(b);
        self.highlight_override = Some((mn, mx));
    }

    /// Whether either needle's raw value lies outside the configured
    /// range — by the value itself, never the clamped position.
    pub fn is_out_of_range(&self) -> (r: bool)
        requires
            self.wf(),
        ensures
            r == {
                ||| (self.value1 matches Some(v)
                    && (v < self.min_value || v > self.max_value))
                ||| (self.value2 matches Some(v)
                    && (v < self.min_value || v > self.max_value))
            },
    {
        let out1: bool = match &self.value1 {
            Some(v) => *v < self.min_value || *v > self.max_value,
            None => false,
        };
        let out2: bool = match &self.value2 {
            Some(v) => *v < self.min_value || *v > self.max_value,
            None => false,
        };
        out1 || out2
    }

    /// Advance every animated entity one smoothing step.
    fn advance_all(&mut self)
        requires
            old(self).wf(),
        ensures
            final(self).wf(),
            final(self).needle1 matches Some(n)
                <==> old(self).needle1 is Some,
            old(self).needle1 matches Some(m) ==> final(self).needle1 matches Some(n)
                && n.target_pos == m.target_pos
                && n.pos == lerp_step_spec(m.pos as int, m.target_pos as int),
            old(self).needle2 matches Some(m) ==> final(self).needle2 matches Some(n)
                && n.target_pos == m.target_pos
                && n.pos == lerp_step_spec(m.pos as int, m.target_pos as int),
            final(self).needle2 is Some <==> old(self).needle2 is Some,
            old(self).chronograph matches Some(m) ==> final(self).chronograph matches Some(n)
                && n.target_pos == m.target_pos
                && n.pos == lerp_step_spec(m.pos as int, m.target_pos as int),
            final(self).chronograph is Some <==> old(self).chronograph is Some,
            old(self).secondary_chronograph matches Some(m)
                ==> final(self).secondary_chronograph matches Some(n)
                    && n.target_pos == m.target_pos
                    && n.pos == lerp_step_spec(m.pos as int, m.target_pos as int),
            final(self).secondary_chronograph is Some
                <==> old(self).secondary_chronograph is Some,
            old(self).highlight_bounds matches Some(b)
                ==> final(self).highlight_bounds matches Some(c)
                    && c.target_lower == b.target_lower
                    && c.target_upper == b.target_upper
                    && c.lower == lerp_step_spec(b.lower as int, b.target_lower as int)
                    && c.upper == lerp_step_spec(b.upper as int, b.target_upper as int),
            final(self).highlight_bounds is Some <==> old(self).highlight_bounds is Some,
            *final(self) == (AppState {
                needle1: final(self).needle1,
                needle2: final(self).needle2,
                chronograph: final(self).chronograph,
                secondary_chronograph: final(self).secondary_chronograph,
                highlight_bounds: final(self).highlight_bounds,
                ..*old(self)
            }),
    {
        if let Some(n) = &self.needle1 {
            let mut m = Needle { pos: n.pos, target_pos: n.target_pos };
            m.update_position();
            self.needle1 = Some(m);
        }
        if let Some(n) = &self.needle2 {
            let mut m = Needle { pos: n.pos, target_pos: n.target_pos };
            m.update_position();
            self.needle2 = Some(m);
        }
        if let Some(n) = &self.chronograph {
            let mut m = Needle { pos: n.pos, target_pos: n.target_pos };
            m.update_position();
            self.chronograph = Some(m);
        }
        if let Some(n) = &self.secondary_chronograph {
            let mut m = Needle { pos: n.pos, target_pos: n.target_pos };
            m.update_position();
            self.secondary_chronograph = Some(m);
        }
        if let Some(b) = &self.highlight_bounds {
            let mut c = HighlightBounds {
                lower: b.lower,
                upper: b.upper,
                target_lower: b.target_lower,
                target_upper: b.target_upper,
            };
            c.update_position();
            self.highlight_bounds = Some(c);
        }
    }

    /// Apply one drain of queued batches, in send order, then advance the
    /// animation one step.  Only the last batch decides each slot: a
    /// carried value re-aims (and if needed creates) its needle, an
    /// omitted slot destroys it.  When nothing has ever arrived, the
    /// needles drift on their idle random walk instead.
    #[verifier::rlimit(100)]
    pub fn update(&mut self, batches: &Vec<UpdateBatch>)
        requires
            old(self).wf(),
            forall|i: int| 0 <= i < batches.len() ==> batch_wf(#[trigger] batches[i]),
        ensures
            final(self).wf(),
            final(self).min_value == old(self).min_value,
            final(self).max_value == old(self).max_value,
            final(self).highlight_override == old(self).highlight_override,
            final(self).seen_input == (old(self).seen_input || batches.len() > 0),
            batches.len() > 0 ==> {
                let lb = batches[batches.len() - 1];
                &&& final(self).value1 == lb.needle1
                &&& final(self).value2 == lb.needle2
                &&& final(self).readout_value == lb.readout
                &&& (lb.needle1 matches Some(v) ==> final(self).needle1 matches Some(n)
                    && n.target_pos == normalized_spec(
                        v as int, old(self).min_value as int, old(self).max_value as int))
                &&& (lb.needle1 is None ==> final(self).needle1 is None)
                &&& (lb.needle2 matches Some(v) ==> final(self).needle2 matches Some(n)
                    && n.target_pos == normalized_spec(
                        v as int, old(self).min_value as int, old(self).max_value as int))
                &&& (lb.needle2 is None ==> final(self).needle2 is None)
                &&& (old(self).highlight_override is None ==> {
                    &&& (lb.highlight_lower is Some && lb.highlight_upper is Some
                        ==> final(self).highlight_bounds is Some
                            && final(self).highlight_bounds->0.target_lower == sorted_pair(
                                lb.highlight_lower->0 as int, lb.highlight_upper->0 as int).0
                            && final(self).highlight_bounds->0.target_upper == sorted_pair(
                                lb.highlight_lower->0 as int, lb.highlight_upper->0 as int).1)
                    &&& (!(lb.highlight_lower is Some && lb.highlight_upper is Some)
                        ==> final(self).highlight_bounds is None)
                })
                &&& (old(self).needle1 is None ==> (lb.needle1 matches Some(v)
                    ==> final(self).needle1 matches Some(n)
                        && n.pos == lerp_step_spec(FP_ONE as int / 2, normalized_spec(
                            v as int, old(self).min_value as int,
                            old(self).max_value as int))))
                &&& (old(self).needle2 is None ==> (lb.needle2 matches Some(v)
                    ==> final(self).needle2 matches Some(n)
                        && n.pos == lerp_step_spec(FP_ONE as int / 2, normalized_spec(
                            v as int, old(self).min_value as int,
                            old(self).max_value as int))))
            },
            old(self).highlight_override is Some ==> {
                &&& (final(self).highlight_bounds is Some
                    <==> old(self).highlight_bounds is Some)
                &&& (old(self).highlight_bounds matches Some(b)
                    ==> final(self).highlight_bounds matches Some(c)
                        && c.target_lower == b.target_lower
                        && c.target_upper == b.target_upper
                        && c.lower == lerp_step_spec(b.lower as int, b.target_lower as int)
                        && c.upper == lerp_step_spec(b.upper as int, b.target_upper as int))
            },
            batches.len() == 0 ==> {
                &&& final(self).value1 == old(self).value1
                &&& final(self).value2 == old(self).value2
                &&& final(self).readout_value == old(self).readout_value
                &&& (final(self).needle1 is Some <==> old(self).needle1 is Some)
                &&& (final(self).needle2 is Some <==> old(self).needle2 is Some)
                &&& (old(self).needle1 matches Some(m) ==> final(self).needle1 matches Some(n)
                    && n.pos == lerp_step_spec(m.pos as int, m.target_pos as int))
                &&& (old(self).needle2 matches Some(m) ==> final(self).needle2 matches Some(n)
                    && n.pos == lerp_step_spec(m.pos as int, m.target_pos as int))
                &&& (old(self).seen_input ==> (old(self).needle1 matches Some(m)
                    ==> final(self).needle1 matches Some(n)
                        && n.target_pos == m.target_pos))
                &&& (old(self).seen_input ==> (old(self).needle2 matches Some(m)
                    ==> final(self).needle2 matches Some(n)
                        && n.target_pos == m.target_pos))
            },
    {
        let ghost init = *self;
        let mut i: usize = 0;
        while i < batches.len()
            invariant
                self.wf(),
                i <= batches.len(),
                forall|j: int| 0 <= j < batches.len() ==> batch_wf(#[trigger] batches[j]),
                self.min_value == init.min_value,
                self.max_value == init.max_value,
                self.highlight_override == init.highlight_override,
                self.chronograph == init.chronograph,
                self.secondary_chronograph == init.secondary_chronograph,
                self.seen_input == (init.seen_input || i > 0),
                init.highlight_override is Some
                    ==> self.highlight_bounds == init.highlight_bounds,
                init.needle1 is None ==> (self.needle1 matches Some(n)
                    ==> n.pos == FP_ONE / 2),
                init.needle2 is None ==> (self.needle2 matches Some(n)
                    ==> n.pos == FP_ONE / 2),
                i == 0 ==> *self == init,
                i > 0 ==> self.value1 == batches[i - 1].needle1,
                i > 0 ==> self.value2 == batches[i - 1].needle2,
                i > 0 ==> self.readout_value == batches[i - 1].readout,
                i > 0 ==> (batches[i - 1].needle1 matches Some(v)
                    ==> self.needle1 matches Some(n)
                        && n.target_pos == normalized_spec(
                            v as int, init.min_value as int, init.max_value as int)),
                i > 0 ==> (batches[i - 1].needle1 is None ==> self.needle1 is None),
                i > 0 ==> (batches[i - 1].needle2 matches Some(v)
                    ==> self.needle2 matches Some(n)
                        && n.target_pos == normalized_spec(
                            v as int, init.min_value as int, init.max_value as int)),
                i > 0 ==> (batches[i - 1].needle2 is None ==> self.needle2 is None),
                i > 0 && init.highlight_override is None
                    && batches[i - 1].highlight_lower is Some
                    && batches[i - 1].highlight_upper is Some
                    ==> self.highlight_bounds is Some
                        && self.highlight_bounds->0.target_lower == sorted_pair(
                            batches[i - 1].highlight_lower->0 as int,
                            batches[i - 1].highlight_upper->0 as int).0
                        && self.highlight_bounds->0.target_upper == sorted_pair(
                            batches[i - 1].highlight_lower->0 as int,
                            batches[i - 1].highlight_upper->0 as int).1,
                i > 0 && init.highlight_override is None
                    ==> (!(batches[i - 1].highlight_lower is Some
                            && batches[i - 1].highlight_upper is Some)
                        ==> self.highlight_bounds is None),
            decreases batches.len() - i,
        {
            proof {
                assert(batch_wf(batches@[i as int]));
            }
            let b = &batches[i];
            self.seen_input = true;
            match b.needle1 {
                Some(v) => {
                    self.set_primary_value(v);
                },
                None => {
                    self.needle1 = None;
                    self.value1 = None;
                },
            }
            match b.needle2 {
                Some(v) => {
                    self.set_secondary_value(v);
                },
                None => {
                    self.needle2 = None;
                    self.value2 = None;
                },
            }
            self.readout_value = b.readout;
            if self.highlight_override.is_none() {
                match (b.highlight_lower, b.highlight_upper) {
                    (Some(lo), Some(hi)) => {
                        self.set_highlight_bounds(lo, hi);
                    },
                    _ => {
                        self.highlight_bounds = None;
                    },
                }
            }
            i = i + 1;
        }
        let idle: bool = !self.seen_input;
        self.advance_all();
        if idle {
            if let Some(n) = &self.needle1 {
                let mut m = Needle { pos: n.pos, target_pos: n.target_pos };
                m.update_random();
                self.needle1 = Some(m);
            }
            if let Some(n) = &self.needle2 {
                let mut m = Needle { pos: n.pos, target_pos: n.target_pos };
                m.update_random();
                self.needle2 = Some(m);
            }
        }
    }

    /// Apply one drain of typed commands, in order, then advance the
    /// animation one step.  The last command touching a channel decides
    /// its target; channels no command touches keep theirs.
    pub fn update_with_commands(&mut self, commands: &Vec<InstrumentCommand>)
        requires
            old(self).wf(),
            forall|i: int| 0 <= i < commands.len() ==> cmd_value_wf(#[trigger] commands[i]),
        ensures
            final(self).wf(),
            final(self).min_value == old(self).min_value,
            final(self).max_value == old(self).max_value,
            last_primary(commands@, commands@.len() as int, None) matches Some(v)
                ==> final(self).needle1 matches Some(n)
                    && n.target_pos == normalized_spec(
                        v as int, old(self).min_value as int, old(self).max_value as int),
            last_secondary(commands@, commands@.len() as int, None) matches Some(v)
                ==> final(self).needle2 matches Some(n)
                    && n.target_pos == normalized_spec(
                        v as int, old(self).min_value as int, old(self).max_value as int),
            last_chronograph(commands@, commands@.len() as int, None) matches Some(v)
                ==> final(self).chronograph matches Some(n)
                    && n.target_pos == normalized_spec(
                        v as int,
                        old(self).chronograph_range.0 as int,
                        old(self).chronograph_range.1 as int),
            last_secondary_chronograph(commands@, commands@.len() as int, None) matches Some(v)
                ==> final(self).secondary_chronograph matches Some(n)
                    && n.target_pos == normalized_spec(
                        v as int,
                        old(self).secondary_chronograph_range.0 as int,
                        old(self).secondary_chronograph_range.1 as int),
            final(self).readout_value == (
                match last_readout(commands@, commands@.len() as int, None) {
                    Some(v) => Some(v),
                    None => old(self).readout_value,
                }),
            last_primary(commands@, commands@.len() as int, None) is None
                ==> (final(self).needle1 is Some <==> old(self).needle1 is Some),
            old(self).highlight_override is None
                && last_highlight(commands@, commands@.len() as int, None) is Some
                ==> ({
                    let p = last_highlight(commands@, commands@.len() as int, None)->0;
                    &&& final(self).highlight_bounds is Some
                    &&& final(self).highlight_bounds->0.target_lower
                        == sorted_pair(p.0 as int, p.1 as int).0
                    &&& final(self).highlight_bounds->0.target_upper
                        == sorted_pair(p.0 as int, p.1 as int).1
                }),
            old(self).highlight_override is Some
                || last_highlight(commands@, commands@.len() as int, None) is None
                ==> {
                    &&& (final(self).highlight_bounds is Some
                        <==> old(self).highlight_bounds is Some)
                    &&& (old(self).highlight_bounds matches Some(b)
                        ==> final(self).highlight_bounds matches Some(c)
                            && c.target_lower == b.target_lower
                            && c.target_upper == b.target_upper
                            && c.lower == lerp_step_spec(
                                b.lower as int, b.target_lower as int)
                            && c.upper == lerp_step_spec(
                                b.upper as int, b.target_upper as int))
                },
    {
        let ghost init = *self;
        let mut i: usize = 0;
        while i < commands.len()
            invariant
                self.wf(),
                i <= commands.len(),
                forall|j: int| 0 <= j < commands.len()
                    ==> cmd_value_wf(#[trigger] commands[j]),
                self.min_value == init.min_value,
                self.max_value == init.max_value,
                self.chronograph_range == init.chronograph_range,
                self.secondary_chronograph_range == init.secondary_chronograph_range,
                last_primary(commands@, i as int, None) matches Some(v)
                    ==> self.needle1 matches Some(n)
                        && n.target_pos == normalized_spec(
                            v as int, init.min_value as int, init.max_value as int),
                last_primary(commands@, i as int, None) is None
                    ==> self.needle1 == init.needle1,
                last_secondary(commands@, i as int, None) matches Some(v)
                    ==> self.needle2 matches Some(n)
                        && n.target_pos == normalized_spec(
                            v as int, init.min_value as int, init.max_value as int),
                last_secondary(commands@, i as int, None) is None
                    ==> self.needle2 == init.needle2,
                last_chronograph(commands@, i as int, None) matches Some(v)
                    ==> self.chronograph matches Some(n)
                        && n.target_pos == normalized_spec(
                            v as int,
                            init.chronograph_range.0 as int,
                            init.chronograph_range.1 as int),
                last_chronograph(commands@, i as int, None) is None
                    ==> self.chronograph == init.chronograph,
                last_secondary_chronograph(commands@, i as int, None) matches Some(v)
                    ==> self.secondary_chronograph matches Some(n)
                        && n.target_pos == normalized_spec(
                            v as int,
                            init.secondary_chronograph_range.0 as int,
                            init.secondary_chronograph_range.1 as int),
                last_secondary_chronograph(commands@, i as int, None) is None
                    ==> self.secondary_chronograph == init.secondary_chronograph,
                self.readout_value == (match last_readout(commands@, i as int, None) {
                    Some(v) => Some(v),
                    None => init.readout_value,
                }),
                init.highlight_override is Some
                    ==> self.highlight_bounds == init.highlight_bounds,
                self.highlight_override == init.highlight_override,
                init.highlight_override is None
                    && last_highlight(commands@, i as int, None) is Some
                    ==> ({
                        let p = last_highlight(commands@, i as int, None)->0;
                        &&& self.highlight_bounds is Some
                        &&& self.highlight_bounds->0.target_lower
                            == sorted_pair(p.0 as int, p.1 as int).0
                        &&& self.highlight_bounds->0.target_upper
                            == sorted_pair(p.0 as int, p.1 as int).1
                    }),
                last_highlight(commands@, i as int, None) is None
                    ==> self.highlight_bounds == init.highlight_bounds,
            decreases commands.len() - i,
        {
            match &commands[i] {
                InstrumentCommand::SetPrimaryNeedle(v) => {
                    self.set_primary_value(*v);
                },
                InstrumentCommand::SetSecondaryNeedle(v) => {
                    self.set_secondary_value(*v);
                },
                InstrumentCommand::SetChronograph(v) => {
                    self.set_chronograph_value(*v);
                },
                InstrumentCommand::SetSecondaryChronograph(v) => {
                    self.set_secondary_chronograph_value(*v);
                },
                InstrumentCommand::SetReadout(v) => {
                    self.set_readout_value(*v);
                },
                InstrumentCommand::SetHighlightBounds(lo, hi) => {
                    self.set_highlight_bounds(*lo, *hi);
                },
                InstrumentCommand::SetBothNeedles(p, s) => {
                    self.set_primary_value(*p);
                    self.set_secondary_value(*s);
                },
                InstrumentCommand::SetAllNeedles(p, s, c, sc) => {
                    self.set_primary_value(*p);
                    self.set_secondary_value(*s);
                    self.set_chronograph_value(*c);
                    self.set_secondary_chronograph_value(*sc);
                },
                InstrumentCommand::SetBothChronographs(c, sc) => {
                    self.set_chronograph_value(*c);
                    self.set_secondary_chronograph_value(*sc);
                },
            }
            i = i + 1;
        }
        self.advance_all();
    }
}

/// Every value a command carries fits in the engine's scalar band.
pub open spec fn cmd_value_wf(c: InstrumentCommand) -> bool {
    match c {
        InstrumentCommand::SetPrimaryNeedle(v) => -FP_LIMIT <= v <= FP_LIMIT,
        InstrumentCommand::SetSecondaryNeedle(v) => -FP_LIMIT <= v <= FP_LIMIT,
        InstrumentCommand::SetChronograph(v) => -FP_LIMIT <= v <= FP_LIMIT,
        InstrumentCommand::SetSecondaryChronograph(v) => -FP_LIMIT <= v <= FP_LIMIT,
        InstrumentCommand::SetReadout(v) => -FP_LIMIT <= v <= FP_LIMIT,
        InstrumentCommand::SetHighlightBounds(a, b) =>
            -FP_LIMIT <= a <= FP_LIMIT && -FP_LIMIT <= b <= FP_LIMIT,
        InstrumentCommand::SetBothNeedles(a, b) =>
            -FP_LIMIT <= a <= FP_LIMIT && -FP_LIMIT <= b <= FP_LIMIT,
        InstrumentCommand::SetAllNeedles(a, b, c, d) =>
            -FP_LIMIT <= a <= FP_LIMIT && -FP_LIMIT <= b <= FP_LIMIT
                && -FP_LIMIT <= c <= FP_LIMIT && -FP_LIMIT <= d <= FP_LIMIT,
        InstrumentCommand::SetBothChronographs(a, b) =>
            -FP_LIMIT <= a <= FP_LIMIT && -FP_LIMIT <= b <= FP_LIMIT,
    }
}

} // verus!
