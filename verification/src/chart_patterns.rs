//! Chart patterns over swing sequences: their kinds and the lifecycle of a candidate.

use vstd::prelude::*;

use crate::bar::Bar;
use crate::swing::ZigZagNode;

verus! {

/// Lifecycle of a detected pattern candidate.
#[derive(Debug, Clone, Copy, PartialEq, Eq, Structural)]
pub enum PatternState {
    /// Still within its defining swing points; boundary not yet broken.
    Forming,
    /// Price broke out through a boundary in the pattern's implied direction.
    Confirmed,
    /// Price violated the pattern's structure without a valid breakout.
    Invalidated,
}

#[derive(Debug, Clone, Copy, PartialEq, Eq, Structural)]
pub enum ChartPatternKind {
    Triangle,
    RisingWedge,
    FallingWedge,
    ReversalOneTwoThree,
    WolfeWave,
    AutoTrendline,
    DoubleTop,
    DoubleBottom,
    TripleTop,
    TripleBottom,
    HeadAndShoulders,
    InverseHeadAndShoulders,
}

/// The kind resolves downward: a top rather than a bottom.
pub open spec fn top_kind(k: ChartPatternKind) -> bool {
    k == ChartPatternKind::DoubleTop || k == ChartPatternKind::TripleTop || k
        == ChartPatternKind::HeadAndShoulders
}

/// The reversal family, whose members share one lifecycle rule: break the neckline.
pub open spec fn reversal_kind(k: ChartPatternKind) -> bool {
    k == ChartPatternKind::DoubleTop || k == ChartPatternKind::DoubleBottom || k
        == ChartPatternKind::TripleTop || k == ChartPatternKind::TripleBottom || k
        == ChartPatternKind::HeadAndShoulders || k == ChartPatternKind::InverseHeadAndShoulders
}

impl ChartPatternKind {
    /// Whether this kind resolves downward. Only meaningful for the reversal family; the others
    /// carry their direction in their lines.
    pub fn is_top(self) -> (r: bool)
        ensures
            r == top_kind(self),
    {
        match self {
            ChartPatternKind::DoubleTop | ChartPatternKind::TripleTop
            | ChartPatternKind::HeadAndShoulders => true,
            _ => false,
        }
    }

    /// Whether this kind belongs to the reversal family.
    pub fn is_reversal_family(self) -> (r: bool)
        ensures
            r == reversal_kind(self),
    {
        match self {
            ChartPatternKind::DoubleTop | ChartPatternKind::DoubleBottom
            | ChartPatternKind::TripleTop | ChartPatternKind::TripleBottom
            | ChartPatternKind::HeadAndShoulders | ChartPatternKind::InverseHeadAndShoulders => true,
            _ => false,
        }
    }
}

/// Every top belongs to the reversal family.
pub proof fn tops_are_reversals(k: ChartPatternKind)
    requires
        top_kind(k),
    ensures
        reversal_kind(k),
{
}


/// A coordinate small enough for exact cross products: below 2^60 in magnitude.
pub open spec fn fits(x: int) -> bool {
    -0x1000_0000_0000_0000 < x < 0x1000_0000_0000_0000
}

/// A two-point price line through `(timestamp, price)` pairs, usable to project a value at any
/// timestamp.
#[derive(Debug, Clone, Copy, PartialEq, Eq)]
pub struct TrendLine {
    pub start: (i64, i64),
    pub end: (i64, i64),
}

pub open spec fn line_fits(l: TrendLine) -> bool {
    fits(l.start.0 as int) && fits(l.start.1 as int) && fits(l.end.0 as int) && fits(l.end.1 as int)
}

/// How far `price` lies above the line's value at `ts`, scaled by the line's time span: positive
/// above the line, negative below, zero on it. A line with no time span is flat at its start
/// price.
pub open spec fn excess(l: TrendLine, ts: int, price: int) -> int {
    let dt = l.end.0 - l.start.0;
    if dt == 0 {
        price - l.start.1
    } else {
        let d = price * dt - (l.start.1 * dt + (l.end.1 - l.start.1) * (ts - l.start.0));
        if dt > 0 {
            d
        } else {
            -d
        }
    }
}

impl TrendLine {
    /// The line from pivot `a` to pivot `b`.
    pub fn from_nodes(a: &ZigZagNode, b: &ZigZagNode) -> (r: Self)
        ensures
            r.start == (a.timestamp, a.price),
            r.end == (b.timestamp, b.price),
    {
        TrendLine { start: (a.timestamp, a.price), end: (b.timestamp, b.price) }
    }

    /// [`excess`], computed exactly.
    pub fn excess_at(&self, ts: i64, price: i64) -> (r: i128)
        requires
            line_fits(*self),
            fits(ts as int),
            fits(price as int),
        ensures
            r == excess(*self, ts as int, price as int),
    {
        let t0 = self.start.0 as i128;
        let p0 = self.start.1 as i128;
        let dt = self.end.0 as i128 - t0;
        let dp = self.end.1 as i128 - p0;
        if dt == 0 {
            return price as i128 - p0;
        }
        let x = price as i128;
        let u = ts as i128 - t0;
        assert(-0x2000_0000_0000_0000 < dt < 0x2000_0000_0000_0000);
        assert(-0x2000_0000_0000_0000 < u < 0x2000_0000_0000_0000);
        assert(-0x2000_0000_0000_0000 < dp < 0x2000_0000_0000_0000);
        assert(-0x2000_0000_0000_0000_0000_0000_0000_0000 < x * dt
            < 0x2000_0000_0000_0000_0000_0000_0000_0000) by (nonlinear_arith)
            requires
                -0x1000_0000_0000_0000 < x < 0x1000_0000_0000_0000,
                -0x2000_0000_0000_0000 < dt < 0x2000_0000_0000_0000,
        ;
        assert(-0x2000_0000_0000_0000_0000_0000_0000_0000 < p0 * dt
            < 0x2000_0000_0000_0000_0000_0000_0000_0000) by (nonlinear_arith)
            requires
                -0x1000_0000_0000_0000 < p0 < 0x1000_0000_0000_0000,
                -0x2000_0000_0000_0000 < dt < 0x2000_0000_0000_0000,
        ;
        assert(-0x4000_0000_0000_0000_0000_0000_0000_0000 < dp * u
            < 0x4000_0000_0000_0000_0000_0000_0000_0000) by (nonlinear_arith)
            requires
                -0x2000_0000_0000_0000 < dp < 0x2000_0000_0000_0000,
                -0x2000_0000_0000_0000 < u < 0x2000_0000_0000_0000,
        ;
        let d = x * dt - (p0 * dt + dp * u);
        if dt > 0 {
            d
        } else {
            -d
        }
    }

    /// Whether `price` lies strictly above the line at `ts`.
    pub fn is_above(&self, ts: i64, price: i64) -> (r: bool)
        requires
            line_fits(*self),
            fits(ts as int),
            fits(price as int),
        ensures
            r == (excess(*self, ts as int, price as int) > 0),
    {
        self.excess_at(ts, price) > 0
    }

    /// Whether `price` lies strictly below the line at `ts`.
    pub fn is_below(&self, ts: i64, price: i64) -> (r: bool)
        requires
            line_fits(*self),
            fits(ts as int),
            fits(price as int),
        ensures
            r == (excess(*self, ts as int, price as int) < 0),
    {
        self.excess_at(ts, price) < 0
    }
}

/// A detected pattern candidate.
#[derive(Debug, Clone, PartialEq, Eq)]
pub struct ChartPatternCandidate {
    pub kind: ChartPatternKind,
    pub nodes: Vec<ZigZagNode>,
    pub upper_line: Option<TrendLine>,
    pub lower_line: Option<TrendLine>,
    pub state: PatternState,
}

pub open spec fn opt_line_fits(l: Option<TrendLine>) -> bool {
    match l {
        Some(x) => line_fits(x),
        None => true,
    }
}

/// The candidate's coordinates fit exact arithmetic, and the kinds that read particular pivots
/// have them: three for a 1-2-3 reversal, five for a Wolfe wave.
pub open spec fn candidate_fits(c: ChartPatternCandidate) -> bool {
    &&& opt_line_fits(c.upper_line)
    &&& opt_line_fits(c.lower_line)
    &&& forall|i: int|
        0 <= i < c.nodes@.len() ==> fits(#[trigger] c.nodes@[i].price as int) && fits(
            c.nodes@[i].timestamp as int,
        )
    &&& c.kind == ChartPatternKind::ReversalOneTwoThree ==> c.nodes@.len() >= 3
    &&& c.kind == ChartPatternKind::WolfeWave ==> c.nodes@.len() >= 5
}

/// The highest pivot price, `None` for no pivots.
pub open spec fn max_price(s: Seq<ZigZagNode>) -> Option<i64>
    decreases s.len(),
{
    if s.len() == 0 {
        None
    } else {
        match max_price(s.drop_last()) {
            Some(m) => Some(if s.last().price > m {
                s.last().price
            } else {
                m
            }),
            None => Some(s.last().price),
        }
    }
}

/// The lowest pivot price, `None` for no pivots.
pub open spec fn min_price(s: Seq<ZigZagNode>) -> Option<i64>
    decreases s.len(),
{
    if s.len() == 0 {
        None
    } else {
        match min_price(s.drop_last()) {
            Some(m) => Some(if s.last().price < m {
                s.last().price
            } else {
                m
            }),
            None => Some(s.last().price),
        }
    }
}

/// The reversal family's rule: confirmed on a close through the neckline in the pattern's
/// direction, invalidated on a close past the pattern's own extreme, forming in between.
pub open spec fn reversal_next(c: ChartPatternCandidate, bar: Bar) -> PatternState {
    let top = top_kind(c.kind);
    let neckline = if top {
        c.lower_line
    } else {
        c.upper_line
    };
    match neckline {
        None => PatternState::Forming,
        Some(l) => {
            if top {
                if excess(l, bar.timestamp as int, bar.close as int) < 0 {
                    PatternState::Confirmed
                } else if (match max_price(c.nodes@) {
                    Some(m) => bar.close > m,
                    None => true,
                }) {
                    PatternState::Invalidated
                } else {
                    PatternState::Forming
                }
            } else {
                if excess(l, bar.timestamp as int, bar.close as int) > 0 {
                    PatternState::Confirmed
                } else if (match min_price(c.nodes@) {
                    Some(m) => bar.close < m,
                    None => true,
                }) {
                    PatternState::Invalidated
                } else {
                    PatternState::Forming
                }
            }
        },
    }
}

/// The state a forming candidate moves to on `bar`.
pub open spec fn next_state(c: ChartPatternCandidate, bar: Bar) -> PatternState {
    let ts = bar.timestamp as int;
    let close = bar.close as int;
    if reversal_kind(c.kind) {
        reversal_next(c, bar)
    } else if c.kind == ChartPatternKind::Triangle || c.kind == ChartPatternKind::RisingWedge
        || c.kind == ChartPatternKind::FallingWedge {
        match (c.upper_line, c.lower_line) {
            (Some(u), Some(l)) => if excess(u, ts, close) > 0 || excess(l, ts, close) < 0 {
                PatternState::Confirmed
            } else {
                PatternState::Forming
            },
            _ => PatternState::Forming,
        }
    } else if c.kind == ChartPatternKind::AutoTrendline {
        match c.upper_line {
            Some(u) => if excess(u, ts, close) > 0 {
                PatternState::Confirmed
            } else {
                PatternState::Forming
            },
            None => match c.lower_line {
                Some(l) => if excess(l, ts, close) < 0 {
                    PatternState::Confirmed
                } else {
                    PatternState::Forming
                },
                None => PatternState::Forming,
            },
        }
    } else if c.kind == ChartPatternKind::ReversalOneTwoThree {
        let n2 = c.nodes@[1];
        let n3 = c.nodes@[2];
        if n2.is_high {
            if bar.close < n3.price {
                PatternState::Confirmed
            } else if bar.close > n2.price {
                PatternState::Invalidated
            } else {
                PatternState::Forming
            }
        } else if bar.close > n3.price {
            PatternState::Confirmed
        } else if bar.close < n2.price {
            PatternState::Invalidated
        } else {
            PatternState::Forming
        }
    } else {
        let n5 = c.nodes@[4];
        let target = TrendLine {
            start: (c.nodes@[0].timestamp, c.nodes@[0].price),
            end: (c.nodes@[3].timestamp, c.nodes@[3].price),
        };
        let reverting = if n5.is_high {
            bar.close < n5.price && excess(target, ts, close) >= 0
        } else {
            bar.close > n5.price && excess(target, ts, close) <= 0
        };
        let continuing = if n5.is_high {
            bar.close > n5.price
        } else {
            bar.close < n5.price
        };
        if reverting {
            PatternState::Confirmed
        } else if continuing {
            PatternState::Invalidated
        } else {
            PatternState::Forming
        }
    }
}


/// The highest and lowest pivot prices, exactly as [`max_price`] and [`min_price`] give them.
fn price_extremes(nodes: &Vec<ZigZagNode>) -> (r: (Option<i64>, Option<i64>))
    ensures
        r.0 == max_price(nodes@),
        r.1 == min_price(nodes@),
{
    let mut hi: Option<i64> = None;
    let mut lo: Option<i64> = None;
    let mut i: usize = 0;
    while i < nodes.len()
        invariant
            i <= nodes@.len(),
            hi == max_price(nodes@.subrange(0, i as int)),
            lo == min_price(nodes@.subrange(0, i as int)),
        decreases nodes@.len() - i,
    {
        let p = nodes[i].price;
        assert(nodes@.subrange(0, i + 1).drop_last() =~= nodes@.subrange(0, i as int));
        hi = match hi {
            Some(m) => Some(
                if p > m {
                    p
                } else {
                    m
                },
            ),
            None => Some(p),
        };
        lo = match lo {
            Some(m) => Some(
                if p < m {
                    p
                } else {
                    m
                },
            ),
            None => Some(p),
        };
        i = i + 1;
    }
    assert(nodes@.subrange(0, nodes@.len() as int) =~= nodes@);
    (hi, lo)
}

impl ChartPatternCandidate {
    /// The reversal family's rule; see [`reversal_next`].
    fn update_reversal_state(&self, bar: &Bar) -> (r: PatternState)
        requires
            candidate_fits(*self),
            fits(bar.timestamp as int),
            fits(bar.close as int),
        ensures
            r == reversal_next(*self, *bar),
    {
        let top = self.kind.is_top();
        let neckline = if top {
            self.lower_line
        } else {
            self.upper_line
        };
        let line = match neckline {
            Some(l) => l,
            None => {
                return PatternState::Forming;
            },
        };
        let (hi, lo) = price_extremes(&self.nodes);
        if top {
            if line.is_below(bar.timestamp, bar.close) {
                PatternState::Confirmed
            } else if match hi {
                Some(m) => bar.close > m,
                None => true,
            } {
                PatternState::Invalidated
            } else {
                PatternState::Forming
            }
        } else {
            if line.is_above(bar.timestamp, bar.close) {
                PatternState::Confirmed
            } else if match lo {
                Some(m) => bar.close < m,
                None => true,
            } {
                PatternState::Invalidated
            } else {
                PatternState::Forming
            }
        }
    }

    /// Advances this candidate's lifecycle given a subsequent bar and returns the resulting
    /// state. A no-op once `Confirmed` or `Invalidated`: those are terminal.
    pub fn update_state(&mut self, bar: &Bar) -> (r: PatternState)
        requires
            old(self).state == PatternState::Forming ==> {
                &&& candidate_fits(*old(self))
                &&& fits(bar.timestamp as int)
                &&& fits(bar.close as int)
            },
        ensures
            final(self).kind == old(self).kind,
            final(self).nodes@ == old(self).nodes@,
            final(self).upper_line == old(self).upper_line,
            final(self).lower_line == old(self).lower_line,
            final(self).state == (if old(self).state == PatternState::Forming {
                next_state(*old(self), *bar)
            } else {
                old(self).state
            }),
            r == final(self).state,
    {
        if self.state != PatternState::Forming {
            return self.state;
        }
        if self.kind.is_reversal_family() {
            self.state = self.update_reversal_state(bar);
            return self.state;
        }
        let ts = bar.timestamp;
        let close = bar.close;
        let next = match self.kind {
            ChartPatternKind::Triangle | ChartPatternKind::RisingWedge
            | ChartPatternKind::FallingWedge => match (self.upper_line, self.lower_line) {
                (Some(upper), Some(lower)) => {
                    if upper.is_above(ts, close) || lower.is_below(ts, close) {
                        PatternState::Confirmed
                    } else {
                        PatternState::Forming
                    }
                },
                _ => PatternState::Forming,
            },
            ChartPatternKind::AutoTrendline => match self.upper_line {
                Some(upper) => if upper.is_above(ts, close) {
                    PatternState::Confirmed
                } else {
                    PatternState::Forming
                },
                None => match self.lower_line {
                    Some(lower) => if lower.is_below(ts, close) {
                        PatternState::Confirmed
                    } else {
                        PatternState::Forming
                    },
                    None => PatternState::Forming,
                },
            },
            ChartPatternKind::ReversalOneTwoThree => {
                let n2 = self.nodes[1];
                let n3 = self.nodes[2];
                if n2.is_high {
                    if close < n3.price {
                        PatternState::Confirmed
                    } else if close > n2.price {
                        PatternState::Invalidated
                    } else {
                        PatternState::Forming
                    }
                } else if close > n3.price {
                    PatternState::Confirmed
                } else if close < n2.price {
                    PatternState::Invalidated
                } else {
                    PatternState::Forming
                }
            },
            _ => {
                let n5 = self.nodes[4];
                let target = TrendLine::from_nodes(&self.nodes[0], &self.nodes[3]);
                let reverting = if n5.is_high {
                    close < n5.price && !target.is_below(ts, close)
                } else {
                    close > n5.price && !target.is_above(ts, close)
                };
                let continuing = if n5.is_high {
                    close > n5.price
                } else {
                    close < n5.price
                };
                if reverting {
                    PatternState::Confirmed
                } else if continuing {
                    PatternState::Invalidated
                } else {
                    PatternState::Forming
                }
            },
        };
        self.state = next;
        next
    }
}

/// The state after one bar, as `update_state` leaves it.
pub open spec fn step(c: ChartPatternCandidate, bar: Bar) -> PatternState {
    if c.state == PatternState::Forming {
        next_state(c, bar)
    } else {
        c.state
    }
}

/// The state after feeding `bars` in order, one `update_state` call each.
pub open spec fn state_after(c: ChartPatternCandidate, bars: Seq<Bar>) -> PatternState
    decreases bars.len(),
{
    if bars.len() == 0 {
        c.state
    } else {
        state_after(ChartPatternCandidate { state: step(c, bars[0]), ..c }, bars.drop_first())
    }
}

proof fn lemma_min_max_price(s: Seq<ZigZagNode>)
    requires
        s.len() > 0,
    ensures
        min_price(s) is Some,
        max_price(s) is Some,
        forall|i: int| 0 <= i < s.len() ==> min_price(s)->0 <= #[trigger] s[i].price,
        forall|i: int| 0 <= i < s.len() ==> max_price(s)->0 >= #[trigger] s[i].price,
        exists|i: int| 0 <= i < s.len() && #[trigger] s[i].price == min_price(s)->0,
        exists|i: int| 0 <= i < s.len() && #[trigger] s[i].price == max_price(s)->0,
    decreases s.len(),
{
    let t = s.drop_last();
    if t.len() > 0 {
        lemma_min_max_price(t);
        assert forall|i: int| 0 <= i < s.len() implies min_price(s)->0 <= #[trigger] s[i].price
            && max_price(s)->0 >= s[i].price by {
            if i < t.len() {
                assert(s[i] == t[i]);
            }
        }
        let j = choose|j: int| 0 <= j < t.len() && #[trigger] t[j].price == min_price(t)->0;
        let k = choose|k: int| 0 <= k < t.len() && #[trigger] t[k].price == max_price(t)->0;
        assert(s[j] == t[j]);
        assert(s[k] == t[k]);
        assert(s[s.len() - 1] == s.last());
    } else {
        assert(s[0] == s.last());
    }
}

/// A bottom of the reversal family (double or triple bottom, inverse head and shoulders) with a
/// neckline is confirmed by a close above the neckline. Otherwise it is invalidated exactly when
/// the close lies below every one of its pivots, and keeps forming while the close is at or above
/// at least one of them.
pub proof fn bottoms_fail_only_below_every_pivot(c: ChartPatternCandidate, bar: Bar)
    requires
        reversal_kind(c.kind),
        !top_kind(c.kind),
        c.upper_line is Some,
        c.nodes@.len() > 0,
    ensures
        ({
            let l = c.upper_line->0;
            let e = excess(l, bar.timestamp as int, bar.close as int);
            let n = next_state(c, bar);
            &&& (n == PatternState::Confirmed) == (e > 0)
            &&& (n == PatternState::Invalidated) == (e <= 0 && forall|i: int|
                0 <= i < c.nodes@.len() ==> bar.close < #[trigger] c.nodes@[i].price)
            &&& (n == PatternState::Forming) == (e <= 0 && exists|i: int|
                0 <= i < c.nodes@.len() && bar.close >= #[trigger] c.nodes@[i].price)
        }),
{
    lemma_min_max_price(c.nodes@);
    let m = min_price(c.nodes@)->0;
    let j = choose|j: int| 0 <= j < c.nodes@.len() && #[trigger] c.nodes@[j].price == m;
    assert(c.nodes@[j].price == m);
}

/// A top of the reversal family (double or triple top, head and shoulders) with a neckline is
/// confirmed by a close below the neckline. Otherwise it is invalidated exactly when the close lies
/// above every one of its pivots, and keeps forming while the close is at or below at least one
/// of them.
pub proof fn tops_fail_only_above_every_pivot(c: ChartPatternCandidate, bar: Bar)
    requires
        top_kind(c.kind),
        c.lower_line is Some,
        c.nodes@.len() > 0,
    ensures
        ({
            let l = c.lower_line->0;
            let e = excess(l, bar.timestamp as int, bar.close as int);
            let n = next_state(c, bar);
            &&& (n == PatternState::Confirmed) == (e < 0)
            &&& (n == PatternState::Invalidated) == (e >= 0 && forall|i: int|
                0 <= i < c.nodes@.len() ==> bar.close > #[trigger] c.nodes@[i].price)
            &&& (n == PatternState::Forming) == (e >= 0 && exists|i: int|
                0 <= i < c.nodes@.len() && bar.close <= #[trigger] c.nodes@[i].price)
        }),
{
    lemma_min_max_price(c.nodes@);
    let m = max_price(c.nodes@)->0;
    let j = choose|j: int| 0 <= j < c.nodes@.len() && #[trigger] c.nodes@[j].price == m;
    assert(c.nodes@[j].price == m);
}

/// A reversal-family pattern without its neckline cannot break it, and keeps forming.
pub proof fn reversals_without_a_neckline_keep_forming(c: ChartPatternCandidate, bar: Bar)
    requires
        reversal_kind(c.kind),
        top_kind(c.kind) ==> c.lower_line is None,
        !top_kind(c.kind) ==> c.upper_line is None,
    ensures
        next_state(c, bar) == PatternState::Forming,
{
}

/// Confirmed and invalidated are terminal: once a candidate has left `Forming`, no sequence of
/// later bars moves it again.
pub proof fn terminal_states_are_final(c: ChartPatternCandidate, bars: Seq<Bar>)
    requires
        c.state != PatternState::Forming,
    ensures
        state_after(c, bars) == c.state,
    decreases bars.len(),
{
    if bars.len() > 0 {
        terminal_states_are_final(ChartPatternCandidate { state: step(c, bars[0]), ..c }, bars.drop_first());
    }
}

} // verus!
