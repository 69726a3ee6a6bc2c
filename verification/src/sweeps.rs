//! Liquidity sweeps of confirmed pivots, and clusters of equal highs and lows.

use vstd::prelude::*;

use std::collections::VecDeque;

use crate::bar::{slide, Bar};
use crate::structure::{window_high_at, window_low_at};

verus! {

/// How many pivot levels of each side are remembered.
pub const MAX_PIVOTS: usize = 20;

/// Appends `x`, keeping the newest `MAX_PIVOTS`.
pub open spec fn remember(s: Seq<i64>, x: i64) -> Seq<i64> {
    let p = s.push(x);
    if p.len() > MAX_PIVOTS {
        p.drop_first()
    } else {
        p
    }
}

/// Two neighbouring pivot levels count as equal when they differ by at most `tol` thousandths of
/// a percent of the first. A first level below zero makes the relative difference negative, so
/// such a pair always counts; a first level of zero never does.
pub open spec fn equal_levels(a: i64, b: i64, tol: int) -> bool {
    if a > 0 {
        100000 * (if a >= b {
            a - b
        } else {
            b - a
        }) <= tol * a
    } else {
        a < 0
    }
}

/// How many neighbouring pairs of `s` are equal levels.
pub open spec fn equal_pairs(s: Seq<i64>, tol: int) -> nat
    decreases s.len(),
{
    if s.len() < 2 {
        0
    } else {
        equal_pairs(s.drop_last(), tol) + if equal_levels(s[s.len() - 2], s.last(), tol) {
            1nat
        } else {
            0nat
        }
    }
}

/// Some remembered high was pierced by the bar's high while the close fell back below it.
pub open spec fn sweeps_a_high(highs: Seq<i64>, b: Bar) -> bool {
    exists|i: int| 0 <= i < highs.len() && b.high > #[trigger] highs[i] && b.close < highs[i]
}

/// Some remembered low was pierced by the bar's low while the close came back above it.
pub open spec fn sweeps_a_low(lows: Seq<i64>, b: Bar) -> bool {
    exists|i: int| 0 <= i < lows.len() && b.low < #[trigger] lows[i] && b.close > lows[i]
}

/// One bar's reading.
#[derive(Debug, Clone, Copy, PartialEq, Eq)]
pub struct SweepReading {
    /// `-1` for a swept and reclaimed high, `1` for a swept and reclaimed low, `0` for none.
    pub sweep: i8,
    /// Neighbouring remembered highs that are equal.
    pub eqh_count: usize,
    /// Neighbouring remembered lows that are equal.
    pub eql_count: usize,
}

/// Liquidity sweep and equal high/low detector over a centred pivot window of
/// `2 * pivot_len + 1` bars. The tolerance for equal levels is in thousandths of a percent.
pub struct LiquiditySweepEngine {
    pivot_len: usize,
    tolerance: u64,
    bars: VecDeque<Bar>,
    pivot_highs: Vec<i64>,
    pivot_lows: Vec<i64>,
    sweep_detected: i8,
}

impl LiquiditySweepEngine {
    pub closed spec fn pivot_len(&self) -> int {
        self.pivot_len as int
    }

    pub closed spec fn tolerance(&self) -> int {
        self.tolerance as int
    }

    pub closed spec fn window(&self) -> Seq<Bar> {
        self.bars@
    }

    pub closed spec fn highs(&self) -> Seq<i64> {
        self.pivot_highs@
    }

    pub closed spec fn lows(&self) -> Seq<i64> {
        self.pivot_lows@
    }

    pub closed spec fn sweep(&self) -> i8 {
        self.sweep_detected
    }

    pub closed spec fn inv(&self) -> bool {
        &&& self.pivot_len >= 2
        &&& self.bars@.len() <= 2 * self.pivot_len + 1
        &&& self.pivot_highs@.len() <= MAX_PIVOTS
        &&& self.pivot_lows@.len() <= MAX_PIVOTS
    }

    /// A detector with a pivot reach of `pivot_len` (at least two) and an equal-level tolerance of
    /// `tolerance` thousandths of a percent (at least ten).
    pub fn new(pivot_len: usize, tolerance: u64) -> (r: Self)
        ensures
            r.inv(),
            r.pivot_len() == if pivot_len >= 2 {
                pivot_len as int
            } else {
                2
            },
            r.tolerance() == if tolerance < 10 {
                10
            } else {
                tolerance as int
            },
            r.window() == Seq::<Bar>::empty(),
            r.highs() == Seq::<i64>::empty(),
            r.lows() == Seq::<i64>::empty(),
            r.sweep() == 0,
    {
        LiquiditySweepEngine {
            pivot_len: if pivot_len >= 2 {
                pivot_len
            } else {
                2
            },
            tolerance: if tolerance < 10 {
                10
            } else {
                tolerance
            },
            bars: VecDeque::new(),
            pivot_highs: Vec::new(),
            pivot_lows: Vec::new(),
            sweep_detected: 0,
        }
    }

    /// Pivot reach 5, tolerance 0.2 %.
    pub fn with_defaults() -> (r: Self)
        ensures
            r.inv(),
            r.pivot_len() == 5,
            r.tolerance() == 200,
            r.window() == Seq::<Bar>::empty(),
            r.highs() == Seq::<i64>::empty(),
            r.lows() == Seq::<i64>::empty(),
            r.sweep() == 0,
    {
        Self::new(5, 200)
    }

    pub fn name(&self) -> (r: &'static str)
        ensures
            r@ == "liquidity_sweeps"@,
    {
        "liquidity_sweeps"
    }

    pub fn warmup_period(&self) -> (r: usize)
        requires
            2 * self.pivot_len() + 1 <= usize::MAX,
        ensures
            r == 2 * self.pivot_len() + 1,
    {
        self.pivot_len * 2 + 1
    }

    /// Forgets the bars and pivots; the configuration stays.
    pub fn reset(&mut self)
        requires
            old(self).inv(),
        ensures
            final(self).inv(),
            final(self).pivot_len() == old(self).pivot_len(),
            final(self).tolerance() == old(self).tolerance(),
            final(self).window() == Seq::<Bar>::empty(),
            final(self).highs() == Seq::<i64>::empty(),
            final(self).lows() == Seq::<i64>::empty(),
            final(self).sweep() == 0,
    {
        self.bars = VecDeque::new();
        self.pivot_highs = Vec::new();
        self.pivot_lows = Vec::new();
        self.sweep_detected = 0;
    }

    /// The alert note of the latest sweep; every sweep is reported under the kind `sweep`.
    pub fn alert_note(&self) -> (r: Option<&'static str>)
        ensures
            r == if self.sweep() == 1 {
                Some("Bullish Liquidity Sweep & Reclaim")
            } else if self.sweep() == -1 {
                Some("Bearish Liquidity Sweep & Reclaim")
            } else {
                None::<&'static str>
            },
    {
        if self.sweep_detected == 1 {
            Some("Bullish Liquidity Sweep & Reclaim")
        } else if self.sweep_detected == -1 {
            Some("Bearish Liquidity Sweep & Reclaim")
        } else {
            None
        }
    }

    /// Feeds one bar. `None` while the pivot window is not yet full.
    pub fn on_bar(&mut self, bar: &Bar) -> (r: Option<SweepReading>)
        requires
            old(self).inv(),
            2 * old(self).pivot_len() + 1 <= usize::MAX,
        ensures
            final(self).inv(),
            final(self).pivot_len() == old(self).pivot_len(),
            final(self).tolerance() == old(self).tolerance(),
            final(self).window() == slide(old(self).window(), *bar, 2 * old(self).pivot_len() + 1),
            ({
                let w = final(self).window();
                let m = old(self).pivot_len();
                if w.len() < 2 * m + 1 {
                    &&& r.is_none()
                    &&& final(self).highs() == old(self).highs()
                    &&& final(self).lows() == old(self).lows()
                    &&& final(self).sweep() == old(self).sweep()
                } else {
                    let highs = if window_high_at(w, m) {
                        remember(old(self).highs(), w[m].high)
                    } else {
                        old(self).highs()
                    };
                    let lows = if window_low_at(w, m) {
                        remember(old(self).lows(), w[m].low)
                    } else {
                        old(self).lows()
                    };
                    let sweep: i8 = if sweeps_a_high(highs, *bar) {
                        -1i8
                    } else if sweeps_a_low(lows, *bar) {
                        1
                    } else {
                        0
                    };
                    &&& final(self).highs() == highs
                    &&& final(self).lows() == lows
                    &&& final(self).sweep() == sweep
                    &&& r == Some(
                        SweepReading {
                            sweep,
                            eqh_count: equal_pairs(highs, old(self).tolerance()) as usize,
                            eql_count: equal_pairs(lows, old(self).tolerance()) as usize,
                        },
                    )
                }
            }),
    {
        let cap = self.pivot_len * 2 + 1;
        let ghost pushed = self.bars@.push(*bar);
        self.bars.push_back(*bar);
        if self.bars.len() > cap {
            let _ = self.bars.pop_front();
            assert(self.bars@ =~= pushed.drop_first());
        }
        let n = self.bars.len();
        if n < cap {
            return None;
        }
        let m = self.pivot_len;
        let mid_high = self.bars[m].high;
        let mid_low = self.bars[m].low;
        let mut is_pivot_high = true;
        let mut is_pivot_low = true;
        let mut i: usize = 0;
        while i < n
            invariant
                n == self.bars@.len(),
                m < n,
                i <= n,
                mid_high == self.bars@[m as int].high,
                mid_low == self.bars@[m as int].low,
                is_pivot_high == (forall|j: int|
                    0 <= j < i && j != m ==> #[trigger] self.bars@[j].high <= mid_high),
                is_pivot_low == (forall|j: int|
                    0 <= j < i && j != m ==> #[trigger] self.bars@[j].low >= mid_low),
            decreases n - i,
        {
            if i != m {
                let b = self.bars[i];
                if b.high > mid_high {
                    is_pivot_high = false;
                }
                if b.low < mid_low {
                    is_pivot_low = false;
                }
            }
            i = i + 1;
        }
        if is_pivot_high {
            remember_level(&mut self.pivot_highs, mid_high);
        }
        if is_pivot_low {
            remember_level(&mut self.pivot_lows, mid_low);
        }
        self.sweep_detected = 0;
        if any_high_swept(&self.pivot_highs, bar) {
            self.sweep_detected = -1;
        } else if any_low_swept(&self.pivot_lows, bar) {
            self.sweep_detected = 1;
        }
        let eqh = count_equal_pairs(&self.pivot_highs, self.tolerance);
        let eql = count_equal_pairs(&self.pivot_lows, self.tolerance);
        Some(SweepReading { sweep: self.sweep_detected, eqh_count: eqh, eql_count: eql })
    }
}

fn remember_level(levels: &mut Vec<i64>, x: i64)
    requires
        old(levels)@.len() <= MAX_PIVOTS,
    ensures
        final(levels)@ == remember(old(levels)@, x),
        final(levels)@.len() <= MAX_PIVOTS,
{
    let ghost pushed = levels@.push(x);
    levels.push(x);
    if levels.len() > MAX_PIVOTS {
        levels.remove(0);
        assert(levels@ =~= pushed.drop_first());
    }
}

fn any_high_swept(highs: &Vec<i64>, bar: &Bar) -> (r: bool)
    ensures
        r == sweeps_a_high(highs@, *bar),
{
    let mut i: usize = 0;
    while i < highs.len()
        invariant
            i <= highs@.len(),
            forall|j: int| 0 <= j < i ==> !(bar.high > #[trigger] highs@[j] && bar.close < highs@[j]),
        decreases highs@.len() - i,
    {
        if bar.high > highs[i] && bar.close < highs[i] {
            return true;
        }
        i = i + 1;
    }
    false
}

fn any_low_swept(lows: &Vec<i64>, bar: &Bar) -> (r: bool)
    ensures
        r == sweeps_a_low(lows@, *bar),
{
    let mut i: usize = 0;
    while i < lows.len()
        invariant
            i <= lows@.len(),
            forall|j: int| 0 <= j < i ==> !(bar.low < #[trigger] lows@[j] && bar.close > lows@[j]),
        decreases lows@.len() - i,
    {
        if bar.low < lows[i] && bar.close > lows[i] {
            return true;
        }
        i = i + 1;
    }
    false
}

fn is_equal_level(a: i64, b: i64, tol: u64) -> (r: bool)
    ensures
        r == equal_levels(a, b, tol as int),
{
    if a > 0 {
        let d: i128 = if a >= b {
            a as i128 - b as i128
        } else {
            b as i128 - a as i128
        };
        assert(0 <= d < 0x1_0000_0000_0000_0000);
        assert(tol as i128 * a as i128 <= 0xffff_ffff_ffff_ffff * 0x7fff_ffff_ffff_ffff) by (nonlinear_arith)
            requires
                0 <= tol <= 0xffff_ffff_ffff_ffff,
                0 < a <= 0x7fff_ffff_ffff_ffff,
        ;
        assert(0 <= tol as i128 * a as i128) by (nonlinear_arith)
            requires
                0 <= tol,
                0 < a,
        ;
        100000 * d <= tol as i128 * a as i128
    } else {
        a < 0
    }
}

fn count_equal_pairs(levels: &Vec<i64>, tol: u64) -> (r: usize)
    requires
        levels@.len() <= MAX_PIVOTS,
    ensures
        r == equal_pairs(levels@, tol as int),
{
    let n = levels.len();
    if n < 2 {
        return 0;
    }
    let mut count: usize = 0;
    let mut i: usize = 1;
    while i < n
        invariant
            n == levels@.len(),
            n <= MAX_PIVOTS,
            1 <= i <= n,
            count == equal_pairs(levels@.subrange(0, i as int), tol as int),
            count <= i,
        decreases n - i,
    {
        let ghost s = levels@.subrange(0, i + 1);
        assert(s.drop_last() =~= levels@.subrange(0, i as int));
        assert(s[s.len() - 2] == levels@[i - 1]);
        if is_equal_level(levels[i - 1], levels[i], tol) {
            count = count + 1;
        }
        i = i + 1;
    }
    assert(levels@.subrange(0, n as int) =~= levels@);
    count
}

} // verus!
