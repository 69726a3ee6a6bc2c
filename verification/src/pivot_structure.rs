//! Market structure score from confirmed pivots.
//!
//! On every bar the one `right_bars` before the newest is the candidate: a pivot high when its
//! high is strictly above the high of every other bar from `left_bars` before to `right_bars`
//! after it, a pivot low likewise for lows. Each pivot is compared with the previous one of its
//! kind: a higher high scores +2, an equal or lower high -1, a higher low +1, an equal or lower
//! low -2; the first pivot of each kind only seeds the comparison. A bar that scored adds the sum
//! of its comparisons to a window of the last `score_window` such sums. The score is
//! `100 · sum / (2 · score_window)`, clamped to `-100..=100`, and 0 while nothing has scored; it
//! signals a bullish bias from 50 up and a bearish one from -50 down.

use vstd::prelude::*;

use crate::bar::{slide, slide_window, Bar};

verus! {

/// The bias a strong score signals.
#[derive(Debug, Clone, Copy, PartialEq, Eq, Structural)]
pub enum StructureBias {
    Bullish,
    Bearish,
}

impl StructureBias {
    /// The alert kind under which the bias is reported.
    pub fn kind(&self) -> (r: &'static str)
        ensures
            r@ == match *self {
                StructureBias::Bullish => "structure_bullish_bias"@,
                StructureBias::Bearish => "structure_bearish_bias"@,
            },
    {
        match self {
            StructureBias::Bullish => "structure_bullish_bias",
            StructureBias::Bearish => "structure_bearish_bias",
        }
    }
}

/// The score of a bar: the sum of the scoring window, how many bars it holds, and the bias
/// signalled. The score itself is `100 · sum / (2 · window)` clamped to `-100..=100`, or 0 for an
/// empty window.
#[derive(Debug, Clone, Copy, PartialEq, Eq)]
pub struct StructureScore {
    pub sum: i128,
    pub scored: usize,
    pub window: usize,
    pub bias: Option<StructureBias>,
}

/// Bar `c` of `w` has a strictly higher high than every other bar from `l` before to `r` after it.
pub open spec fn pivot_high_between(w: Seq<Bar>, c: int, l: int, r: int) -> bool {
    forall|j: int| c - l <= j <= c + r && j != c ==> #[trigger] w[j].high < w[c].high
}

/// Bar `c` of `w` has a strictly lower low than every other bar from `l` before to `r` after it.
pub open spec fn pivot_low_between(w: Seq<Bar>, c: int, l: int, r: int) -> bool {
    forall|j: int| c - l <= j <= c + r && j != c ==> #[trigger] w[j].low > w[c].low
}

/// Appends `x` to the score window `s`, dropping the oldest once more than `cap` are kept.
pub open spec fn slide_scores(s: Seq<i64>, x: i64, cap: int) -> Seq<i64> {
    let p = s.push(x);
    if p.len() > cap {
        p.drop_first()
    } else {
        p
    }
}

pub open spec fn sum_of(s: Seq<i64>) -> int
    decreases s.len(),
{
    if s.len() == 0 {
        0
    } else {
        sum_of(s.drop_last()) + s.last()
    }
}

/// What a new pivot high scores against the previous one: +2 above it, -1 otherwise, nothing for
/// the first.
pub open spec fn high_score(prev: Option<i64>, high: i64) -> Option<int> {
    match prev {
        Some(p) => Some(if high > p { 2 } else { -1 }),
        None => None,
    }
}

/// What a new pivot low scores against the previous one: +1 above it, -2 otherwise, nothing for
/// the first.
pub open spec fn low_score(prev: Option<i64>, low: i64) -> Option<int> {
    match prev {
        Some(p) => Some(if low > p { 1 } else { -2 }),
        None => None,
    }
}

/// The bias of a score window: bullish when the score reaches 50, that is when the sum reaches
/// the window length, bearish when it falls to -50.
pub open spec fn bias_of(sum: int, scored: int, window: int) -> Option<StructureBias> {
    if scored == 0 {
        None
    } else if sum >= window {
        Some(StructureBias::Bullish)
    } else if sum <= -window {
        Some(StructureBias::Bearish)
    } else {
        None
    }
}

pub struct PivotStructureEngine {
    left_bars: usize,
    right_bars: usize,
    score_window: usize,
    bars: Vec<Bar>,
    pivot_scores: Vec<i64>,
    last_high: Option<i64>,
    last_low: Option<i64>,
    prev_high: Option<i64>,
    prev_low: Option<i64>,
    bias: Option<StructureBias>,
}

impl PivotStructureEngine {
    pub closed spec fn left(&self) -> int {
        self.left_bars as int
    }

    pub closed spec fn right(&self) -> int {
        self.right_bars as int
    }

    pub closed spec fn window_len(&self) -> int {
        self.score_window as int
    }

    /// The bars kept, oldest first.
    pub closed spec fn kept(&self) -> Seq<Bar> {
        self.bars@
    }

    /// The scores of the last scoring bars, oldest first.
    pub closed spec fn scores(&self) -> Seq<i64> {
        self.pivot_scores@
    }

    /// The latest pivot high and low.
    pub closed spec fn latest(&self) -> (Option<i64>, Option<i64>) {
        (self.last_high, self.last_low)
    }

    /// The pivot high and low before the latest ones.
    pub closed spec fn earlier(&self) -> (Option<i64>, Option<i64>) {
        (self.prev_high, self.prev_low)
    }

    /// The bias signalled on the latest bar.
    pub closed spec fn signalled(&self) -> Option<StructureBias> {
        self.bias
    }

    pub closed spec fn inv(&self) -> bool {
        &&& self.bars@.len() <= 4 * (self.left_bars + self.right_bars + 1)
        &&& self.pivot_scores@.len() <= self.score_window
        &&& forall|i: int|
            0 <= i < self.pivot_scores@.len() ==> -3 <= #[trigger] self.pivot_scores@[i] <= 3
    }

    pub fn new(left_bars: usize, right_bars: usize, score_window: usize) -> (r: Self)
        ensures
            r.inv(),
            r.left() == left_bars,
            r.right() == right_bars,
            r.window_len() == score_window,
            r.kept() == Seq::<Bar>::empty(),
            r.scores() == Seq::<i64>::empty(),
            r.latest() == (None::<i64>, None::<i64>),
            r.earlier() == (None::<i64>, None::<i64>),
            r.signalled() is None,
    {
        PivotStructureEngine {
            left_bars,
            right_bars,
            score_window,
            bars: Vec::new(),
            pivot_scores: Vec::new(),
            last_high: None,
            last_low: None,
            prev_high: None,
            prev_low: None,
            bias: None,
        }
    }

    pub fn name(&self) -> (r: &'static str)
        ensures
            r@ == "pivots_structure"@,
    {
        "pivots_structure"
    }

    /// Bars before the first output.
    pub fn warmup_period(&self) -> (r: usize)
        requires
            self.left() + self.right() + 1 <= usize::MAX,
        ensures
            r == self.left() + self.right() + 1,
    {
        self.left_bars + self.right_bars + 1
    }

    pub fn reset(&mut self)
        ensures
            final(self).inv(),
            final(self).left() == old(self).left(),
            final(self).right() == old(self).right(),
            final(self).window_len() == old(self).window_len(),
            final(self).kept() == Seq::<Bar>::empty(),
            final(self).scores() == Seq::<i64>::empty(),
            final(self).latest() == (None::<i64>, None::<i64>),
            final(self).earlier() == (None::<i64>, None::<i64>),
            final(self).signalled() is None,
    {
        self.bars = Vec::new();
        self.pivot_scores = Vec::new();
        self.last_high = None;
        self.last_low = None;
        self.prev_high = None;
        self.prev_low = None;
        self.bias = None;
    }

    /// The bias signalled on the latest bar, if any.
    pub fn alerts(&self) -> (r: Option<StructureBias>)
        ensures
            r == self.signalled(),
    {
        self.bias
    }

    /// Feeds one bar. `None` while fewer than `left_bars + right_bars + 1` bars are kept;
    /// otherwise the score of the scoring window after this bar.
    pub fn on_bar(&mut self, bar: &Bar) -> (r: Option<StructureScore>)
        requires
            old(self).inv(),
            4 * (old(self).left() + old(self).right() + 1) <= usize::MAX,
        ensures
            final(self).inv(),
            final(self).left() == old(self).left(),
            final(self).right() == old(self).right(),
            final(self).window_len() == old(self).window_len(),
            final(self).kept() == slide(
                old(self).kept(),
                *bar,
                4 * (old(self).left() + old(self).right() + 1),
            ),
            ({
                let w = final(self).kept();
                let (l, rt) = (old(self).left(), old(self).right());
                if w.len() < l + rt + 1 {
                    &&& r is None
                    &&& final(self).scores() == old(self).scores()
                    &&& final(self).latest() == old(self).latest()
                    &&& final(self).earlier() == old(self).earlier()
                    &&& final(self).signalled() is None
                } else {
                    let c = w.len() - 1 - rt;
                    let ph = pivot_high_between(w, c, l, rt);
                    let pl = pivot_low_between(w, c, l, rt);
                    let (lh, ll) = old(self).latest();
                    let (eh, el) = old(self).earlier();
                    let sh = if ph {
                        high_score(lh, w[c].high)
                    } else {
                        None
                    };
                    let sl = if pl {
                        low_score(ll, w[c].low)
                    } else {
                        None
                    };
                    let cur = (match sh {
                        Some(x) => x,
                        None => 0,
                    }) + (match sl {
                        Some(x) => x,
                        None => 0,
                    });
                    let scores = if sh is Some || sl is Some {
                        slide_scores(old(self).scores(), cur as i64, old(self).window_len())
                    } else {
                        old(self).scores()
                    };
                    &&& final(self).latest() == (
                        if ph {
                            Some(w[c].high)
                        } else {
                            lh
                        },
                        if pl {
                            Some(w[c].low)
                        } else {
                            ll
                        },
                    )
                    &&& final(self).earlier() == (
                        if ph {
                            lh
                        } else {
                            eh
                        },
                        if pl {
                            ll
                        } else {
                            el
                        },
                    )
                    &&& final(self).scores() == scores
                    &&& r == Some(
                        StructureScore {
                            sum: sum_of(scores) as i128,
                            scored: scores.len() as usize,
                            window: old(self).window_len() as usize,
                            bias: bias_of(sum_of(scores), scores.len() as int, old(self).window_len()),
                        },
                    )
                    &&& final(self).signalled() == bias_of(
                        sum_of(scores),
                        scores.len() as int,
                        old(self).window_len(),
                    )
                }
            }),
    {
        let span = self.left_bars + self.right_bars + 1;
        slide_window(&mut self.bars, *bar, span * 4);
        self.bias = None;
        let n = self.bars.len();
        if n < span {
            return None;
        }
        let c = n - 1 - self.right_bars;
        let cand_high = self.bars[c].high;
        let cand_low = self.bars[c].low;
        let mut is_high = true;
        let mut is_low = true;
        let mut i = c - self.left_bars;
        while i <= c + self.right_bars
            invariant
                n == self.bars@.len(),
                c + self.right_bars == n - 1,
                c >= self.left_bars,
                c - self.left_bars <= i <= c + self.right_bars + 1,
                cand_high == self.bars@[c as int].high,
                cand_low == self.bars@[c as int].low,
                is_high == (forall|j: int|
                    c - self.left_bars <= j < i && j != c ==> #[trigger] self.bars@[j].high
                        < cand_high),
                is_low == (forall|j: int|
                    c - self.left_bars <= j < i && j != c ==> #[trigger] self.bars@[j].low
                        > cand_low),
            decreases c + self.right_bars + 1 - i,
        {
            if i != c {
                if self.bars[i].high >= cand_high {
                    is_high = false;
                }
                if self.bars[i].low <= cand_low {
                    is_low = false;
                }
            }
            i = i + 1;
        }
        let mut cur: i64 = 0;
        let mut found = false;
        if is_high {
            self.prev_high = self.last_high;
            self.last_high = Some(cand_high);
            match self.prev_high {
                Some(prev) => {
                    cur = cur + if cand_high > prev {
                        2
                    } else {
                        -1
                    };
                    found = true;
                },
                None => {},
            }
        }
        if is_low {
            self.prev_low = self.last_low;
            self.last_low = Some(cand_low);
            match self.prev_low {
                Some(prev) => {
                    cur = cur + if cand_low > prev {
                        1
                    } else {
                        -2
                    };
                    found = true;
                },
                None => {},
            }
        }
        if found {
            let ghost pushed = self.pivot_scores@.push(cur);
            self.pivot_scores.push(cur);
            if self.pivot_scores.len() > self.score_window {
                self.pivot_scores.remove(0);
                assert(self.pivot_scores@ =~= pushed.drop_first());
            }
        }
        let mut sum: i128 = 0;
        let mut k: usize = 0;
        while k < self.pivot_scores.len()
            invariant
                k <= self.pivot_scores@.len(),
                forall|i: int|
                    0 <= i < self.pivot_scores@.len() ==> -3 <= #[trigger] self.pivot_scores@[i]
                        <= 3,
                sum == sum_of(self.pivot_scores@.subrange(0, k as int)),
                -3 * k <= sum <= 3 * k,
            decreases self.pivot_scores@.len() - k,
        {
            assert(self.pivot_scores@.subrange(0, k + 1).drop_last() =~= self.pivot_scores@.subrange(
                0,
                k as int,
            ));
            sum = sum + self.pivot_scores[k] as i128;
            k = k + 1;
        }
        assert(self.pivot_scores@.subrange(0, k as int) =~= self.pivot_scores@);
        let scored = self.pivot_scores.len();
        let window = self.score_window as i128;
        let bias = if scored == 0 {
            None
        } else if sum >= window {
            Some(StructureBias::Bullish)
        } else if sum <= -window {
            Some(StructureBias::Bearish)
        } else {
            None
        };
        self.bias = bias;
        Some(StructureScore { sum, scored, window: self.score_window, bias })
    }
}

} // verus!
