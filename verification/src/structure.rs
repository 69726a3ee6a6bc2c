//! Market structure breaks: break of structure (BOS) for trend continuation and change of
//! character (CHoCH) for trend reversal, read off confirmed swing pivots.

use vstd::prelude::*;

use std::collections::VecDeque;

use crate::bar::{slide, slide_window, Bar};

verus! {

#[derive(Debug, Clone, Copy, PartialEq, Eq, Structural)]
pub enum TrendState {
    Uptrend,
    Downtrend,
    Neutral,
}

#[derive(Debug, Clone, Copy, PartialEq, Eq, Structural)]
pub enum StructureEventKind {
    BullishBos,
    BearishBos,
    BullishChoch,
    BearishChoch,
}

impl StructureEventKind {
    /// The alert kind under which the event is reported.
    pub fn alert_kind(&self) -> (r: &'static str)
        ensures
            r@ == match *self {
                StructureEventKind::BullishBos => "bullish_bos"@,
                StructureEventKind::BearishBos => "bearish_bos"@,
                StructureEventKind::BullishChoch => "bullish_choch"@,
                StructureEventKind::BearishChoch => "bearish_choch"@,
            },
    {
        match self {
            StructureEventKind::BullishBos => "bullish_bos",
            StructureEventKind::BearishBos => "bearish_bos",
            StructureEventKind::BullishChoch => "bullish_choch",
            StructureEventKind::BearishChoch => "bearish_choch",
        }
    }
}

/// A structure break: which kind, and the swing level that was broken.
#[derive(Debug, Clone, Copy, PartialEq, Eq)]
pub struct StructureBreak {
    pub kind: StructureEventKind,
    pub level: i64,
}

/// Bar `c` of `w` has a strictly higher high than every other bar within `lb` bars of it.
pub open spec fn pivot_high_at(w: Seq<Bar>, c: int, lb: int) -> bool {
    forall|j: int| c - lb <= j <= c + lb && j != c ==> #[trigger] w[j].high < w[c].high
}

/// Bar `c` of `w` has a strictly lower low than every other bar within `lb` bars of it.
pub open spec fn pivot_low_at(w: Seq<Bar>, c: int, lb: int) -> bool {
    forall|j: int| c - lb <= j <= c + lb && j != c ==> #[trigger] w[j].low > w[c].low
}

/// A close above the pending swing high breaks it: a continuation in an uptrend, a change of
/// character otherwise, which turns the trend up. Returns the new trend, the event, the signal
/// and the swing high that remains pending.
pub open spec fn break_up(trend: TrendState, swing_high: Option<i64>, close: i64) -> (
    TrendState,
    Option<StructureBreak>,
    i64,
    Option<i64>,
) {
    match swing_high {
        Some(level) => if close > level {
            if trend == TrendState::Uptrend {
                (
                    TrendState::Uptrend,
                    Some(StructureBreak { kind: StructureEventKind::BullishBos, level }),
                    1,
                    None,
                )
            } else {
                (
                    TrendState::Uptrend,
                    Some(StructureBreak { kind: StructureEventKind::BullishChoch, level }),
                    2,
                    None,
                )
            }
        } else {
            (trend, None, 0, swing_high)
        },
        None => (trend, None, 0, swing_high),
    }
}

/// The mirror of [`break_up`] for a close below the pending swing low.
pub open spec fn break_down(trend: TrendState, swing_low: Option<i64>, close: i64) -> (
    TrendState,
    Option<StructureBreak>,
    i64,
    Option<i64>,
) {
    match swing_low {
        Some(level) => if close < level {
            if trend == TrendState::Downtrend {
                (
                    TrendState::Downtrend,
                    Some(StructureBreak { kind: StructureEventKind::BearishBos, level }),
                    -1i64,
                    None,
                )
            } else {
                (
                    TrendState::Downtrend,
                    Some(StructureBreak { kind: StructureEventKind::BearishChoch, level }),
                    -2i64,
                    None,
                )
            }
        } else {
            (trend, None, 0, swing_low)
        },
        None => (trend, None, 0, swing_low),
    }
}

/// The event is of kind `k`.
pub open spec fn is_kind(e: Option<StructureBreak>, k: StructureEventKind) -> bool {
    match e {
        Some(b) => b.kind == k,
        None => false,
    }
}

/// A break of structure continues the trend it happens in; a change of character reverses it:
/// a BOS leaves the trend as it was, a ChOCH turns it to the break's direction from another
/// state. A broken level is spent, and a swing that is not broken stays pending.
pub proof fn bos_continues_and_choch_reverses(trend: TrendState, swing: Option<i64>, close: i64)
    ensures
        ({
            let (t, e, _, pending) = break_up(trend, swing, close);
            &&& is_kind(e, StructureEventKind::BullishBos) ==> t == trend && trend
                == TrendState::Uptrend
            &&& is_kind(e, StructureEventKind::BullishChoch) ==> t
                == TrendState::Uptrend && trend != TrendState::Uptrend
            &&& e is Some ==> pending is None && e->0.level == swing->0 && close > swing->0
            &&& e is None ==> t == trend && pending == swing
        }),
        ({
            let (t, e, _, pending) = break_down(trend, swing, close);
            &&& is_kind(e, StructureEventKind::BearishBos) ==> t == trend && trend
                == TrendState::Downtrend
            &&& is_kind(e, StructureEventKind::BearishChoch) ==> t
                == TrendState::Downtrend && trend != TrendState::Downtrend
            &&& e is Some ==> pending is None && e->0.level == swing->0 && close < swing->0
            &&& e is None ==> t == trend && pending == swing
        }),
{
}

/// The events of one bar, in the order they were found.
pub open spec fn events_of(up: Option<StructureBreak>, down: Option<StructureBreak>) -> Seq<
    StructureBreak,
> {
    let s = match up {
        Some(e) => seq![e],
        None => Seq::empty(),
    };
    match down {
        Some(e) => s.push(e),
        None => s,
    }
}

/// Market structure break engine. Once `2 * lookback + 1` bars are in, the bar `lookback` bars
/// back is tested as a swing pivot; a close beyond the pending swing high or low is a break.
/// Per bar it publishes `1`/`2` for a bullish BOS/CHoCH, `-1`/`-2` for a bearish one (the
/// bearish break wins when both happen), `0` otherwise.
pub struct MarketStructureBreaksEngine {
    lookback: usize,
    bars: Vec<Bar>,
    swing_high: Option<i64>,
    swing_low: Option<i64>,
    trend: TrendState,
    alerts: Vec<StructureBreak>,
}

impl MarketStructureBreaksEngine {
    pub closed spec fn lookback(&self) -> int {
        self.lookback as int
    }

    /// The bars held, oldest first: at most `4 * lookback + 1`.
    pub closed spec fn window(&self) -> Seq<Bar> {
        self.bars@
    }

    pub closed spec fn pending_high(&self) -> Option<i64> {
        self.swing_high
    }

    pub closed spec fn pending_low(&self) -> Option<i64> {
        self.swing_low
    }

    pub closed spec fn trend(&self) -> TrendState {
        self.trend
    }

    /// The events of the latest bar.
    pub closed spec fn events(&self) -> Seq<StructureBreak> {
        self.alerts@
    }

    pub closed spec fn inv(&self) -> bool {
        self.bars@.len() <= 4 * self.lookback + 1
    }

    pub fn new(lookback: usize) -> (r: Self)
        ensures
            r.inv(),
            r.lookback() == lookback,
            r.window() == Seq::<Bar>::empty(),
            r.pending_high().is_none(),
            r.pending_low().is_none(),
            r.trend() == TrendState::Neutral,
            r.events() == Seq::<StructureBreak>::empty(),
    {
        MarketStructureBreaksEngine {
            lookback,
            bars: Vec::new(),
            swing_high: None,
            swing_low: None,
            trend: TrendState::Neutral,
            alerts: Vec::new(),
        }
    }

    pub fn name(&self) -> (r: &'static str)
        ensures
            r@ == "market_structure_breaks"@,
    {
        "market_structure_breaks"
    }

    /// Bars before the first output.
    pub fn warmup_period(&self) -> (r: usize)
        requires
            2 * self.lookback() + 1 <= usize::MAX,
        ensures
            r == 2 * self.lookback() + 1,
    {
        self.lookback * 2 + 1
    }

    /// Forgets everything but the lookback.
    pub fn reset(&mut self)
        ensures
            final(self).inv(),
            final(self).lookback() == old(self).lookback(),
            final(self).window() == Seq::<Bar>::empty(),
            final(self).pending_high().is_none(),
            final(self).pending_low().is_none(),
            final(self).trend() == TrendState::Neutral,
            final(self).events() == Seq::<StructureBreak>::empty(),
    {
        self.bars = Vec::new();
        self.swing_high = None;
        self.swing_low = None;
        self.trend = TrendState::Neutral;
        self.alerts = Vec::new();
    }

    /// The events of the latest bar.
    pub fn alerts(&self) -> (r: Vec<StructureBreak>)
        ensures
            r@ == self.events(),
    {
        self.alerts.clone()
    }

    /// Feeds one bar. `None` while fewer than `2 * lookback + 1` bars are held; otherwise the
    /// signal of this bar.
    pub fn on_bar(&mut self, bar: &Bar) -> (r: Option<i64>)
        requires
            old(self).inv(),
            4 * old(self).lookback() + 1 <= usize::MAX,
        ensures
            final(self).inv(),
            final(self).lookback() == old(self).lookback(),
            final(self).window() == slide(old(self).window(), *bar, 4 * old(self).lookback() + 1),
            ({
                let w = final(self).window();
                let lb = old(self).lookback();
                if w.len() < 2 * lb + 1 {
                    &&& r.is_none()
                    &&& final(self).pending_high() == old(self).pending_high()
                    &&& final(self).pending_low() == old(self).pending_low()
                    &&& final(self).trend() == old(self).trend()
                    &&& final(self).events() == Seq::<StructureBreak>::empty()
                } else {
                    let c = w.len() - 1 - lb;
                    let sh = if pivot_high_at(w, c, lb) {
                        Some(w[c].high)
                    } else {
                        old(self).pending_high()
                    };
                    let sl = if pivot_low_at(w, c, lb) {
                        Some(w[c].low)
                    } else {
                        old(self).pending_low()
                    };
                    let (t1, up, s1, sh2) = break_up(old(self).trend(), sh, bar.close);
                    let (t2, down, s2, sl2) = break_down(t1, sl, bar.close);
                    &&& r == Some(if down.is_some() { s2 } else { s1 })
                    &&& final(self).pending_high() == sh2
                    &&& final(self).pending_low() == sl2
                    &&& final(self).trend() == t2
                    &&& final(self).events() == events_of(up, down)
                }
            }),
    {
        let cap = self.lookback * 4 + 1;
        slide_window(&mut self.bars, *bar, cap);
        self.alerts = Vec::new();
        let lb = self.lookback;
        let req_len = lb * 2 + 1;
        let n = self.bars.len();
        if n < req_len {
            return None;
        }
        let c = n - 1 - lb;
        let cand_high = self.bars[c].high;
        let cand_low = self.bars[c].low;
        let mut is_high = true;
        let mut is_low = true;
        let mut i = c - lb;
        while i <= c + lb
            invariant
                n == self.bars@.len(),
                c + lb == n - 1,
                c >= lb,
                c - lb <= i <= c + lb + 1,
                cand_high == self.bars@[c as int].high,
                cand_low == self.bars@[c as int].low,
                is_high == (forall|j: int|
                    c - lb <= j < i && j != c ==> #[trigger] self.bars@[j].high < cand_high),
                is_low == (forall|j: int|
                    c - lb <= j < i && j != c ==> #[trigger] self.bars@[j].low > cand_low),
            decreases c + lb + 1 - i,
        {
            if i != c {
                if self.bars[i].high >= cand_high {
                    is_high = false;
                }
                if self.bars[i].low <= cand_low {
                    is_low = false;
                }
            }
            i = i + 1;
        }
        if is_high {
            self.swing_high = Some(cand_high);
        }
        if is_low {
            self.swing_low = Some(cand_low);
        }
        let mut signal: i64 = 0;
        let mut events: Vec<StructureBreak> = Vec::new();
        if let Some(level) = self.swing_high {
            if bar.close > level {
                match self.trend {
                    TrendState::Uptrend => {
                        events.push(StructureBreak { kind: StructureEventKind::BullishBos, level });
                        signal = 1;
                    },
                    _ => {
                        self.trend = TrendState::Uptrend;
                        events.push(
                            StructureBreak { kind: StructureEventKind::BullishChoch, level },
                        );
                        signal = 2;
                    },
                }
                self.swing_high = None;
            }
        }
        if let Some(level) = self.swing_low {
            if bar.close < level {
                match self.trend {
                    TrendState::Downtrend => {
                        events.push(StructureBreak { kind: StructureEventKind::BearishBos, level });
                        signal = -1;
                    },
                    _ => {
                        self.trend = TrendState::Downtrend;
                        events.push(
                            StructureBreak { kind: StructureEventKind::BearishChoch, level },
                        );
                        signal = -2;
                    },
                }
                self.swing_low = None;
            }
        }
        self.alerts = events;
        Some(signal)
    }
}


/// The code an event is published as: `1`/`2` for a bullish BOS/CHoCH, `-1`/`-2` for a bearish
/// one, `0` for none.
pub open spec fn event_code(e: Option<StructureEventKind>) -> i64 {
    match e {
        Some(StructureEventKind::BullishBos) => 1,
        Some(StructureEventKind::BullishChoch) => 2,
        Some(StructureEventKind::BearishBos) => -1i64,
        Some(StructureEventKind::BearishChoch) => -2i64,
        None => 0,
    }
}

/// No bar of `w` other than `m` has a higher high.
pub open spec fn window_high_at(w: Seq<Bar>, m: int) -> bool {
    forall|j: int| 0 <= j < w.len() && j != m ==> #[trigger] w[j].high <= w[m].high
}

/// No bar of `w` other than `m` has a lower low.
pub open spec fn window_low_at(w: Seq<Bar>, m: int) -> bool {
    forall|j: int| 0 <= j < w.len() && j != m ==> #[trigger] w[j].low >= w[m].low
}

/// One bar's reading of the BOS/CHoCH engine.
#[derive(Debug, Clone, Copy, PartialEq, Eq)]
pub struct BosChochReading {
    /// See [`event_code`].
    pub event_code: i64,
    /// `1` bullish, `-1` bearish, `0` before the first break.
    pub trend: i8,
}

/// Break of structure and change of character over a centred pivot window of `2 * pivot_len + 1`
/// bars: the middle bar is a pivot when no other bar of the window exceeds it. A close beyond the
/// last pivot high or low is a break; it is a change of character unless the trend already ran
/// that way.
pub struct BosChochEngine {
    pivot_len: usize,
    bars: VecDeque<Bar>,
    last_pivot_high: Option<i64>,
    last_pivot_low: Option<i64>,
    current_trend: i8,
    last_event: Option<StructureEventKind>,
}

impl BosChochEngine {
    pub closed spec fn pivot_len(&self) -> int {
        self.pivot_len as int
    }

    pub closed spec fn window(&self) -> Seq<Bar> {
        self.bars@
    }

    pub closed spec fn pivot_high(&self) -> Option<i64> {
        self.last_pivot_high
    }

    pub closed spec fn pivot_low(&self) -> Option<i64> {
        self.last_pivot_low
    }

    pub closed spec fn trend(&self) -> i8 {
        self.current_trend
    }

    pub closed spec fn event(&self) -> Option<StructureEventKind> {
        self.last_event
    }

    pub closed spec fn inv(&self) -> bool {
        &&& self.pivot_len >= 2
        &&& self.bars@.len() <= 2 * self.pivot_len + 1
        &&& -1 <= self.current_trend <= 1
    }

    /// An engine whose pivot window reaches `pivot_len` bars (at least two) to each side.
    pub fn new(pivot_len: usize) -> (r: Self)
        ensures
            r.inv(),
            r.pivot_len() == if pivot_len >= 2 {
                pivot_len as int
            } else {
                2
            },
            r.window() == Seq::<Bar>::empty(),
            r.pivot_high().is_none(),
            r.pivot_low().is_none(),
            r.trend() == 0,
            r.event().is_none(),
    {
        BosChochEngine {
            pivot_len: if pivot_len >= 2 {
                pivot_len
            } else {
                2
            },
            bars: VecDeque::new(),
            last_pivot_high: None,
            last_pivot_low: None,
            current_trend: 0,
            last_event: None,
        }
    }

    pub fn with_defaults() -> (r: Self)
        ensures
            r.inv(),
            r.pivot_len() == 5,
            r.window() == Seq::<Bar>::empty(),
            r.pivot_high().is_none(),
            r.pivot_low().is_none(),
            r.trend() == 0,
            r.event().is_none(),
    {
        Self::new(5)
    }

    /// The event of the latest bar that produced a reading.
    pub fn last_event(&self) -> (r: Option<StructureEventKind>)
        ensures
            r == self.event(),
    {
        self.last_event
    }

    pub fn name(&self) -> (r: &'static str)
        ensures
            r@ == "bos_choch"@,
    {
        "bos_choch"
    }

    pub fn warmup_period(&self) -> (r: usize)
        requires
            2 * self.pivot_len() + 1 <= usize::MAX,
        ensures
            r == 2 * self.pivot_len() + 1,
    {
        self.pivot_len * 2 + 1
    }

    /// Forgets everything but the pivot length.
    pub fn reset(&mut self)
        requires
            old(self).inv(),
        ensures
            final(self).inv(),
            final(self).pivot_len() == old(self).pivot_len(),
            final(self).window() == Seq::<Bar>::empty(),
            final(self).pivot_high().is_none(),
            final(self).pivot_low().is_none(),
            final(self).trend() == 0,
            final(self).event().is_none(),
    {
        self.bars = VecDeque::new();
        self.last_pivot_high = None;
        self.last_pivot_low = None;
        self.current_trend = 0;
        self.last_event = None;
    }

    /// The alert note of the latest event: every event is reported under the kind
    /// `structure_break`.
    pub fn alert_note(&self) -> (r: Option<&'static str>)
        ensures
            r.is_some() == self.event().is_some(),
            r matches Some(n) ==> n@ == match self.event() {
                Some(StructureEventKind::BullishBos) => "Bullish Break of Structure (BOS)"@,
                Some(StructureEventKind::BullishChoch) => "Bullish Change of Character (CHoCH)"@,
                Some(StructureEventKind::BearishBos) => "Bearish Break of Structure (BOS)"@,
                _ => "Bearish Change of Character (CHoCH)"@,
            },
    {
        match self.last_event {
            Some(StructureEventKind::BullishBos) => Some("Bullish Break of Structure (BOS)"),
            Some(StructureEventKind::BullishChoch) => Some("Bullish Change of Character (CHoCH)"),
            Some(StructureEventKind::BearishBos) => Some("Bearish Break of Structure (BOS)"),
            Some(StructureEventKind::BearishChoch) => Some("Bearish Change of Character (CHoCH)"),
            None => None,
        }
    }

    /// Feeds one bar. `None` while the pivot window is not yet full; otherwise the event code and
    /// the trend after this bar.
    pub fn on_bar(&mut self, bar: &Bar) -> (r: Option<BosChochReading>)
        requires
            old(self).inv(),
            2 * old(self).pivot_len() + 1 <= usize::MAX,
        ensures
            final(self).inv(),
            final(self).pivot_len() == old(self).pivot_len(),
            final(self).window() == slide(old(self).window(), *bar, 2 * old(self).pivot_len() + 1),
            ({
                let w = final(self).window();
                let m = old(self).pivot_len();
                if w.len() < 2 * m + 1 {
                    &&& r.is_none()
                    &&& final(self).pivot_high() == old(self).pivot_high()
                    &&& final(self).pivot_low() == old(self).pivot_low()
                    &&& final(self).trend() == old(self).trend()
                    &&& final(self).event() == old(self).event()
                } else {
                    let ph = if window_high_at(w, m) {
                        Some(w[m].high)
                    } else {
                        old(self).pivot_high()
                    };
                    let pl = if window_low_at(w, m) {
                        Some(w[m].low)
                    } else {
                        old(self).pivot_low()
                    };
                    let up = ph matches Some(p) && bar.close > p;
                    let t1 = if up && old(self).trend() <= 0 {
                        1
                    } else {
                        old(self).trend()
                    };
                    let e1 = if up {
                        if old(self).trend() <= 0 {
                            Some(StructureEventKind::BullishChoch)
                        } else {
                            Some(StructureEventKind::BullishBos)
                        }
                    } else {
                        None
                    };
                    let down = pl matches Some(p) && bar.close < p;
                    let t2 = if down && t1 >= 0 {
                        -1i8
                    } else {
                        t1
                    };
                    let e2 = if down {
                        if t1 >= 0 {
                            Some(StructureEventKind::BearishChoch)
                        } else {
                            Some(StructureEventKind::BearishBos)
                        }
                    } else {
                        e1
                    };
                    &&& final(self).pivot_high() == (if up {
                        None
                    } else {
                        ph
                    })
                    &&& final(self).pivot_low() == (if down {
                        None
                    } else {
                        pl
                    })
                    &&& final(self).trend() == t2
                    &&& final(self).event() == e2
                    &&& r == Some(BosChochReading { event_code: event_code(e2), trend: t2 })
                }
            }),
    {
        let cap = self.pivot_len * 2 + 1;
        let ghost pushed = self.bars@.push(*bar);
        self.bars.push_back(*bar);
        if self.bars.len() > cap {
            let _ = self.bars.pop_front();
            assert(self.bars@ =~= pushed.drop_first());
        }
        let n = self.bars.len();
        if n < cap {
            return None;
        }
        let m = self.pivot_len;
        let mid_high = self.bars[m].high;
        let mid_low = self.bars[m].low;
        let mut is_pivot_high = true;
        let mut is_pivot_low = true;
        let mut i: usize = 0;
        while i < n
            invariant
                n == self.bars@.len(),
                m < n,
                i <= n,
                mid_high == self.bars@[m as int].high,
                mid_low == self.bars@[m as int].low,
                is_pivot_high == (forall|j: int|
                    0 <= j < i && j != m ==> #[trigger] self.bars@[j].high <= mid_high),
                is_pivot_low == (forall|j: int|
                    0 <= j < i && j != m ==> #[trigger] self.bars@[j].low >= mid_low),
            decreases n - i,
        {
            if i != m {
                let b = self.bars[i];
                if b.high > mid_high {
                    is_pivot_high = false;
                }
                if b.low < mid_low {
                    is_pivot_low = false;
                }
            }
            i = i + 1;
        }
        if is_pivot_high {
            self.last_pivot_high = Some(mid_high);
        }
        if is_pivot_low {
            self.last_pivot_low = Some(mid_low);
        }
        self.last_event = None;
        if let Some(ph) = self.last_pivot_high {
            if bar.close > ph {
                if self.current_trend <= 0 {
                    self.current_trend = 1;
                    self.last_event = Some(StructureEventKind::BullishChoch);
                } else {
                    self.last_event = Some(StructureEventKind::BullishBos);
                }
                self.last_pivot_high = None;
            }
        }
        if let Some(pl) = self.last_pivot_low {
            if bar.close < pl {
                if self.current_trend >= 0 {
                    self.current_trend = -1;
                    self.last_event = Some(StructureEventKind::BearishChoch);
                } else {
                    self.last_event = Some(StructureEventKind::BearishBos);
                }
                self.last_pivot_low = None;
            }
        }
        let code: i64 = match self.last_event {
            Some(StructureEventKind::BullishBos) => 1,
            Some(StructureEventKind::BullishChoch) => 2,
            Some(StructureEventKind::BearishBos) => -1,
            Some(StructureEventKind::BearishChoch) => -2,
            None => 0,
        };
        Some(BosChochReading { event_code: code, trend: self.current_trend })
    }
}

} // verus!
