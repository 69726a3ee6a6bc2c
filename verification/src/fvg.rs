//! Fair value gaps and liquidity sweeps.
//!
//! A bullish fair value gap opens when a bar's low clears the high of the bar two before it, a
//! bearish one when its high stays below that bar's low; the gap is held as a zone until a later
//! bar trades back through it. A liquidity sweep pierces the extreme of the lookback window and
//! closes back inside it.

use vstd::prelude::*;

use crate::bar::{slide, slide_window, Bar};

verus! {

/// How many gap zones are held at most; the oldest go first.
pub const MAX_FVG_ZONES: usize = 20;

/// A fair value gap zone.
#[derive(Debug, Clone, Copy, PartialEq, Eq)]
pub struct FvgZone {
    pub is_bullish: bool,
    pub top: i64,
    pub bottom: i64,
    /// The bar count, from engine start, of the bar that opened the gap.
    pub created_bar: usize,
}

/// What one bar reported.
#[derive(Debug, Clone, Copy, PartialEq, Eq, Structural)]
pub enum FvgAlert {
    /// A bullish gap between `bottom` (the high two bars back) and `top` (this bar's low).
    BullishFvg { bottom: i64, top: i64 },
    /// A bearish gap between `bottom` (this bar's high) and `top` (the low two bars back).
    BearishFvg { bottom: i64, top: i64 },
    /// The lowest low of the lookback was pierced and the close reclaimed it.
    BullishSweep { level: i64 },
    /// The highest high of the lookback was pierced and the close reclaimed it.
    BearishSweep { level: i64 },
}

impl FvgAlert {
    /// The alert kind under which the event is reported.
    pub fn kind(&self) -> (r: &'static str)
        ensures
            r@ == match *self {
                FvgAlert::BullishFvg { .. } => "bullish_fvg"@,
                FvgAlert::BearishFvg { .. } => "bearish_fvg"@,
                FvgAlert::BullishSweep { .. } => "bullish_liquidity_sweep"@,
                FvgAlert::BearishSweep { .. } => "bearish_liquidity_sweep"@,
            },
    {
        match self {
            FvgAlert::BullishFvg { .. } => "bullish_fvg",
            FvgAlert::BearishFvg { .. } => "bearish_fvg",
            FvgAlert::BullishSweep { .. } => "bullish_liquidity_sweep",
            FvgAlert::BearishSweep { .. } => "bearish_liquidity_sweep",
        }
    }
}

/// One bar's reading.
#[derive(Debug, Clone, Copy, PartialEq, Eq)]
pub struct FvgReading {
    /// `1` for a bullish gap on this bar, `-1` for a bearish one, `0` for none.
    pub fvg_type: i64,
    /// The gap's height, or `None` while fewer than three bars are held.
    pub gap_size: Option<i128>,
}

/// A zone stays open while the latest bar has not traded back through it: a bullish zone while
/// the low stays above its bottom, a bearish zone while the high stays below its top.
pub open spec fn stays_open(z: FvgZone, b: Bar) -> bool {
    if z.is_bullish {
        b.low > z.bottom
    } else {
        b.high < z.top
    }
}

/// The zones of `s` that stay open after `b`, in order.
pub open spec fn still_open(s: Seq<FvgZone>, b: Bar) -> Seq<FvgZone>
    decreases s.len(),
{
    if s.len() == 0 {
        s
    } else {
        let k = still_open(s.drop_last(), b);
        if stays_open(s.last(), b) {
            k.push(s.last())
        } else {
            k
        }
    }
}

/// The newest `MAX_FVG_ZONES` of `s`.
pub open spec fn newest(s: Seq<FvgZone>) -> Seq<FvgZone> {
    if s.len() > MAX_FVG_ZONES {
        s.subrange(s.len() - MAX_FVG_ZONES, s.len() as int)
    } else {
        s
    }
}

/// The gap opened by `curr` over `prev2`, if any.
pub open spec fn gap_of(prev2: Bar, curr: Bar, count: usize) -> Option<FvgZone> {
    if curr.low > prev2.high {
        Some(FvgZone { is_bullish: true, top: curr.low, bottom: prev2.high, created_bar: count })
    } else if curr.high < prev2.low {
        Some(FvgZone { is_bullish: false, top: prev2.low, bottom: curr.high, created_bar: count })
    } else {
        None
    }
}

/// The highest high among `w[lo..hi]`, `None` when empty.
pub open spec fn highest(w: Seq<Bar>, lo: int, hi: int) -> Option<i64>
    decreases hi - lo,
{
    if hi <= lo {
        None
    } else {
        match highest(w, lo, hi - 1) {
            Some(h) => Some(if w[hi - 1].high > h {
                w[hi - 1].high
            } else {
                h
            }),
            None => Some(w[hi - 1].high),
        }
    }
}

/// The lowest low among `w[lo..hi]`, `None` when empty.
pub open spec fn lowest(w: Seq<Bar>, lo: int, hi: int) -> Option<i64>
    decreases hi - lo,
{
    if hi <= lo {
        None
    } else {
        match lowest(w, lo, hi - 1) {
            Some(l) => Some(if w[hi - 1].low < l {
                w[hi - 1].low
            } else {
                l
            }),
            None => Some(w[hi - 1].low),
        }
    }
}

/// The sweep `curr` makes of the window `w` (whose last bar is `curr`) over `lookback` bars.
pub open spec fn sweep_of(w: Seq<Bar>, lookback: int) -> Option<FvgAlert> {
    let n = w.len() as int;
    let curr = w[n - 1];
    if n > lookback {
        let hi = highest(w, n - 1 - lookback, n - 1);
        let lo = lowest(w, n - 1 - lookback, n - 1);
        if lo is Some && curr.low < lo.unwrap() && curr.close > lo.unwrap() {
            Some(FvgAlert::BullishSweep { level: lo.unwrap() })
        } else if hi is Some && curr.high > hi.unwrap() && curr.close < hi.unwrap() {
            Some(FvgAlert::BearishSweep { level: hi.unwrap() })
        } else {
            None
        }
    } else {
        None
    }
}

/// The alert a new gap zone is reported with.
pub open spec fn gap_alert(z: FvgZone) -> FvgAlert {
    if z.is_bullish {
        FvgAlert::BullishFvg { bottom: z.bottom, top: z.top }
    } else {
        FvgAlert::BearishFvg { bottom: z.bottom, top: z.top }
    }
}

/// Filtering keeps the zones in order, keeps only zones that stay open, and never invents one.
pub proof fn lemma_still_open(s: Seq<FvgZone>, b: Bar, bound: usize)
    requires
        oldest_first(s),
        forall|i: int| 0 <= i < s.len() ==> #[trigger] s[i].created_bar <= bound,
    ensures
        oldest_first(still_open(s, b)),
        still_open(s, b).len() <= s.len(),
        forall|i: int|
            0 <= i < still_open(s, b).len() ==> #[trigger] still_open(s, b)[i].created_bar <= bound,
        s.len() > 0 ==> forall|i: int|
            0 <= i < still_open(s, b).len() ==> #[trigger] still_open(s, b)[i].created_bar
                <= s.last().created_bar,
        forall|i: int| 0 <= i < still_open(s, b).len() ==> stays_open(#[trigger] still_open(s, b)[i], b),
    decreases s.len(),
{
    if s.len() > 0 {
        let t = s.drop_last();
        assert(oldest_first(t)) by {
            assert forall|i: int, j: int| 0 <= i < j < t.len() implies #[trigger] t[i].created_bar
                < #[trigger] t[j].created_bar by {
                assert(t[i] == s[i]);
                assert(t[j] == s[j]);
            }
        }
        assert forall|i: int| 0 <= i < t.len() implies #[trigger] t[i].created_bar <= bound by {
            assert(t[i] == s[i]);
        }
        lemma_still_open(t, b, bound);
        let k = still_open(t, b);
        if t.len() > 0 {
            assert(t.last() == s[s.len() - 2]);
            assert(s[s.len() - 2].created_bar < s[s.len() - 1].created_bar);
        }
        assert forall|i: int| 0 <= i < k.len() implies #[trigger] k[i].created_bar
            < s.last().created_bar by {
            if t.len() > 0 {
                assert(s[s.len() - 2].created_bar < s[s.len() - 1].created_bar);
            }
        }
    }
}

/// The zones are held oldest first, each opened on a later bar than the one before.
pub open spec fn oldest_first(s: Seq<FvgZone>) -> bool {
    forall|i: int, j: int| 0 <= i < j < s.len() ==> #[trigger] s[i].created_bar < #[trigger] s[j].created_bar
}

/// Fair value gap and liquidity sweep engine over a window of `lookback + 5` bars.
pub struct LiquidityFvgEngine {
    lookback: usize,
    window: Vec<Bar>,
    alerts: Vec<FvgAlert>,
    bar_count: usize,
    zones: Vec<FvgZone>,
}

impl LiquidityFvgEngine {
    pub closed spec fn lookback(&self) -> int {
        self.lookback as int
    }

    pub closed spec fn window(&self) -> Seq<Bar> {
        self.window@
    }

    pub closed spec fn count(&self) -> int {
        self.bar_count as int
    }

    pub closed spec fn open_zones(&self) -> Seq<FvgZone> {
        self.zones@
    }

    pub closed spec fn events(&self) -> Seq<FvgAlert> {
        self.alerts@
    }

    /// The engine's standing invariant: a bounded window, at most `MAX_FVG_ZONES` zones, held
    /// oldest first and all opened on a bar already counted.
    pub closed spec fn inv(&self) -> bool {
        &&& self.window@.len() <= self.lookback + 5
        &&& self.zones@.len() <= MAX_FVG_ZONES
        &&& oldest_first(self.zones@)
        &&& forall|i: int| 0 <= i < self.zones@.len() ==> #[trigger] self.zones@[i].created_bar <= self.bar_count
    }

    pub fn new(lookback: usize) -> (r: Self)
        ensures
            r.inv(),
            r.lookback() == lookback,
            r.window() == Seq::<Bar>::empty(),
            r.count() == 0,
            r.open_zones() == Seq::<FvgZone>::empty(),
            r.events() == Seq::<FvgAlert>::empty(),
    {
        LiquidityFvgEngine {
            lookback,
            window: Vec::new(),
            alerts: Vec::new(),
            bar_count: 0,
            zones: Vec::new(),
        }
    }

    /// The open fair value gap zones, oldest first.
    pub fn zones(&self) -> (r: &[FvgZone])
        ensures
            r@ == self.open_zones(),
    {
        self.zones.as_slice()
    }

    /// The events of the latest bar.
    pub fn alerts(&self) -> (r: Vec<FvgAlert>)
        ensures
            r@ == self.events(),
    {
        self.alerts.clone()
    }

    pub fn name(&self) -> (r: &'static str)
        ensures
            r@ == "liquidity_fvg"@,
    {
        "liquidity_fvg"
    }

    pub fn warmup_period(&self) -> (r: usize)
        ensures
            r == if self.lookback() >= 3 {
                self.lookback()
            } else {
                3
            },
    {
        if self.lookback >= 3 {
            self.lookback
        } else {
            3
        }
    }

    /// Feeds one bar: records a new gap as a zone, drops the zones it trades back through (keeping
    /// at most the newest `MAX_FVG_ZONES`), and looks for a sweep of the lookback's extremes.
    pub fn on_bar(&mut self, bar: &Bar) -> (r: FvgReading)
        requires
            old(self).inv(),
            old(self).lookback() + 5 <= usize::MAX,
            old(self).count() < usize::MAX,
        ensures
            final(self).inv(),
            final(self).lookback() == old(self).lookback(),
            final(self).window() == slide(old(self).window(), *bar, old(self).lookback() + 5),
            final(self).count() == old(self).count() + 1,
            ({
                let w = final(self).window();
                let n = w.len() as int;
                if n < 3 {
                    &&& r == FvgReading { fvg_type: 0, gap_size: None }
                    &&& final(self).open_zones() == old(self).open_zones()
                    &&& final(self).events() == Seq::<FvgAlert>::empty()
                } else {
                    let g = gap_of(w[n - 3], w[n - 1], final(self).count() as usize);
                    let grown = match g {
                        Some(z) => old(self).open_zones().push(z),
                        None => old(self).open_zones(),
                    };
                    let found = match g {
                        Some(z) => seq![gap_alert(z)],
                        None => Seq::<FvgAlert>::empty(),
                    };
                    &&& r.fvg_type == match g {
                        Some(z) => if z.is_bullish {
                            1i64
                        } else {
                            -1i64
                        },
                        None => 0i64,
                    }
                    &&& r.gap_size == Some(
                        match g {
                            Some(z) => z.top - z.bottom,
                            None => 0,
                        } as i128,
                    )
                    &&& final(self).open_zones() == newest(still_open(grown, w[n - 1]))
                    &&& final(self).events() == match sweep_of(w, old(self).lookback()) {
                        Some(a) => found.push(a),
                        None => found,
                    }
                }
            }),
    {
        let cap = self.lookback + 5;
        slide_window(&mut self.window, *bar, cap);
        self.bar_count = self.bar_count + 1;
        self.alerts = Vec::new();
        let n = self.window.len();
        if n < 3 {
            return FvgReading { fvg_type: 0, gap_size: None };
        }
        let ghost w = self.window@;
        let curr = self.window[n - 1];
        let prev2 = self.window[n - 3];
        let ghost old_zones = self.zones@;
        let mut events: Vec<FvgAlert> = Vec::new();
        let mut fvg_type: i64 = 0;
        let mut gap: i128 = 0;
        if curr.low > prev2.high {
            fvg_type = 1;
            gap = curr.low as i128 - prev2.high as i128;
            events.push(FvgAlert::BullishFvg { bottom: prev2.high, top: curr.low });
            self.zones.push(
                FvgZone {
                    is_bullish: true,
                    top: curr.low,
                    bottom: prev2.high,
                    created_bar: self.bar_count,
                },
            );
        } else if curr.high < prev2.low {
            fvg_type = -1;
            gap = prev2.low as i128 - curr.high as i128;
            events.push(FvgAlert::BearishFvg { bottom: curr.high, top: prev2.low });
            self.zones.push(
                FvgZone {
                    is_bullish: false,
                    top: prev2.low,
                    bottom: curr.high,
                    created_bar: self.bar_count,
                },
            );
        }
        let ghost grown = self.zones@;
        proof {
            lemma_still_open(grown, curr, self.bar_count);
        }
        let mut kept: Vec<FvgZone> = Vec::new();
        let m = self.zones.len();
        let mut i: usize = 0;
        while i < m
            invariant
                m == grown.len(),
                self.zones@ == grown,
                i <= m,
                kept@ == still_open(grown.subrange(0, i as int), curr),
            decreases m - i,
        {
            let z = self.zones[i];
            assert(grown.subrange(0, i + 1).drop_last() =~= grown.subrange(0, i as int));
            if z.is_bullish {
                if curr.low > z.bottom {
                    kept.push(z);
                }
            } else {
                if curr.high < z.top {
                    kept.push(z);
                }
            }
            i = i + 1;
        }
        assert(grown.subrange(0, m as int) =~= grown);
        let k = kept.len();
        if k > MAX_FVG_ZONES {
            let mut tail: Vec<FvgZone> = Vec::new();
            let start = k - MAX_FVG_ZONES;
            let mut j: usize = start;
            while j < k
                invariant
                    k == kept@.len(),
                    start <= j <= k,
                    tail@ == kept@.subrange(start as int, j as int),
                decreases k - j,
            {
                tail.push(kept[j]);
                assert(tail@ =~= kept@.subrange(start as int, j + 1));
                j = j + 1;
            }
            self.zones = tail;
        } else {
            self.zones = kept;
        }
        proof {
            let s = still_open(grown, curr);
            if s.len() > MAX_FVG_ZONES {
                assert forall|a: int, b: int|
                    0 <= a < b < self.zones@.len() implies #[trigger] self.zones@[a].created_bar
                    < #[trigger] self.zones@[b].created_bar by {
                    assert(self.zones@[a] == s[a + (s.len() - MAX_FVG_ZONES)]);
                    assert(self.zones@[b] == s[b + (s.len() - MAX_FVG_ZONES)]);
                }
                assert forall|a: int| 0 <= a < self.zones@.len() implies #[trigger] self.zones@[a].created_bar
                    <= self.bar_count by {
                    assert(self.zones@[a] == s[a + (s.len() - MAX_FVG_ZONES)]);
                }
            }
        }
        let lb = self.lookback;
        if n > lb {
            let lo_idx = n - 1 - lb;
            let mut hi_v: Option<i64> = None;
            let mut lo_v: Option<i64> = None;
            let mut j: usize = lo_idx;
            while j < n - 1
                invariant
                    n == w.len(),
                    self.window@ == w,
                    lo_idx <= j <= n - 1,
                    hi_v == highest(w, lo_idx as int, j as int),
                    lo_v == lowest(w, lo_idx as int, j as int),
                decreases n - 1 - j,
            {
                let b = self.window[j];
                hi_v = match hi_v {
                    Some(h) => Some(
                        if b.high > h {
                            b.high
                        } else {
                            h
                        },
                    ),
                    None => Some(b.high),
                };
                lo_v = match lo_v {
                    Some(l) => Some(
                        if b.low < l {
                            b.low
                        } else {
                            l
                        },
                    ),
                    None => Some(b.low),
                };
                j = j + 1;
            }
            let bull = match lo_v {
                Some(l) => curr.low < l && curr.close > l,
                None => false,
            };
            let bear = match hi_v {
                Some(h) => curr.high > h && curr.close < h,
                None => false,
            };
            if bull {
                events.push(FvgAlert::BullishSweep { level: lo_v.unwrap() });
            } else if bear {
                events.push(FvgAlert::BearishSweep { level: hi_v.unwrap() });
            }
        }
        self.alerts = events;
        FvgReading { fvg_type, gap_size: Some(gap) }
    }

    /// Forgets everything but the lookback.
    pub fn reset(&mut self)
        ensures
            final(self).inv(),
            final(self).lookback() == old(self).lookback(),
            final(self).window() == Seq::<Bar>::empty(),
            final(self).count() == 0,
            final(self).open_zones() == Seq::<FvgZone>::empty(),
            final(self).events() == Seq::<FvgAlert>::empty(),
    {
        self.window = Vec::new();
        self.alerts = Vec::new();
        self.bar_count = 0;
        self.zones = Vec::new();
    }
}

} // verus!
