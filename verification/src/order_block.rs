//! Order blocks formed by displacement.
//!
//! A bar displaces when its body is at least `min_disp` times the average true range of the last
//! `atr_len` bars. A bullish displacement bar that follows a bearish bar turns that bar's range
//! into a bullish (demand) order block; a bearish one after a bullish bar, into a bearish (supply)
//! block. A bullish block is mitigated by a close below its bottom once price trades into it, and
//! otherwise retested; a bearish block is mitigated by a close above its top. The multiplier is
//! held in thousandths.

use vstd::prelude::*;

use crate::bar::{slide, slide_window, Bar};

verus! {

/// An order block zone.
#[derive(Debug, Clone, Copy, PartialEq, Eq)]
pub struct OrderBlockZone {
    pub is_bullish: bool,
    pub top: i64,
    pub bottom: i64,
    /// The bar count, from engine start, of the displacement bar that formed the block.
    pub created_bar: usize,
    pub mitigated: bool,
}

/// What one bar reported.
#[derive(Debug, Clone, Copy, PartialEq, Eq, Structural)]
pub enum OrderBlockAlert {
    /// A bullish (demand) block between `bottom` and `top` was formed.
    BullishBlock { bottom: i64, top: i64 },
    /// A bearish (supply) block between `bottom` and `top` was formed.
    BearishBlock { bottom: i64, top: i64 },
    /// Price traded into the bullish block with the given top and held it.
    BullishRetest { top: i64 },
    /// Price traded into the bearish block with the given bottom and held it.
    BearishRetest { bottom: i64 },
}

impl OrderBlockAlert {
    /// The alert kind under which the event is reported.
    pub fn kind(&self) -> (r: &'static str)
        ensures
            r@ == match *self {
                OrderBlockAlert::BullishBlock { .. } => "bullish_order_block"@,
                OrderBlockAlert::BearishBlock { .. } => "bearish_order_block"@,
                OrderBlockAlert::BullishRetest { .. } => "ob_retest_bullish"@,
                OrderBlockAlert::BearishRetest { .. } => "ob_retest_bearish"@,
            },
    {
        match self {
            OrderBlockAlert::BullishBlock { .. } => "bullish_order_block",
            OrderBlockAlert::BearishBlock { .. } => "bearish_order_block",
            OrderBlockAlert::BullishRetest { .. } => "ob_retest_bullish",
            OrderBlockAlert::BearishRetest { .. } => "ob_retest_bearish",
        }
    }
}

/// The newest block still active after a bar, and how many bars ago it formed.
#[derive(Debug, Clone, Copy, PartialEq, Eq)]
pub struct ActiveBlock {
    pub top: i64,
    pub bottom: i64,
    pub duration: usize,
}

/// One bar's reading.
#[derive(Debug, Clone, Copy, PartialEq, Eq)]
pub struct OrderBlockReading {
    /// The bullish blocks minus the bearish blocks that were active when the bar arrived
    /// (including one formed on it).
    pub active_count: i128,
    pub latest_active: Option<ActiveBlock>,
}

pub open spec fn abs(x: int) -> int {
    if x < 0 {
        -x
    } else {
        x
    }
}

/// The true range of `b` after a bar that closed at `prev_close`.
pub open spec fn true_range(prev_close: i64, b: Bar) -> int {
    let a = b.high - b.low;
    let c = abs(b.high - prev_close);
    let d = abs(b.low - prev_close);
    let m = if a >= c {
        a
    } else {
        c
    };
    if m >= d {
        m
    } else {
        d
    }
}

/// The sum of the true ranges of `w[lo..hi]`, each after the bar before it.
pub open spec fn range_sum(w: Seq<Bar>, lo: int, hi: int) -> int
    decreases hi - lo,
{
    if hi <= lo {
        0
    } else {
        range_sum(w, lo, hi - 1) + true_range(w[hi - 2].close, w[hi - 1])
    }
}

/// A body displaces when it is at least `mult / 1000` times the average true range, `trs / len`.
pub open spec fn displaced(body: int, len: int, mult: int, trs: int) -> bool {
    len > 0 && 1000 * len * body >= mult * trs
}

/// The block that `curr` forms out of `prev`, if it displaces.
pub open spec fn block_of(prev: Bar, curr: Bar, disp: bool, count: usize) -> Option<OrderBlockZone> {
    if disp && curr.close > curr.open && prev.close < prev.open {
        Some(
            OrderBlockZone {
                is_bullish: true,
                top: prev.high,
                bottom: prev.low,
                created_bar: count,
                mitigated: false,
            },
        )
    } else if disp && curr.close < curr.open && prev.close > prev.open {
        Some(
            OrderBlockZone {
                is_bullish: false,
                top: prev.high,
                bottom: prev.low,
                created_bar: count,
                mitigated: false,
            },
        )
    } else {
        None
    }
}

/// The alert a new block is reported with.
pub open spec fn block_alert(z: OrderBlockZone) -> OrderBlockAlert {
    if z.is_bullish {
        OrderBlockAlert::BullishBlock { bottom: z.bottom, top: z.top }
    } else {
        OrderBlockAlert::BearishBlock { bottom: z.bottom, top: z.top }
    }
}

/// What bar `b` does to block `z`: an active block that price trades into is mitigated by a close
/// beyond its far side and retested otherwise.
pub open spec fn touch(z: OrderBlockZone, b: Bar) -> (OrderBlockZone, Option<OrderBlockAlert>) {
    if z.mitigated {
        (z, None)
    } else if z.is_bullish {
        if b.low <= z.top {
            if b.close < z.bottom {
                (OrderBlockZone { mitigated: true, ..z }, None)
            } else {
                (z, Some(OrderBlockAlert::BullishRetest { top: z.top }))
            }
        } else {
            (z, None)
        }
    } else {
        if b.high >= z.bottom {
            if b.close > z.top {
                (OrderBlockZone { mitigated: true, ..z }, None)
            } else {
                (z, Some(OrderBlockAlert::BearishRetest { bottom: z.bottom }))
            }
        } else {
            (z, None)
        }
    }
}

/// The blocks after bar `b`.
pub open spec fn touched(s: Seq<OrderBlockZone>, b: Bar) -> Seq<OrderBlockZone> {
    Seq::new(s.len(), |i: int| touch(s[i], b).0)
}

/// The retests bar `b` makes of the blocks of `s`, in their order.
pub open spec fn retests(s: Seq<OrderBlockZone>, b: Bar) -> Seq<OrderBlockAlert>
    decreases s.len(),
{
    if s.len() == 0 {
        Seq::empty()
    } else {
        let k = retests(s.drop_last(), b);
        match touch(s.last(), b).1 {
            Some(a) => k.push(a),
            None => k,
        }
    }
}

/// The active bullish blocks of `s` minus the active bearish ones.
pub open spec fn net_active(s: Seq<OrderBlockZone>) -> int
    decreases s.len(),
{
    if s.len() == 0 {
        0
    } else {
        net_active(s.drop_last()) + if s.last().mitigated {
            0int
        } else if s.last().is_bullish {
            1int
        } else {
            -1int
        }
    }
}

/// The newest block of `s` that is not mitigated.
pub open spec fn latest_active(s: Seq<OrderBlockZone>) -> Option<OrderBlockZone>
    decreases s.len(),
{
    if s.len() == 0 {
        None
    } else if !s.last().mitigated {
        Some(s.last())
    } else {
        latest_active(s.drop_last())
    }
}

/// The reading of the newest active block at bar count `count`.
pub open spec fn active_block(z: Option<OrderBlockZone>, count: int) -> Option<ActiveBlock> {
    match z {
        Some(z) => Some(
            ActiveBlock {
                top: z.top,
                bottom: z.bottom,
                duration: if count >= z.created_bar {
                    (count - z.created_bar) as usize
                } else {
                    0
                },
            },
        ),
        None => None,
    }
}

/// A mitigated block stays mitigated: no later bar revives it or reports it again.
pub proof fn mitigation_is_final(z: OrderBlockZone, b: Bar)
    requires
        z.mitigated,
    ensures
        touch(z, b).0 == z,
        touch(z, b).1 is None,
{
}

/// Order block engine over the true ranges of the last `atr_len` bars.
pub struct OrderBlockEngine {
    atr_len: usize,
    min_disp_milli: u32,
    bars: Vec<Bar>,
    active_obs: Vec<OrderBlockZone>,
    bar_count: usize,
    alerts: Vec<OrderBlockAlert>,
}

impl OrderBlockEngine {
    pub closed spec fn span(&self) -> int {
        self.atr_len as int
    }

    pub closed spec fn multiplier(&self) -> int {
        self.min_disp_milli as int
    }

    /// The bars held, oldest first.
    pub closed spec fn window(&self) -> Seq<Bar> {
        self.bars@
    }

    pub closed spec fn blocks(&self) -> Seq<OrderBlockZone> {
        self.active_obs@
    }

    pub closed spec fn count(&self) -> int {
        self.bar_count as int
    }

    pub closed spec fn events(&self) -> Seq<OrderBlockAlert> {
        self.alerts@
    }

    pub closed spec fn inv(&self) -> bool {
        self.bars@.len() <= self.atr_len + 10
    }

    /// An engine over `atr_len` bars whose displacement multiplier is `min_disp_milli`
    /// thousandths.
    pub fn new(atr_len: usize, min_disp_milli: u32) -> (r: Self)
        ensures
            r.inv(),
            r.span() == atr_len,
            r.multiplier() == min_disp_milli,
            r.window() == Seq::<Bar>::empty(),
            r.blocks() == Seq::<OrderBlockZone>::empty(),
            r.count() == 0,
            r.events() == Seq::<OrderBlockAlert>::empty(),
    {
        OrderBlockEngine {
            atr_len,
            min_disp_milli,
            bars: Vec::new(),
            active_obs: Vec::new(),
            bar_count: 0,
            alerts: Vec::new(),
        }
    }

    pub fn name(&self) -> (r: &'static str)
        ensures
            r@ == "order_block"@,
    {
        "order_block"
    }

    pub fn warmup_period(&self) -> (r: usize)
        requires
            self.span() + 5 <= usize::MAX,
        ensures
            r == self.span() + 5,
    {
        self.atr_len + 5
    }

    pub fn reset(&mut self)
        ensures
            final(self).inv(),
            final(self).span() == old(self).span(),
            final(self).multiplier() == old(self).multiplier(),
            final(self).window() == Seq::<Bar>::empty(),
            final(self).blocks() == Seq::<OrderBlockZone>::empty(),
            final(self).count() == 0,
            final(self).events() == Seq::<OrderBlockAlert>::empty(),
    {
        self.bars = Vec::new();
        self.active_obs = Vec::new();
        self.bar_count = 0;
        self.alerts = Vec::new();
    }

    /// The events of the latest bar.
    pub fn alerts(&self) -> (r: Vec<OrderBlockAlert>)
        ensures
            r@ == self.events(),
    {
        self.alerts.clone()
    }

    /// The sum of the true ranges of the last `len` of the `n` bars held.
    fn range_total(&self, n: usize, len: usize) -> (r: i128)
        requires
            n == self.bars@.len(),
            1 <= len < n,
            len <= 0x4000_0000,
        ensures
            r == range_sum(self.bars@, n - len, n as int),
            0 <= r <= 0x1_0000_0000_0000_0000 * len,
    {
        let start = n - len;
        let mut total: i128 = 0;
        let mut i: usize = start;
        while i < n
            invariant
                1 <= start <= i <= n,
                start == n - len,
                n == self.bars@.len(),
                len <= 0x4000_0000,
                total == range_sum(self.bars@, start as int, i as int),
                0 <= total <= 0x1_0000_0000_0000_0000 * (i - start),
            decreases n - i,
        {
            let b = self.bars[i];
            let pc = self.bars[i - 1].close as i128;
            let a = b.high as i128 - b.low as i128;
            let c0 = b.high as i128 - pc;
            let c = if c0 < 0 {
                -c0
            } else {
                c0
            };
            let d0 = b.low as i128 - pc;
            let d = if d0 < 0 {
                -d0
            } else {
                d0
            };
            let m = if a >= c {
                a
            } else {
                c
            };
            let tr = if m >= d {
                m
            } else {
                d
            };
            total = total + tr;
            i = i + 1;
        }
        total
    }

    /// Feeds one bar: once `atr_len + 1` bars are held, forms a block on a displacement, then
    /// checks every active block against the bar.
    pub fn on_bar(&mut self, bar: &Bar) -> (r: Option<OrderBlockReading>)
        requires
            old(self).inv(),
            1 <= old(self).span() <= 0x4000_0000,
            old(self).count() < usize::MAX,
        ensures
            final(self).inv(),
            final(self).span() == old(self).span(),
            final(self).multiplier() == old(self).multiplier(),
            final(self).window() == slide(old(self).window(), *bar, old(self).span() + 10),
            final(self).count() == old(self).count() + 1,
            ({
                let w = final(self).window();
                let n = w.len() as int;
                let len = old(self).span();
                if n < len + 1 {
                    &&& r is None
                    &&& final(self).blocks() == old(self).blocks()
                    &&& final(self).events() == Seq::<OrderBlockAlert>::empty()
                } else {
                    let curr = w[n - 1];
                    let disp = displaced(
                        abs(curr.close - curr.open),
                        len,
                        old(self).multiplier(),
                        range_sum(w, n - len, n),
                    );
                    let made = block_of(w[n - 2], curr, disp, final(self).count() as usize);
                    let grown = match made {
                        Some(z) => old(self).blocks().push(z),
                        None => old(self).blocks(),
                    };
                    let formed = match made {
                        Some(z) => seq![block_alert(z)],
                        None => Seq::<OrderBlockAlert>::empty(),
                    };
                    &&& final(self).blocks() == touched(grown, curr)
                    &&& final(self).events() == formed + retests(grown, curr)
                    &&& r == Some(
                        OrderBlockReading {
                            active_count: net_active(grown) as i128,
                            latest_active: active_block(
                                latest_active(touched(grown, curr)),
                                final(self).count(),
                            ),
                        },
                    )
                }
            }),
    {
        self.bar_count = self.bar_count + 1;
        let cap = self.atr_len + 10;
        slide_window(&mut self.bars, *bar, cap);
        self.alerts = Vec::new();
        let len = self.atr_len;
        let n = self.bars.len();
        if n < len + 1 {
            return None;
        }
        let ghost w = self.bars@;
        let total = self.range_total(n, len);
        let curr = self.bars[n - 1];
        let prev = self.bars[n - 2];
        let body = if curr.close >= curr.open {
            curr.close as i128 - curr.open as i128
        } else {
            curr.open as i128 - curr.close as i128
        };
        assert(0 <= body <= 0x1_0000_0000_0000_0000);
        assert(1000 * (len as int) * body <= 1000 * 0x4000_0000 * 0x1_0000_0000_0000_0000)
            by (nonlinear_arith)
            requires
                0 <= len <= 0x4000_0000,
                0 <= body <= 0x1_0000_0000_0000_0000,
        ;
        assert((self.min_disp_milli as int) * total <= 0x1_0000_0000 * (0x1_0000_0000_0000_0000
            * 0x4000_0000)) by (nonlinear_arith)
            requires
                0 <= self.min_disp_milli <= 0xffff_ffff,
                0 <= total <= 0x1_0000_0000_0000_0000 * len,
                len <= 0x4000_0000,
        ;
        let disp = len > 0 && 1000 * (len as i128) * body >= (self.min_disp_milli as i128) * total;
        let ghost before = self.active_obs@;
        if disp && curr.close > curr.open && prev.close < prev.open {
            self.alerts.push(OrderBlockAlert::BullishBlock { bottom: prev.low, top: prev.high });
            self.active_obs.push(
                OrderBlockZone {
                    is_bullish: true,
                    top: prev.high,
                    bottom: prev.low,
                    created_bar: self.bar_count,
                    mitigated: false,
                },
            );
        }
        if disp && curr.close < curr.open && prev.close > prev.open {
            self.alerts.push(OrderBlockAlert::BearishBlock { bottom: prev.low, top: prev.high });
            self.active_obs.push(
                OrderBlockZone {
                    is_bullish: false,
                    top: prev.high,
                    bottom: prev.low,
                    created_bar: self.bar_count,
                    mitigated: false,
                },
            );
        }
        let ghost grown = self.active_obs@;
        let ghost formed = self.alerts@;
        let m = self.active_obs.len();
        let mut active: i128 = 0;
        let mut j: usize = 0;
        while j < m
            invariant
                0 <= j <= m,
                m == grown.len(),
                self.active_obs@.len() == m,
                self.atr_len == len,
                self.bars@ == w,
                self.min_disp_milli == old(self).min_disp_milli,
                self.bar_count == old(self).bar_count + 1,
                forall|k: int| 0 <= k < j ==> #[trigger] self.active_obs@[k] == touch(grown[k], curr).0,
                forall|k: int| j <= k < m ==> #[trigger] self.active_obs@[k] == grown[k],
                self.alerts@ == formed + retests(grown.subrange(0, j as int), curr),
                active == net_active(grown.subrange(0, j as int)),
                -(j as int) <= active <= j,
            decreases m - j,
        {
            let ghost pre = grown.subrange(0, j + 1);
            assert(pre.drop_last() =~= grown.subrange(0, j as int));
            assert(pre.last() == grown[j as int]);
            let ob = self.active_obs[j];
            if !ob.mitigated {
                if ob.is_bullish {
                    active = active + 1;
                    if curr.low <= ob.top {
                        if curr.close < ob.bottom {
                            self.active_obs.set(j, OrderBlockZone { mitigated: true, ..ob });
                        } else {
                            self.alerts.push(OrderBlockAlert::BullishRetest { top: ob.top });
                        }
                    }
                } else {
                    active = active - 1;
                    if curr.high >= ob.bottom {
                        if curr.close > ob.top {
                            self.active_obs.set(j, OrderBlockZone { mitigated: true, ..ob });
                        } else {
                            self.alerts.push(OrderBlockAlert::BearishRetest { bottom: ob.bottom });
                        }
                    }
                }
            }
            assert(self.alerts@ =~= formed + retests(pre, curr));
            j = j + 1;
        }
        assert(grown.subrange(0, m as int) =~= grown);
        assert(self.active_obs@ =~= touched(grown, curr));
        assert(self.active_obs@.subrange(0, m as int) =~= self.active_obs@);
        let mut k: usize = m;
        let mut latest: Option<OrderBlockZone> = None;
        while k > 0 && latest.is_none()
            invariant
                k <= m,
                m == self.active_obs@.len(),
                latest is None ==> latest_active(self.active_obs@) == latest_active(
                    self.active_obs@.subrange(0, k as int),
                ),
                latest is Some ==> latest_active(self.active_obs@) == latest,
            decreases k,
        {
            let ghost pre = self.active_obs@.subrange(0, k as int);
            assert(pre.drop_last() =~= self.active_obs@.subrange(0, k - 1));
            assert(pre.last() == self.active_obs@[k - 1]);
            if !self.active_obs[k - 1].mitigated {
                latest = Some(self.active_obs[k - 1]);
            }
            k = k - 1;
        }
        proof {
            if latest is None {
                assert(self.active_obs@.subrange(0, 0) =~= Seq::<OrderBlockZone>::empty());
            }
        }
        let latest_active = match latest {
            Some(z) => Some(
                ActiveBlock {
                    top: z.top,
                    bottom: z.bottom,
                    duration: if self.bar_count >= z.created_bar {
                        self.bar_count - z.created_bar
                    } else {
                        0
                    },
                },
            ),
            None => None,
        };
        Some(OrderBlockReading { active_count: active, latest_active })
    }
}

} // verus!
