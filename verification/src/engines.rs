//! The discrete side of the streaming oscillators: their configured lengths, when they start
//! publishing, and the bar counters that gate their first output. The averages themselves run on
//! floating point and are kept by the caller beside these values.

use vstd::prelude::*;

verus! {

/// The larger of `n` and one.
pub open spec fn at_least_one(n: usize) -> usize {
    if n >= 1 {
        n
    } else {
        1
    }
}

fn clamp_to_one(n: usize) -> (r: usize)
    ensures
        r == at_least_one(n),
{
    if n >= 1 {
        n
    } else {
        1
    }
}

/// Balance of Power: `SMA((close - open) / (high - low), period)`.
#[derive(Debug, Clone, Copy, PartialEq, Eq)]
pub struct BalanceOfPowerEngine {
    pub period: usize,
    /// The length the average is built with: the requested period, unclamped.
    pub sma_len: usize,
}

impl BalanceOfPowerEngine {
    pub fn new(period: usize) -> (r: Self)
        ensures
            r.period == at_least_one(period),
            r.sma_len == period,
    {
        BalanceOfPowerEngine { period: clamp_to_one(period), sma_len: period }
    }

    pub fn name(&self) -> (r: &'static str)
        ensures
            r@ == "bop"@,
    {
        "bop"
    }

    /// Bars before the first output.
    pub fn warmup_period(&self) -> (r: usize)
        ensures
            r == self.period,
    {
        self.period
    }
}

/// Relative Vigor Index: the average of `(close - open) / (high - low)` over `period` bars, and a
/// four-bar signal line over that.
#[derive(Debug, Clone, Copy, PartialEq, Eq)]
pub struct RviEngine {
    pub period: usize,
    /// The length of the value average: the requested period, unclamped.
    pub value_len: usize,
    /// The length of the signal average.
    pub signal_len: usize,
}

impl RviEngine {
    pub fn new(period: usize) -> (r: Self)
        ensures
            r.period == at_least_one(period),
            r.value_len == period,
            r.signal_len == 4,
    {
        RviEngine { period: clamp_to_one(period), value_len: period, signal_len: 4 }
    }

    pub fn name(&self) -> (r: &'static str)
        ensures
            r@ == "rvi"@,
    {
        "rvi"
    }

    /// Bars before the first output: the value average, then the signal average over it.
    pub fn warmup_period(&self) -> (r: usize)
        requires
            self.period + 4 <= usize::MAX,
        ensures
            r == self.period + 4,
    {
        self.period + 4
    }
}

/// Buy/sell pressure (-100..+100): close location and wick balance, smoothed.
#[derive(Debug, Clone, Copy, PartialEq, Eq)]
pub struct BuySellPressureEstimator {
    pub period: usize,
    /// The length of the exponential average: the requested period, unclamped.
    pub ema_len: usize,
}

impl BuySellPressureEstimator {
    pub fn new(period: usize) -> (r: Self)
        ensures
            r.period == at_least_one(period),
            r.ema_len == period,
    {
        BuySellPressureEstimator { period: clamp_to_one(period), ema_len: period }
    }

    pub fn with_defaults() -> (r: Self)
        ensures
            r.period == 14,
            r.ema_len == 14,
    {
        Self::new(14)
    }

    pub fn name(&self) -> (r: &'static str)
        ensures
            r@ == "buy_sell_pressure"@,
    {
        "buy_sell_pressure"
    }

    pub fn warmup_period(&self) -> (r: usize)
        ensures
            r == self.period,
    {
        self.period
    }
}

/// Chaikin oscillator: `EMA(ADL, fast) - EMA(ADL, slow)`, published from the `slow`-th bar on.
#[derive(Debug, Clone, Copy, PartialEq, Eq)]
pub struct ChaikinOscillatorEngine {
    fast_len: usize,
    slow_len: usize,
    fast_ema_len: usize,
    slow_ema_len: usize,
    count: usize,
}

impl ChaikinOscillatorEngine {
    pub closed spec fn fast(&self) -> usize {
        self.fast_len
    }

    pub closed spec fn slow(&self) -> usize {
        self.slow_len
    }

    /// The lengths the two averages are built with: the requested ones, unclamped.
    pub closed spec fn fast_ema(&self) -> usize {
        self.fast_ema_len
    }

    pub closed spec fn slow_ema(&self) -> usize {
        self.slow_ema_len
    }

    /// Bars seen since construction or the last reset.
    pub closed spec fn bars(&self) -> usize {
        self.count
    }

    pub fn new(fast_len: usize, slow_len: usize) -> (r: Self)
        ensures
            r.fast() == at_least_one(fast_len),
            r.slow() == at_least_one(slow_len),
            r.fast_ema() == fast_len,
            r.slow_ema() == slow_len,
            r.bars() == 0,
    {
        ChaikinOscillatorEngine {
            fast_len: clamp_to_one(fast_len),
            slow_len: clamp_to_one(slow_len),
            fast_ema_len: fast_len,
            slow_ema_len: slow_len,
            count: 0,
        }
    }

    pub fn with_defaults() -> (r: Self)
        ensures
            r.fast() == 3,
            r.slow() == 10,
            r.fast_ema() == 3,
            r.slow_ema() == 10,
            r.bars() == 0,
    {
        Self::new(3, 10)
    }

    pub fn fast_len(&self) -> (r: usize)
        ensures
            r == self.fast(),
    {
        self.fast_len
    }

    pub fn slow_len(&self) -> (r: usize)
        ensures
            r == self.slow(),
    {
        self.slow_len
    }

    pub fn name(&self) -> (r: &'static str)
        ensures
            r@ == "chaikin_oscillator"@,
    {
        "chaikin_oscillator"
    }

    pub fn warmup_period(&self) -> (r: usize)
        ensures
            r == self.slow(),
    {
        self.slow_len
    }

    /// The lengths the fast and the slow average are built with.
    pub fn ema_lens(&self) -> (r: (usize, usize))
        ensures
            r == (self.fast_ema(), self.slow_ema()),
    {
        (self.fast_ema_len, self.slow_ema_len)
    }

    /// Bars seen since construction or the last reset.
    pub fn bar_count(&self) -> (r: usize)
        ensures
            r == self.bars(),
    {
        self.count
    }

    /// Forgets the bars seen.
    pub fn reset(&mut self)
        ensures
            final(self).fast() == old(self).fast(),
            final(self).slow() == old(self).slow(),
            final(self).fast_ema() == old(self).fast_ema(),
            final(self).slow_ema() == old(self).slow_ema(),
            final(self).bars() == 0,
    {
        self.count = 0;
    }

    /// Counts one more bar and tells whether the oscillator publishes on it: from the `slow`-th
    /// bar on.
    pub fn count_bar(&mut self) -> (ready: bool)
        requires
            old(self).bars() < usize::MAX,
        ensures
            final(self).bars() == old(self).bars() + 1,
            final(self).fast() == old(self).fast(),
            final(self).slow() == old(self).slow(),
            final(self).fast_ema() == old(self).fast_ema(),
            final(self).slow_ema() == old(self).slow_ema(),
            ready == (final(self).bars() >= final(self).slow()),
    {
        self.count = self.count + 1;
        self.count >= self.slow_len
    }
}

/// Elder Ray: bull power `high - EMA(close)` and bear power `low - EMA(close)`, published from
/// the `ema_period`-th bar on.
#[derive(Debug, Clone, Copy, PartialEq, Eq)]
pub struct ElderRayEngine {
    pub ema_period: usize,
    /// The length the average is built with: the requested period, unclamped.
    pub ema_len: usize,
    /// Bars seen since construction or the last reset.
    pub count: usize,
}

impl ElderRayEngine {
    pub fn new(ema_period: usize) -> (r: Self)
        ensures
            r.ema_period == at_least_one(ema_period),
            r.ema_len == ema_period,
            r.count == 0,
    {
        ElderRayEngine { ema_period: clamp_to_one(ema_period), ema_len: ema_period, count: 0 }
    }

    pub fn name(&self) -> (r: &'static str)
        ensures
            r@ == "elder_ray"@,
    {
        "elder_ray"
    }

    pub fn warmup_period(&self) -> (r: usize)
        ensures
            r == self.ema_period,
    {
        self.ema_period
    }

    /// Forgets the bars seen.
    pub fn reset(&mut self)
        ensures
            final(self).ema_period == old(self).ema_period,
            final(self).ema_len == old(self).ema_len,
            final(self).count == 0,
    {
        self.count = 0;
    }

    /// Counts one more bar and tells whether the engine publishes on it.
    pub fn count_bar(&mut self) -> (ready: bool)
        requires
            old(self).count < usize::MAX,
        ensures
            final(self).count == old(self).count + 1,
            final(self).ema_period == old(self).ema_period,
            final(self).ema_len == old(self).ema_len,
            ready == (final(self).count >= final(self).ema_period),
    {
        self.count = self.count + 1;
        self.count >= self.ema_period
    }
}

/// How the true range is averaged.
#[derive(Debug, Clone, Copy, PartialEq, Eq, Structural)]
pub enum TrueRangeSmoothing {
    /// Wilder's smoothing, `alpha = 1/N`, seeded with the SMA of the first `N` true ranges. The
    /// default.
    Rma,
    /// Plain average of the last `N` true ranges.
    Sma,
    /// Exponential, `alpha = 2/(N+1)`, seeded with the first true range, published from the
    /// `N`-th bar on so the output start does not depend on the method.
    Ema,
    /// Linearly weighted over the last `N` true ranges, heaviest on the most recent.
    Wma,
}

impl Default for TrueRangeSmoothing {
    fn default() -> (r: Self)
        ensures
            r == TrueRangeSmoothing::Rma,
    {
        TrueRangeSmoothing::Rma
    }
}

/// The publishing side of the true-range average: which method, over how many bars, and for
/// the exponential form how many values it has produced. Every method publishes from the `N`-th
/// true range on, so switching the method moves the values, never the first output.
#[derive(Debug, Clone, Copy, PartialEq, Eq)]
pub struct TrSmoother {
    pub method: TrueRangeSmoothing,
    pub len: usize,
    /// Values the exponential form has produced; unused by the other methods, whose averages
    /// decide their own start.
    pub seen: usize,
}

impl TrSmoother {
    pub fn new(method: TrueRangeSmoothing, len: usize) -> (r: Self)
        ensures
            r.method == method,
            r.len == len,
            r.seen == 0,
    {
        TrSmoother { method, len, seen: 0 }
    }

    /// Starts over.
    pub fn reset(&mut self)
        ensures
            final(self).method == old(self).method,
            final(self).len == old(self).len,
            final(self).seen == 0,
    {
        self.seen = 0;
    }

    /// Called when the underlying average produced a value: tells whether that value is
    /// published. The exponential form is held back until it has produced `len` values; the other
    /// forms publish whatever their average produces.
    pub fn on_value(&mut self) -> (publish: bool)
        requires
            old(self).seen < usize::MAX,
        ensures
            final(self).method == old(self).method,
            final(self).len == old(self).len,
            old(self).method == TrueRangeSmoothing::Ema ==> {
                &&& final(self).seen == old(self).seen + 1
                &&& publish == (final(self).seen >= final(self).len)
            },
            old(self).method != TrueRangeSmoothing::Ema ==> {
                &&& final(self).seen == old(self).seen
                &&& publish
            },
    {
        match self.method {
            TrueRangeSmoothing::Ema => {
                self.seen = self.seen + 1;
                self.seen >= self.len
            },
            _ => true,
        }
    }
}

} // verus!
