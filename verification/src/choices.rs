//! The configuration choices and reported states of the streaming indicators, with their
//! defaults and labels.

use vstd::prelude::*;

verus! {

/// Anchor trigger condition for resetting cumulative VWAP calculations.
#[derive(Debug, Clone, Copy, PartialEq, Eq, Structural)]
pub enum VwapAnchorKind {
    Session,
    Day,
    Week,
    Month,
    ManualTimestamp(i64),
    External,
}

impl Default for VwapAnchorKind {
    fn default() -> (r: Self)
        ensures
            r == VwapAnchorKind::Session,
    {
        VwapAnchorKind::Session
    }
}

/// How a bar without volume enters the anchored VWAP.
#[derive(Debug, Clone, Copy, PartialEq, Eq, Structural)]
pub enum ZeroVolumePolicy {
    Skip,
    EqualWeight,
}

impl Default for ZeroVolumePolicy {
    fn default() -> (r: Self)
        ensures
            r == ZeroVolumePolicy::EqualWeight,
    {
        ZeroVolumePolicy::EqualWeight
    }
}

/// Which divisor the band standard deviation uses.
///
/// The window is the full population of the lookback in one reading and a sample drawn from an
/// unobserved wider distribution in the other; the choice belongs to the caller.
#[derive(Debug, Clone, Copy, PartialEq, Eq, Structural)]
pub enum VarianceConvention {
    /// Divisor `N`. The default.
    Population,
    /// Divisor `N - 1` (Bessel-corrected), which requires `N >= 2`.
    Sample,
}

impl Default for VarianceConvention {
    fn default() -> (r: Self)
        ensures
            r == VarianceConvention::Population,
    {
        VarianceConvention::Population
    }
}

/// Where a bar's split into buying and selling volume came from. The three are not
/// interchangeable, and this label is what tells them apart.
#[derive(Debug, Clone, Copy, PartialEq, Eq, Structural)]
pub enum DeltaProvenance {
    /// Estimated from where the close sits inside a single bar's range.
    BarShape,
    /// Estimated from the sequence of lower-timeframe bars inside the parent bar.
    IntrabarShape,
    /// Measured from classified individual trades, each carrying the side that initiated it.
    ClassifiedTrades,
}

impl DeltaProvenance {
    /// The human-readable name of the provenance.
    pub fn label(&self) -> (r: &'static str)
        ensures
            r@ == match *self {
                DeltaProvenance::BarShape => "bar shape"@,
                DeltaProvenance::IntrabarShape => "intrabar shape"@,
                DeltaProvenance::ClassifiedTrades => "classified trades"@,
            },
    {
        match self {
            DeltaProvenance::BarShape => "bar shape",
            DeltaProvenance::IntrabarShape => "intrabar shape",
            DeltaProvenance::ClassifiedTrades => "classified trades",
        }
    }
}

/// How an intrabar whose close did not move is booked.
#[derive(Debug, Clone, Copy, PartialEq, Eq, Structural)]
pub enum UnchangedIntrabarPolicy {
    /// Its volume contributes nothing to the delta and is counted as unattributed. The default.
    Unattributed,
    /// Its volume keeps the direction of the previous attributed child, or is unattributed if
    /// there is none.
    CarryPreviousDirection,
}

impl Default for UnchangedIntrabarPolicy {
    fn default() -> (r: Self)
        ensures
            r == UnchangedIntrabarPolicy::Unattributed,
    {
        UnchangedIntrabarPolicy::Unattributed
    }
}

/// When the cumulative delta returns to zero.
#[derive(Debug, Clone, Copy, PartialEq, Eq, Structural)]
pub enum DeltaAnchor {
    /// Never: one running total across the whole series. The default.
    Continuous,
    /// At the start of every UTC day, shifted by the given number of seconds.
    Daily { start_offset_seconds: i64 },
}

impl Default for DeltaAnchor {
    fn default() -> (r: Self)
        ensures
            r == DeltaAnchor::Continuous,
    {
        DeltaAnchor::Continuous
    }
}

#[derive(Debug, Clone, Copy, PartialEq, Eq, Structural)]
pub enum DivergenceKind {
    RegularBullish,
    RegularBearish,
    HiddenBullish,
    HiddenBearish,
}

/// Which oscillator value a pivot is compared with.
#[derive(Debug, Clone, Copy, PartialEq, Eq, Structural)]
pub enum OscillatorAnchor {
    /// The oscillator's value exactly at the candidate pivot bar.
    AtPivot,
    /// The oscillator's extreme across the confirmation window. The default.
    WindowExtreme,
}

impl Default for OscillatorAnchor {
    fn default() -> (r: Self)
        ensures
            r == OscillatorAnchor::WindowExtreme,
    {
        OscillatorAnchor::WindowExtreme
    }
}

/// The crossings a MACD reports on a bar.
#[derive(Debug, Clone, Copy, PartialEq, Eq, Structural)]
pub struct MacdAlerts {
    pub bull_cross: bool,
    pub bear_cross: bool,
    pub bull_zero_cross: bool,
    pub bear_zero_cross: bool,
}

impl Default for MacdAlerts {
    fn default() -> (r: Self)
        ensures
            !r.bull_cross && !r.bear_cross && !r.bull_zero_cross && !r.bear_zero_cross,
    {
        MacdAlerts { bull_cross: false, bear_cross: false, bull_zero_cross: false, bear_zero_cross: false }
    }
}

/// Lifecycle state of a MIDAS Topfinder/Bottomfinder projection.
#[derive(Debug, Clone, Copy, PartialEq, Eq, Structural)]
pub enum MidasState {
    /// No extreme has been set since launch yet; only the base curve is meaningful.
    Launch,
    /// An extreme has been set and the projection is converging toward it.
    Projecting,
    /// `maturity_bars` have passed since the extreme with no new one set.
    Exhausted,
}

#[derive(Debug, Clone, Copy, PartialEq, Eq, Structural)]
pub enum MidasMode {
    Topfinder,
    Bottomfinder,
}

#[derive(Debug, Clone, Copy, PartialEq, Eq, Structural)]
pub enum PivotSetType {
    Classic,
    Fibonacci,
    Camarilla,
    Woodie,
    DeMark,
    /// Central pivot range.
    Cpr,
}

impl Default for PivotSetType {
    fn default() -> (r: Self)
        ensures
            r == PivotSetType::Classic,
    {
        PivotSetType::Classic
    }
}

#[derive(Debug, Clone, Copy, PartialEq, Eq, Structural)]
pub enum PriceLevelKind {
    OpeningRangeHigh,
    OpeningRangeLow,
    OpeningRangeMid,
    PeriodMidpoint,
    RoundNumber,
    SwingFibonacci,
}

/// Which prices the Relative Volatility Index is measured on.
#[derive(Debug, Clone, Copy, PartialEq, Eq, Structural)]
pub enum RelativeVolatilityVariant {
    /// The closing price alone. The default.
    Close,
    /// The same measurement run separately on highs and on lows, then averaged.
    HighLow,
}

impl Default for RelativeVolatilityVariant {
    fn default() -> (r: Self)
        ensures
            r == RelativeVolatilityVariant::Close,
    {
        RelativeVolatilityVariant::Close
    }
}

} // verus!
