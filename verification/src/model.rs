//! Descriptions of the series a result was computed on.

use vstd::prelude::*;

verus! {

/// What the volume column of a series measures.
#[derive(Debug, Clone, Copy, PartialEq, Eq, Structural)]
pub enum VolumeKind {
    RealTurnover,
}

/// Which trading session a series covers.
#[derive(Debug, Clone, Copy, PartialEq, Eq, Structural)]
pub enum SessionKind {
    Regular,
}

/// How the contracts of a series are joined over time.
#[derive(Debug, Clone, Copy, PartialEq, Eq, Structural)]
pub enum ContinuityKind {
    SingleContract,
}

/// Whether prices were back-adjusted.
#[derive(Debug, Clone, Copy, PartialEq, Eq, Structural)]
pub enum PriceAdjustment {
    Raw,
}

/// Where the data came from.
#[derive(Debug, Clone, Copy, PartialEq, Eq, Structural)]
pub enum Provenance {
    Exchange,
}

/// How deep the market behind the series is.
#[derive(Debug, Clone, Copy, PartialEq, Eq, Structural)]
pub enum LiquidityTier {
    Deep,
}

/// The properties of a series that decide whether a stored result still applies to it.
#[derive(Debug, Clone, Copy, PartialEq, Eq, Structural)]
pub struct SeriesCapabilities {
    pub volume: VolumeKind,
    pub trade_direction: bool,
    pub session: SessionKind,
    pub continuity: ContinuityKind,
    pub price_adjustment: PriceAdjustment,
    pub provenance: Provenance,
    pub liquidity_tier: LiquidityTier,
}

} // verus!
