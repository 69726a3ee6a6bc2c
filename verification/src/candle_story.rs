//! Candle story: single- and multi-candle pattern classification on integer OHLC bars.
//!
//! Every candle definition is a statement about shares: how much of a bar's range its body or a
//! wick takes, how long a wick is against the body, how close two prices are relative to their
//! scale. Thresholds are therefore given in parts per million, and every share is compared by
//! exact cross-multiplication, never by a rounded quotient.
//!
//! A bar is reported as the *set* of patterns it shows, listed in catalog order. The readings
//! that need the prior move (hammer against hanging man, inverted hammer against shooting star,
//! the named belt holds) take that move as an input, [`CandleContext`], because it is not in the
//! candle.

use vstd::prelude::*;

use crate::bar::{slide, slide_window, Bar};

verus! {

/// One part per million: the unit of every share and tolerance of the configuration.
pub const PPM: i128 = 1_000_000;

/// The patterns the engine recognises, in catalog order: the order in which they are examined
/// and reported.
#[derive(Debug, Clone, Copy, PartialEq, Eq, Structural)]
pub enum CandlePattern {
    Doji,
    DragonflyDoji,
    GravestoneDoji,
    LongLeggedDoji,
    SpinningTop,
    BullishPinbar,
    BearishPinbar,
    HammerShape,
    InvertedHammerShape,
    BullishMarubozu,
    BearishMarubozu,
    BullishBeltHoldShape,
    BearishBeltHoldShape,
    Hammer,
    HangingMan,
    BullishBeltHold,
    BearishBeltHold,
    InvertedHammer,
    ShootingStar,
    BullishEngulfing,
    BullishEngulfingRange,
    BearishEngulfing,
    BearishEngulfingRange,
    BullishHarami,
    BearishHarami,
    HaramiCross,
    HomingPigeon,
    Kicking,
    CounterattackLines,
    SeparatingLines,
    MatchingLow,
    BullishTweezer,
    BearishTweezer,
    MorningStar,
    EveningStar,
    AdvanceBlock,
    AbandonedBaby,
    TriStar,
    TasukiGap,
    UpsideGapTwoCrows,
    ThreeStarsInTheSouth,
    Deliberation,
    StickSandwich,
    UniqueThreeRiverBottom,
    ThreeLineStrike,
    ConcealingBabySwallow,
    Breakaway,
    RisingThreeMethods,
    FallingThreeMethods,
    MatHold,
    LadderBottom,
}

/// The name under which a pattern is reported.
pub open spec fn pattern_name(p: CandlePattern) -> Seq<char> {
    match p {
        CandlePattern::Doji => "doji"@,
        CandlePattern::DragonflyDoji => "dragonfly_doji"@,
        CandlePattern::GravestoneDoji => "gravestone_doji"@,
        CandlePattern::LongLeggedDoji => "long_legged_doji"@,
        CandlePattern::SpinningTop => "spinning_top"@,
        CandlePattern::BullishPinbar => "bullish_pinbar"@,
        CandlePattern::BearishPinbar => "bearish_pinbar"@,
        CandlePattern::HammerShape => "hammer_shape"@,
        CandlePattern::InvertedHammerShape => "inverted_hammer_shape"@,
        CandlePattern::BullishMarubozu => "bullish_marubozu"@,
        CandlePattern::BearishMarubozu => "bearish_marubozu"@,
        CandlePattern::BullishBeltHoldShape => "bullish_belt_hold_shape"@,
        CandlePattern::BearishBeltHoldShape => "bearish_belt_hold_shape"@,
        CandlePattern::Hammer => "hammer"@,
        CandlePattern::HangingMan => "hanging_man"@,
        CandlePattern::BullishBeltHold => "bullish_belt_hold"@,
        CandlePattern::BearishBeltHold => "bearish_belt_hold"@,
        CandlePattern::InvertedHammer => "inverted_hammer"@,
        CandlePattern::ShootingStar => "shooting_star"@,
        CandlePattern::BullishEngulfing => "bullish_engulfing"@,
        CandlePattern::BullishEngulfingRange => "bullish_engulfing_range"@,
        CandlePattern::BearishEngulfing => "bearish_engulfing"@,
        CandlePattern::BearishEngulfingRange => "bearish_engulfing_range"@,
        CandlePattern::BullishHarami => "bullish_harami"@,
        CandlePattern::BearishHarami => "bearish_harami"@,
        CandlePattern::HaramiCross => "harami_cross"@,
        CandlePattern::HomingPigeon => "homing_pigeon"@,
        CandlePattern::Kicking => "kicking"@,
        CandlePattern::CounterattackLines => "counterattack_lines"@,
        CandlePattern::SeparatingLines => "separating_lines"@,
        CandlePattern::MatchingLow => "matching_low"@,
        CandlePattern::BullishTweezer => "bullish_tweezer"@,
        CandlePattern::BearishTweezer => "bearish_tweezer"@,
        CandlePattern::MorningStar => "morning_star"@,
        CandlePattern::EveningStar => "evening_star"@,
        CandlePattern::AdvanceBlock => "advance_block"@,
        CandlePattern::AbandonedBaby => "abandoned_baby"@,
        CandlePattern::TriStar => "tri_star"@,
        CandlePattern::TasukiGap => "tasuki_gap"@,
        CandlePattern::UpsideGapTwoCrows => "upside_gap_two_crows"@,
        CandlePattern::ThreeStarsInTheSouth => "three_stars_in_the_south"@,
        CandlePattern::Deliberation => "deliberation"@,
        CandlePattern::StickSandwich => "stick_sandwich"@,
        CandlePattern::UniqueThreeRiverBottom => "unique_three_river_bottom"@,
        CandlePattern::ThreeLineStrike => "three_line_strike"@,
        CandlePattern::ConcealingBabySwallow => "concealing_baby_swallow"@,
        CandlePattern::Breakaway => "breakaway"@,
        CandlePattern::RisingThreeMethods => "rising_three_methods"@,
        CandlePattern::FallingThreeMethods => "falling_three_methods"@,
        CandlePattern::MatHold => "mat_hold"@,
        CandlePattern::LadderBottom => "ladder_bottom"@,
    }
}

impl CandlePattern {
    /// The name under which the pattern is reported; see [`pattern_name`].
    pub fn kind(&self) -> (r: &'static str)
        ensures
            r@ == pattern_name(*self),
    {
        match self {
            CandlePattern::Doji => "doji",
            CandlePattern::DragonflyDoji => "dragonfly_doji",
            CandlePattern::GravestoneDoji => "gravestone_doji",
            CandlePattern::LongLeggedDoji => "long_legged_doji",
            CandlePattern::SpinningTop => "spinning_top",
            CandlePattern::BullishPinbar => "bullish_pinbar",
            CandlePattern::BearishPinbar => "bearish_pinbar",
            CandlePattern::HammerShape => "hammer_shape",
            CandlePattern::InvertedHammerShape => "inverted_hammer_shape",
            CandlePattern::BullishMarubozu => "bullish_marubozu",
            CandlePattern::BearishMarubozu => "bearish_marubozu",
            CandlePattern::BullishBeltHoldShape => "bullish_belt_hold_shape",
            CandlePattern::BearishBeltHoldShape => "bearish_belt_hold_shape",
            CandlePattern::Hammer => "hammer",
            CandlePattern::HangingMan => "hanging_man",
            CandlePattern::BullishBeltHold => "bullish_belt_hold",
            CandlePattern::BearishBeltHold => "bearish_belt_hold",
            CandlePattern::InvertedHammer => "inverted_hammer",
            CandlePattern::ShootingStar => "shooting_star",
            CandlePattern::BullishEngulfing => "bullish_engulfing",
            CandlePattern::BullishEngulfingRange => "bullish_engulfing_range",
            CandlePattern::BearishEngulfing => "bearish_engulfing",
            CandlePattern::BearishEngulfingRange => "bearish_engulfing_range",
            CandlePattern::BullishHarami => "bullish_harami",
            CandlePattern::BearishHarami => "bearish_harami",
            CandlePattern::HaramiCross => "harami_cross",
            CandlePattern::HomingPigeon => "homing_pigeon",
            CandlePattern::Kicking => "kicking",
            CandlePattern::CounterattackLines => "counterattack_lines",
            CandlePattern::SeparatingLines => "separating_lines",
            CandlePattern::MatchingLow => "matching_low",
            CandlePattern::BullishTweezer => "bullish_tweezer",
            CandlePattern::BearishTweezer => "bearish_tweezer",
            CandlePattern::MorningStar => "morning_star",
            CandlePattern::EveningStar => "evening_star",
            CandlePattern::AdvanceBlock => "advance_block",
            CandlePattern::AbandonedBaby => "abandoned_baby",
            CandlePattern::TriStar => "tri_star",
            CandlePattern::TasukiGap => "tasuki_gap",
            CandlePattern::UpsideGapTwoCrows => "upside_gap_two_crows",
            CandlePattern::ThreeStarsInTheSouth => "three_stars_in_the_south",
            CandlePattern::Deliberation => "deliberation",
            CandlePattern::StickSandwich => "stick_sandwich",
            CandlePattern::UniqueThreeRiverBottom => "unique_three_river_bottom",
            CandlePattern::ThreeLineStrike => "three_line_strike",
            CandlePattern::ConcealingBabySwallow => "concealing_baby_swallow",
            CandlePattern::Breakaway => "breakaway",
            CandlePattern::RisingThreeMethods => "rising_three_methods",
            CandlePattern::FallingThreeMethods => "falling_three_methods",
            CandlePattern::MatHold => "mat_hold",
            CandlePattern::LadderBottom => "ladder_bottom",
        }
    }
}

/// The number of patterns in the catalog.
pub open spec fn catalog_len() -> int {
    51
}

/// A pattern's position in the catalog.
pub open spec fn rank(p: CandlePattern) -> int {
    match p {
        CandlePattern::Doji => 0,
        CandlePattern::DragonflyDoji => 1,
        CandlePattern::GravestoneDoji => 2,
        CandlePattern::LongLeggedDoji => 3,
        CandlePattern::SpinningTop => 4,
        CandlePattern::BullishPinbar => 5,
        CandlePattern::BearishPinbar => 6,
        CandlePattern::HammerShape => 7,
        CandlePattern::InvertedHammerShape => 8,
        CandlePattern::BullishMarubozu => 9,
        CandlePattern::BearishMarubozu => 10,
        CandlePattern::BullishBeltHoldShape => 11,
        CandlePattern::BearishBeltHoldShape => 12,
        CandlePattern::Hammer => 13,
        CandlePattern::HangingMan => 14,
        CandlePattern::BullishBeltHold => 15,
        CandlePattern::BearishBeltHold => 16,
        CandlePattern::InvertedHammer => 17,
        CandlePattern::ShootingStar => 18,
        CandlePattern::BullishEngulfing => 19,
        CandlePattern::BullishEngulfingRange => 20,
        CandlePattern::BearishEngulfing => 21,
        CandlePattern::BearishEngulfingRange => 22,
        CandlePattern::BullishHarami => 23,
        CandlePattern::BearishHarami => 24,
        CandlePattern::HaramiCross => 25,
        CandlePattern::HomingPigeon => 26,
        CandlePattern::Kicking => 27,
        CandlePattern::CounterattackLines => 28,
        CandlePattern::SeparatingLines => 29,
        CandlePattern::MatchingLow => 30,
        CandlePattern::BullishTweezer => 31,
        CandlePattern::BearishTweezer => 32,
        CandlePattern::MorningStar => 33,
        CandlePattern::EveningStar => 34,
        CandlePattern::AdvanceBlock => 35,
        CandlePattern::AbandonedBaby => 36,
        CandlePattern::TriStar => 37,
        CandlePattern::TasukiGap => 38,
        CandlePattern::UpsideGapTwoCrows => 39,
        CandlePattern::ThreeStarsInTheSouth => 40,
        CandlePattern::Deliberation => 41,
        CandlePattern::StickSandwich => 42,
        CandlePattern::UniqueThreeRiverBottom => 43,
        CandlePattern::ThreeLineStrike => 44,
        CandlePattern::ConcealingBabySwallow => 45,
        CandlePattern::Breakaway => 46,
        CandlePattern::RisingThreeMethods => 47,
        CandlePattern::FallingThreeMethods => 48,
        CandlePattern::MatHold => 49,
        CandlePattern::LadderBottom => 50,
    }
}

/// The pattern at position `i` of the catalog.
pub open spec fn at(i: int) -> CandlePattern {
    if i <= 0 {
        CandlePattern::Doji
    } else if i == 1 {
        CandlePattern::DragonflyDoji
    } else if i == 2 {
        CandlePattern::GravestoneDoji
    } else if i == 3 {
        CandlePattern::LongLeggedDoji
    } else if i == 4 {
        CandlePattern::SpinningTop
    } else if i == 5 {
        CandlePattern::BullishPinbar
    } else if i == 6 {
        CandlePattern::BearishPinbar
    } else if i == 7 {
        CandlePattern::HammerShape
    } else if i == 8 {
        CandlePattern::InvertedHammerShape
    } else if i == 9 {
        CandlePattern::BullishMarubozu
    } else if i == 10 {
        CandlePattern::BearishMarubozu
    } else if i == 11 {
        CandlePattern::BullishBeltHoldShape
    } else if i == 12 {
        CandlePattern::BearishBeltHoldShape
    } else if i == 13 {
        CandlePattern::Hammer
    } else if i == 14 {
        CandlePattern::HangingMan
    } else if i == 15 {
        CandlePattern::BullishBeltHold
    } else if i == 16 {
        CandlePattern::BearishBeltHold
    } else if i == 17 {
        CandlePattern::InvertedHammer
    } else if i == 18 {
        CandlePattern::ShootingStar
    } else if i == 19 {
        CandlePattern::BullishEngulfing
    } else if i == 20 {
        CandlePattern::BullishEngulfingRange
    } else if i == 21 {
        CandlePattern::BearishEngulfing
    } else if i == 22 {
        CandlePattern::BearishEngulfingRange
    } else if i == 23 {
        CandlePattern::BullishHarami
    } else if i == 24 {
        CandlePattern::BearishHarami
    } else if i == 25 {
        CandlePattern::HaramiCross
    } else if i == 26 {
        CandlePattern::HomingPigeon
    } else if i == 27 {
        CandlePattern::Kicking
    } else if i == 28 {
        CandlePattern::CounterattackLines
    } else if i == 29 {
        CandlePattern::SeparatingLines
    } else if i == 30 {
        CandlePattern::MatchingLow
    } else if i == 31 {
        CandlePattern::BullishTweezer
    } else if i == 32 {
        CandlePattern::BearishTweezer
    } else if i == 33 {
        CandlePattern::MorningStar
    } else if i == 34 {
        CandlePattern::EveningStar
    } else if i == 35 {
        CandlePattern::AdvanceBlock
    } else if i == 36 {
        CandlePattern::AbandonedBaby
    } else if i == 37 {
        CandlePattern::TriStar
    } else if i == 38 {
        CandlePattern::TasukiGap
    } else if i == 39 {
        CandlePattern::UpsideGapTwoCrows
    } else if i == 40 {
        CandlePattern::ThreeStarsInTheSouth
    } else if i == 41 {
        CandlePattern::Deliberation
    } else if i == 42 {
        CandlePattern::StickSandwich
    } else if i == 43 {
        CandlePattern::UniqueThreeRiverBottom
    } else if i == 44 {
        CandlePattern::ThreeLineStrike
    } else if i == 45 {
        CandlePattern::ConcealingBabySwallow
    } else if i == 46 {
        CandlePattern::Breakaway
    } else if i == 47 {
        CandlePattern::RisingThreeMethods
    } else if i == 48 {
        CandlePattern::FallingThreeMethods
    } else if i == 49 {
        CandlePattern::MatHold
    } else {
        CandlePattern::LadderBottom
    }
}

/// The catalog positions and the patterns are in one-to-one correspondence.
pub proof fn lemma_catalog_bijection()
    ensures
        forall|p: CandlePattern| 0 <= #[trigger] rank(p) < catalog_len() && at(rank(p)) == p,
        forall|i: int| 0 <= i < catalog_len() ==> #[trigger] rank(at(i)) == i,
{
}


/// Thresholds of the classification, as shares in parts per million. Every one of them is a
/// decision, not a constant of nature.
#[derive(Debug, Clone, Copy, PartialEq, Eq)]
pub struct CandleStoryConfig {
    /// Minimum wick share of the range for a pinbar.
    pub pin_wick_min: u32,
    /// How far towards the opposite end the close must sit for a pinbar.
    pub pin_close_pos: u32,
    /// Minimum body share of the range for a marubozu.
    pub marubozu_body_min: u32,
    /// Minimum body share of the range for a belt hold; lower than the marubozu's on purpose, so
    /// that a belt hold is decided by where the bar opened and not by the absence of both wicks.
    pub belt_hold_body_min: u32,
    /// Maximum wick on the opening side, as a share of the range, for a belt hold.
    pub belt_hold_open_wick_max: u32,
    /// Maximum body share of the range for a doji.
    pub doji_body_max: u32,
    /// Maximum body share of the range for a spinning top.
    pub spinning_top_body_max: u32,
    /// Wick length as a multiple of the body for hammer and inverted hammer.
    pub hammer_wick_body_min: u32,
    /// Maximum opposite wick, as a multiple of the body, for hammer and inverted hammer.
    pub hammer_opposite_max: u32,
    /// Relative tolerance for two prices counting as equal.
    pub tweezer_tolerance: u32,
    /// Minimum range relative to the average true range before a shape is reported at all.
    pub min_range_atr: u32,
    /// Length of the average true range.
    pub atr_len: usize,
    /// Bars used to determine the prior move.
    pub trend_lookback: usize,
    /// How far, in average true ranges, the close must have moved over the lookback to count as
    /// a trend.
    pub trend_min_atr: u32,
}

impl CandleStoryConfig {
    pub open spec fn defaults() -> CandleStoryConfig {
        CandleStoryConfig {
            pin_wick_min: 550_000,
            pin_close_pos: 650_000,
            marubozu_body_min: 820_000,
            belt_hold_body_min: 600_000,
            belt_hold_open_wick_max: 30_000,
            doji_body_max: 80_000,
            spinning_top_body_max: 300_000,
            hammer_wick_body_min: 2_000_000,
            hammer_opposite_max: 500_000,
            tweezer_tolerance: 1_500,
            min_range_atr: 500_000,
            atr_len: 14,
            trend_lookback: 10,
            trend_min_atr: 1_000_000,
        }
    }
}

impl Default for CandleStoryConfig {
    fn default() -> (r: Self)
        ensures
            r == CandleStoryConfig::defaults(),
    {
        CandleStoryConfig {
            pin_wick_min: 550_000,
            pin_close_pos: 650_000,
            marubozu_body_min: 820_000,
            belt_hold_body_min: 600_000,
            belt_hold_open_wick_max: 30_000,
            doji_body_max: 80_000,
            spinning_top_body_max: 300_000,
            hammer_wick_body_min: 2_000_000,
            hammer_opposite_max: 500_000,
            tweezer_tolerance: 1_500,
            min_range_atr: 500_000,
            atr_len: 14,
            trend_lookback: 10,
            trend_min_atr: 1_000_000,
        }
    }
}

/// What the bars alone do not contain: whether the newest bar is large enough, against the
/// average true range, to be read as a shape, and which way the prior move went. With no known
/// prior move both directions are `false`.
#[derive(Debug, Clone, Copy, PartialEq, Eq)]
pub struct CandleContext {
    pub big_enough: bool,
    pub downtrend: bool,
    pub uptrend: bool,
}

pub open spec fn abs(x: int) -> int {
    if x < 0 {
        -x
    } else {
        x
    }
}

pub open spec fn max(a: int, b: int) -> int {
    if a >= b {
        a
    } else {
        b
    }
}

pub open spec fn min(a: int, b: int) -> int {
    if a <= b {
        a
    } else {
        b
    }
}

pub open spec fn body(b: Bar) -> int {
    abs(b.close - b.open)
}

pub open spec fn range(b: Bar) -> int {
    b.high - b.low
}

pub open spec fn upper(b: Bar) -> int {
    b.high - max(b.close as int, b.open as int)
}

pub open spec fn lower(b: Bar) -> int {
    min(b.close as int, b.open as int) - b.low
}

/// A bar closing at or above its open.
pub open spec fn bullish(b: Bar) -> bool {
    b.close >= b.open
}

/// Only a bar with a positive range can be described by shares of it.
pub open spec fn has_range(b: Bar) -> bool {
    b.high > b.low
}

/// `part` is at most `ppm` parts per million of `whole`.
pub open spec fn share_at_most(part: int, whole: int, ppm: int) -> bool {
    part * PPM <= ppm * whole
}

/// `part` is at least `ppm` parts per million of `whole`.
pub open spec fn share_at_least(part: int, whole: int, ppm: int) -> bool {
    part * PPM >= ppm * whole
}

/// Two prices are almost equal: their difference is less than `tol` parts per million of the
/// larger magnitude, which must be positive.
pub open spec fn nearly_equal(a: int, b: int, tol: int) -> bool {
    let scale = max(abs(a), abs(b));
    scale > 0 && abs(a - b) * PPM < tol * scale
}

/// `x` differs from `base` by less than `tol` parts per million of `base`'s magnitude.
pub open spec fn close_to(x: int, base: int, tol: int) -> bool {
    abs(x - base) * PPM < tol * abs(base)
}

pub open spec fn is_doji(c: CandleStoryConfig, b: Bar) -> bool {
    share_at_most(body(b), range(b), c.doji_body_max as int)
}

pub open spec fn is_small(c: CandleStoryConfig, b: Bar) -> bool {
    share_at_most(body(b), range(b), c.spinning_top_body_max as int)
}

pub open spec fn is_marubozu(c: CandleStoryConfig, b: Bar) -> bool {
    share_at_least(body(b), range(b), c.marubozu_body_min as int)
}

pub open spec fn long_wick(c: CandleStoryConfig, wick: int, b: Bar) -> bool {
    share_at_least(wick, range(b), c.pin_wick_min as int)
}

/// A long lower wick against the body and a short upper one.
pub open spec fn hammer_shape(c: CandleStoryConfig, b: Bar) -> bool {
    &&& body(b) > 0
    &&& share_at_least(lower(b), body(b), c.hammer_wick_body_min as int)
    &&& share_at_most(upper(b), body(b), c.hammer_opposite_max as int)
}

/// A long upper wick against the body and a short lower one.
pub open spec fn inverted_hammer_shape(c: CandleStoryConfig, b: Bar) -> bool {
    &&& body(b) > 0
    &&& share_at_least(upper(b), body(b), c.hammer_wick_body_min as int)
    &&& share_at_most(lower(b), body(b), c.hammer_opposite_max as int)
}

/// A large bullish body opening at the low.
pub open spec fn bullish_belt_hold_shape(c: CandleStoryConfig, b: Bar) -> bool {
    &&& share_at_least(body(b), range(b), c.belt_hold_body_min as int)
    &&& bullish(b)
    &&& share_at_most(lower(b), range(b), c.belt_hold_open_wick_max as int)
}

/// A large bearish body opening at the high.
pub open spec fn bearish_belt_hold_shape(c: CandleStoryConfig, b: Bar) -> bool {
    &&& share_at_least(body(b), range(b), c.belt_hold_body_min as int)
    &&& !bullish(b)
    &&& share_at_most(upper(b), range(b), c.belt_hold_open_wick_max as int)
}

/// The shapes one bar shows by itself.
pub open spec fn single_shape(c: CandleStoryConfig, b: Bar, p: CandlePattern) -> bool {
    match p {
        CandlePattern::Doji => is_doji(c, b),
        CandlePattern::DragonflyDoji => is_doji(c, b) && long_wick(c, lower(b), b),
        CandlePattern::GravestoneDoji => is_doji(c, b) && long_wick(c, upper(b), b),
        CandlePattern::LongLeggedDoji => is_doji(c, b) && share_at_least(lower(b), range(b), 300_000)
            && share_at_least(upper(b), range(b), 300_000),
        CandlePattern::SpinningTop => !is_doji(c, b) && is_small(c, b),
        CandlePattern::BullishPinbar => long_wick(c, lower(b), b) && share_at_least(
            b.close - b.low,
            range(b),
            c.pin_close_pos as int,
        ),
        CandlePattern::BearishPinbar => long_wick(c, upper(b), b) && share_at_most(
            b.close - b.low,
            range(b),
            PPM - c.pin_close_pos,
        ),
        CandlePattern::HammerShape => hammer_shape(c, b),
        CandlePattern::InvertedHammerShape => inverted_hammer_shape(c, b),
        CandlePattern::BullishMarubozu => is_marubozu(c, b) && bullish(b),
        CandlePattern::BearishMarubozu => is_marubozu(c, b) && !bullish(b),
        CandlePattern::BullishBeltHoldShape => bullish_belt_hold_shape(c, b),
        CandlePattern::BearishBeltHoldShape => bearish_belt_hold_shape(c, b),
        _ => false,
    }
}

/// The readings that name a shape by the move that came before it.
pub open spec fn named_by_trend(
    c: CandleStoryConfig,
    b: Bar,
    ctx: CandleContext,
    p: CandlePattern,
) -> bool {
    match p {
        CandlePattern::Hammer => hammer_shape(c, b) && ctx.downtrend,
        CandlePattern::HangingMan => hammer_shape(c, b) && !ctx.downtrend && ctx.uptrend,
        CandlePattern::BullishBeltHold => bullish_belt_hold_shape(c, b) && ctx.downtrend,
        CandlePattern::BearishBeltHold => bearish_belt_hold_shape(c, b) && ctx.uptrend,
        CandlePattern::InvertedHammer => inverted_hammer_shape(c, b) && ctx.downtrend,
        CandlePattern::ShootingStar => inverted_hammer_shape(c, b) && !ctx.downtrend
            && ctx.uptrend,
        _ => false,
    }
}

pub open spec fn bullish_engulfing(prev: Bar, cur: Bar) -> bool {
    &&& bullish(cur)
    &&& prev.close < prev.open
    &&& body(cur) > body(prev)
    &&& cur.close > prev.open
    &&& cur.open <= prev.close
}

pub open spec fn bearish_engulfing(prev: Bar, cur: Bar) -> bool {
    &&& !bullish(cur)
    &&& prev.close > prev.open
    &&& body(cur) > body(prev)
    &&& cur.close < prev.open
    &&& cur.open >= prev.close
}

/// The newer bar's range covers the older one's.
pub open spec fn covers(prev: Bar, cur: Bar) -> bool {
    cur.high >= prev.high && cur.low <= prev.low
}

/// The newer body sits inside the older one and is smaller.
pub open spec fn harami(prev: Bar, cur: Bar) -> bool {
    &&& max(cur.open as int, cur.close as int) <= max(prev.open as int, prev.close as int)
    &&& min(cur.open as int, cur.close as int) >= min(prev.open as int, prev.close as int)
    &&& body(cur) < body(prev)
}

/// Two marubozu of opposite colour, the newer one gapping past the older one's extreme.
pub open spec fn kicking(c: CandleStoryConfig, prev: Bar, cur: Bar) -> bool {
    &&& has_range(prev)
    &&& is_marubozu(c, prev)
    &&& is_marubozu(c, cur)
    &&& (prev.close > prev.open && !bullish(cur) && cur.high < prev.low) || (prev.close
        < prev.open && bullish(cur) && cur.low > prev.high)
}

/// The two-bar patterns of `prev` followed by `cur`.
pub open spec fn pair_pattern(
    c: CandleStoryConfig,
    ctx: CandleContext,
    prev: Bar,
    cur: Bar,
    p: CandlePattern,
) -> bool {
    let tol = c.tweezer_tolerance as int;
    let prev_bearish = prev.close < prev.open;
    let prev_bullish = prev.close > prev.open;
    let extremes_known = prev.low != 0 && prev.high != 0;
    match p {
        CandlePattern::BullishEngulfing => bullish_engulfing(prev, cur),
        CandlePattern::BullishEngulfingRange => bullish_engulfing(prev, cur) && covers(prev, cur),
        CandlePattern::BearishEngulfing => bearish_engulfing(prev, cur),
        CandlePattern::BearishEngulfingRange => bearish_engulfing(prev, cur) && covers(prev, cur),
        CandlePattern::BullishHarami => harami(prev, cur) && prev_bearish,
        CandlePattern::BearishHarami => harami(prev, cur) && prev_bullish,
        CandlePattern::HaramiCross => harami(prev, cur) && ctx.big_enough && is_doji(c, cur),
        CandlePattern::HomingPigeon => harami(prev, cur) && prev_bearish && !bullish(cur),
        CandlePattern::Kicking => kicking(c, prev, cur),
        CandlePattern::CounterattackLines => prev_bullish != bullish(cur) && nearly_equal(
            cur.close as int,
            prev.close as int,
            tol,
        ),
        CandlePattern::SeparatingLines => prev_bullish != bullish(cur) && nearly_equal(
            cur.open as int,
            prev.open as int,
            tol,
        ),
        CandlePattern::MatchingLow => prev_bearish && !bullish(cur) && nearly_equal(
            cur.close as int,
            prev.close as int,
            tol,
        ),
        CandlePattern::BullishTweezer => extremes_known && close_to(
            cur.low as int,
            prev.low as int,
            tol,
        ) && bullish(cur) && prev_bearish,
        CandlePattern::BearishTweezer => extremes_known && close_to(
            cur.high as int,
            prev.high as int,
            tol,
        ) && !bullish(cur) && prev_bullish,
        _ => false,
    }
}

/// The middle bar sits above both neighbours' ranges.
pub open spec fn island_above(f: Bar, m: Bar, l: Bar) -> bool {
    m.low > f.high && m.low > l.high
}

/// The middle bar sits below both neighbours' ranges.
pub open spec fn island_below(f: Bar, m: Bar, l: Bar) -> bool {
    m.high < f.low && m.high < l.low
}

/// The three-bar patterns of `f`, `m`, `l`, oldest first.
pub open spec fn triple_pattern(c: CandleStoryConfig, f: Bar, m: Bar, l: Bar, p: CandlePattern) -> bool {
    let tol = c.tweezer_tolerance as int;
    match p {
        CandlePattern::MorningStar => is_small(c, m) && !bullish(f) && bullish(l) && 2 * l.close
            > f.open + f.close && m.close < f.close,
        CandlePattern::EveningStar => is_small(c, m) && bullish(f) && !bullish(l) && 2 * l.close
            < f.open + f.close && m.close > f.close,
        CandlePattern::AdvanceBlock => bullish(f) && bullish(m) && bullish(l) && body(m) < body(f)
            && body(l) < body(m) && upper(m) > upper(f) && upper(l) > upper(m),
        CandlePattern::AbandonedBaby => is_doji(c, m) && ((island_above(f, m, l) && bullish(f)
            && !bullish(l)) || (island_below(f, m, l) && !bullish(f) && bullish(l))),
        CandlePattern::TriStar => is_doji(c, f) && is_doji(c, m) && is_doji(c, l) && (island_above(
            f,
            m,
            l,
        ) || island_below(f, m, l)),
        CandlePattern::TasukiGap => (bullish(f) && bullish(m) && m.low > f.high && !bullish(l)
            && l.close > f.high && l.close < m.low) || (!bullish(f) && !bullish(m) && m.high
            < f.low && bullish(l) && l.close < f.low && l.close > m.high),
        CandlePattern::UpsideGapTwoCrows => bullish(f) && !bullish(m) && !bullish(l) && m.low
            > f.high && l.open > m.open && l.close < m.close && l.close > f.close,
        CandlePattern::ThreeStarsInTheSouth => !bullish(f) && !bullish(m) && !bullish(l) && range(
            m,
        ) < range(f) && range(l) < range(m) && m.low > f.low && l.low > m.low,
        CandlePattern::Deliberation => bullish(f) && bullish(m) && bullish(l) && !is_small(c, f)
            && !is_small(c, m) && is_small(c, l) && nearly_equal(
            l.open as int,
            m.close as int,
            tol,
        ),
        CandlePattern::StickSandwich => !bullish(f) && bullish(m) && !bullish(l) && nearly_equal(
            l.close as int,
            f.close as int,
            tol,
        ),
        CandlePattern::UniqueThreeRiverBottom => !bullish(f) && !bullish(m) && bullish(l) && m.low
            < f.low && long_wick(c, lower(m), m) && is_small(c, l) && l.low > m.low,
        _ => false,
    }
}

/// The newest of four bars covers the highs and lows of the three before it.
pub open spec fn covers_three(b0: Bar, b1: Bar, b2: Bar, b3: Bar) -> bool {
    b3.high >= max(max(b0.high as int, b1.high as int), b2.high as int) && b3.low <= min(
        min(b0.low as int, b1.low as int),
        b2.low as int,
    )
}

/// The four-bar patterns of `b0` to `b3`, oldest first.
pub open spec fn four_pattern(
    c: CandleStoryConfig,
    b0: Bar,
    b1: Bar,
    b2: Bar,
    b3: Bar,
    p: CandlePattern,
) -> bool {
    match p {
        CandlePattern::ThreeLineStrike => (bullish(b0) && bullish(b1) && bullish(b2) && b1.close
            > b0.close && b2.close > b1.close && !bullish(b3) && covers_three(b0, b1, b2, b3)) || (
        !bullish(b0) && !bullish(b1) && !bullish(b2) && b1.close < b0.close && b2.close < b1.close
            && bullish(b3) && covers_three(b0, b1, b2, b3)),
        CandlePattern::ConcealingBabySwallow => !bullish(b0) && !bullish(b1) && !bullish(b2)
            && !bullish(b3) && is_marubozu(c, b0) && is_marubozu(c, b1) && b2.high > b1.close
            && b2.high < b1.open && b3.high >= b2.high && b3.low <= b2.low,
        _ => false,
    }
}

/// The three middle bodies are all smaller than the first.
pub open spec fn inner_small(b0: Bar, b1: Bar, b2: Bar, b3: Bar) -> bool {
    body(b1) < body(b0) && body(b2) < body(b0) && body(b3) < body(b0)
}

/// The last body is larger than each of the three middle ones.
pub open spec fn counter_large(b1: Bar, b2: Bar, b3: Bar, b4: Bar) -> bool {
    body(b4) > body(b1) && body(b4) > body(b2) && body(b4) > body(b3)
}

/// The three middle bars lie within the first bar's range.
pub open spec fn contained(b0: Bar, b1: Bar, b2: Bar, b3: Bar) -> bool {
    &&& b1.high <= b0.high && b1.low >= b0.low
    &&& b2.high <= b0.high && b2.low >= b0.low
    &&& b3.high <= b0.high && b3.low >= b0.low
}

/// A gap in the first bar's direction, three small continuation bars, then a counter bar that
/// closes back into the gap.
pub open spec fn breakaway(b0: Bar, b1: Bar, b2: Bar, b3: Bar, b4: Bar) -> bool {
    if bullish(b0) {
        b1.low > b0.high && bullish(b1) && bullish(b2) && bullish(b3) && !bullish(b4) && b4.close
            > b0.high && b4.close < b1.low
    } else {
        b1.high < b0.low && !bullish(b1) && !bullish(b2) && !bullish(b3) && bullish(b4) && b4.close
            < b0.low && b4.close > b1.high
    }
}

/// The five-bar patterns of `b0` to `b4`, oldest first.
pub open spec fn five_pattern(
    c: CandleStoryConfig,
    b0: Bar,
    b1: Bar,
    b2: Bar,
    b3: Bar,
    b4: Bar,
    p: CandlePattern,
) -> bool {
    let base = contained(b0, b1, b2, b3) && inner_small(b0, b1, b2, b3);
    match p {
        CandlePattern::Breakaway => inner_small(b0, b1, b2, b3) && counter_large(b1, b2, b3, b4)
            && breakaway(b0, b1, b2, b3, b4),
        CandlePattern::RisingThreeMethods => base && bullish(b0) && bullish(b4) && b4.close
            > b0.high,
        CandlePattern::FallingThreeMethods => base && !bullish(b0) && !bullish(b4) && b4.close
            < b0.low,
        CandlePattern::MatHold => base && counter_large(b1, b2, b3, b4) && bullish(b0) == bullish(
            b4,
        ),
        CandlePattern::LadderBottom => !bullish(b0) && !bullish(b1) && !bullish(b2) && !bullish(b3)
            && b1.close < b0.close && b2.close < b1.close && long_wick(c, upper(b3), b3) && bullish(
            b4,
        ) && b4.open > b3.high,
        _ => false,
    }
}

/// The `i`-th bar back from the newest in `w` (the newest is `back(w, 0)`).
pub open spec fn back(w: Seq<Bar>, i: int) -> Bar {
    w[w.len() - 1 - i]
}

/// The definition of each pattern on the window `w`, whose last bar is the one being read. The
/// newest bar must have a range; a pattern over `k` bars needs `k` bars in the window, each with
/// a range for the patterns of three bars or more.
pub open spec fn holds(c: CandleStoryConfig, w: Seq<Bar>, ctx: CandleContext, p: CandlePattern) -> bool {
    let n = w.len();
    &&& n >= 1
    &&& has_range(back(w, 0))
    &&& {
        ||| ctx.big_enough && single_shape(c, back(w, 0), p)
        ||| ctx.big_enough && named_by_trend(c, back(w, 0), ctx, p)
        ||| n >= 2 && pair_pattern(c, ctx, back(w, 1), back(w, 0), p)
        ||| n >= 3 && has_range(back(w, 2)) && has_range(back(w, 1)) && triple_pattern(
            c,
            back(w, 2),
            back(w, 1),
            back(w, 0),
            p,
        )
        ||| n >= 4 && has_range(back(w, 3)) && has_range(back(w, 2)) && has_range(back(w, 1))
            && four_pattern(c, back(w, 3), back(w, 2), back(w, 1), back(w, 0), p)
        ||| n >= 5 && has_range(back(w, 4)) && has_range(back(w, 3)) && has_range(back(w, 2))
            && has_range(back(w, 1)) && five_pattern(
            c,
            back(w, 4),
            back(w, 3),
            back(w, 2),
            back(w, 1),
            back(w, 0),
            p,
        )
    }
}

/// The first `k` patterns of the catalog, in catalog order, keeping those that hold.
pub open spec fn story_upto(c: CandleStoryConfig, w: Seq<Bar>, ctx: CandleContext, k: int) -> Seq<
    CandlePattern,
>
    decreases k,
{
    if k <= 0 {
        Seq::empty()
    } else {
        let s = story_upto(c, w, ctx, k - 1);
        if holds(c, w, ctx, at(k - 1)) {
            s.push(at(k - 1))
        } else {
            s
        }
    }
}

/// The patterns the newest bar of `w` shows: every pattern of the catalog whose definition
/// holds, in catalog order.
pub open spec fn story(c: CandleStoryConfig, w: Seq<Bar>, ctx: CandleContext) -> Seq<CandlePattern> {
    story_upto(c, w, ctx, catalog_len())
}

/// The prefix `story_upto(k)` lists exactly the patterns of rank below `k` that hold, in strictly
/// increasing rank.
proof fn lemma_story_upto(c: CandleStoryConfig, w: Seq<Bar>, ctx: CandleContext, k: int)
    requires
        0 <= k <= catalog_len(),
    ensures
        forall|p: CandlePattern| #[trigger]
            story_upto(c, w, ctx, k).contains(p) <==> rank(p) < k && holds(c, w, ctx, p),
        forall|i: int, j: int|
            0 <= i < j < story_upto(c, w, ctx, k).len() ==> rank(
                #[trigger] story_upto(c, w, ctx, k)[i],
            ) < rank(#[trigger] story_upto(c, w, ctx, k)[j]),
        forall|i: int|
            0 <= i < story_upto(c, w, ctx, k).len() ==> rank(#[trigger] story_upto(c, w, ctx, k)[i])
                < k,
    decreases k,
{
    lemma_catalog_bijection();
    if k > 0 {
        lemma_story_upto(c, w, ctx, k - 1);
        let s = story_upto(c, w, ctx, k - 1);
        if holds(c, w, ctx, at(k - 1)) {
            assert forall|p: CandlePattern| #[trigger]
                s.push(at(k - 1)).contains(p) <==> rank(p) < k && holds(c, w, ctx, p) by {
                let t = s.push(at(k - 1));
                if t.contains(p) && !s.contains(p) {
                    let i = choose|i: int| 0 <= i < t.len() && #[trigger] t[i] == p;
                    if i < s.len() {
                        assert(s[i] == p);
                    }
                    assert(p == at(k - 1));
                }
                if s.contains(p) {
                    let i = choose|i: int| 0 <= i < s.len() && #[trigger] s[i] == p;
                    assert(t[i] == p);
                }
                if rank(p) == k - 1 {
                    assert(t[s.len() as int] == p);
                }
            }
        } else {
            assert forall|p: CandlePattern| #[trigger]
                s.contains(p) <==> rank(p) < k && holds(c, w, ctx, p) by {
                if rank(p) == k - 1 {
                    assert(at(rank(p)) == p);
                }
            }
        }
    }
}

/// Each pattern is reported exactly when its definition holds, in catalog order, never twice.
pub proof fn story_reports_exactly_what_holds(
    c: CandleStoryConfig,
    w: Seq<Bar>,
    ctx: CandleContext,
    p: CandlePattern,
)
    ensures
        story(c, w, ctx).contains(p) <==> holds(c, w, ctx, p),
        forall|i: int, j: int|
            0 <= i < j < story(c, w, ctx).len() ==> rank(#[trigger] story(c, w, ctx)[i]) < rank(
                #[trigger] story(c, w, ctx)[j],
            ),
        forall|i: int, j: int|
            0 <= i < j < story(c, w, ctx).len() ==> #[trigger] story(c, w, ctx)[i] != #[trigger] story(
                c,
                w,
                ctx,
            )[j],
{
    lemma_catalog_bijection();
    lemma_story_upto(c, w, ctx, catalog_len());
}

/// An engulfing reading needs two bars of opposite colour whose newer body covers the older one:
/// the bearish one is reported exactly when the newest bar has a range, the bar before it closed
/// above its open, and the newest bar opened at or above that close and closed below that open;
/// the bullish one is the mirror image.
pub proof fn engulfing_covers_the_previous_body(c: CandleStoryConfig, w: Seq<Bar>, ctx: CandleContext)
    ensures
        story(c, w, ctx).contains(CandlePattern::BearishEngulfing) <==> {
            &&& w.len() >= 2
            &&& has_range(w[w.len() - 1])
            &&& w[w.len() - 2].close > w[w.len() - 2].open
            &&& w[w.len() - 1].open >= w[w.len() - 2].close
            &&& w[w.len() - 1].close < w[w.len() - 2].open
        },
        story(c, w, ctx).contains(CandlePattern::BullishEngulfing) <==> {
            &&& w.len() >= 2
            &&& has_range(w[w.len() - 1])
            &&& w[w.len() - 2].close < w[w.len() - 2].open
            &&& w[w.len() - 1].open <= w[w.len() - 2].close
            &&& w[w.len() - 1].close > w[w.len() - 2].open
        },
{
    story_reports_exactly_what_holds(c, w, ctx, CandlePattern::BearishEngulfing);
    story_reports_exactly_what_holds(c, w, ctx, CandlePattern::BullishEngulfing);
}

/// The range variants of the engulfing readings are the engulfing readings whose newer bar's
/// range also covers the older one's. A harami is the reverse of an engulfing: a smaller newer
/// body inside the older one, after a bearish bar for the bullish harami and a bullish bar for
/// the bearish one, and a homing pigeon is a bullish harami whose newer bar closed below its open.
/// No bar is both an engulfing and a harami of the same direction.
pub proof fn pair_readings_relate_the_two_bodies(c: CandleStoryConfig, w: Seq<Bar>, ctx: CandleContext)
    ensures
        ({
            let st = story(c, w, ctx);
            let two = w.len() >= 2 && has_range(w[w.len() - 1]);
            let prev = w[w.len() - 2];
            let cur = w[w.len() - 1];
            let covers_range = cur.high >= prev.high && cur.low <= prev.low;
            let inside = {
                &&& two
                &&& cur.open <= prev.open || cur.open <= prev.close
                &&& cur.close <= prev.open || cur.close <= prev.close
                &&& cur.open >= prev.open || cur.open >= prev.close
                &&& cur.close >= prev.open || cur.close >= prev.close
                &&& body(cur) < body(prev)
            };
            &&& st.contains(CandlePattern::BullishEngulfingRange) == (st.contains(
                CandlePattern::BullishEngulfing,
            ) && covers_range)
            &&& st.contains(CandlePattern::BearishEngulfingRange) == (st.contains(
                CandlePattern::BearishEngulfing,
            ) && covers_range)
            &&& st.contains(CandlePattern::BullishHarami) == (inside && prev.close < prev.open)
            &&& st.contains(CandlePattern::BearishHarami) == (inside && prev.close > prev.open)
            &&& st.contains(CandlePattern::HomingPigeon) == (st.contains(CandlePattern::BullishHarami)
                && cur.close < cur.open)
            &&& !(st.contains(CandlePattern::BullishEngulfing) && st.contains(
                CandlePattern::BullishHarami,
            ))
            &&& !(st.contains(CandlePattern::BearishEngulfing) && st.contains(
                CandlePattern::BearishHarami,
            ))
        }),
{
    story_reports_exactly_what_holds(c, w, ctx, CandlePattern::BullishEngulfing);
    story_reports_exactly_what_holds(c, w, ctx, CandlePattern::BearishEngulfing);
    story_reports_exactly_what_holds(c, w, ctx, CandlePattern::BullishEngulfingRange);
    story_reports_exactly_what_holds(c, w, ctx, CandlePattern::BearishEngulfingRange);
    story_reports_exactly_what_holds(c, w, ctx, CandlePattern::BullishHarami);
    story_reports_exactly_what_holds(c, w, ctx, CandlePattern::BearishHarami);
    story_reports_exactly_what_holds(c, w, ctx, CandlePattern::HomingPigeon);
}

/// Morning star and evening star never show on the same bar: one needs a bearish first candle
/// and a bullish last one, the other the reverse.
pub proof fn stars_exclude_each_other(c: CandleStoryConfig, w: Seq<Bar>, ctx: CandleContext)
    ensures
        !(holds(c, w, ctx, CandlePattern::MorningStar) && holds(c, w, ctx, CandlePattern::EveningStar)),
{
}

/// Hammer and hanging man are one geometry told apart by the prior move, and so are inverted
/// hammer and shooting star: a named reading is reported only together with its shape, never
/// both names at once, and neither while the prior move is unknown. A bar below the size floor
/// shows no single-bar shape and no named reading.
pub proof fn named_readings_follow_shape_and_move(c: CandleStoryConfig, w: Seq<Bar>, ctx: CandleContext)
    ensures
        holds(c, w, ctx, CandlePattern::Hammer) || holds(c, w, ctx, CandlePattern::HangingMan)
            ==> holds(c, w, ctx, CandlePattern::HammerShape),
        holds(c, w, ctx, CandlePattern::InvertedHammer) || holds(c, w, ctx, CandlePattern::ShootingStar)
            ==> holds(c, w, ctx, CandlePattern::InvertedHammerShape),
        !(holds(c, w, ctx, CandlePattern::Hammer) && holds(c, w, ctx, CandlePattern::HangingMan)),
        !(holds(c, w, ctx, CandlePattern::InvertedHammer) && holds(
            c,
            w,
            ctx,
            CandlePattern::ShootingStar,
        )),
        !ctx.downtrend && !ctx.uptrend ==> forall|i: int|
            13 <= i < 19 ==> !holds(c, w, ctx, #[trigger] at(i)),
        !ctx.big_enough ==> forall|i: int| 0 <= i < 19 ==> !holds(c, w, ctx, #[trigger] at(i)),
{
}

/// Products of a share bound (below `2^33` in magnitude) and a price difference (below `2^66`)
/// stay far inside `i128`.
proof fn lemma_product_bound(a: int, b: int)
    requires
        -0x2_0000_0000 <= a <= 0x2_0000_0000,
        -0x4_0000_0000_0000_0000 <= b <= 0x4_0000_0000_0000_0000,
    ensures
        -0x8_0000_0000_0000_0000_0000_0000 <= a * b <= 0x8_0000_0000_0000_0000_0000_0000,
{
    assert(-0x8_0000_0000_0000_0000_0000_0000 <= a * b <= 0x8_0000_0000_0000_0000_0000_0000)
        by (nonlinear_arith)
        requires
            -0x2_0000_0000 <= a <= 0x2_0000_0000,
            -0x4_0000_0000_0000_0000 <= b <= 0x4_0000_0000_0000_0000,
    ;
}

fn at_most(part: i128, whole: i128, ppm: i128) -> (r: bool)
    requires
        -0x4_0000_0000_0000_0000 <= part <= 0x4_0000_0000_0000_0000,
        -0x4_0000_0000_0000_0000 <= whole <= 0x4_0000_0000_0000_0000,
        -0x2_0000_0000 <= ppm <= 0x2_0000_0000,
    ensures
        r == share_at_most(part as int, whole as int, ppm as int),
{
    proof {
        lemma_product_bound(ppm as int, whole as int);
    }
    part * PPM <= ppm * whole
}

fn at_least(part: i128, whole: i128, ppm: i128) -> (r: bool)
    requires
        -0x4_0000_0000_0000_0000 <= part <= 0x4_0000_0000_0000_0000,
        -0x4_0000_0000_0000_0000 <= whole <= 0x4_0000_0000_0000_0000,
        -0x2_0000_0000 <= ppm <= 0x2_0000_0000,
    ensures
        r == share_at_least(part as int, whole as int, ppm as int),
{
    proof {
        lemma_product_bound(ppm as int, whole as int);
    }
    part * PPM >= ppm * whole
}

fn abs_of(x: i128) -> (r: i128)
    requires
        -0x4_0000_0000_0000_0000 <= x <= 0x4_0000_0000_0000_0000,
    ensures
        r == abs(x as int),
{
    if x < 0 {
        -x
    } else {
        x
    }
}

fn nearly_equal_prices(a: i64, b: i64, tol: u32) -> (r: bool)
    ensures
        r == nearly_equal(a as int, b as int, tol as int),
{
    let aa = abs_of(a as i128);
    let bb = abs_of(b as i128);
    let scale = if aa >= bb {
        aa
    } else {
        bb
    };
    let diff = abs_of(a as i128 - b as i128);
    proof {
        lemma_product_bound(tol as int, scale as int);
    }
    scale > 0 && diff * PPM < (tol as i128) * scale
}

fn close_to_price(x: i64, base: i64, tol: u32) -> (r: bool)
    ensures
        r == close_to(x as int, base as int, tol as int),
{
    let diff = abs_of(x as i128 - base as i128);
    let scale = abs_of(base as i128);
    proof {
        lemma_product_bound(tol as int, scale as int);
    }
    diff * PPM < (tol as i128) * scale
}

fn body_of(b: &Bar) -> (r: i128)
    ensures
        r == body(*b),
{
    abs_of(b.close as i128 - b.open as i128)
}

fn range_of(b: &Bar) -> (r: i128)
    ensures
        r == range(*b),
{
    b.high as i128 - b.low as i128
}

fn upper_of(b: &Bar) -> (r: i128)
    ensures
        r == upper(*b),
{
    let top = if b.close >= b.open {
        b.close
    } else {
        b.open
    };
    b.high as i128 - top as i128
}

fn lower_of(b: &Bar) -> (r: i128)
    ensures
        r == lower(*b),
{
    let bottom = if b.close <= b.open {
        b.close
    } else {
        b.open
    };
    bottom as i128 - b.low as i128
}

fn doji(c: &CandleStoryConfig, b: &Bar) -> (r: bool)
    ensures
        r == is_doji(*c, *b),
{
    at_most(body_of(b), range_of(b), c.doji_body_max as i128)
}

fn small(c: &CandleStoryConfig, b: &Bar) -> (r: bool)
    ensures
        r == is_small(*c, *b),
{
    at_most(body_of(b), range_of(b), c.spinning_top_body_max as i128)
}

fn marubozu(c: &CandleStoryConfig, b: &Bar) -> (r: bool)
    ensures
        r == is_marubozu(*c, *b),
{
    at_least(body_of(b), range_of(b), c.marubozu_body_min as i128)
}

fn long_wick_of(c: &CandleStoryConfig, wick: i128, b: &Bar) -> (r: bool)
    requires
        -0x4_0000_0000_0000_0000 <= wick <= 0x4_0000_0000_0000_0000,
    ensures
        r == long_wick(*c, wick as int, *b),
{
    at_least(wick, range_of(b), c.pin_wick_min as i128)
}

fn hammer_geometry(c: &CandleStoryConfig, b: &Bar) -> (r: bool)
    ensures
        r == hammer_shape(*c, *b),
{
    let body = body_of(b);
    body > 0 && at_least(lower_of(b), body, c.hammer_wick_body_min as i128) && at_most(
        upper_of(b),
        body,
        c.hammer_opposite_max as i128,
    )
}

fn inverted_hammer_geometry(c: &CandleStoryConfig, b: &Bar) -> (r: bool)
    ensures
        r == inverted_hammer_shape(*c, *b),
{
    let body = body_of(b);
    body > 0 && at_least(upper_of(b), body, c.hammer_wick_body_min as i128) && at_most(
        lower_of(b),
        body,
        c.hammer_opposite_max as i128,
    )
}

fn bullish_belt_hold_geometry(c: &CandleStoryConfig, b: &Bar) -> (r: bool)
    ensures
        r == bullish_belt_hold_shape(*c, *b),
{
    at_least(body_of(b), range_of(b), c.belt_hold_body_min as i128) && b.close >= b.open
        && at_most(lower_of(b), range_of(b), c.belt_hold_open_wick_max as i128)
}

fn bearish_belt_hold_geometry(c: &CandleStoryConfig, b: &Bar) -> (r: bool)
    ensures
        r == bearish_belt_hold_shape(*c, *b),
{
    at_least(body_of(b), range_of(b), c.belt_hold_body_min as i128) && b.close < b.open
        && at_most(upper_of(b), range_of(b), c.belt_hold_open_wick_max as i128)
}

/// Appends `p` when `cond` holds.
fn mark(found: &mut Vec<CandlePattern>, cond: bool, p: CandlePattern)
    ensures
        final(found)@ == if cond {
            old(found)@.push(p)
        } else {
            old(found)@
        },
{
    if cond {
        found.push(p);
    }
}

/// When no pattern of catalog positions `a` to `b` holds, the story does not grow over them.
proof fn lemma_quiet(c: CandleStoryConfig, w: Seq<Bar>, ctx: CandleContext, a: int, b: int)
    requires
        0 <= a <= b <= catalog_len(),
        forall|i: int| a <= i < b ==> !holds(c, w, ctx, #[trigger] at(i)),
    ensures
        story_upto(c, w, ctx, b) == story_upto(c, w, ctx, a),
    decreases b - a,
{
    if a < b {
        lemma_quiet(c, w, ctx, a, b - 1);
        assert(!holds(c, w, ctx, at(b - 1)));
    }
}

/// Patterns over more bars than the window holds do not hold.
proof fn lemma_short_window(c: CandleStoryConfig, w: Seq<Bar>, ctx: CandleContext, from: int)
    requires
        from == 19 && w.len() < 2 || from == 33 && w.len() < 3 || from == 44 && w.len() < 4
            || from == 46 && w.len() < 5,
    ensures
        story_upto(c, w, ctx, catalog_len()) == story_upto(c, w, ctx, from),
{
    assert forall|i: int| from <= i < catalog_len() implies !holds(c, w, ctx, #[trigger] at(i)) by {
        lemma_catalog_bijection();
    }
    lemma_quiet(c, w, ctx, from, catalog_len());
}

/// Candle story engine: keeps the last five bars for the multi-bar patterns and the closes of the
/// trend lookback, and reads the newest bar as the set of patterns it shows.
pub struct CandleStoryEngine {
    config: CandleStoryConfig,
    window: Vec<Bar>,
    closes: Vec<i64>,
    prev_close: Option<i64>,
}

/// The true range of `b`: its own range, widened to the previous close where that lies outside.
pub open spec fn true_range(prev_close: Option<i64>, b: Bar) -> int {
    match prev_close {
        Some(p) => max(max(range(b), abs(b.high - p)), abs(b.low - p)),
        None => range(b),
    }
}

/// Appends `x` to the rolling closes `s`, dropping the oldest once more than `cap` are kept.
pub open spec fn slide_closes(s: Seq<i64>, x: i64, cap: int) -> Seq<i64> {
    let p = s.push(x);
    if p.len() > cap {
        p.drop_first()
    } else {
        p
    }
}

/// The prior move: the newest close minus the close `lookback` bars earlier, once that many
/// closes are known.
pub open spec fn prior_move_of(closes: Seq<i64>, lookback: int) -> Option<int> {
    if closes.len() > lookback {
        Some(closes.last() - closes[closes.len() - 1 - lookback])
    } else {
        None
    }
}

impl CandleStoryEngine {
    pub closed spec fn cfg(&self) -> CandleStoryConfig {
        self.config
    }

    /// The bars kept for the multi-bar patterns, oldest first.
    pub closed spec fn bars(&self) -> Seq<Bar> {
        self.window@
    }

    /// The closes kept for the prior move, oldest first.
    pub closed spec fn recent_closes(&self) -> Seq<i64> {
        self.closes@
    }

    pub closed spec fn last_close(&self) -> Option<i64> {
        self.prev_close
    }

    pub closed spec fn wf(&self) -> bool {
        &&& self.window@.len() <= 5
        &&& self.closes@.len() <= self.config.trend_lookback + 2
    }

    pub fn new() -> (r: Self)
        ensures
            r.wf(),
            r.cfg() == CandleStoryConfig::defaults(),
            r.bars() == Seq::<Bar>::empty(),
            r.recent_closes() == Seq::<i64>::empty(),
            r.last_close() is None,
    {
        Self::with_config(CandleStoryConfig::default())
    }

    pub fn with_config(config: CandleStoryConfig) -> (r: Self)
        ensures
            r.wf(),
            r.cfg() == config,
            r.bars() == Seq::<Bar>::empty(),
            r.recent_closes() == Seq::<i64>::empty(),
            r.last_close() is None,
    {
        CandleStoryEngine { config, window: Vec::new(), closes: Vec::new(), prev_close: None }
    }

    pub fn config(&self) -> (r: CandleStoryConfig)
        ensures
            r == self.cfg(),
    {
        self.config
    }

    pub fn warmup_period(&self) -> (r: usize)
        ensures
            r == 2,
    {
        2
    }

    /// The bars kept for the multi-bar patterns, oldest first.
    pub fn window(&self) -> (r: &Vec<Bar>)
        ensures
            r@ == self.bars(),
    {
        &self.window
    }

    pub fn reset(&mut self)
        ensures
            final(self).wf(),
            final(self).cfg() == old(self).cfg(),
            final(self).bars() == Seq::<Bar>::empty(),
            final(self).recent_closes() == Seq::<i64>::empty(),
            final(self).last_close() is None,
    {
        self.window = Vec::new();
        self.closes = Vec::new();
        self.prev_close = None;
    }

    /// Takes in a bar: it joins the window of five and the closes of the lookback, and becomes
    /// the previous close. Returns its true range, which feeds the average true range.
    pub fn record_bar(&mut self, bar: Bar) -> (tr: i128)
        requires
            old(self).wf(),
        ensures
            final(self).wf(),
            final(self).cfg() == old(self).cfg(),
            final(self).bars() == slide(old(self).bars(), bar, 5),
            final(self).recent_closes() == slide_closes(
                old(self).recent_closes(),
                bar.close,
                old(self).cfg().trend_lookback + 2,
            ),
            final(self).last_close() == Some(bar.close),
            tr == true_range(old(self).last_close(), bar),
    {
        slide_window(&mut self.window, bar, 5);
        let ghost pushed = self.closes@.push(bar.close);
        self.closes.push(bar.close);
        let len = self.closes.len();
        if len > 2 && len - 2 > self.config.trend_lookback {
            self.closes.remove(0);
            assert(self.closes@ =~= pushed.drop_first());
        }
        let range = bar.high as i128 - bar.low as i128;
        let tr = match self.prev_close {
            Some(prev) => {
                let up = abs_of(bar.high as i128 - prev as i128);
                let down = abs_of(bar.low as i128 - prev as i128);
                let widest = if range >= up {
                    range
                } else {
                    up
                };
                if widest >= down {
                    widest
                } else {
                    down
                }
            },
            None => range,
        };
        self.prev_close = Some(bar.close);
        tr
    }

    /// The prior move over `trend_lookback` bars, in ticks; `None` until enough closes are kept.
    pub fn prior_move(&self) -> (r: Option<i128>)
        ensures
            r matches Some(v) ==> prior_move_of(self.recent_closes(), self.cfg().trend_lookback as int)
                == Some(v as int),
            r is None <==> prior_move_of(self.recent_closes(), self.cfg().trend_lookback as int) is None,
    {
        let n = self.closes.len();
        if n > self.config.trend_lookback {
            Some(self.closes[n - 1] as i128 - self.closes[n - 1 - self.config.trend_lookback] as i128)
        } else {
            None
        }
    }

    /// Shapes that need one bar only.
    fn classify_single(&self, ctx: CandleContext, found: &mut Vec<CandlePattern>)
        requires
            self.window@.len() >= 1,
            has_range(back(self.window@, 0)),
            old(found)@ == story_upto(self.config, self.window@, ctx, 0),
        ensures
            final(found)@ == story_upto(self.config, self.window@, ctx, 13),
    {
        let c = &self.config;
        let b = &self.window[self.window.len() - 1];
        let big = ctx.big_enough;
        let d = doji(c, b);
        let maru = marubozu(c, b);
        let lw = lower_of(b);
        let uw = upper_of(b);
        let rg = range_of(b);
        let pos = b.close as i128 - b.low as i128;
        mark(found, big && d, CandlePattern::Doji);
        assert(found@ == story_upto(self.config, self.window@, ctx, 1));
        mark(found, big && d && long_wick_of(c, lw, b), CandlePattern::DragonflyDoji);
        assert(found@ == story_upto(self.config, self.window@, ctx, 2));
        mark(found, big && d && long_wick_of(c, uw, b), CandlePattern::GravestoneDoji);
        assert(found@ == story_upto(self.config, self.window@, ctx, 3));
        mark(found, big && d && at_least(lw, rg, 300_000) && at_least(uw, rg, 300_000), CandlePattern::LongLeggedDoji);
        assert(found@ == story_upto(self.config, self.window@, ctx, 4));
        mark(found, big && !d && small(c, b), CandlePattern::SpinningTop);
        assert(found@ == story_upto(self.config, self.window@, ctx, 5));
        mark(found, big && long_wick_of(c, lw, b) && at_least(pos, rg, c.pin_close_pos as i128), CandlePattern::BullishPinbar);
        assert(found@ == story_upto(self.config, self.window@, ctx, 6));
        mark(found, big && long_wick_of(c, uw, b) && at_most(pos, rg, PPM - c.pin_close_pos as i128), CandlePattern::BearishPinbar);
        assert(found@ == story_upto(self.config, self.window@, ctx, 7));
        mark(found, big && hammer_geometry(c, b), CandlePattern::HammerShape);
        assert(found@ == story_upto(self.config, self.window@, ctx, 8));
        mark(found, big && inverted_hammer_geometry(c, b), CandlePattern::InvertedHammerShape);
        assert(found@ == story_upto(self.config, self.window@, ctx, 9));
        mark(found, big && maru && b.close >= b.open, CandlePattern::BullishMarubozu);
        assert(found@ == story_upto(self.config, self.window@, ctx, 10));
        mark(found, big && maru && b.close < b.open, CandlePattern::BearishMarubozu);
        assert(found@ == story_upto(self.config, self.window@, ctx, 11));
        mark(found, big && bullish_belt_hold_geometry(c, b), CandlePattern::BullishBeltHoldShape);
        assert(found@ == story_upto(self.config, self.window@, ctx, 12));
        mark(found, big && bearish_belt_hold_geometry(c, b), CandlePattern::BearishBeltHoldShape);
        assert(found@ == story_upto(self.config, self.window@, ctx, 13));
    }

    /// The readings that only exist together with a prior move: the same shape is named one
    /// way after a decline and another after an advance, and not at all without a known move.
    fn name_by_trend(&self, ctx: CandleContext, found: &mut Vec<CandlePattern>)
        requires
            self.window@.len() >= 1,
            has_range(back(self.window@, 0)),
            old(found)@ == story_upto(self.config, self.window@, ctx, 13),
        ensures
            final(found)@ == story_upto(self.config, self.window@, ctx, 19),
    {
        let c = &self.config;
        let b = &self.window[self.window.len() - 1];
        let big = ctx.big_enough;
        let hammer = big && hammer_geometry(c, b);
        let inverted = big && inverted_hammer_geometry(c, b);
        mark(found, hammer && ctx.downtrend, CandlePattern::Hammer);
        assert(found@ == story_upto(self.config, self.window@, ctx, 14));
        mark(found, hammer && !ctx.downtrend && ctx.uptrend, CandlePattern::HangingMan);
        assert(found@ == story_upto(self.config, self.window@, ctx, 15));
        mark(found, big && bullish_belt_hold_geometry(c, b) && ctx.downtrend, CandlePattern::BullishBeltHold);
        assert(found@ == story_upto(self.config, self.window@, ctx, 16));
        mark(found, big && bearish_belt_hold_geometry(c, b) && ctx.uptrend, CandlePattern::BearishBeltHold);
        assert(found@ == story_upto(self.config, self.window@, ctx, 17));
        mark(found, inverted && ctx.downtrend, CandlePattern::InvertedHammer);
        assert(found@ == story_upto(self.config, self.window@, ctx, 18));
        mark(found, inverted && !ctx.downtrend && ctx.uptrend, CandlePattern::ShootingStar);
        assert(found@ == story_upto(self.config, self.window@, ctx, 19));
    }

    /// Two-bar patterns.
    fn classify_pair(&self, ctx: CandleContext, found: &mut Vec<CandlePattern>)
        requires
            self.window@.len() >= 2,
            has_range(back(self.window@, 0)),
            old(found)@ == story_upto(self.config, self.window@, ctx, 19),
        ensures
            final(found)@ == story_upto(self.config, self.window@, ctx, 33),
    {
        let c = &self.config;
        let n = self.window.len();
        let prev = &self.window[n - 2];
        let bar = &self.window[n - 1];
        let tol = c.tweezer_tolerance;
        let bullish = bar.close >= bar.open;
        let prev_bearish = prev.close < prev.open;
        let prev_bullish = prev.close > prev.open;
        let engulfs = body_of(bar) > body_of(prev);
        let bull_engulf = bullish && prev_bearish && engulfs && bar.close > prev.open && bar.open
            <= prev.close;
        let bear_engulf = !bullish && prev_bullish && engulfs && bar.close < prev.open && bar.open
            >= prev.close;
        let covers = bar.high >= prev.high && bar.low <= prev.low;
        let top = if bar.open >= bar.close {
            bar.open
        } else {
            bar.close
        };
        let bottom = if bar.open <= bar.close {
            bar.open
        } else {
            bar.close
        };
        let prev_top = if prev.open >= prev.close {
            prev.open
        } else {
            prev.close
        };
        let prev_bottom = if prev.open <= prev.close {
            prev.open
        } else {
            prev.close
        };
        let harami = top <= prev_top && bottom >= prev_bottom && body_of(bar) < body_of(prev);
        let kicking = prev.high > prev.low && marubozu(c, prev) && marubozu(c, bar) && ((
        prev_bullish && !bullish && bar.high < prev.low) || (prev_bearish && bullish && bar.low
            > prev.high));
        let extremes_known = prev.low != 0 && prev.high != 0;
        mark(found, bull_engulf, CandlePattern::BullishEngulfing);
        assert(found@ == story_upto(self.config, self.window@, ctx, 20));
        mark(found, bull_engulf && covers, CandlePattern::BullishEngulfingRange);
        assert(found@ == story_upto(self.config, self.window@, ctx, 21));
        mark(found, bear_engulf, CandlePattern::BearishEngulfing);
        assert(found@ == story_upto(self.config, self.window@, ctx, 22));
        mark(found, bear_engulf && covers, CandlePattern::BearishEngulfingRange);
        assert(found@ == story_upto(self.config, self.window@, ctx, 23));
        mark(found, harami && prev_bearish, CandlePattern::BullishHarami);
        assert(found@ == story_upto(self.config, self.window@, ctx, 24));
        mark(found, harami && prev_bullish, CandlePattern::BearishHarami);
        assert(found@ == story_upto(self.config, self.window@, ctx, 25));
        mark(found, harami && ctx.big_enough && doji(c, bar), CandlePattern::HaramiCross);
        assert(found@ == story_upto(self.config, self.window@, ctx, 26));
        mark(found, harami && prev_bearish && !bullish, CandlePattern::HomingPigeon);
        assert(found@ == story_upto(self.config, self.window@, ctx, 27));
        mark(found, kicking, CandlePattern::Kicking);
        assert(found@ == story_upto(self.config, self.window@, ctx, 28));
        mark(found, prev_bullish != bullish && nearly_equal_prices(bar.close, prev.close, tol), CandlePattern::CounterattackLines);
        assert(found@ == story_upto(self.config, self.window@, ctx, 29));
        mark(found, prev_bullish != bullish && nearly_equal_prices(bar.open, prev.open, tol), CandlePattern::SeparatingLines);
        assert(found@ == story_upto(self.config, self.window@, ctx, 30));
        mark(found, prev_bearish && !bullish && nearly_equal_prices(bar.close, prev.close, tol), CandlePattern::MatchingLow);
        assert(found@ == story_upto(self.config, self.window@, ctx, 31));
        mark(found, extremes_known && close_to_price(bar.low, prev.low, tol) && bullish && prev_bearish, CandlePattern::BullishTweezer);
        assert(found@ == story_upto(self.config, self.window@, ctx, 32));
        mark(found, extremes_known && close_to_price(bar.high, prev.high, tol) && !bullish && prev_bullish, CandlePattern::BearishTweezer);
        assert(found@ == story_upto(self.config, self.window@, ctx, 33));
    }

    /// Three-bar patterns.
    fn classify_triple(&self, ctx: CandleContext, found: &mut Vec<CandlePattern>)
        requires
            self.window@.len() >= 3,
            has_range(back(self.window@, 0)),
            old(found)@ == story_upto(self.config, self.window@, ctx, 33),
        ensures
            final(found)@ == story_upto(self.config, self.window@, ctx, 44),
    {
        let c = &self.config;
        let n = self.window.len();
        let first = &self.window[n - 3];
        let middle = &self.window[n - 2];
        let last = &self.window[n - 1];
        let tol = c.tweezer_tolerance;
        let ok = first.high > first.low && middle.high > middle.low;
        let f_bull = first.close >= first.open;
        let m_bull = middle.close >= middle.open;
        let l_bull = last.close >= last.open;
        let above = middle.low > first.high && middle.low > last.high;
        let below = middle.high < first.low && middle.high < last.low;
        mark(found, ok && small(c, middle) && !f_bull && l_bull && 2 * (last.close as i128) > first.open as i128 + first.close as i128 && middle.close < first.close, CandlePattern::MorningStar);
        assert(found@ == story_upto(self.config, self.window@, ctx, 34));
        mark(found, ok && small(c, middle) && f_bull && !l_bull && 2 * (last.close as i128) < first.open as i128 + first.close as i128 && middle.close > first.close, CandlePattern::EveningStar);
        assert(found@ == story_upto(self.config, self.window@, ctx, 35));
        mark(found, ok && f_bull && m_bull && l_bull && body_of(middle) < body_of(first) && body_of(last) < body_of(middle) && upper_of(middle) > upper_of(first) && upper_of(last) > upper_of(middle), CandlePattern::AdvanceBlock);
        assert(found@ == story_upto(self.config, self.window@, ctx, 36));
        mark(found, ok && doji(c, middle) && ((above && f_bull && !l_bull) || (below && !f_bull && l_bull)), CandlePattern::AbandonedBaby);
        assert(found@ == story_upto(self.config, self.window@, ctx, 37));
        mark(found, ok && doji(c, first) && doji(c, middle) && doji(c, last) && (above || below), CandlePattern::TriStar);
        assert(found@ == story_upto(self.config, self.window@, ctx, 38));
        mark(found, ok && ((f_bull && m_bull && middle.low > first.high && !l_bull && last.close > first.high && last.close < middle.low) || (!f_bull && !m_bull && middle.high < first.low && l_bull && last.close < first.low && last.close > middle.high)), CandlePattern::TasukiGap);
        assert(found@ == story_upto(self.config, self.window@, ctx, 39));
        mark(found, ok && f_bull && !m_bull && !l_bull && middle.low > first.high && last.open > middle.open && last.close < middle.close && last.close > first.close, CandlePattern::UpsideGapTwoCrows);
        assert(found@ == story_upto(self.config, self.window@, ctx, 40));
        mark(found, ok && !f_bull && !m_bull && !l_bull && range_of(middle) < range_of(first) && range_of(last) < range_of(middle) && middle.low > first.low && last.low > middle.low, CandlePattern::ThreeStarsInTheSouth);
        assert(found@ == story_upto(self.config, self.window@, ctx, 41));
        mark(found, ok && f_bull && m_bull && l_bull && !small(c, first) && !small(c, middle) && small(c, last) && nearly_equal_prices(last.open, middle.close, tol), CandlePattern::Deliberation);
        assert(found@ == story_upto(self.config, self.window@, ctx, 42));
        mark(found, ok && !f_bull && m_bull && !l_bull && nearly_equal_prices(last.close, first.close, tol), CandlePattern::StickSandwich);
        assert(found@ == story_upto(self.config, self.window@, ctx, 43));
        mark(found, ok && !f_bull && !m_bull && l_bull && middle.low < first.low && long_wick_of(c, lower_of(middle), middle) && small(c, last) && last.low > middle.low, CandlePattern::UniqueThreeRiverBottom);
        assert(found@ == story_upto(self.config, self.window@, ctx, 44));
    }

    /// Four-bar patterns.
    fn classify_four(&self, ctx: CandleContext, found: &mut Vec<CandlePattern>)
        requires
            self.window@.len() >= 4,
            has_range(back(self.window@, 0)),
            old(found)@ == story_upto(self.config, self.window@, ctx, 44),
        ensures
            final(found)@ == story_upto(self.config, self.window@, ctx, 46),
    {
        let c = &self.config;
        let n = self.window.len();
        let b0 = &self.window[n - 4];
        let b1 = &self.window[n - 3];
        let b2 = &self.window[n - 2];
        let b3 = &self.window[n - 1];
        let ok = b0.high > b0.low && b1.high > b1.low && b2.high > b2.low;
        let u0 = b0.close >= b0.open;
        let u1 = b1.close >= b1.open;
        let u2 = b2.close >= b2.open;
        let u3 = b3.close >= b3.open;
        let high01 = if b0.high >= b1.high {
            b0.high
        } else {
            b1.high
        };
        let highest = if high01 >= b2.high {
            high01
        } else {
            b2.high
        };
        let low01 = if b0.low <= b1.low {
            b0.low
        } else {
            b1.low
        };
        let lowest = if low01 <= b2.low {
            low01
        } else {
            b2.low
        };
        let covers = b3.high >= highest && b3.low <= lowest;
        mark(found, ok && ((u0 && u1 && u2 && b1.close > b0.close && b2.close > b1.close && !u3 && covers) || (!u0 && !u1 && !u2 && b1.close < b0.close && b2.close < b1.close && u3 && covers)), CandlePattern::ThreeLineStrike);
        assert(found@ == story_upto(self.config, self.window@, ctx, 45));
        mark(found, ok && !u0 && !u1 && !u2 && !u3 && marubozu(c, b0) && marubozu(c, b1) && b2.high > b1.close && b2.high < b1.open && b3.high >= b2.high && b3.low <= b2.low, CandlePattern::ConcealingBabySwallow);
        assert(found@ == story_upto(self.config, self.window@, ctx, 46));
    }

    /// Five-bar patterns.
    fn classify_five(&self, ctx: CandleContext, found: &mut Vec<CandlePattern>)
        requires
            self.window@.len() >= 5,
            has_range(back(self.window@, 0)),
            old(found)@ == story_upto(self.config, self.window@, ctx, 46),
        ensures
            final(found)@ == story_upto(self.config, self.window@, ctx, 51),
    {
        let c = &self.config;
        let n = self.window.len();
        let b0 = &self.window[n - 5];
        let b1 = &self.window[n - 4];
        let b2 = &self.window[n - 3];
        let b3 = &self.window[n - 2];
        let b4 = &self.window[n - 1];
        let ok = b0.high > b0.low && b1.high > b1.low && b2.high > b2.low && b3.high > b3.low;
        let u0 = b0.close >= b0.open;
        let u1 = b1.close >= b1.open;
        let u2 = b2.close >= b2.open;
        let u3 = b3.close >= b3.open;
        let u4 = b4.close >= b4.open;
        let body0 = body_of(b0);
        let body1 = body_of(b1);
        let body2 = body_of(b2);
        let body3 = body_of(b3);
        let body4 = body_of(b4);
        let inner_small = body1 < body0 && body2 < body0 && body3 < body0;
        let counter_large = body4 > body1 && body4 > body2 && body4 > body3;
        let breakaway = if u0 {
            b1.low > b0.high && u1 && u2 && u3 && !u4 && b4.close > b0.high && b4.close < b1.low
        } else {
            b1.high < b0.low && !u1 && !u2 && !u3 && u4 && b4.close < b0.low && b4.close > b1.high
        };
        let contained = b1.high <= b0.high && b1.low >= b0.low && b2.high <= b0.high && b2.low
            >= b0.low && b3.high <= b0.high && b3.low >= b0.low;
        let base = contained && inner_small;
        mark(found, ok && inner_small && counter_large && breakaway, CandlePattern::Breakaway);
        assert(found@ == story_upto(self.config, self.window@, ctx, 47));
        mark(found, ok && base && u0 && u4 && b4.close > b0.high, CandlePattern::RisingThreeMethods);
        assert(found@ == story_upto(self.config, self.window@, ctx, 48));
        mark(found, ok && base && !u0 && !u4 && b4.close < b0.low, CandlePattern::FallingThreeMethods);
        assert(found@ == story_upto(self.config, self.window@, ctx, 49));
        mark(found, ok && base && counter_large && u0 == u4, CandlePattern::MatHold);
        assert(found@ == story_upto(self.config, self.window@, ctx, 50));
        mark(found, ok && !u0 && !u1 && !u2 && !u3 && b1.close < b0.close && b2.close < b1.close && long_wick_of(c, upper_of(b3), b3) && u4 && b4.open > b3.high, CandlePattern::LadderBottom);
        assert(found@ == story_upto(self.config, self.window@, ctx, 51));
    }

    /// The patterns the newest bar shows, given what the bars cannot tell: every pattern of the
    /// catalog whose definition holds on the kept bars, in catalog order. A bar without a range
    /// shows none.
    pub fn classify(&self, ctx: CandleContext) -> (r: Vec<CandlePattern>)
        ensures
            r@ == story(self.cfg(), self.bars(), ctx),
    {
        let mut found: Vec<CandlePattern> = Vec::new();
        let n = self.window.len();
        if n == 0 || self.window[n - 1].high <= self.window[n - 1].low {
            proof {
                assert forall|i: int| 0 <= i < catalog_len() implies !holds(
                    self.config,
                    self.window@,
                    ctx,
                    #[trigger] at(i),
                ) by {}
                lemma_quiet(self.config, self.window@, ctx, 0, catalog_len());
            }
            return found;
        }
        self.classify_single(ctx, &mut found);
        self.name_by_trend(ctx, &mut found);
        if n < 2 {
            proof {
                lemma_short_window(self.config, self.window@, ctx, 19);
            }
            return found;
        }
        self.classify_pair(ctx, &mut found);
        if n < 3 {
            proof {
                lemma_short_window(self.config, self.window@, ctx, 33);
            }
            return found;
        }
        self.classify_triple(ctx, &mut found);
        if n < 4 {
            proof {
                lemma_short_window(self.config, self.window@, ctx, 44);
            }
            return found;
        }
        self.classify_four(ctx, &mut found);
        if n < 5 {
            proof {
                lemma_short_window(self.config, self.window@, ctx, 46);
            }
            return found;
        }
        self.classify_five(ctx, &mut found);
        found
    }
}

} // verus!
