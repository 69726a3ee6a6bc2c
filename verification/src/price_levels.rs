//! Price-level candidates of one shape: opening-range levels, round numbers and swing Fibonacci
//! levels, so that a consumer can merge and rank them uniformly.
//!
//! Prices are integer ticks; a level is given in thousandths of a tick, which holds the opening
//! range's midpoint and every Fibonacci level exactly.

use vstd::prelude::*;

use crate::choices::PriceLevelKind;

use vstd::arithmetic::div_mod::{lemma_fundamental_div_mod, lemma_fundamental_div_mod_converse};

verus! {

/// What qualifies a level: nothing, the round-number increment (in ticks), or the Fibonacci
/// ratio (in thousandths).
#[derive(Debug, Clone, Copy, PartialEq, Eq, Structural)]
pub enum LevelLabel {
    Plain,
    Increment(i64),
    Ratio(u32),
}

/// A single price-level candidate. `price_milli` is the level in thousandths of a tick.
#[derive(Debug, Clone, Copy, PartialEq, Eq, Structural)]
pub struct PriceLevel {
    pub kind: PriceLevelKind,
    pub price_milli: i128,
    pub label: LevelLabel,
}

/// Why an aggregator of opening-range, period-midpoint and round-number levels could not be
/// configured: its session configuration, or the timeframe of its midpoint periods, was refused.
#[derive(Debug, Clone, Copy, PartialEq, Eq, Structural)]
pub enum PriceLevelAggregatorError {
    Session,
    Timeframe,
}

pub open spec fn level(kind: PriceLevelKind, price_milli: int, label: LevelLabel) -> PriceLevel {
    PriceLevel { kind, price_milli: price_milli as i128, label }
}

/// The three opening-range levels once the range has closed: its high, its low and its midpoint.
pub fn opening_range_levels(orb_high: i64, orb_low: i64) -> (r: Vec<PriceLevel>)
    ensures
        r@ == seq![
            level(PriceLevelKind::OpeningRangeHigh, orb_high * 1000, LevelLabel::Plain),
            level(PriceLevelKind::OpeningRangeLow, orb_low * 1000, LevelLabel::Plain),
            level(PriceLevelKind::OpeningRangeMid, (orb_high + orb_low) * 500, LevelLabel::Plain),
        ],
{
    let mut r: Vec<PriceLevel> = Vec::new();
    r.push(
        PriceLevel {
            kind: PriceLevelKind::OpeningRangeHigh,
            price_milli: orb_high as i128 * 1000,
            label: LevelLabel::Plain,
        },
    );
    r.push(
        PriceLevel {
            kind: PriceLevelKind::OpeningRangeLow,
            price_milli: orb_low as i128 * 1000,
            label: LevelLabel::Plain,
        },
    );
    r.push(
        PriceLevel {
            kind: PriceLevelKind::OpeningRangeMid,
            price_milli: (orb_high as i128 + orb_low as i128) * 500,
            label: LevelLabel::Plain,
        },
    );
    assert(r@ =~= seq![
        level(PriceLevelKind::OpeningRangeHigh, orb_high * 1000, LevelLabel::Plain),
        level(PriceLevelKind::OpeningRangeLow, orb_low * 1000, LevelLabel::Plain),
        level(PriceLevelKind::OpeningRangeMid, (orb_high + orb_low) * 500, LevelLabel::Plain),
    ]);
    r
}

/// The round-number levels around `price`: the multiple of `increment` at or below it, the
/// `levels_each_side + 1` multiples above that, then the `levels_each_side` multiples below it,
/// nearest first.
pub open spec fn round_levels(price: int, increment: int, levels_each_side: int) -> Seq<PriceLevel> {
    let base = (price / increment) * increment;
    let mark = |p: int| level(PriceLevelKind::RoundNumber, p * 1000, LevelLabel::Increment(increment as i64));
    Seq::new((levels_each_side + 2) as nat, |i: int| mark(base + i * increment)) + Seq::new(
        levels_each_side as nat,
        |i: int| mark(base - (i + 1) * increment),
    )
}

/// The multiple of `increment` at or below `price`.
fn floor_multiple(price: i64, increment: i64) -> (r: i128)
    requires
        increment > 0,
    ensures
        r == (price / increment) * increment,
        price - increment < r <= price,
{
    let p = price as i128;
    let d = increment as i128;
    if p >= 0 {
        let q = p / d;
        proof {
            lemma_fundamental_div_mod(p as int, d as int);
        }
        assert(q * d <= p < q * d + d) by (nonlinear_arith)
            requires
                p == d * q + p % d,
                0 <= p % d < d,
        ;
        q * d
    } else {
        let m = -p;
        let qm = (m + d - 1) / d;
        proof {
            lemma_fundamental_div_mod((m + d - 1) as int, d as int);
            let rm: int = (m + d - 1) as int % (d as int);
            assert(0 <= rm < d);
            assert(d * qm >= m && d * qm - d < m) by (nonlinear_arith)
                requires
                    m + d - 1 == d * qm + rm,
                    0 <= rm < d,
            ;
            let r0: int = p + d * qm;
            assert(p == (-qm) * d + r0) by (nonlinear_arith)
                requires
                    r0 == p + d * qm,
            ;
            lemma_fundamental_div_mod_converse(p as int, d as int, -qm, r0);
        }
        assert(0 <= qm * d <= m + d) by (nonlinear_arith)
            requires
                d * qm >= m,
                d * qm - d < m,
                m > 0,
        ;
        -(qm * d)
    }
}

/// Round-number levels around `price` on a grid of `increment` ticks; none for an increment that
/// is not positive. See [`round_levels`].
pub fn round_number_levels(price: i64, increment: i64, levels_each_side: usize) -> (r: Vec<
    PriceLevel,
>)
    requires
        levels_each_side < 0x10_0000_0000_0000,
    ensures
        increment <= 0 ==> r@.len() == 0,
        increment > 0 ==> r@ == round_levels(price as int, increment as int, levels_each_side as int),
{
    let mut r: Vec<PriceLevel> = Vec::new();
    if increment <= 0 {
        return r;
    }
    let base = floor_multiple(price, increment);
    let inc = increment as i128;
    let k = levels_each_side as i128;
    let label = LevelLabel::Increment(increment);
    let ghost spec_all = round_levels(price as int, increment as int, levels_each_side as int);
    let mut i: i128 = 0;
    while i <= k + 1
        invariant
            0 <= i <= k + 2,
            k == levels_each_side,
            k < 0x10_0000_0000_0000,
            inc == increment,
            increment > 0,
            label == LevelLabel::Increment(increment),
            base == (price / increment) * increment,
            price - increment < base <= price,
            r@.len() == i,
            forall|j: int|
                0 <= j < i ==> #[trigger] r@[j] == level(
                    PriceLevelKind::RoundNumber,
                    (base + j * inc) * 1000,
                    label,
                ),
        decreases k + 2 - i,
    {
        assert(0 <= i * inc <= 0x10_0000_0000_0001 * 0x8000_0000_0000_0000) by (nonlinear_arith)
            requires
                0 <= i <= k + 1,
                k < 0x10_0000_0000_0000,
                0 < inc <= 0x7fff_ffff_ffff_ffff,
        ;
        r.push(PriceLevel { kind: PriceLevelKind::RoundNumber, price_milli: (base + i * inc) * 1000, label });
        i = i + 1;
    }
    let mut j: i128 = 1;
    while j <= k
        invariant
            1 <= j <= k + 1,
            k == levels_each_side,
            k < 0x10_0000_0000_0000,
            inc == increment,
            increment > 0,
            label == LevelLabel::Increment(increment),
            price - increment < base <= price,
            r@.len() == k + 2 + (j - 1),
            forall|t: int|
                0 <= t < k + 2 ==> #[trigger] r@[t] == level(
                    PriceLevelKind::RoundNumber,
                    (base + t * inc) * 1000,
                    label,
                ),
            forall|t: int|
                1 <= t < j ==> #[trigger] r@[k + 1 + t] == level(
                    PriceLevelKind::RoundNumber,
                    (base - t * inc) * 1000,
                    label,
                ),
        decreases k + 1 - j,
    {
        assert(0 <= j * inc <= 0x10_0000_0000_0001 * 0x8000_0000_0000_0000) by (nonlinear_arith)
            requires
                1 <= j <= k,
                k < 0x10_0000_0000_0000,
                0 < inc <= 0x7fff_ffff_ffff_ffff,
        ;
        r.push(PriceLevel { kind: PriceLevelKind::RoundNumber, price_milli: (base - j * inc) * 1000, label });
        j = j + 1;
    }
    assert forall|t: int| 0 <= t < r@.len() implies #[trigger] r@[t] == spec_all[t] by {
        if t >= k + 2 {
            assert(r@[k + 1 + (t - k - 1)] == r@[t]);
            assert((t - (k + 2) + 1) * inc == (t - k - 1) * inc);
        }
    }
    assert(r@ =~= spec_all);
    r
}

/// The retracement and extension ratios of the swing Fibonacci levels, in thousandths.
pub open spec fn fibonacci_ratios() -> Seq<u32> {
    seq![236, 382, 500, 618, 786, 1000, 1272, 1618]
}

/// The Fibonacci levels of a swing: measured down from the high when the swing ran up, up from
/// the low when it ran down, one per ratio of [`fibonacci_ratios`].
pub open spec fn fibonacci_levels(swing_high: int, swing_low: int, is_uptrend: bool) -> Seq<PriceLevel> {
    let range = swing_high - swing_low;
    Seq::new(
        8,
        |i: int|
            level(
                PriceLevelKind::SwingFibonacci,
                if is_uptrend {
                    swing_high * 1000 - range * fibonacci_ratios()[i]
                } else {
                    swing_low * 1000 + range * fibonacci_ratios()[i]
                },
                LevelLabel::Ratio(fibonacci_ratios()[i]),
            ),
    )
}

/// The swing Fibonacci levels; see [`fibonacci_levels`].
pub fn swing_fibonacci_levels(swing_high: i64, swing_low: i64, is_uptrend: bool) -> (r: Vec<
    PriceLevel,
>)
    ensures
        r@ == fibonacci_levels(swing_high as int, swing_low as int, is_uptrend),
{
    let mut ratios: Vec<u32> = Vec::new();
    ratios.push(236);
    ratios.push(382);
    ratios.push(500);
    ratios.push(618);
    ratios.push(786);
    ratios.push(1000);
    ratios.push(1272);
    ratios.push(1618);
    assert(ratios@ =~= fibonacci_ratios());
    let range = swing_high as i128 - swing_low as i128;
    let mut r: Vec<PriceLevel> = Vec::new();
    let mut i: usize = 0;
    while i < 8
        invariant
            ratios@ == fibonacci_ratios(),
            range == swing_high - swing_low,
            i <= 8,
            r@ =~= fibonacci_levels(swing_high as int, swing_low as int, is_uptrend).subrange(
                0,
                i as int,
            ),
        decreases 8 - i,
    {
        let ratio = ratios[i];
        assert(-0x2_0000_0000_0000_0000 * 2000 <= range * ratio <= 0x2_0000_0000_0000_0000 * 2000)
            by (nonlinear_arith)
            requires
                -0x2_0000_0000_0000_0000 <= range <= 0x2_0000_0000_0000_0000,
                0 <= ratio <= 2000,
        ;
        let price_milli = if is_uptrend {
            swing_high as i128 * 1000 - range * ratio as i128
        } else {
            swing_low as i128 * 1000 + range * ratio as i128
        };
        r.push(PriceLevel { kind: PriceLevelKind::SwingFibonacci, price_milli, label: LevelLabel::Ratio(ratio) });
        i = i + 1;
    }
    r
}

} // verus!
