//! Elliott wave rule checking over a labelled swing sequence.
//!
//! This validates a *given* labelling against the structural rules of the wave principle and
//! classifies its variant; it does not discover labellings. Prices are integer ticks, so every
//! ratio test below is an exact comparison of cross products.

use vstd::prelude::*;

use crate::price_levels::{fibonacci_levels, swing_fibonacci_levels, PriceLevel};

use crate::model::SeriesCapabilities;
use crate::swing::{alternating, is_alternating, ZigZagNode};

verus! {

/// A rule violation found while validating a labelled sequence.
#[derive(Debug, Clone, PartialEq)]
pub struct RuleViolation {
    pub rule: String,
    pub detail: String,
}

/// The rule name and explanation of each violation, in order.
pub open spec fn entries(v: Seq<RuleViolation>) -> Seq<(Seq<char>, Seq<char>)> {
    v.map_values(|x: RuleViolation| (x.rule@, x.detail@))
}

#[derive(Debug, Clone, Copy, PartialEq, Eq, Structural)]
pub enum CorrectionVariant {
    Zigzag,
    Flat,
    ExpandedFlat,
}

/// Distance between two prices.
pub open spec fn dist(a: int, b: int) -> int {
    if a >= b {
        a - b
    } else {
        b - a
    }
}

/// The price of pivot `i`.
pub open spec fn px(s: Seq<ZigZagNode>, i: int) -> int {
    s[i].price as int
}

/// Six alternating pivots `[0, 1, 2, 3, 4, 5]`.
pub open spec fn is_six_wave(s: Seq<ZigZagNode>) -> bool {
    s.len() == 6 && alternating(s)
}

/// Four alternating pivots `[0, A, B, C]`.
pub open spec fn is_three_wave(s: Seq<ZigZagNode>) -> bool {
    s.len() == 4 && alternating(s)
}

/// Wave 1 runs upward.
pub open spec fn rises_first(s: Seq<ZigZagNode>) -> bool {
    px(s, 1) > px(s, 0)
}

/// Wave 2 stays short of the start of wave 1.
pub open spec fn wave2_holds(s: Seq<ZigZagNode>) -> bool {
    if rises_first(s) {
        px(s, 2) > px(s, 0)
    } else {
        px(s, 2) < px(s, 0)
    }
}

/// Wave 3 is strictly shorter than both wave 1 and wave 5.
pub open spec fn wave3_shortest(s: Seq<ZigZagNode>) -> bool {
    let len1 = dist(px(s, 1), px(s, 0));
    let len3 = dist(px(s, 3), px(s, 2));
    let len5 = dist(px(s, 5), px(s, 4));
    len3 < len1 && len3 < len5
}

/// Wave 4 stays outside wave 1's price territory.
pub open spec fn wave4_clear(s: Seq<ZigZagNode>) -> bool {
    if rises_first(s) {
        px(s, 4) > px(s, 1)
    } else {
        px(s, 4) < px(s, 1)
    }
}

pub open spec fn wave2_violation() -> (Seq<char>, Seq<char>) {
    ("wave2_no_full_retrace"@, "Wave 2 retraced beyond the start of wave 1"@)
}

pub open spec fn wave3_violation() -> (Seq<char>, Seq<char>) {
    ("wave3_not_shortest"@, "Wave 3 is the shortest of waves 1, 3, and 5"@)
}

pub open spec fn wave4_violation() -> (Seq<char>, Seq<char>) {
    ("wave4_no_overlap"@, "Wave 4 entered wave 1's price territory"@)
}

pub open spec fn wave_c_violation() -> (Seq<char>, Seq<char>) {
    ("wave_c_must_extend_past_b"@, "Wave C did not continue past wave B in wave A's direction"@)
}

pub open spec fn zigzag_bound_violation() -> (Seq<char>, Seq<char>) {
    (
        "zigzag_b_retrace_bound"@,
        "Wave B retraced more than a Zigzag's typical bound (78.6%) without qualifying as a Flat"@,
    )
}

/// Appends `e` to `v` when `cond` holds.
pub open spec fn push_if<A>(v: Seq<A>, cond: bool, e: A) -> Seq<A> {
    if cond {
        v.push(e)
    } else {
        v
    }
}

/// The violations of the rules shared by impulses and diagonals: wave 2 never retraces beyond
/// the start of wave 1, and wave 3 is never the shortest of waves 1, 3 and 5.
pub open spec fn shared_violations(s: Seq<ZigZagNode>) -> Seq<(Seq<char>, Seq<char>)> {
    push_if(push_if(Seq::empty(), !wave2_holds(s), wave2_violation()), wave3_shortest(s), wave3_violation())
}

/// The violations of an impulse: the shared rules, and wave 4 never entering wave 1's territory.
pub open spec fn impulse_violations(s: Seq<ZigZagNode>) -> Seq<(Seq<char>, Seq<char>)> {
    push_if(shared_violations(s), !wave4_clear(s), wave4_violation())
}

/// How close the pullbacks land to the common Fibonacci ratios 0.382, 0.5 and 0.618, held
/// exactly: the quality is `clamp(1 - first_gap / first_scale - second_gap / second_scale, 0, 1)`,
/// `1` when every pullback lands on a ratio and lower with the distance from the nearest one.
#[derive(Debug, Clone, Copy, PartialEq, Eq)]
pub struct PullbackQuality {
    pub first_gap: i128,
    pub first_scale: i128,
    pub second_gap: i128,
    pub second_scale: i128,
}

/// The quality of a pullback that cannot be measured: 0.
pub open spec fn no_quality() -> PullbackQuality {
    PullbackQuality { first_gap: 1, first_scale: 1, second_gap: 0, second_scale: 1 }
}

pub open spec fn min_of3(p: int, q: int, r: int) -> int {
    if p <= q && p <= r {
        p
    } else if q <= r {
        q
    } else {
        r
    }
}

/// `1000 · leg` times the distance of the retracement `back / leg` from the nearest of 0.382, 0.5
/// and 0.618.
pub open spec fn nearest_fib_gap(back: int, leg: int) -> int {
    min_of3(dist(382 * leg, 1000 * back), dist(500 * leg, 1000 * back), dist(618 * leg, 1000 * back))
}

/// The pullback quality of an impulse: how near waves 2 and 4 retrace waves 1 and 3 to the common
/// ratios; 0 when wave 1 or wave 3 has no length.
pub open spec fn impulse_quality(s: Seq<ZigZagNode>) -> PullbackQuality {
    let len1 = dist(px(s, 1), px(s, 0));
    let len3 = dist(px(s, 3), px(s, 2));
    if len1 > 0 && len3 > 0 {
        PullbackQuality {
            first_gap: nearest_fib_gap(dist(px(s, 0), px(s, 2)), len1) as i128,
            first_scale: (1000 * len1) as i128,
            second_gap: nearest_fib_gap(dist(px(s, 3), px(s, 4)), len3) as i128,
            second_scale: (1000 * len3) as i128,
        }
    } else {
        no_quality()
    }
}

/// The pullback quality of a correction: for a zigzag, how near B retraces A to the common
/// ratios; for a flat, how near C comes to the length of A (counted up to twice A); 0 when A has
/// no length.
pub open spec fn correction_quality(n0: int, a: int, b: int, c: int) -> PullbackQuality {
    let leg_a = dist(a, n0);
    if leg_a <= 0 {
        no_quality()
    } else if correction_variant(n0, a, b) == CorrectionVariant::Zigzag {
        PullbackQuality {
            first_gap: nearest_fib_gap(dist(b, a), leg_a) as i128,
            first_scale: (1000 * leg_a) as i128,
            second_gap: 0,
            second_scale: 1,
        }
    } else {
        let leg_c = dist(c, b);
        let capped = if leg_c <= 2 * leg_a {
            leg_c
        } else {
            2 * leg_a
        };
        PullbackQuality {
            first_gap: dist(leg_a, capped) as i128,
            first_scale: leg_a as i128,
            second_gap: 0,
            second_scale: 1,
        }
    }
}

#[derive(Debug, Clone, PartialEq)]
pub struct ImpulseValidation {
    pub valid: bool,
    pub violations: Vec<RuleViolation>,
    pub pullback_quality: PullbackQuality,
    /// Which series this validation was computed on, if the caller attached one via
    /// [`ImpulseValidation::with_capabilities`]. `None` by default: a validation is only
    /// meaningful for the series it was computed on.
    pub series_capabilities: Option<SeriesCapabilities>,
}

impl ImpulseValidation {
    /// Tags this validation with the series it was computed on.
    pub fn with_capabilities(self, capabilities: SeriesCapabilities) -> (r: Self)
        ensures
            r.valid == self.valid,
            r.violations@ == self.violations@,
            r.pullback_quality == self.pullback_quality,
            r.series_capabilities == Some(capabilities),
    {
        ImpulseValidation { series_capabilities: Some(capabilities), ..self }
    }
}

#[derive(Debug, Clone, PartialEq)]
pub struct CorrectionValidation {
    pub variant: CorrectionVariant,
    pub valid: bool,
    pub violations: Vec<RuleViolation>,
    pub pullback_quality: PullbackQuality,
    /// See [`ImpulseValidation::series_capabilities`].
    pub series_capabilities: Option<SeriesCapabilities>,
}

impl CorrectionValidation {
    /// Tags this validation with the series it was computed on.
    pub fn with_capabilities(self, capabilities: SeriesCapabilities) -> (r: Self)
        ensures
            r.variant == self.variant,
            r.valid == self.valid,
            r.violations@ == self.violations@,
            r.pullback_quality == self.pullback_quality,
            r.series_capabilities == Some(capabilities),
    {
        CorrectionValidation { series_capabilities: Some(capabilities), ..self }
    }
}

/// A rule violation with the given name and explanation.
fn violation(rule: &str, detail: &str) -> (v: RuleViolation)
    ensures
        v.rule@ == rule@,
        v.detail@ == detail@,
{
    RuleViolation { rule: rule.to_owned(), detail: detail.to_owned() }
}

/// The distance between two prices, exactly.
fn span(a: i64, b: i64) -> (r: i128)
    ensures
        r as int == dist(a as int, b as int),
        r >= 0,
{
    let (a, b) = (a as i128, b as i128);
    if a >= b {
        a - b
    } else {
        b - a
    }
}

/// `1000 · leg` times the distance of `back / leg` from the nearest common ratio, exactly.
fn fib_gap(back: i128, leg: i128) -> (r: i128)
    requires
        0 <= back < 0x2_0000_0000_0000_0000,
        0 <= leg < 0x2_0000_0000_0000_0000,
    ensures
        r == nearest_fib_gap(back as int, leg as int),
        0 <= r,
{
    let t = 1000 * back;
    let g1 = if 382 * leg >= t {
        382 * leg - t
    } else {
        t - 382 * leg
    };
    let g2 = if 500 * leg >= t {
        500 * leg - t
    } else {
        t - 500 * leg
    };
    let g3 = if 618 * leg >= t {
        618 * leg - t
    } else {
        t - 618 * leg
    };
    if g1 <= g2 && g1 <= g3 {
        g1
    } else if g2 <= g3 {
        g2
    } else {
        g3
    }
}

/// Appends the violations of the shared impulse/diagonal rules, in rule order.
fn push_shared_violations(nodes: &[ZigZagNode], violations: &mut Vec<RuleViolation>)
    requires
        is_six_wave(nodes@),
        old(violations)@.len() == 0,
    ensures
        entries(final(violations)@) == shared_violations(nodes@),
{
    let ghost s = nodes@;
    let bullish = nodes[1].price > nodes[0].price;
    let wave2_ok = if bullish {
        nodes[2].price > nodes[0].price
    } else {
        nodes[2].price < nodes[0].price
    };
    assert(entries(violations@) =~= Seq::empty());
    if !wave2_ok {
        violations.push(
            violation("wave2_no_full_retrace", "Wave 2 retraced beyond the start of wave 1"),
        );
    }
    assert(entries(violations@) =~= push_if(Seq::empty(), !wave2_holds(s), wave2_violation()));
    let ghost before = violations@;
    let len1 = span(nodes[1].price, nodes[0].price);
    let len3 = span(nodes[3].price, nodes[2].price);
    let len5 = span(nodes[5].price, nodes[4].price);
    if len3 < len1 && len3 < len5 {
        violations.push(
            violation("wave3_not_shortest", "Wave 3 is the shortest of waves 1, 3, and 5"),
        );
        assert(entries(violations@) =~= entries(before).push(wave3_violation()));
    }
}

/// Validates a six-pivot impulse labelled `[0, 1, 2, 3, 4, 5]` against the three cardinal rules:
/// wave 2 never retraces beyond the start of wave 1, wave 3 is never the shortest of waves
/// 1/3/5, and wave 4 never enters wave 1's price territory. Returns `None` if `nodes` is not
/// exactly six alternating pivots.
pub fn validate_impulse(nodes: &[ZigZagNode]) -> (r: Option<ImpulseValidation>)
    ensures
        r.is_some() == is_six_wave(nodes@),
        r matches Some(v) ==> {
            &&& entries(v.violations@) == impulse_violations(nodes@)
            &&& v.valid == (v.violations@.len() == 0)
            &&& v.pullback_quality == impulse_quality(nodes@)
            &&& v.series_capabilities.is_none()
        },
{
    if nodes.len() != 6 || !is_alternating(nodes) {
        return None;
    }
    let mut violations: Vec<RuleViolation> = Vec::new();
    push_shared_violations(nodes, &mut violations);
    let ghost before = violations@;
    let bullish = nodes[1].price > nodes[0].price;
    let wave4_ok = if bullish {
        nodes[4].price > nodes[1].price
    } else {
        nodes[4].price < nodes[1].price
    };
    if !wave4_ok {
        violations.push(violation("wave4_no_overlap", "Wave 4 entered wave 1's price territory"));
        assert(entries(violations@) =~= entries(before).push(wave4_violation()));
    }
    let valid = violations.len() == 0;
    let len1 = span(nodes[1].price, nodes[0].price);
    let len3 = span(nodes[3].price, nodes[2].price);
    let pullback_quality = if len1 > 0 && len3 > 0 {
        PullbackQuality {
            first_gap: fib_gap(span(nodes[0].price, nodes[2].price), len1),
            first_scale: 1000 * len1,
            second_gap: fib_gap(span(nodes[3].price, nodes[4].price), len3),
            second_scale: 1000 * len3,
        }
    } else {
        PullbackQuality { first_gap: 1, first_scale: 1, second_gap: 0, second_scale: 1 }
    };
    Some(ImpulseValidation { valid, violations, pullback_quality, series_capabilities: None })
}


/// The variant a correction `[0, A, B, C]` falls into by how far B retraces A: at least all of
/// it is an expanded flat, at least 90 % a flat, anything less a zigzag.
pub open spec fn correction_variant(n0: int, a: int, b: int) -> CorrectionVariant {
    let leg_a = dist(a, n0);
    let back = dist(b, a);
    if back >= leg_a {
        CorrectionVariant::ExpandedFlat
    } else if 10 * back >= 9 * leg_a {
        CorrectionVariant::Flat
    } else {
        CorrectionVariant::Zigzag
    }
}

/// C continues past B in the direction A ran.
pub open spec fn wave_c_continues(n0: int, a: int, b: int, c: int) -> bool {
    if a < n0 {
        c < b
    } else {
        c > b
    }
}

/// A zigzag whose B retraced more than 78.6 % of A.
pub open spec fn zigzag_overextended(n0: int, a: int, b: int) -> bool {
    correction_variant(n0, a, b) == CorrectionVariant::Zigzag && 1000 * dist(b, a) > 786 * dist(
        a,
        n0,
    )
}

pub open spec fn correction_violations(n0: int, a: int, b: int, c: int) -> Seq<
    (Seq<char>, Seq<char>),
> {
    push_if(
        push_if(Seq::empty(), !wave_c_continues(n0, a, b, c), wave_c_violation()),
        zigzag_overextended(n0, a, b),
        zigzag_bound_violation(),
    )
}

/// `v` is the validation of the correction whose four pivots are `t`.
pub open spec fn correction_matches(v: CorrectionValidation, t: Seq<ZigZagNode>) -> bool {
    &&& v.variant == correction_variant(px(t, 0), px(t, 1), px(t, 2))
    &&& entries(v.violations@) == correction_violations(px(t, 0), px(t, 1), px(t, 2), px(t, 3))
    &&& v.valid == (v.violations@.len() == 0)
    &&& v.pullback_quality == correction_quality(px(t, 0), px(t, 1), px(t, 2), px(t, 3))
    &&& v.series_capabilities.is_none()
}

/// Validates the correction `[n0, a, b, c]`, whose pivots are known to alternate.
fn correction_of(n0: i64, a: i64, b: i64, c: i64) -> (v: CorrectionValidation)
    ensures
        v.variant == correction_variant(n0 as int, a as int, b as int),
        entries(v.violations@) == correction_violations(n0 as int, a as int, b as int, c as int),
        v.valid == (v.violations@.len() == 0),
        v.pullback_quality == correction_quality(n0 as int, a as int, b as int, c as int),
        v.series_capabilities.is_none(),
{
    let leg_a = span(a, n0);
    let back = span(b, a);
    let variant = if back >= leg_a {
        CorrectionVariant::ExpandedFlat
    } else if 10 * back >= 9 * leg_a {
        CorrectionVariant::Flat
    } else {
        CorrectionVariant::Zigzag
    };
    let mut violations: Vec<RuleViolation> = Vec::new();
    assert(entries(violations@) =~= Seq::empty());
    let c_continues = if a < n0 {
        c < b
    } else {
        c > b
    };
    if !c_continues {
        violations.push(
            violation(
                "wave_c_must_extend_past_b",
                "Wave C did not continue past wave B in wave A's direction",
            ),
        );
    }
    assert(entries(violations@) =~= push_if(
        Seq::empty(),
        !wave_c_continues(n0 as int, a as int, b as int, c as int),
        wave_c_violation(),
    ));
    let ghost before = violations@;
    if variant == CorrectionVariant::Zigzag && 1000 * back > 786 * leg_a {
        violations.push(
            violation(
                "zigzag_b_retrace_bound",
                "Wave B retraced more than a Zigzag's typical bound (78.6%) without qualifying as a Flat",
            ),
        );
        assert(entries(violations@) =~= entries(before).push(zigzag_bound_violation()));
    }
    let valid = violations.len() == 0;
    let pullback_quality = if leg_a <= 0 {
        PullbackQuality { first_gap: 1, first_scale: 1, second_gap: 0, second_scale: 1 }
    } else if variant == CorrectionVariant::Zigzag {
        PullbackQuality {
            first_gap: fib_gap(back, leg_a),
            first_scale: 1000 * leg_a,
            second_gap: 0,
            second_scale: 1,
        }
    } else {
        let leg_c = span(c, b);
        let capped = if leg_c <= 2 * leg_a {
            leg_c
        } else {
            2 * leg_a
        };
        PullbackQuality {
            first_gap: if leg_a >= capped {
                leg_a - capped
            } else {
                capped - leg_a
            },
            first_scale: leg_a,
            second_gap: 0,
            second_scale: 1,
        }
    };
    CorrectionValidation { variant, valid, violations, pullback_quality, series_capabilities: None }
}

/// Validates a four-pivot correction labelled `[0, A, B, C]`, classifying it as a Zigzag (B
/// retraces less than 90 % of A), Flat (B retraces at least 90 % of A) or Expanded Flat (B
/// retraces all of A or more). C must continue past B in A's direction, and a zigzag's B may
/// not retrace more than 78.6 % of A. Returns `None` if `nodes` is not exactly four alternating
/// pivots.
pub fn validate_correction(nodes: &[ZigZagNode]) -> (r: Option<CorrectionValidation>)
    ensures
        r.is_some() == is_three_wave(nodes@),
        r matches Some(v) ==> correction_matches(v, nodes@),
{
    if nodes.len() != 4 || !is_alternating(nodes) {
        return None;
    }
    Some(correction_of(nodes[0].price, nodes[1].price, nodes[2].price, nodes[3].price))
}

/// Where in the surrounding structure a diagonal sits: wave 1 (or A), or wave 5 (or C).
#[derive(Debug, Clone, Copy, PartialEq, Eq, Structural)]
pub enum DiagonalKind {
    Leading,
    Ending,
}

/// Whether a diagonal's waves shrink leg over leg (contracting) or not (expanding).
#[derive(Debug, Clone, Copy, PartialEq, Eq, Structural)]
pub enum DiagonalVariant {
    Contracting,
    Expanding,
}

#[derive(Debug, Clone, PartialEq)]
pub struct DiagonalValidation {
    pub kind: DiagonalKind,
    pub variant: DiagonalVariant,
    pub valid: bool,
    pub violations: Vec<RuleViolation>,
    /// Whether wave 4 overlaps wave 1's price territory: permitted in a diagonal, and the one
    /// property that tells a diagonal from an impulse at the rule level.
    pub wave4_overlaps_wave1: bool,
    /// See [`ImpulseValidation::series_capabilities`].
    pub series_capabilities: Option<SeriesCapabilities>,
}

impl DiagonalValidation {
    /// Tags this validation with the series it was computed on.
    pub fn with_capabilities(self, capabilities: SeriesCapabilities) -> (r: Self)
        ensures
            r.kind == self.kind,
            r.variant == self.variant,
            r.valid == self.valid,
            r.violations@ == self.violations@,
            r.wave4_overlaps_wave1 == self.wave4_overlaps_wave1,
            r.series_capabilities == Some(capabilities),
    {
        DiagonalValidation { series_capabilities: Some(capabilities), ..self }
    }
}

/// Contracting when waves 5 < 3 < 1 and 4 < 2 in length, expanding otherwise.
pub open spec fn diagonal_variant(s: Seq<ZigZagNode>) -> DiagonalVariant {
    let len1 = dist(px(s, 1), px(s, 0));
    let len2 = dist(px(s, 2), px(s, 1));
    let len3 = dist(px(s, 3), px(s, 2));
    let len4 = dist(px(s, 4), px(s, 3));
    let len5 = dist(px(s, 5), px(s, 4));
    if len5 < len3 && len3 < len1 && len4 < len2 {
        DiagonalVariant::Contracting
    } else {
        DiagonalVariant::Expanding
    }
}

/// Validates a six-pivot diagonal labelled `[0, 1, 2, 3, 4, 5]`: the impulse rules with the
/// wave-4 rule relaxed (wave 4 may enter wave 1's territory). Returns `None` if `nodes` is not
/// exactly six alternating pivots.
pub fn validate_diagonal(nodes: &[ZigZagNode], kind: DiagonalKind) -> (r: Option<
    DiagonalValidation,
>)
    ensures
        r.is_some() == is_six_wave(nodes@),
        r matches Some(v) ==> {
            &&& v.kind == kind
            &&& v.variant == diagonal_variant(nodes@)
            &&& entries(v.violations@) == shared_violations(nodes@)
            &&& v.valid == (v.violations@.len() == 0)
            &&& v.wave4_overlaps_wave1 == !wave4_clear(nodes@)
            &&& v.series_capabilities.is_none()
        },
{
    if nodes.len() != 6 || !is_alternating(nodes) {
        return None;
    }
    let mut violations: Vec<RuleViolation> = Vec::new();
    push_shared_violations(nodes, &mut violations);
    let bullish = nodes[1].price > nodes[0].price;
    let len1 = span(nodes[1].price, nodes[0].price);
    let len2 = span(nodes[2].price, nodes[1].price);
    let len3 = span(nodes[3].price, nodes[2].price);
    let len4 = span(nodes[4].price, nodes[3].price);
    let len5 = span(nodes[5].price, nodes[4].price);
    let wave4_overlaps_wave1 = if bullish {
        nodes[4].price <= nodes[1].price
    } else {
        nodes[4].price >= nodes[1].price
    };
    let variant = if len5 < len3 && len3 < len1 && len4 < len2 {
        DiagonalVariant::Contracting
    } else {
        DiagonalVariant::Expanding
    };
    let valid = violations.len() == 0;
    Some(
        DiagonalValidation {
            kind,
            variant,
            valid,
            violations,
            wave4_overlaps_wave1,
            series_capabilities: None,
        },
    )
}


/// How the two boundary lines of a five-leg `a-b-c-d-e` triangle relate: converging,
/// diverging, or running the same way (running or barrier triangle).
#[derive(Debug, Clone, Copy, PartialEq, Eq, Structural)]
pub enum TriangleVariant {
    Contracting,
    Expanding,
    RunningOrBarrier,
}

#[derive(Debug, Clone, Copy, PartialEq)]
pub struct TriangleValidation {
    pub variant: TriangleVariant,
    /// See [`ImpulseValidation::series_capabilities`].
    pub series_capabilities: Option<SeriesCapabilities>,
}

impl TriangleValidation {
    /// Tags this validation with the series it was computed on.
    pub fn with_capabilities(self, capabilities: SeriesCapabilities) -> (r: Self)
        ensures
            r.variant == self.variant,
            r.series_capabilities == Some(capabilities),
    {
        TriangleValidation { series_capabilities: Some(capabilities), ..self }
    }
}

/// Three extremes that fall one after the other.
pub open spec fn falling3(x: int, y: int, z: int) -> bool {
    y < x && z < y
}

/// Three extremes that rise one after the other.
pub open spec fn rising3(x: int, y: int, z: int) -> bool {
    y > x && z > y
}

/// The triangle variant, read off the two boundaries. Pivots 1, 3 and 5 form one boundary and
/// pivots 2 and 4 the other; which of them is the upper one depends on whether the sequence
/// starts from a low.
pub open spec fn triangle_variant(s: Seq<ZigZagNode>) -> TriangleVariant {
    let from_low = px(s, 1) > px(s, 0);
    let (e1, e2, e3) = (px(s, 1), px(s, 3), px(s, 5));
    let (o1, o2) = (px(s, 2), px(s, 4));
    let upper_falls = if from_low {
        falling3(e1, e2, e3)
    } else {
        o2 < o1
    };
    let lower_rises = if from_low {
        o2 > o1
    } else {
        rising3(e1, e2, e3)
    };
    let upper_rises = if from_low {
        rising3(e1, e2, e3)
    } else {
        o2 > o1
    };
    let lower_falls = if from_low {
        o2 < o1
    } else {
        falling3(e1, e2, e3)
    };
    if upper_falls && lower_rises {
        TriangleVariant::Contracting
    } else if upper_rises && lower_falls {
        TriangleVariant::Expanding
    } else {
        TriangleVariant::RunningOrBarrier
    }
}

/// Classifies a six-pivot, five-leg sequence labelled `[0, a, b, c, d, e]` as a contracting,
/// expanding, or running/barrier triangle from its two boundary lines. Triangles carry no hard
/// rules, so no violations are reported. Returns `None` if `nodes` is not exactly six
/// alternating pivots.
pub fn validate_triangle(nodes: &[ZigZagNode]) -> (r: Option<TriangleValidation>)
    ensures
        r.is_some() == is_six_wave(nodes@),
        r matches Some(v) ==> v.variant == triangle_variant(nodes@) && v.series_capabilities.is_none(),
{
    if nodes.len() != 6 || !is_alternating(nodes) {
        return None;
    }
    let from_low = nodes[1].price > nodes[0].price;
    let (e1, e2, e3) = (nodes[1].price, nodes[3].price, nodes[5].price);
    let (o1, o2) = (nodes[2].price, nodes[4].price);
    let extremes_fall = e2 < e1 && e3 < e2;
    let extremes_rise = e2 > e1 && e3 > e2;
    let upper_falls = if from_low {
        extremes_fall
    } else {
        o2 < o1
    };
    let lower_rises = if from_low {
        o2 > o1
    } else {
        extremes_rise
    };
    let upper_rises = if from_low {
        extremes_rise
    } else {
        o2 > o1
    };
    let lower_falls = if from_low {
        o2 < o1
    } else {
        extremes_fall
    };
    let variant = if upper_falls && lower_rises {
        TriangleVariant::Contracting
    } else if upper_rises && lower_falls {
        TriangleVariant::Expanding
    } else {
        TriangleVariant::RunningOrBarrier
    };
    Some(TriangleValidation { variant, series_capabilities: None })
}

/// A W-X-Y or W-X-Y-X-Z combination correction.
#[derive(Debug, Clone, Copy, PartialEq, Eq, Structural)]
pub enum CombinationVariant {
    /// W-X-Y: a double three.
    DoubleThree,
    /// W-X-Y-X-Z: a triple three.
    TripleThree,
}

#[derive(Debug, Clone, PartialEq)]
pub struct CombinationValidation {
    pub variant: CombinationVariant,
    /// One validated correction per W/Y(/Z) segment, in order.
    pub segments: Vec<CorrectionValidation>,
    /// `true` if every segment in `segments` is individually valid.
    pub valid: bool,
    /// See [`ImpulseValidation::series_capabilities`].
    pub series_capabilities: Option<SeriesCapabilities>,
}

impl CombinationValidation {
    /// Tags this validation with the series it was computed on.
    pub fn with_capabilities(self, capabilities: SeriesCapabilities) -> (r: Self)
        ensures
            r.variant == self.variant,
            r.segments@ == self.segments@,
            r.valid == self.valid,
            r.series_capabilities == Some(capabilities),
    {
        CombinationValidation { series_capabilities: Some(capabilities), ..self }
    }
}

/// Eight or twelve alternating pivots: a double or a triple three.
pub open spec fn is_combination(s: Seq<ZigZagNode>) -> bool {
    (s.len() == 8 || s.len() == 12) && alternating(s)
}

/// The `i`-th group of four pivots.
pub open spec fn segment(s: Seq<ZigZagNode>, i: int) -> Seq<ZigZagNode> {
    s.subrange(4 * i, 4 * i + 4)
}

/// Validates a combination correction from its full pivot sequence: 8 pivots for a W-X-Y double
/// three, 12 for a W-X-Y-X-Z triple three. The segments tile the sequence in groups of four, each
/// validated as a correction; a connecting X wave is the single move between two groups.
/// Returns `None` unless `nodes` is 8 or 12 alternating pivots.
pub fn validate_combination(nodes: &[ZigZagNode]) -> (r: Option<CombinationValidation>)
    ensures
        r.is_some() == is_combination(nodes@),
        r matches Some(v) ==> {
            &&& v.variant == (if nodes@.len() == 8 {
                CombinationVariant::DoubleThree
            } else {
                CombinationVariant::TripleThree
            })
            &&& v.segments@.len() == nodes@.len() / 4
            &&& forall|i: int|
                0 <= i < v.segments@.len() ==> correction_matches(
                    #[trigger] v.segments@[i],
                    segment(nodes@, i),
                )
            &&& v.valid == (forall|i: int| 0 <= i < v.segments@.len() ==> #[trigger] v.segments@[i].valid)
            &&& v.series_capabilities.is_none()
        },
{
    let n = nodes.len();
    if n != 8 && n != 12 {
        return None;
    }
    if !is_alternating(nodes) {
        return None;
    }
    let variant = if n == 8 {
        CombinationVariant::DoubleThree
    } else {
        CombinationVariant::TripleThree
    };
    let count = n / 4;
    let mut segments: Vec<CorrectionValidation> = Vec::new();
    let mut valid = true;
    let mut i: usize = 0;
    while i < count
        invariant
            n == nodes@.len(),
            n == 8 || n == 12,
            count == n / 4,
            i <= count,
            segments@.len() == i,
            forall|k: int| 0 <= k < i ==> correction_matches(#[trigger] segments@[k], segment(nodes@, k)),
            valid == (forall|k: int| 0 <= k < i ==> #[trigger] segments@[k].valid),
        decreases count - i,
    {
        let start = 4 * i;
        let v = correction_of(
            nodes[start].price,
            nodes[start + 1].price,
            nodes[start + 2].price,
            nodes[start + 3].price,
        );
        let ghost t = segment(nodes@, i as int);
        assert(px(t, 0) == nodes@[start as int].price);
        assert(px(t, 1) == nodes@[start + 1].price);
        assert(px(t, 2) == nodes@[start + 2].price);
        assert(px(t, 3) == nodes@[start + 3].price);
        let ghost prev = segments@;
        let ghost prev_valid = valid;
        valid = valid && v.valid;
        segments.push(v);
        proof {
            assert(forall|k: int| 0 <= k < i ==> segments@[k] == prev[k]);
            if !prev_valid {
                let k = choose|k: int| 0 <= k < i && !(#[trigger] prev[k].valid);
                assert(!segments@[k].valid);
            }
            if !v.valid {
                assert(!segments@[i as int].valid);
            }
        }
        i = i + 1;
    }
    Some(CombinationValidation { variant, segments, valid, series_capabilities: None })
}

/// The larger of two lengths.
pub open spec fn max2(a: int, b: int) -> int {
    if a >= b {
        a
    } else {
        b
    }
}

/// Which of waves 1, 3 or 5 is extended: at least 1.618 times the longer of the other two,
/// checked in that order.
pub open spec fn extended_wave(s: Seq<ZigZagNode>) -> Option<u8> {
    let len1 = dist(px(s, 1), px(s, 0));
    let len3 = dist(px(s, 3), px(s, 2));
    let len5 = dist(px(s, 5), px(s, 4));
    if 1000 * len1 >= 1618 * max2(len3, len5) {
        Some(1u8)
    } else if 1000 * len3 >= 1618 * max2(len1, len5) {
        Some(3u8)
    } else if 1000 * len5 >= 1618 * max2(len1, len3) {
        Some(5u8)
    } else {
        None
    }
}

/// Wave `k` is extended when it is at least 1.618 times each of the other two impulse waves.
/// The extended wave reported is the first of waves 1, 3 and 5 that is extended, and none when
/// no wave is.
pub proof fn extension_is_at_least_golden_over_the_others(s: Seq<ZigZagNode>)
    requires
        is_six_wave(s),
    ensures
        ({
            let len1 = dist(px(s, 1), px(s, 0));
            let len3 = dist(px(s, 3), px(s, 2));
            let len5 = dist(px(s, 5), px(s, 4));
            let ext1 = 1000 * len1 >= 1618 * len3 && 1000 * len1 >= 1618 * len5;
            let ext3 = 1000 * len3 >= 1618 * len1 && 1000 * len3 >= 1618 * len5;
            let ext5 = 1000 * len5 >= 1618 * len1 && 1000 * len5 >= 1618 * len3;
            &&& (extended_wave(s) == Some(1u8)) == ext1
            &&& (extended_wave(s) == Some(3u8)) == (!ext1 && ext3)
            &&& (extended_wave(s) == Some(5u8)) == (!ext1 && !ext3 && ext5)
            &&& (extended_wave(s) is None) == (!ext1 && !ext3 && !ext5)
        }),
{
}

fn longer(a: i128, b: i128) -> (r: i128)
    ensures
        r == max2(a as int, b as int),
{
    if a >= b {
        a
    } else {
        b
    }
}

/// Which of waves 1, 3, or 5 is extended: its length at least 1.618 times the longer of the other
/// two. Returns `None` if no wave qualifies, or if `nodes` is not exactly six alternating pivots.
pub fn identify_extended_wave(nodes: &[ZigZagNode]) -> (r: Option<u8>)
    ensures
        r == (if is_six_wave(nodes@) {
            extended_wave(nodes@)
        } else {
            None
        }),
{
    if nodes.len() != 6 || !is_alternating(nodes) {
        return None;
    }
    let len1 = span(nodes[1].price, nodes[0].price);
    let len3 = span(nodes[3].price, nodes[2].price);
    let len5 = span(nodes[5].price, nodes[4].price);
    if 1000 * len1 >= 1618 * longer(len3, len5) {
        Some(1)
    } else if 1000 * len3 >= 1618 * longer(len1, len5) {
        Some(3)
    } else if 1000 * len5 >= 1618 * longer(len1, len3) {
        Some(5)
    } else {
        None
    }
}

/// Wave 5 fails to move beyond wave 3's extreme.
pub open spec fn truncated_fifth(s: Seq<ZigZagNode>) -> bool {
    if rises_first(s) {
        px(s, 5) <= px(s, 3)
    } else {
        px(s, 5) >= px(s, 3)
    }
}

/// A truncated (failed) fifth: wave 5 fails to move beyond wave 3's extreme. A guideline
/// violation, not a rule violation. Returns `None` if `nodes` is not exactly six alternating
/// pivots.
pub fn is_truncated_fifth(nodes: &[ZigZagNode]) -> (r: Option<bool>)
    ensures
        r == (if is_six_wave(nodes@) {
            Some(truncated_fifth(nodes@))
        } else {
            None
        }),
{
    if nodes.len() != 6 || !is_alternating(nodes) {
        return None;
    }
    let bullish = nodes[1].price > nodes[0].price;
    Some(
        if bullish {
            nodes[5].price <= nodes[3].price
        } else {
            nodes[5].price >= nodes[3].price
        },
    )
}


/// `m` is `s` reflected through zero: the same swings with every price negated, so each high
/// becomes a low and each rise a fall.
pub open spec fn reflects(m: Seq<ZigZagNode>, s: Seq<ZigZagNode>) -> bool {
    &&& m.len() == s.len()
    &&& forall|i: int| 0 <= i < s.len() ==> #[trigger] px(m, i) == -px(s, i)
}

/// A sequence that is valid as an impulse is valid as a diagonal: the diagonal keeps a subset of
/// the impulse rules.
pub proof fn impulse_valid_implies_diagonal_valid(s: Seq<ZigZagNode>)
    requires
        is_six_wave(s),
        impulse_violations(s).len() == 0,
    ensures
        shared_violations(s).len() == 0,
{
}

/// The only rule that separates an impulse from a diagonal is the wave-4 overlap: the impulse
/// reports exactly the diagonal's violations, plus the overlap when wave 4 enters wave 1's
/// territory.
pub proof fn diagonal_differs_from_impulse_only_by_overlap(s: Seq<ZigZagNode>)
    requires
        is_six_wave(s),
    ensures
        wave4_clear(s) ==> impulse_violations(s) == shared_violations(s),
        !wave4_clear(s) ==> impulse_violations(s) == shared_violations(s).push(wave4_violation()),
{
}

/// The rules do not depend on direction: a bearish sequence is judged exactly as its bullish
/// reflection, for impulses, diagonals, triangles, extensions and truncated fifths. The one
/// exception is a first leg of zero length, which has no direction to reflect.
pub proof fn rules_are_reflection_invariant(m: Seq<ZigZagNode>, s: Seq<ZigZagNode>)
    requires
        s.len() == 6,
        reflects(m, s),
        px(s, 1) != px(s, 0),
    ensures
        impulse_violations(m) == impulse_violations(s),
        shared_violations(m) == shared_violations(s),
        wave4_clear(m) == wave4_clear(s),
        diagonal_variant(m) == diagonal_variant(s),
        triangle_variant(m) == triangle_variant(s),
        extended_wave(m) == extended_wave(s),
        truncated_fifth(m) == truncated_fifth(s),
{
    assert(px(m, 0) == -px(s, 0));
    assert(px(m, 1) == -px(s, 1));
    assert(px(m, 2) == -px(s, 2));
    assert(px(m, 3) == -px(s, 3));
    assert(px(m, 4) == -px(s, 4));
    assert(px(m, 5) == -px(s, 5));
}

/// A correction and its reflection fall into the same variant and break the same rules, as long
/// as wave A has a direction.
pub proof fn correction_is_reflection_invariant(m: Seq<ZigZagNode>, s: Seq<ZigZagNode>)
    requires
        s.len() == 4,
        reflects(m, s),
        px(s, 1) != px(s, 0),
    ensures
        correction_variant(px(m, 0), px(m, 1), px(m, 2)) == correction_variant(
            px(s, 0),
            px(s, 1),
            px(s, 2),
        ),
        correction_violations(px(m, 0), px(m, 1), px(m, 2), px(m, 3)) == correction_violations(
            px(s, 0),
            px(s, 1),
            px(s, 2),
            px(s, 3),
        ),
{
    assert(px(m, 0) == -px(s, 0));
    assert(px(m, 1) == -px(s, 1));
    assert(px(m, 2) == -px(s, 2));
    assert(px(m, 3) == -px(s, 3));
}


/// The Fibonacci "C-setup" levels of a correction, projected from its wave A: the swing
/// Fibonacci levels of wave A's extremes. `is_uptrend` says whether wave A ran low to high.
pub fn c_setup_levels(wave_a_start: i64, wave_a_end: i64, is_uptrend: bool) -> (r: Vec<PriceLevel>)
    ensures
        r@ == fibonacci_levels(
            if wave_a_end >= wave_a_start {
                wave_a_end as int
            } else {
                wave_a_start as int
            },
            if wave_a_end >= wave_a_start {
                wave_a_start as int
            } else {
                wave_a_end as int
            },
            is_uptrend,
        ),
{
    let (high, low) = if wave_a_end >= wave_a_start {
        (wave_a_end, wave_a_start)
    } else {
        (wave_a_start, wave_a_end)
    };
    swing_fibonacci_levels(high, low, is_uptrend)
}

} // verus!
