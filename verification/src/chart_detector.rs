//! Detection of chart-pattern candidates over a swing sequence: triangles and wedges, the 1-2-3
//! reversal, the Wolfe wave, double and triple tops and bottoms, head and shoulders, and
//! auto-fitted trendlines, each a fixed geometric rule over consecutive pivots, and the eviction
//! of overlapping candidates of one kind.
//!
//! Every level comparison is exact: prices are integer ticks, slopes are kept as fractions with
//! a positive denominator, and the level tolerance is given in thousandths of a percent. A
//! candidate is emitted `Forming`; what it becomes is decided bar by bar by
//! [`ChartPatternCandidate::update_state`].

use vstd::prelude::*;

use crate::chart_patterns::{ChartPatternCandidate, ChartPatternKind, PatternState, TrendLine};
use crate::swing::{alternating, ZigZagNode};

use vstd::arithmetic::mul::{
    lemma_mul_is_associative, lemma_mul_is_commutative, lemma_mul_is_distributive_add_other_way,
    lemma_mul_is_distributive_sub, lemma_mul_is_distributive_sub_other_way,
};

verus! {

/// Scans swing sequences for pattern candidates. `tolerance` is the level tolerance in
/// thousandths of a percent: how far apart two prices may be, relative to a reference price,
/// and still count as one level.
#[derive(Debug, Clone, Copy, PartialEq, Eq)]
pub struct ChartPatternDetector {
    pub tolerance: u32,
}

/// A pivot small enough for exact slope arithmetic: prices below `2^38` ticks and timestamps
/// below `2^42` in magnitude.
pub open spec fn detectable(n: ZigZagNode) -> bool {
    -0x40_0000_0000 < n.price < 0x40_0000_0000 && -0x400_0000_0000 < n.timestamp
        < 0x400_0000_0000
}

pub open spec fn all_detectable(s: Seq<ZigZagNode>) -> bool {
    forall|i: int| 0 <= i < s.len() ==> detectable(#[trigger] s[i])
}

pub open spec fn abs(x: int) -> int {
    if x < 0 {
        -x
    } else {
        x
    }
}

/// `a` and `b` are one level: their distance is at most `tol` thousandths of a percent of
/// `scale`'s magnitude.
pub open spec fn within(tol: int, a: int, b: int, scale: int) -> bool {
    abs(a - b) * 100_000 <= tol * abs(scale)
}

/// The line from pivot `a` to pivot `b`.
pub open spec fn line_of(a: ZigZagNode, b: ZigZagNode) -> TrendLine {
    TrendLine { start: (a.timestamp, a.price), end: (b.timestamp, b.price) }
}

/// What a detected candidate consists of: its kind, its pivots and its two lines.
pub type PatternFit = (ChartPatternKind, Seq<ZigZagNode>, Option<TrendLine>, Option<TrendLine>);

/// `c` is the freshly detected candidate for `f`.
pub open spec fn describes(c: ChartPatternCandidate, f: PatternFit) -> bool {
    &&& c.kind == f.0
    &&& c.nodes@ == f.1
    &&& c.upper_line == f.2
    &&& c.lower_line == f.3
    &&& c.state == PatternState::Forming
}

pub open spec fn describes_all(cs: Seq<ChartPatternCandidate>, fs: Seq<PatternFit>) -> bool {
    &&& cs.len() == fs.len()
    &&& forall|j: int| 0 <= j < cs.len() ==> describes(#[trigger] cs[j], fs[j])
}

/// A 1-2-3 reversal over three consecutive pivots: the middle one is a failed extreme and the
/// third breaks past the first in the opposite direction.
pub open spec fn one_two_three_fit(w: Seq<ZigZagNode>) -> Option<PatternFit> {
    let (n1, n2, n3) = (w[0], w[1], w[2]);
    if n1.is_high == n2.is_high || n2.is_high == n3.is_high {
        None
    } else {
        let bearish = !n1.is_high && n2.is_high && !n3.is_high && n3.price < n1.price;
        let bullish = n1.is_high && !n2.is_high && n3.is_high && n3.price > n1.price;
        if bearish || bullish {
            Some((ChartPatternKind::ReversalOneTwoThree, w, None, None))
        } else {
            None
        }
    }
}

/// A double top or bottom: two extremes of one type at one level with a counter-swing between
/// them that is not on that level. The neckline is the counter-swing, held horizontal.
pub open spec fn double_fit(tol: int, w: Seq<ZigZagNode>) -> Option<PatternFit> {
    let (n1, n2, n3) = (w[0], w[1], w[2]);
    if n1.is_high != n3.is_high || n1.is_high == n2.is_high {
        None
    } else if !within(tol, n1.price as int, n3.price as int, n1.price as int) {
        None
    } else if within(tol, n1.price as int, n2.price as int, n1.price as int) {
        None
    } else if n1.is_high {
        Some((ChartPatternKind::DoubleTop, w, None, Some(line_of(n2, n2))))
    } else {
        Some((ChartPatternKind::DoubleBottom, w, Some(line_of(n2, n2)), None))
    }
}

/// A triple top or bottom: three extremes at one level over five alternating pivots. The neckline
/// is the further of the two counter-swings, held horizontal.
pub open spec fn triple_fit(tol: int, w: Seq<ZigZagNode>) -> Option<PatternFit> {
    let (n1, n2, n3, n4, n5) = (w[0], w[1], w[2], w[3], w[4]);
    let p1 = n1.price as int;
    if !alternating(w) {
        None
    } else if !within(tol, p1, n3.price as int, p1) || !within(tol, p1, n5.price as int, p1) {
        None
    } else if within(tol, p1, n2.price as int, p1) {
        None
    } else {
        let conservative = if n1.is_high {
            if n2.price <= n4.price {
                n2
            } else {
                n4
            }
        } else if n2.price >= n4.price {
            n2
        } else {
            n4
        };
        let neckline = line_of(conservative, conservative);
        if n1.is_high {
            Some((ChartPatternKind::TripleTop, w, None, Some(neckline)))
        } else {
            Some((ChartPatternKind::TripleBottom, w, Some(neckline), None))
        }
    }
}

/// Head and shoulders, or its inverse: five alternating pivots whose middle extreme overshoots
/// both same-type neighbours, which sit at one level, as do the two counter-swings. The neckline
/// runs through the counter-swings and may slope.
pub open spec fn head_and_shoulders_fit(tol: int, w: Seq<ZigZagNode>) -> Option<PatternFit> {
    let (n1, n2, n3, n4, n5) = (w[0], w[1], w[2], w[3], w[4]);
    let head_overshoots = if n1.is_high {
        n3.price > n1.price && n3.price > n5.price
    } else {
        n3.price < n1.price && n3.price < n5.price
    };
    if !alternating(w) || !head_overshoots {
        None
    } else if !within(tol, n1.price as int, n5.price as int, n3.price as int) {
        None
    } else if !within(tol, n2.price as int, n4.price as int, n3.price as int) {
        None
    } else if n1.is_high {
        Some((ChartPatternKind::HeadAndShoulders, w, None, Some(line_of(n2, n4))))
    } else {
        Some((ChartPatternKind::InverseHeadAndShoulders, w, Some(line_of(n2, n4)), None))
    }
}

/// The window-based detectors.
#[derive(Debug, Clone, Copy, PartialEq, Eq, Structural)]
pub enum WindowScan {
    TrianglesAndWedges,
    OneTwoThree,
    WolfeWaves,
    DoubleExtremes,
    TripleExtremes,
    HeadAndShoulders,
}

/// How many consecutive pivots each detector reads.
pub open spec fn window_len(k: WindowScan) -> int {
    match k {
        WindowScan::TrianglesAndWedges => 4,
        WindowScan::OneTwoThree => 3,
        WindowScan::WolfeWaves => 5,
        WindowScan::DoubleExtremes => 3,
        WindowScan::TripleExtremes => 5,
        WindowScan::HeadAndShoulders => 5,
    }
}

/// What detector `k` finds in the window of `nodes` starting at `i`.
pub open spec fn fit_at(d: ChartPatternDetector, nodes: Seq<ZigZagNode>, k: WindowScan, i: int) -> Option<
    PatternFit,
> {
    let w = nodes.subrange(i, i + window_len(k));
    let tol = d.tolerance as int;
    match k {
        WindowScan::TrianglesAndWedges => triangle_fit(tol, w),
        WindowScan::OneTwoThree => one_two_three_fit(w),
        WindowScan::WolfeWaves => wolfe_fit(tol, w),
        WindowScan::DoubleExtremes => double_fit(tol, w),
        WindowScan::TripleExtremes => triple_fit(tol, w),
        WindowScan::HeadAndShoulders => head_and_shoulders_fit(tol, w),
    }
}

/// The fits of detector `k` in the first `n` windows, in window order.
pub open spec fn fits_upto(d: ChartPatternDetector, nodes: Seq<ZigZagNode>, k: WindowScan, n: int) -> Seq<
    PatternFit,
>
    decreases n,
{
    if n <= 0 {
        Seq::empty()
    } else {
        let s = fits_upto(d, nodes, k, n - 1);
        match fit_at(d, nodes, k, n - 1) {
            Some(f) => s.push(f),
            None => s,
        }
    }
}

/// The number of windows of detector `k` over `len` pivots.
pub open spec fn window_count(len: int, k: WindowScan) -> int {
    if len >= window_len(k) {
        len - window_len(k) + 1
    } else {
        0
    }
}

/// What detector `k` finds over every window of `nodes`, in window order.
pub open spec fn window_fits(d: ChartPatternDetector, nodes: Seq<ZigZagNode>, k: WindowScan) -> Seq<
    PatternFit,
> {
    fits_upto(d, nodes, k, window_count(nodes.len() as int, k))
}

/// The rise of a line over its run, oriented so that the run is positive. A line without time
/// span is flat: no rise over a run of one.
pub open spec fn rise(l: TrendLine) -> int {
    let dt = l.end.0 - l.start.0;
    if dt == 0 {
        0
    } else if dt > 0 {
        l.end.1 - l.start.1
    } else {
        l.start.1 - l.end.1
    }
}

/// The positive run of a line; see [`rise`].
pub open spec fn run(l: TrendLine) -> int {
    let dt = l.end.0 - l.start.0;
    if dt == 0 {
        1
    } else {
        abs(dt)
    }
}

/// The line's level at `ts`, multiplied by its run.
pub open spec fn level_times_run(l: TrendLine, ts: int) -> int {
    l.start.1 * run(l) + rise(l) * (ts - l.start.0)
}

/// How far line `u` lies above line `l` at `ts`, multiplied by both runs.
pub open spec fn gap(u: TrendLine, l: TrendLine, ts: int) -> int {
    level_times_run(u, ts) * run(l) - level_times_run(l, ts) * run(u)
}

pub open spec fn max(a: int, b: int) -> int {
    if a >= b {
        a
    } else {
        b
    }
}

/// The line's slope is less than `tol` thousandths of a percent of the gap `g / dg`, the gap
/// being taken as at least one billionth.
pub open spec fn flat(l: TrendLine, g: int, dg: int, tol: int) -> bool {
    abs(rise(l)) * 100_000 * 1_000_000_000 * dg < tol * run(l) * max(g * 1_000_000_000, dg)
}

/// A triangle or wedge over four alternating pivots: the line through the two highs and the line
/// through the two lows converge. Both rising is a rising wedge, both falling a falling wedge; a
/// falling or flat upper line over a rising or flat lower one is a triangle.
pub open spec fn triangle_fit(tol: int, w: Seq<ZigZagNode>) -> Option<PatternFit> {
    let (h0, h1, l0, l1) = if w[0].is_high {
        (w[0], w[2], w[1], w[3])
    } else {
        (w[1], w[3], w[0], w[2])
    };
    let upper = line_of(h0, h1);
    let lower = line_of(l0, l1);
    let gs = gap(upper, lower, w[0].timestamp as int);
    let ge = gap(upper, lower, w[3].timestamp as int);
    if !alternating(w) || gs <= 0 || ge <= 0 || ge >= gs {
        None
    } else {
        let dg = run(upper) * run(lower);
        let kind = if rise(upper) > 0 && rise(lower) > 0 {
            Some(ChartPatternKind::RisingWedge)
        } else if rise(upper) < 0 && rise(lower) < 0 {
            Some(ChartPatternKind::FallingWedge)
        } else if (rise(upper) <= 0 || flat(upper, gs, dg, tol)) && (rise(lower) >= 0 || flat(
            lower,
            gs,
            dg,
            tol,
        )) {
            Some(ChartPatternKind::Triangle)
        } else {
            None
        };
        match kind {
            Some(k) => Some((k, w, Some(upper), Some(lower))),
            None => None,
        }
    }
}

/// A Wolfe wave over five alternating pivots: the lines 1-3 and 2-4 are parallel within five
/// times the tolerance, relative to the prices of 1 and 3 (taken as at least one billionth), and
/// pivot 5 pierces the extension of line 1-3 — a low below it when pivot 1 is a high, a high
/// above it otherwise.
pub open spec fn wolfe_fit(tol: int, w: Seq<ZigZagNode>) -> Option<PatternFit> {
    let (n1, n2, n3, n4, n5) = (w[0], w[1], w[2], w[3], w[4]);
    let l13 = line_of(n1, n3);
    let l24 = line_of(n2, n4);
    let scale = abs(n1.price as int) + abs(n3.price as int);
    let diff = abs(rise(l13) * run(l24) - rise(l24) * run(l13));
    let not_parallel = if scale > 0 {
        diff * 100_000 > 5 * tol * scale * run(l13) * run(l24)
    } else {
        diff * 100_000 * 1_000_000_000 > 5 * tol * run(l13) * run(l24)
    };
    let pierces = if n1.is_high {
        !n5.is_high && n5.price * run(l13) < level_times_run(l13, n5.timestamp as int)
    } else {
        n5.is_high && n5.price * run(l13) > level_times_run(l13, n5.timestamp as int)
    };
    if !alternating(w) || not_parallel || !pierces {
        None
    } else if n1.is_high {
        Some((ChartPatternKind::WolfeWave, w, Some(l24), Some(l13)))
    } else {
        Some((ChartPatternKind::WolfeWave, w, Some(l13), Some(l24)))
    }
}

/// A line between two detectable pivots, evaluated at a detectable timestamp.
pub open spec fn small_line(l: TrendLine) -> bool {
    &&& -0x40_0000_0000 < l.start.1 < 0x40_0000_0000
    &&& -0x40_0000_0000 < l.end.1 < 0x40_0000_0000
    &&& -0x400_0000_0000 < l.start.0 < 0x400_0000_0000
    &&& -0x400_0000_0000 < l.end.0 < 0x400_0000_0000
}

/// The rise and run of a small line, exactly.
fn rise_run(l: &TrendLine) -> (r: (i128, i128))
    requires
        small_line(*l),
    ensures
        r.0 == rise(*l),
        r.1 == run(*l),
        -0x80_0000_0000 < r.0 < 0x80_0000_0000,
        0 < r.1 < 0x800_0000_0000,
{
    let dt = l.end.0 as i128 - l.start.0 as i128;
    if dt == 0 {
        (0, 1)
    } else if dt > 0 {
        (l.end.1 as i128 - l.start.1 as i128, dt)
    } else {
        (l.start.1 as i128 - l.end.1 as i128, -dt)
    }
}

/// [`level_times_run`] of a small line at a detectable timestamp, exactly.
fn level_times_run_at(l: &TrendLine, ts: i64) -> (r: i128)
    requires
        small_line(*l),
        -0x400_0000_0000 < ts < 0x400_0000_0000,
    ensures
        r == level_times_run(*l, ts as int),
        -0x8_0000_0000_0000_0000_0000 < r < 0x8_0000_0000_0000_0000_0000,
{
    let (rise, run) = rise_run(l);
    let p0 = l.start.1 as i128;
    let u = ts as i128 - l.start.0 as i128;
    assert(-0x2_0000_0000_0000_0000_0000 < p0 * run < 0x2_0000_0000_0000_0000_0000)
        by (nonlinear_arith)
        requires
            -0x40_0000_0000 < p0 < 0x40_0000_0000,
            0 < run < 0x800_0000_0000,
    ;
    assert(-0x4_0000_0000_0000_0000_0000 < rise * u < 0x4_0000_0000_0000_0000_0000)
        by (nonlinear_arith)
        requires
            -0x80_0000_0000 < rise < 0x80_0000_0000,
            -0x800_0000_0000 < u < 0x800_0000_0000,
    ;
    p0 * run + rise * u
}

/// A line's level at its own start is its start price.
proof fn lemma_level_at_start(l: TrendLine)
    ensures
        level_times_run(l, l.start.0 as int) == l.start.1 * run(l),
{
    assert(rise(l) * (l.start.0 - l.start.0) == 0) by (nonlinear_arith);
}

/// A line's level at its own end is its end price, or its start price when it has no run.
proof fn lemma_level_at_end(l: TrendLine)
    ensures
        level_times_run(l, l.end.0 as int) == (if l.end.0 == l.start.0 {
            l.start.1 as int
        } else {
            l.end.1 as int
        }) * run(l),
{
    let dt = l.end.0 - l.start.0;
    let p0 = l.start.1 as int;
    let p1 = l.end.1 as int;
    if dt > 0 {
        assert(p0 * dt + (p1 - p0) * dt == p1 * dt) by (nonlinear_arith);
    } else if dt < 0 {
        assert(p0 * (-dt) + (p0 - p1) * dt == p1 * (-dt)) by (nonlinear_arith);
    } else {
        assert(0 * (l.end.0 - l.start.0) == 0);
    }
}

/// The gap between two lines changes linearly with time, at the difference of their slopes.
proof fn lemma_gap_linear(u: TrendLine, l: TrendLine, t0: int, t1: int)
    ensures
        gap(u, l, t1) - gap(u, l, t0) == (rise(u) * run(l) - rise(l) * run(u)) * (t1 - t0),
{
    let (a, ru, su, tu) = (u.start.1 as int, run(u), rise(u), u.start.0 as int);
    let (b, rl, sl, tl) = (l.start.1 as int, run(l), rise(l), l.start.0 as int);
    let d = t1 - t0;
    lemma_mul_is_distributive_add_other_way(rl, a * ru, su * (t1 - tu));
    lemma_mul_is_distributive_add_other_way(rl, a * ru, su * (t0 - tu));
    lemma_mul_is_distributive_add_other_way(ru, b * rl, sl * (t1 - tl));
    lemma_mul_is_distributive_add_other_way(ru, b * rl, sl * (t0 - tl));
    lemma_mul_is_distributive_sub_other_way(rl, su * (t1 - tu), su * (t0 - tu));
    lemma_mul_is_distributive_sub_other_way(ru, sl * (t1 - tl), sl * (t0 - tl));
    lemma_mul_is_distributive_sub(su, t1 - tu, t0 - tu);
    lemma_mul_is_distributive_sub(sl, t1 - tl, t0 - tl);
    assert((t1 - tu) - (t0 - tu) == d);
    assert((t1 - tl) - (t0 - tl) == d);
    lemma_mul_is_associative(su, d, rl);
    lemma_mul_is_commutative(d, rl);
    lemma_mul_is_associative(su, rl, d);
    lemma_mul_is_associative(sl, d, ru);
    lemma_mul_is_commutative(d, ru);
    lemma_mul_is_associative(sl, ru, d);
    lemma_mul_is_distributive_sub_other_way(d, su * rl, sl * ru);
}

/// Multiplying by a positive factor keeps the sign.
proof fn lemma_sign_by_positive(k: int, x: int)
    requires
        k > 0,
    ensures
        (k * x > 0) == (x > 0),
        (k * x < 0) == (x < 0),
        k * x == x * k,
{
    if x > 0 {
        assert(k * x > 0) by (nonlinear_arith)
            requires
                k > 0,
                x > 0,
        ;
    } else if x < 0 {
        assert(k * x < 0) by (nonlinear_arith)
            requires
                k > 0,
                x < 0,
        ;
    } else {
        assert(k * x == 0) by (nonlinear_arith)
            requires
                x == 0,
        ;
    }
    assert(k * x == x * k) by (nonlinear_arith);
}

/// The sign of a product.
proof fn lemma_product_negative(x: int, y: int)
    ensures
        (x * y < 0) == ((x < 0 && y > 0) || (x > 0 && y < 0)),
{
    if x > 0 && y > 0 {
        assert(x * y > 0) by (nonlinear_arith)
            requires
                x > 0,
                y > 0,
        ;
    } else if x < 0 && y < 0 {
        assert(x * y > 0) by (nonlinear_arith)
            requires
                x < 0,
                y < 0,
        ;
    } else if x > 0 && y < 0 {
        assert(x * y < 0) by (nonlinear_arith)
            requires
                x > 0,
                y < 0,
        ;
    } else if x < 0 && y > 0 {
        assert(x * y < 0) by (nonlinear_arith)
            requires
                x < 0,
                y > 0,
        ;
    } else {
        assert(x * y == 0) by (nonlinear_arith)
            requires
                x == 0 || y == 0,
        ;
    }
}

/// `x * k < y * k` exactly when `x < y`, for positive `k`.
proof fn lemma_cancel_lt(x: int, y: int, k: int)
    requires
        k > 0,
    ensures
        (x * k < y * k) == (x < y),
{
    if x < y {
        assert(x * k < y * k) by (nonlinear_arith)
            requires
                x < y,
                k > 0,
        ;
    } else {
        assert(x * k >= y * k) by (nonlinear_arith)
            requires
                x >= y,
                k > 0,
        ;
    }
}

/// Whether a slope `s / run` is flat against the gap `(r_own * gr) / (r_own * r_other)`; see
/// [`flat`]. The gap's numerator is handed over divided by `r_own`, which keeps every product in
/// range.
fn flat_enough(s: i128, run: i128, gr: i128, r_own: i128, r_other: i128, tol: u32) -> (b: bool)
    requires
        -0x80_0000_0000 < s < 0x80_0000_0000,
        0 < run < 0x800_0000_0000,
        0 < gr < 0x100_0000_0000_0000_0000_0000,
        0 < r_own < 0x800_0000_0000,
        0 < r_other < 0x800_0000_0000,
    ensures
        b == (abs(s as int) * 100_000 * 1_000_000_000 * (r_own * r_other) < tol * run * max(
            (r_own * gr) * 1_000_000_000,
            r_own * r_other,
        )),
{
    let a = if s < 0 {
        -s
    } else {
        s
    };
    let ghost ai = a as int;
    let ghost t = tol * run;
    assert(0 <= tol * run < 0x1_0000_0000 * 0x800_0000_0000) by (nonlinear_arith)
        requires
            0 <= tol < 0x1_0000_0000,
            0 < run < 0x800_0000_0000,
    ;
    assert(0 < r_own * r_other) by (nonlinear_arith)
        requires
            0 < r_own,
            0 < r_other,
    ;
    if gr * 1_000_000_000 >= r_other {
        proof {
            assert((r_own * gr) * 1_000_000_000 >= r_own * r_other) by (nonlinear_arith)
                requires
                    gr * 1_000_000_000 >= r_other,
                    r_own > 0,
            ;
            assert(ai * 100_000 * 1_000_000_000 * (r_own * r_other) == (ai * 100_000 * r_other)
                * (r_own * 1_000_000_000)) by (nonlinear_arith);
            assert(t * ((r_own * gr) * 1_000_000_000) == (t * gr) * (r_own * 1_000_000_000))
                by (nonlinear_arith);
            lemma_cancel_lt(ai * 100_000 * r_other, t * gr, r_own * 1_000_000_000);
            assert(0 <= ai * 100_000 * r_other < 0x80_0000_0000 * 100_000 * 0x800_0000_0000)
                by (nonlinear_arith)
                requires
                    0 <= ai < 0x80_0000_0000,
                    0 < r_other < 0x800_0000_0000,
            ;
            assert(t * gr >= 0) by (nonlinear_arith)
                requires
                    t >= 0,
                    gr > 0,
            ;
        }
        let lhs = a * 100_000 * r_other;
        let t_exec = (tol as i128) * run;
        match t_exec.checked_mul(gr) {
            Some(rhs) => lhs < rhs,
            None => true,
        }
    } else {
        proof {
            assert((r_own * gr) * 1_000_000_000 < r_own * r_other) by (nonlinear_arith)
                requires
                    gr * 1_000_000_000 < r_other,
                    r_own > 0,
            ;
            assert(ai * 100_000 * 1_000_000_000 * (r_own * r_other) == (ai * 100_000_000_000_000)
                * (r_own * r_other)) by (nonlinear_arith);
            lemma_cancel_lt(ai * 100_000_000_000_000, t, r_own * r_other);
        }
        a * 100_000_000_000_000 < (tol as i128) * run
    }
}

/// The pivots of `s` that are highs (for `highs`) or lows, in order.
pub open spec fn same_type(s: Seq<ZigZagNode>, highs: bool) -> Seq<ZigZagNode>
    decreases s.len(),
{
    if s.len() == 0 {
        s
    } else {
        let r = same_type(s.drop_last(), highs);
        if s.last().is_high == highs {
            r.push(s.last())
        } else {
            r
        }
    }
}

/// Pivot `n` breaks through line `l` by more than the tolerance: a high above a resistance
/// line, a low below a support line.
pub open spec fn breaks_line(l: TrendLine, n: ZigZagNode, highs: bool, tol: int) -> bool {
    if highs {
        n.price * run(l) * 100_000 > (100_000 + tol) * level_times_run(l, n.timestamp as int)
    } else {
        n.price * run(l) * 100_000 < (100_000 - tol) * level_times_run(l, n.timestamp as int)
    }
}

/// The auto-fitted trendline through the highs (or the lows): from the oldest to the newest
/// pivot of that type, kept only if none of them breaks through it.
pub open spec fn auto_fit(tol: int, nodes: Seq<ZigZagNode>, highs: bool) -> Option<PatternFit> {
    let st = same_type(nodes, highs);
    if st.len() < 2 {
        None
    } else {
        let line = line_of(st[0], st.last());
        if exists|i: int| 0 <= i < st.len() && breaks_line(line, #[trigger] st[i], highs, tol) {
            None
        } else if highs {
            Some((ChartPatternKind::AutoTrendline, st, Some(line), None))
        } else {
            Some((ChartPatternKind::AutoTrendline, st, None, Some(line)))
        }
    }
}

pub open spec fn as_seq(f: Option<PatternFit>) -> Seq<PatternFit> {
    match f {
        Some(x) => seq![x],
        None => Seq::empty(),
    }
}

/// Every candidate the detectors find over `nodes`, before eviction: triangles and wedges,
/// 1-2-3 reversals, Wolfe waves, double and triple extremes, head and shoulders, then the
/// resistance and the support trendline.
pub open spec fn detected(d: ChartPatternDetector, nodes: Seq<ZigZagNode>) -> Seq<PatternFit> {
    window_fits(d, nodes, WindowScan::TrianglesAndWedges) + window_fits(
        d,
        nodes,
        WindowScan::OneTwoThree,
    ) + window_fits(d, nodes, WindowScan::WolfeWaves) + window_fits(
        d,
        nodes,
        WindowScan::DoubleExtremes,
    ) + window_fits(d, nodes, WindowScan::TripleExtremes) + window_fits(
        d,
        nodes,
        WindowScan::HeadAndShoulders,
    ) + as_seq(auto_fit(d.tolerance as int, nodes, true)) + as_seq(
        auto_fit(d.tolerance as int, nodes, false),
    )
}

/// Appending described candidates keeps them described.
fn append_described(out: &mut Vec<ChartPatternCandidate>, more: Vec<ChartPatternCandidate>, Ghost(
    fs,
): Ghost<Seq<PatternFit>>, Ghost(gs): Ghost<Seq<PatternFit>>)
    requires
        describes_all(old(out)@, fs),
        describes_all(more@, gs),
    ensures
        describes_all(final(out)@, fs + gs),
{
    let ghost extra = more@;
    let mut more = more;
    out.append(&mut more);
    assert forall|j: int| 0 <= j < out@.len() implies describes(#[trigger] out@[j], (fs + gs)[j]) by {
        if j < fs.len() {
        } else {
            assert(out@[j] == extra[j - fs.len()]);
        }
    }
}

/// When a candidate formed: the timestamp of its last pivot, zero without pivots.
pub open spec fn formed_at(c: ChartPatternCandidate) -> int {
    if c.nodes@.len() > 0 {
        c.nodes@.last().timestamp as int
    } else {
        0
    }
}

/// When a candidate's first pivot lies, zero without pivots.
pub open spec fn started_at(c: ChartPatternCandidate) -> int {
    if c.nodes@.len() > 0 {
        c.nodes@[0].timestamp as int
    } else {
        0
    }
}

/// Two candidates of one kind whose pivot time ranges overlap compete for one signal.
pub open spec fn clash(a: ChartPatternCandidate, b: ChartPatternCandidate) -> bool {
    a.kind == b.kind && started_at(a) <= formed_at(b) && started_at(b) <= formed_at(a)
}

/// Greedy eviction in priority order: a candidate survives unless it clashes with one that
/// survived before it.
pub open spec fn survivors(s: Seq<ChartPatternCandidate>) -> Seq<ChartPatternCandidate>
    decreases s.len(),
{
    if s.len() == 0 {
        s
    } else {
        let k = survivors(s.drop_last());
        if exists|j: int| 0 <= j < k.len() && clash(#[trigger] k[j], s.last()) {
            k
        } else {
            k.push(s.last())
        }
    }
}

/// Inserts `x` into `s` after every candidate that formed no later than it.
pub open spec fn insert_by_formation(s: Seq<ChartPatternCandidate>, x: ChartPatternCandidate) -> Seq<
    ChartPatternCandidate,
>
    decreases s.len(),
{
    if s.len() == 0 {
        seq![x]
    } else if formed_at(s.last()) <= formed_at(x) {
        s.push(x)
    } else {
        insert_by_formation(s.drop_last(), x).push(s.last())
    }
}

/// A stable sort by formation time.
pub open spec fn by_formation(s: Seq<ChartPatternCandidate>) -> Seq<ChartPatternCandidate>
    decreases s.len(),
{
    if s.len() == 0 {
        s
    } else {
        insert_by_formation(by_formation(s.drop_last()), s.last())
    }
}

/// The result of eviction: the survivors, ordered by formation time.
pub open spec fn evicted(ranked: Seq<ChartPatternCandidate>) -> Seq<ChartPatternCandidate> {
    by_formation(survivors(ranked))
}

pub open spec fn no_clashes(s: Seq<ChartPatternCandidate>) -> bool {
    forall|i: int, j: int| 0 <= i < j < s.len() ==> !clash(#[trigger] s[i], #[trigger] s[j])
}

pub open spec fn formation_ordered(s: Seq<ChartPatternCandidate>) -> bool {
    forall|i: int, j: int|
        0 <= i < j < s.len() ==> formed_at(#[trigger] s[i]) <= formed_at(#[trigger] s[j])
}

proof fn lemma_insert_contains(s: Seq<ChartPatternCandidate>, x: ChartPatternCandidate)
    ensures
        insert_by_formation(s, x).len() == s.len() + 1,
        forall|y: ChartPatternCandidate| #[trigger]
            insert_by_formation(s, x).contains(y) <==> (s.contains(y) || y == x),
    decreases s.len(),
{
    let t = insert_by_formation(s, x);
    if s.len() == 0 {
        assert forall|y: ChartPatternCandidate| #[trigger] t.contains(y) <==> (s.contains(y) || y
            == x) by {
            if t.contains(y) {
                let i = choose|i: int| 0 <= i < t.len() && t[i] == y;
            }
            if y == x {
                assert(t[0] == y);
            }
        }
    } else if formed_at(s.last()) <= formed_at(x) {
        assert forall|y: ChartPatternCandidate| #[trigger] t.contains(y) <==> (s.contains(y) || y
            == x) by {
            if t.contains(y) {
                let i = choose|i: int| 0 <= i < t.len() && t[i] == y;
                if i < s.len() {
                    assert(s[i] == y);
                }
            }
            if s.contains(y) {
                let i = choose|i: int| 0 <= i < s.len() && s[i] == y;
                assert(t[i] == y);
            }
            if y == x {
                assert(t[s.len() as int] == y);
            }
        }
    } else {
        let d = s.drop_last();
        lemma_insert_contains(d, x);
        let u = insert_by_formation(d, x);
        assert forall|y: ChartPatternCandidate| #[trigger] t.contains(y) <==> (s.contains(y) || y
            == x) by {
            if t.contains(y) {
                let i = choose|i: int| 0 <= i < t.len() && t[i] == y;
                if i < u.len() {
                    assert(u[i] == y);
                    assert(u.contains(y));
                    if d.contains(y) {
                        let k = choose|k: int| 0 <= k < d.len() && d[k] == y;
                        assert(s[k] == y);
                    }
                } else {
                    assert(s[s.len() - 1] == y);
                }
            }
            if s.contains(y) {
                let i = choose|i: int| 0 <= i < s.len() && s[i] == y;
                if i < s.len() - 1 {
                    assert(d[i] == y);
                    assert(u.contains(y));
                    let k = choose|k: int| 0 <= k < u.len() && u[k] == y;
                    assert(t[k] == y);
                } else {
                    assert(t[t.len() - 1] == y);
                }
            }
            if y == x {
                assert(u.contains(y));
                let k = choose|k: int| 0 <= k < u.len() && u[k] == y;
                assert(t[k] == y);
            }
        }
    }
}

proof fn lemma_insert_keeps(s: Seq<ChartPatternCandidate>, x: ChartPatternCandidate)
    requires
        no_clashes(s),
        formation_ordered(s),
        forall|k: int| 0 <= k < s.len() ==> !clash(#[trigger] s[k], x),
    ensures
        no_clashes(insert_by_formation(s, x)),
        formation_ordered(insert_by_formation(s, x)),
        insert_by_formation(s, x).len() > 0,
        formed_at(insert_by_formation(s, x).last()) == (if s.len() > 0 && formed_at(s.last())
            > formed_at(x) {
            formed_at(s.last())
        } else {
            formed_at(x)
        }),
    decreases s.len(),
{
    let t = insert_by_formation(s, x);
    if s.len() == 0 {
    } else if formed_at(s.last()) <= formed_at(x) {
        assert forall|i: int, j: int| 0 <= i < j < t.len() implies !clash(#[trigger] t[i], #[trigger] t[j]) by {
            if j == s.len() {
                assert(!clash(s[i], x));
                assert(t[i] == s[i]);
            } else {
                assert(t[i] == s[i] && t[j] == s[j]);
            }
        }
        assert forall|i: int, j: int| 0 <= i < j < t.len() implies formed_at(#[trigger] t[i])
            <= formed_at(#[trigger] t[j]) by {
            if j == s.len() {
                assert(t[i] == s[i]);
                if i < s.len() - 1 {
                    assert(formed_at(s[i]) <= formed_at(s[s.len() - 1]));
                }
            } else {
                assert(t[i] == s[i] && t[j] == s[j]);
            }
        }
    } else {
        let d = s.drop_last();
        let last = s.last();
        assert forall|k: int| 0 <= k < d.len() implies !clash(#[trigger] d[k], x) by {
            assert(d[k] == s[k]);
        }
        assert(no_clashes(d)) by {
            assert forall|i: int, j: int| 0 <= i < j < d.len() implies !clash(#[trigger] d[i], #[trigger] d[j]) by {
                assert(d[i] == s[i] && d[j] == s[j]);
            }
        }
        assert(formation_ordered(d)) by {
            assert forall|i: int, j: int| 0 <= i < j < d.len() implies formed_at(#[trigger] d[i])
                <= formed_at(#[trigger] d[j]) by {
                assert(d[i] == s[i] && d[j] == s[j]);
            }
        }
        lemma_insert_keeps(d, x);
        lemma_insert_contains(d, x);
        let u = insert_by_formation(d, x);
        assert(!clash(last, x)) by {
            assert(!clash(s[s.len() - 1], x));
        }
        assert forall|k: int| 0 <= k < u.len() implies !clash(#[trigger] u[k], last) && formed_at(
            u[k],
        ) <= formed_at(last) by {
            assert(u.contains(u[k]));
            if u[k] != x {
                assert(d.contains(u[k]));
                let m = choose|m: int| 0 <= m < d.len() && d[m] == u[k];
                assert(s[m] == u[k]);
                assert(!clash(s[m], s[s.len() - 1]));
                assert(formed_at(s[m]) <= formed_at(s[s.len() - 1]));
            } else {
                assert(!clash(x, last));
            }
        }
        assert forall|i: int, j: int| 0 <= i < j < t.len() implies !clash(#[trigger] t[i], #[trigger] t[j]) by {
            if j == u.len() {
                assert(t[i] == u[i]);
                assert(t[j] == last);
            } else {
                assert(t[i] == u[i] && t[j] == u[j]);
            }
        }
        assert forall|i: int, j: int| 0 <= i < j < t.len() implies formed_at(#[trigger] t[i])
            <= formed_at(#[trigger] t[j]) by {
            if j == u.len() {
                assert(t[i] == u[i]);
            } else {
                assert(t[i] == u[i] && t[j] == u[j]);
            }
        }
    }
}

proof fn lemma_survivors(s: Seq<ChartPatternCandidate>)
    ensures
        no_clashes(survivors(s)),
        forall|y: ChartPatternCandidate| #[trigger] survivors(s).contains(y) ==> s.contains(y),
        forall|i: int|
            0 <= i < s.len() ==> #[trigger] survivors(s).contains(s[i]) || exists|j: int|
                0 <= j < survivors(s).len() && clash(#[trigger] survivors(s)[j], s[i]),
    decreases s.len(),
{
    if s.len() > 0 {
        let d = s.drop_last();
        lemma_survivors(d);
        let k = survivors(d);
        let x = s.last();
        if exists|j: int| 0 <= j < k.len() && clash(#[trigger] k[j], x) {
            assert forall|y: ChartPatternCandidate| #[trigger] k.contains(y) implies s.contains(y) by {
                assert(d.contains(y));
                let m = choose|m: int| 0 <= m < d.len() && d[m] == y;
                assert(s[m] == y);
            }
            assert forall|i: int| 0 <= i < s.len() implies #[trigger] k.contains(s[i]) || exists|j: int|
                0 <= j < k.len() && clash(#[trigger] k[j], s[i]) by {
                if i < s.len() - 1 {
                    assert(d[i] == s[i]);
                }
            }
        } else {
            let t = k.push(x);
            assert forall|i: int, j: int| 0 <= i < j < t.len() implies !clash(#[trigger] t[i], #[trigger] t[j]) by {
                if j == k.len() {
                    assert(t[i] == k[i]);
                } else {
                    assert(t[i] == k[i] && t[j] == k[j]);
                }
            }
            assert forall|y: ChartPatternCandidate| #[trigger] t.contains(y) implies s.contains(y) by {
                let i = choose|i: int| 0 <= i < t.len() && t[i] == y;
                if i < k.len() {
                    assert(k[i] == y);
                    assert(k.contains(y));
                    assert(d.contains(y));
                    let m = choose|m: int| 0 <= m < d.len() && d[m] == y;
                    assert(s[m] == y);
                } else {
                    assert(s[s.len() - 1] == y);
                }
            }
            assert forall|i: int| 0 <= i < s.len() implies #[trigger] t.contains(s[i]) || exists|j: int|
                0 <= j < t.len() && clash(#[trigger] t[j], s[i]) by {
                if i < s.len() - 1 {
                    assert(d[i] == s[i]);
                    if k.contains(s[i]) {
                        let m = choose|m: int| 0 <= m < k.len() && k[m] == s[i];
                        assert(t[m] == s[i]);
                    } else {
                        let m = choose|m: int| 0 <= m < k.len() && clash(#[trigger] k[m], s[i]);
                        assert(t[m] == k[m]);
                    }
                } else {
                    assert(t[k.len() as int] == s[i]);
                }
            }
        }
    }
}

proof fn lemma_by_formation(s: Seq<ChartPatternCandidate>)
    requires
        no_clashes(s),
    ensures
        no_clashes(by_formation(s)),
        formation_ordered(by_formation(s)),
        by_formation(s).len() == s.len(),
        forall|y: ChartPatternCandidate| #[trigger] by_formation(s).contains(y) <==> s.contains(y),
    decreases s.len(),
{
    if s.len() > 0 {
        let d = s.drop_last();
        let x = s.last();
        assert(no_clashes(d)) by {
            assert forall|i: int, j: int| 0 <= i < j < d.len() implies !clash(#[trigger] d[i], #[trigger] d[j]) by {
                assert(d[i] == s[i] && d[j] == s[j]);
            }
        }
        lemma_by_formation(d);
        let b = by_formation(d);
        assert forall|k: int| 0 <= k < b.len() implies !clash(#[trigger] b[k], x) by {
            assert(b.contains(b[k]));
            assert(d.contains(b[k]));
            let m = choose|m: int| 0 <= m < d.len() && d[m] == b[k];
            assert(s[m] == b[k]);
            assert(!clash(s[m], s[s.len() - 1]));
        }
        lemma_insert_keeps(b, x);
        lemma_insert_contains(b, x);
        assert forall|y: ChartPatternCandidate| #[trigger] by_formation(s).contains(y) <==> s.contains(y) by {
            if s.contains(y) {
                let m = choose|m: int| 0 <= m < s.len() && s[m] == y;
                if m < s.len() - 1 {
                    assert(d[m] == y);
                    assert(d.contains(y));
                }
            }
            if d.contains(y) {
                let m = choose|m: int| 0 <= m < d.len() && d[m] == y;
                assert(s[m] == y);
            }
        }
    }
}

/// After eviction, no two candidates of one kind overlap in time, the candidates are ordered by
/// when they formed, every kept candidate was offered, and every offered candidate was either
/// kept or lost to a kept candidate of its kind that overlaps it.
pub proof fn eviction_keeps_one_per_overlap(ranked: Seq<ChartPatternCandidate>)
    ensures
        no_clashes(evicted(ranked)),
        formation_ordered(evicted(ranked)),
        forall|y: ChartPatternCandidate| #[trigger] evicted(ranked).contains(y) ==> ranked.contains(y),
        forall|i: int|
            0 <= i < ranked.len() ==> #[trigger] evicted(ranked).contains(ranked[i]) || exists|j: int|
                0 <= j < evicted(ranked).len() && clash(#[trigger] evicted(ranked)[j], ranked[i]),
{
    lemma_survivors(ranked);
    lemma_by_formation(survivors(ranked));
    let e = evicted(ranked);
    let k = survivors(ranked);
    assert forall|i: int| 0 <= i < ranked.len() implies #[trigger] e.contains(ranked[i]) || exists|j: int|
        0 <= j < e.len() && clash(#[trigger] e[j], ranked[i]) by {
        if !k.contains(ranked[i]) {
            let j = choose|j: int| 0 <= j < k.len() && clash(#[trigger] k[j], ranked[i]);
            assert(k.contains(k[j]));
            assert(e.contains(k[j]));
            let m = choose|m: int| 0 <= m < e.len() && e[m] == k[j];
        }
    }
}

/// Inserting `x` at `p`, after every candidate formed no later than it, is the stable insert.
proof fn lemma_insert_at(s: Seq<ChartPatternCandidate>, x: ChartPatternCandidate, p: int)
    requires
        0 <= p <= s.len(),
        forall|k: int| p <= k < s.len() ==> formed_at(#[trigger] s[k]) > formed_at(x),
        p == 0 || formed_at(s[p - 1]) <= formed_at(x),
    ensures
        insert_by_formation(s, x) == s.insert(p, x),
    decreases s.len() - p,
{
    if p == s.len() {
        assert(s.push(x) =~= s.insert(p, x));
    } else {
        let d = s.drop_last();
        assert(formed_at(s[s.len() - 1]) > formed_at(x));
        assert forall|k: int| p <= k < d.len() implies formed_at(#[trigger] d[k]) > formed_at(x) by {
            assert(d[k] == s[k]);
        }
        if p > 0 {
            assert(d[p - 1] == s[p - 1]);
        }
        lemma_insert_at(d, x, p);
        assert(d.insert(p, x).push(s.last()) =~= s.insert(p, x));
    }
}

impl ChartPatternCandidate {
    /// When the candidate formed: the timestamp of its last pivot.
    pub fn formed_at(&self) -> (r: i64)
        ensures
            r == formed_at(*self),
    {
        if self.nodes.len() > 0 {
            self.nodes[self.nodes.len() - 1].timestamp
        } else {
            0
        }
    }

    /// The time range of its pivots, first to last.
    pub fn node_range(&self) -> (r: (i64, i64))
        ensures
            r.0 == started_at(*self),
            r.1 == formed_at(*self),
    {
        let start = if self.nodes.len() > 0 {
            self.nodes[0].timestamp
        } else {
            0
        };
        (start, self.formed_at())
    }
}

/// Sorts candidates by formation time, keeping the order of those formed at the same time.
fn sort_by_formation(v: Vec<ChartPatternCandidate>) -> (r: Vec<ChartPatternCandidate>)
    ensures
        r@ == by_formation(v@),
{
    let ghost orig = v@;
    let ghost mut i: int = 0;
    let mut rest = v;
    let mut out: Vec<ChartPatternCandidate> = Vec::new();
    while rest.len() > 0
        invariant
            0 <= i <= orig.len(),
            rest@ == orig.subrange(i, orig.len() as int),
            out@ == by_formation(orig.subrange(0, i)),
        decreases rest@.len(),
    {
        let c = rest.remove(0);
        assert(c == orig[i]);
        let key = c.formed_at();
        let mut p = out.len();
        while p > 0 && out[p - 1].formed_at() > key
            invariant
                p <= out@.len(),
                key == formed_at(c),
                forall|k: int| p <= k < out@.len() ==> formed_at(#[trigger] out@[k]) > formed_at(c),
            decreases p,
        {
            p = p - 1;
        }
        proof {
            lemma_insert_at(out@, c, p as int);
            assert(orig.subrange(0, i + 1).drop_last() =~= orig.subrange(0, i));
            i = i + 1;
        }
        out.insert(p, c);
        assert(rest@ =~= orig.subrange(i, orig.len() as int));
    }
    assert(orig.subrange(0, orig.len() as int) =~= orig);
    out
}

/// The pivots `start .. start + k` of `nodes`.
fn window_of(nodes: &[ZigZagNode], start: usize, k: usize) -> (r: Vec<ZigZagNode>)
    requires
        start + k <= nodes@.len(),
    ensures
        r@ == nodes@.subrange(start as int, start + k),
{
    let mut r: Vec<ZigZagNode> = Vec::new();
    let mut j: usize = 0;
    while j < k
        invariant
            start + k <= nodes@.len(),
            nodes@.len() == nodes.len(),
            j <= k,
            r@ == nodes@.subrange(start as int, start + j),
        decreases k - j,
    {
        r.push(nodes[start + j]);
        j = j + 1;
        assert(r@ =~= nodes@.subrange(start as int, start + j));
    }
    r
}

fn candidate(
    kind: ChartPatternKind,
    nodes: Vec<ZigZagNode>,
    upper_line: Option<TrendLine>,
    lower_line: Option<TrendLine>,
) -> (r: ChartPatternCandidate)
    ensures
        describes(r, (kind, nodes@, upper_line, lower_line)),
{
    ChartPatternCandidate { kind, nodes, upper_line, lower_line, state: PatternState::Forming }
}

/// Five pivots alternate exactly when each neighbouring pair does.
proof fn lemma_alternating5(w: Seq<ZigZagNode>)
    requires
        w.len() == 5,
    ensures
        alternating(w) <==> (w[0].is_high != w[1].is_high && w[1].is_high != w[2].is_high
            && w[2].is_high != w[3].is_high && w[3].is_high != w[4].is_high),
{
    if w[0].is_high != w[1].is_high && w[1].is_high != w[2].is_high && w[2].is_high
        != w[3].is_high && w[3].is_high != w[4].is_high {
        assert forall|i: int| 0 <= i < w.len() - 1 implies #[trigger] w[i].is_high != w[i
            + 1].is_high by {
            if i == 0 {
            } else if i == 1 {
            } else if i == 2 {
            } else {
            }
        }
    }
    if alternating(w) {
        assert(w[0].is_high != w[1].is_high);
        assert(w[1].is_high != w[2].is_high);
        assert(w[2].is_high != w[3].is_high);
        assert(w[3].is_high != w[4].is_high);
    }
}

/// Four pivots alternate exactly when each neighbouring pair does.
proof fn lemma_alternating4(w: Seq<ZigZagNode>)
    requires
        w.len() == 4,
    ensures
        alternating(w) <==> (w[0].is_high != w[1].is_high && w[1].is_high != w[2].is_high
            && w[2].is_high != w[3].is_high),
{
    if w[0].is_high != w[1].is_high && w[1].is_high != w[2].is_high && w[2].is_high
        != w[3].is_high {
        assert forall|i: int| 0 <= i < w.len() - 1 implies #[trigger] w[i].is_high != w[i
            + 1].is_high by {
            if i == 0 {
            } else if i == 1 {
            } else {
            }
        }
    }
    if alternating(w) {
        assert(w[0].is_high != w[1].is_high);
        assert(w[1].is_high != w[2].is_high);
        assert(w[2].is_high != w[3].is_high);
    }
}

impl ChartPatternDetector {
    pub fn new(tolerance: u32) -> (r: Self)
        ensures
            r.tolerance == if tolerance < 1 {
                1
            } else {
                tolerance
            },
    {
        ChartPatternDetector {
            tolerance: if tolerance < 1 {
                1
            } else {
                tolerance
            },
        }
    }

    /// Whether `a` and `b` are one level relative to `scale`; see [`within`].
    pub fn within_tolerance(&self, a: i64, b: i64, scale: i64) -> (r: bool)
        ensures
            r == within(self.tolerance as int, a as int, b as int, scale as int),
    {
        let diff = a as i128 - b as i128;
        let diff = if diff < 0 {
            -diff
        } else {
            diff
        };
        let s = if scale < 0 {
            -(scale as i128)
        } else {
            scale as i128
        };
        assert(0 <= (self.tolerance as int) * s <= 0x1_0000_0000 * 0x8000_0000_0000_0000)
            by (nonlinear_arith)
            requires
                0 <= self.tolerance <= 0xffff_ffff,
                0 <= s <= 0x8000_0000_0000_0000,
        ;
        diff * 100_000 <= (self.tolerance as i128) * s
    }

    /// 1-2-3 reversals in every window of three pivots.
    fn scan_reversal_one_two_three(&self, nodes: &[ZigZagNode]) -> (r: Vec<ChartPatternCandidate>)
        ensures
            describes_all(r@, window_fits(*self, nodes@, WindowScan::OneTwoThree)),
    {
        let mut out: Vec<ChartPatternCandidate> = Vec::new();
        let mut i: usize = 0;
        while i < nodes.len() && nodes.len() - i >= 3
            invariant
                i <= nodes@.len(),
                nodes@.len() >= 3 ==> i <= nodes@.len() - 2,
                nodes@.len() < 3 ==> i == 0,
                describes_all(out@, fits_upto(*self, nodes@, WindowScan::OneTwoThree, i as int)),
            decreases nodes@.len() - i,
        {
            let ghost w = nodes@.subrange(i as int, i + 3);
            let (n1, n2, n3) = (nodes[i], nodes[i + 1], nodes[i + 2]);
            assert(w[0] == n1 && w[1] == n2 && w[2] == n3);
            if n1.is_high != n2.is_high && n2.is_high != n3.is_high {
                let bearish = !n1.is_high && n2.is_high && !n3.is_high && n3.price < n1.price;
                let bullish = n1.is_high && !n2.is_high && n3.is_high && n3.price > n1.price;
                if bearish || bullish {
                    out.push(
                        candidate(
                            ChartPatternKind::ReversalOneTwoThree,
                            window_of(nodes, i, 3),
                            None,
                            None,
                        ),
                    );
                }
            }
            i = i + 1;
        }
        out
    }

    /// Double tops and bottoms in every window of three pivots.
    fn scan_double_extremes(&self, nodes: &[ZigZagNode]) -> (r: Vec<ChartPatternCandidate>)
        ensures
            describes_all(r@, window_fits(*self, nodes@, WindowScan::DoubleExtremes)),
    {
        let mut out: Vec<ChartPatternCandidate> = Vec::new();
        let mut i: usize = 0;
        while i < nodes.len() && nodes.len() - i >= 3
            invariant
                i <= nodes@.len(),
                nodes@.len() >= 3 ==> i <= nodes@.len() - 2,
                nodes@.len() < 3 ==> i == 0,
                describes_all(out@, fits_upto(*self, nodes@, WindowScan::DoubleExtremes, i as int)),
            decreases nodes@.len() - i,
        {
            let ghost w = nodes@.subrange(i as int, i + 3);
            let (n1, n2, n3) = (nodes[i], nodes[i + 1], nodes[i + 2]);
            assert(w[0] == n1 && w[1] == n2 && w[2] == n3);
            if n1.is_high == n3.is_high && n1.is_high != n2.is_high && self.within_tolerance(
                n1.price,
                n3.price,
                n1.price,
            ) && !self.within_tolerance(n1.price, n2.price, n1.price) {
                let neckline = TrendLine::from_nodes(&n2, &n2);
                let window = window_of(nodes, i, 3);
                if n1.is_high {
                    out.push(candidate(ChartPatternKind::DoubleTop, window, None, Some(neckline)));
                } else {
                    out.push(
                        candidate(ChartPatternKind::DoubleBottom, window, Some(neckline), None),
                    );
                }
            }
            i = i + 1;
        }
        out
    }

    /// Triple tops and bottoms in every window of five pivots.
    fn scan_triple_extremes(&self, nodes: &[ZigZagNode]) -> (r: Vec<ChartPatternCandidate>)
        ensures
            describes_all(r@, window_fits(*self, nodes@, WindowScan::TripleExtremes)),
    {
        let mut out: Vec<ChartPatternCandidate> = Vec::new();
        let mut i: usize = 0;
        while i < nodes.len() && nodes.len() - i >= 5
            invariant
                i <= nodes@.len(),
                nodes@.len() >= 5 ==> i <= nodes@.len() - 4,
                nodes@.len() < 5 ==> i == 0,
                describes_all(out@, fits_upto(*self, nodes@, WindowScan::TripleExtremes, i as int)),
            decreases nodes@.len() - i,
        {
            let ghost w = nodes@.subrange(i as int, i + 5);
            let (n1, n2, n3, n4, n5) = (
                nodes[i],
                nodes[i + 1],
                nodes[i + 2],
                nodes[i + 3],
                nodes[i + 4],
            );
            assert(w[0] == n1 && w[1] == n2 && w[2] == n3 && w[3] == n4 && w[4] == n5);
            proof {
                lemma_alternating5(w);
            }
            let alternating = n1.is_high != n2.is_high && n2.is_high != n3.is_high && n3.is_high
                != n4.is_high && n4.is_high != n5.is_high;
            if alternating && self.within_tolerance(n1.price, n3.price, n1.price)
                && self.within_tolerance(n1.price, n5.price, n1.price) && !self.within_tolerance(
                n1.price,
                n2.price,
                n1.price,
            ) {
                let conservative = if n1.is_high {
                    if n2.price <= n4.price {
                        n2
                    } else {
                        n4
                    }
                } else if n2.price >= n4.price {
                    n2
                } else {
                    n4
                };
                let neckline = TrendLine::from_nodes(&conservative, &conservative);
                let window = window_of(nodes, i, 5);
                if n1.is_high {
                    out.push(candidate(ChartPatternKind::TripleTop, window, None, Some(neckline)));
                } else {
                    out.push(
                        candidate(ChartPatternKind::TripleBottom, window, Some(neckline), None),
                    );
                }
            }
            i = i + 1;
        }
        out
    }

    /// Head and shoulders and its inverse in every window of five pivots.
    fn scan_head_and_shoulders(&self, nodes: &[ZigZagNode]) -> (r: Vec<ChartPatternCandidate>)
        ensures
            describes_all(r@, window_fits(*self, nodes@, WindowScan::HeadAndShoulders)),
    {
        let mut out: Vec<ChartPatternCandidate> = Vec::new();
        let mut i: usize = 0;
        while i < nodes.len() && nodes.len() - i >= 5
            invariant
                i <= nodes@.len(),
                nodes@.len() >= 5 ==> i <= nodes@.len() - 4,
                nodes@.len() < 5 ==> i == 0,
                describes_all(
                    out@,
                    fits_upto(*self, nodes@, WindowScan::HeadAndShoulders, i as int),
                ),
            decreases nodes@.len() - i,
        {
            let ghost w = nodes@.subrange(i as int, i + 5);
            let (n1, n2, n3, n4, n5) = (
                nodes[i],
                nodes[i + 1],
                nodes[i + 2],
                nodes[i + 3],
                nodes[i + 4],
            );
            assert(w[0] == n1 && w[1] == n2 && w[2] == n3 && w[3] == n4 && w[4] == n5);
            proof {
                lemma_alternating5(w);
            }
            let alternating = n1.is_high != n2.is_high && n2.is_high != n3.is_high && n3.is_high
                != n4.is_high && n4.is_high != n5.is_high;
            let head_overshoots = if n1.is_high {
                n3.price > n1.price && n3.price > n5.price
            } else {
                n3.price < n1.price && n3.price < n5.price
            };
            if alternating && head_overshoots && self.within_tolerance(
                n1.price,
                n5.price,
                n3.price,
            ) && self.within_tolerance(n2.price, n4.price, n3.price) {
                let neckline = TrendLine::from_nodes(&n2, &n4);
                let window = window_of(nodes, i, 5);
                if n1.is_high {
                    out.push(
                        candidate(ChartPatternKind::HeadAndShoulders, window, None, Some(neckline)),
                    );
                } else {
                    out.push(
                        candidate(
                            ChartPatternKind::InverseHeadAndShoulders,
                            window,
                            Some(neckline),
                            None,
                        ),
                    );
                }
            }
            i = i + 1;
        }
        out
    }

    /// The triangle or wedge of the four pivots of `nodes` from `i`; see [`triangle_fit`].
    fn triangle_at(&self, nodes: &[ZigZagNode], i: usize) -> (r: Option<
        (ChartPatternKind, TrendLine, TrendLine),
    >)
        requires
            i + 4 <= nodes@.len(),
            all_detectable(nodes@),
        ensures
            match triangle_fit(self.tolerance as int, nodes@.subrange(i as int, i + 4)) {
                Some(f) => r matches Some(x) && f == (
                    x.0,
                    nodes@.subrange(i as int, i + 4),
                    Some(x.1),
                    Some(x.2),
                ),
                None => r is None,
            },
    {
        let ghost w = nodes@.subrange(i as int, i + 4);
        let (n0, n1, n2, n3) = (nodes[i], nodes[i + 1], nodes[i + 2], nodes[i + 3]);
        assert(w[0] == n0 && w[1] == n1 && w[2] == n2 && w[3] == n3);
        assert(detectable(nodes@[i as int]) && detectable(nodes@[i + 1]) && detectable(
            nodes@[i + 2],
        ) && detectable(nodes@[i + 3]));
        proof {
            lemma_alternating4(w);
        }
        if !(n0.is_high != n1.is_high && n1.is_high != n2.is_high && n2.is_high != n3.is_high) {
            return None;
        }
        let (h0, h1, l0, l1) = if n0.is_high {
            (n0, n2, n1, n3)
        } else {
            (n1, n3, n0, n2)
        };
        let upper = TrendLine::from_nodes(&h0, &h1);
        let lower = TrendLine::from_nodes(&l0, &l1);
        let (su, ru) = rise_run(&upper);
        let (sl, rl) = rise_run(&lower);
        let t0 = n0.timestamp;
        let t3 = n3.timestamp;
        let ghost gs = gap(upper, lower, t0 as int);
        let ghost ge = gap(upper, lower, t3 as int);
        let lu0 = level_times_run_at(&upper, t0);
        let ll0 = level_times_run_at(&lower, t0);
        let lu3 = level_times_run_at(&upper, t3);
        let ll3 = level_times_run_at(&lower, t3);
        proof {
            lemma_gap_linear(upper, lower, t0 as int, t3 as int);
            lemma_level_at_start(upper);
            lemma_level_at_start(lower);
            lemma_level_at_end(upper);
            lemma_level_at_end(lower);
            lemma_sign_by_positive(ru as int, rl as int);
        }
        let ev_upper = if upper.end.0 == upper.start.0 {
            upper.start.1
        } else {
            upper.end.1
        };
        let ev_lower = if lower.end.0 == lower.start.0 {
            lower.start.1
        } else {
            lower.end.1
        };
        assert(-0x2_0000_0000_0000_0000_0000 < (n0.price as i128) * rl < 0x2_0000_0000_0000_0000_0000)
            by (nonlinear_arith)
            requires
                -0x40_0000_0000 < n0.price < 0x40_0000_0000,
                0 < rl < 0x800_0000_0000,
        ;
        assert(-0x2_0000_0000_0000_0000_0000 < (n0.price as i128) * ru < 0x2_0000_0000_0000_0000_0000)
            by (nonlinear_arith)
            requires
                -0x40_0000_0000 < n0.price < 0x40_0000_0000,
                0 < ru < 0x800_0000_0000,
        ;
        assert(-0x2_0000_0000_0000_0000_0000 < (ev_upper as i128) * rl < 0x2_0000_0000_0000_0000_0000)
            by (nonlinear_arith)
            requires
                -0x40_0000_0000 < ev_upper < 0x40_0000_0000,
                0 < rl < 0x800_0000_0000,
        ;
        assert(-0x2_0000_0000_0000_0000_0000 < (ev_lower as i128) * ru < 0x2_0000_0000_0000_0000_0000)
            by (nonlinear_arith)
            requires
                -0x40_0000_0000 < ev_lower < 0x40_0000_0000,
                0 < ru < 0x800_0000_0000,
        ;
        // The start gap is read off the line through the first pivot, the end gap off the line
        // through the last; each is the other line's distance times the own run.
        let (gs_red, ge_red, r_start, r_end) = if n0.is_high {
            let gs_red = (n0.price as i128) * rl - ll0;
            let ge_red = lu3 - (ev_lower as i128) * ru;
            assert(gs == ru * gs_red) by (nonlinear_arith)
                requires
                    gs == lu0 * rl - ll0 * ru,
                    lu0 == n0.price * ru,
                    gs_red == n0.price * rl - ll0,
            ;
            assert(ge == rl * ge_red) by (nonlinear_arith)
                requires
                    ge == lu3 * rl - ll3 * ru,
                    ll3 == ev_lower * rl,
                    ge_red == lu3 - ev_lower * ru,
            ;
            (gs_red, ge_red, ru, rl)
        } else {
            let gs_red = lu0 - (n0.price as i128) * ru;
            let ge_red = (ev_upper as i128) * rl - ll3;
            assert(gs == rl * gs_red) by (nonlinear_arith)
                requires
                    gs == lu0 * rl - ll0 * ru,
                    ll0 == n0.price * rl,
                    gs_red == lu0 - n0.price * ru,
            ;
            assert(ge == ru * ge_red) by (nonlinear_arith)
                requires
                    ge == lu3 * rl - ll3 * ru,
                    lu3 == ev_upper * ru,
                    ge_red == ev_upper * rl - ll3,
            ;
            (gs_red, ge_red, rl, ru)
        };
        assert(-0x40_0000_0000_0000_0000_0000 < su * rl < 0x40_0000_0000_0000_0000_0000)
            by (nonlinear_arith)
            requires
                -0x80_0000_0000 < su < 0x80_0000_0000,
                0 < rl < 0x800_0000_0000,
        ;
        assert(-0x40_0000_0000_0000_0000_0000 < sl * ru < 0x40_0000_0000_0000_0000_0000)
            by (nonlinear_arith)
            requires
                -0x80_0000_0000 < sl < 0x80_0000_0000,
                0 < ru < 0x800_0000_0000,
        ;
        let d = su * rl - sl * ru;
        proof {
            lemma_sign_by_positive(r_start as int, gs_red as int);
            lemma_sign_by_positive(r_end as int, ge_red as int);
            lemma_product_negative(d as int, t3 - t0);
        }
        let shrinking = (d < 0 && t3 > t0) || (d > 0 && t3 < t0);
        if gs_red <= 0 || ge_red <= 0 || !shrinking {
            return None;
        }
        let r_other = if n0.is_high {
            rl
        } else {
            ru
        };
        let kind = if su > 0 && sl > 0 {
            ChartPatternKind::RisingWedge
        } else if su < 0 && sl < 0 {
            ChartPatternKind::FallingWedge
        } else if (su <= 0 || flat_enough(su, ru, gs_red, r_start, r_other, self.tolerance)) && (sl
            >= 0 || flat_enough(sl, rl, gs_red, r_start, r_other, self.tolerance)) {
            ChartPatternKind::Triangle
        } else {
            return None;
        };
        Some((kind, upper, lower))
    }

    /// Triangles and wedges in every window of four pivots.
    fn scan_triangles_and_wedges(&self, nodes: &[ZigZagNode]) -> (r: Vec<ChartPatternCandidate>)
        requires
            all_detectable(nodes@),
        ensures
            describes_all(r@, window_fits(*self, nodes@, WindowScan::TrianglesAndWedges)),
    {
        let mut out: Vec<ChartPatternCandidate> = Vec::new();
        let mut i: usize = 0;
        while i < nodes.len() && nodes.len() - i >= 4
            invariant
                i <= nodes@.len(),
                nodes@.len() >= 4 ==> i <= nodes@.len() - 3,
                nodes@.len() < 4 ==> i == 0,
                all_detectable(nodes@),
                describes_all(
                    out@,
                    fits_upto(*self, nodes@, WindowScan::TrianglesAndWedges, i as int),
                ),
            decreases nodes@.len() - i,
        {
            match self.triangle_at(nodes, i) {
                Some((kind, upper, lower)) => {
                    out.push(candidate(kind, window_of(nodes, i, 4), Some(upper), Some(lower)));
                },
                None => {},
            }
            i = i + 1;
        }
        out
    }

    /// The Wolfe wave of the five pivots of `nodes` from `i`, as its upper and lower line; see
    /// [`wolfe_fit`].
    fn wolfe_at(&self, nodes: &[ZigZagNode], i: usize) -> (r: Option<(TrendLine, TrendLine)>)
        requires
            i + 5 <= nodes@.len(),
            all_detectable(nodes@),
        ensures
            match wolfe_fit(self.tolerance as int, nodes@.subrange(i as int, i + 5)) {
                Some(f) => r matches Some(x) && f == (
                    ChartPatternKind::WolfeWave,
                    nodes@.subrange(i as int, i + 5),
                    Some(x.0),
                    Some(x.1),
                ),
                None => r is None,
            },
    {
        let ghost w = nodes@.subrange(i as int, i + 5);
        let (n1, n2, n3, n4, n5) = (nodes[i], nodes[i + 1], nodes[i + 2], nodes[i + 3], nodes[i + 4]);
        assert(w[0] == n1 && w[1] == n2 && w[2] == n3 && w[3] == n4 && w[4] == n5);
        assert(detectable(nodes@[i as int]) && detectable(nodes@[i + 1]) && detectable(
            nodes@[i + 2],
        ) && detectable(nodes@[i + 3]) && detectable(nodes@[i + 4]));
        proof {
            lemma_alternating5(w);
        }
        if !(n1.is_high != n2.is_high && n2.is_high != n3.is_high && n3.is_high != n4.is_high
            && n4.is_high != n5.is_high) {
            return None;
        }
        let l13 = TrendLine::from_nodes(&n1, &n3);
        let l24 = TrendLine::from_nodes(&n2, &n4);
        let (s13, r13) = rise_run(&l13);
        let (s24, r24) = rise_run(&l24);
        let tol = self.tolerance as i128;
        let p1 = n1.price as i128;
        let p3 = n3.price as i128;
        let scale = (if p1 < 0 {
            -p1
        } else {
            p1
        }) + (if p3 < 0 {
            -p3
        } else {
            p3
        });
        assert(-0x40_0000_0000_0000_0000_0000 < s13 * r24 < 0x40_0000_0000_0000_0000_0000)
            by (nonlinear_arith)
            requires
                -0x80_0000_0000 < s13 < 0x80_0000_0000,
                0 < r24 < 0x800_0000_0000,
        ;
        assert(-0x40_0000_0000_0000_0000_0000 < s24 * r13 < 0x40_0000_0000_0000_0000_0000)
            by (nonlinear_arith)
            requires
                -0x80_0000_0000 < s24 < 0x80_0000_0000,
                0 < r13 < 0x800_0000_0000,
        ;
        let raw = s13 * r24 - s24 * r13;
        let diff = if raw < 0 {
            -raw
        } else {
            raw
        };
        let five_tol = 5 * tol;
        let not_parallel = if scale > 0 {
            assert(0 <= five_tol * scale < 0x8_0000_0000 * 0x80_0000_0000) by (nonlinear_arith)
                requires
                    0 <= five_tol < 0x8_0000_0000,
                    0 < scale < 0x80_0000_0000,
            ;
            let a = five_tol * scale;
            assert(0 <= a * r13 < 0x8_0000_0000 * 0x80_0000_0000 * 0x800_0000_0000)
                by (nonlinear_arith)
                requires
                    0 <= a < 0x8_0000_0000 * 0x80_0000_0000,
                    0 < r13 < 0x800_0000_0000,
            ;
            let k = a * r13;
            assert(k * r24 >= 0) by (nonlinear_arith)
                requires
                    k >= 0,
                    r24 > 0,
            ;
            match k.checked_mul(r24) {
                Some(rhs) => diff * 100_000 > rhs,
                None => false,
            }
        } else {
            assert(0 <= five_tol * r13 < 0x8_0000_0000 * 0x800_0000_0000) by (nonlinear_arith)
                requires
                    0 <= five_tol < 0x8_0000_0000,
                    0 < r13 < 0x800_0000_0000,
            ;
            let a = five_tol * r13;
            assert(0 <= a * r24 < 0x8_0000_0000 * 0x800_0000_0000 * 0x800_0000_0000)
                by (nonlinear_arith)
                requires
                    0 <= a < 0x8_0000_0000 * 0x800_0000_0000,
                    0 < r24 < 0x800_0000_0000,
            ;
            let rhs = a * r24;
            match diff.checked_mul(100_000_000_000_000) {
                Some(lhs) => lhs > rhs,
                None => true,
            }
        };
        let level = level_times_run_at(&l13, n5.timestamp);
        assert(-0x2_0000_0000_0000_0000_0000 < (n5.price as i128) * r13 < 0x2_0000_0000_0000_0000_0000)
            by (nonlinear_arith)
            requires
                -0x40_0000_0000 < n5.price < 0x40_0000_0000,
                0 < r13 < 0x800_0000_0000,
        ;
        let at5 = (n5.price as i128) * r13;
        let pierces = if n1.is_high {
            !n5.is_high && at5 < level
        } else {
            n5.is_high && at5 > level
        };
        if not_parallel || !pierces {
            None
        } else if n1.is_high {
            Some((l24, l13))
        } else {
            Some((l13, l24))
        }
    }

    /// Wolfe waves in every window of five pivots.
    fn scan_wolfe_waves(&self, nodes: &[ZigZagNode]) -> (r: Vec<ChartPatternCandidate>)
        requires
            all_detectable(nodes@),
        ensures
            describes_all(r@, window_fits(*self, nodes@, WindowScan::WolfeWaves)),
    {
        let mut out: Vec<ChartPatternCandidate> = Vec::new();
        let mut i: usize = 0;
        while i < nodes.len() && nodes.len() - i >= 5
            invariant
                i <= nodes@.len(),
                nodes@.len() >= 5 ==> i <= nodes@.len() - 4,
                nodes@.len() < 5 ==> i == 0,
                all_detectable(nodes@),
                describes_all(out@, fits_upto(*self, nodes@, WindowScan::WolfeWaves, i as int)),
            decreases nodes@.len() - i,
        {
            match self.wolfe_at(nodes, i) {
                Some((upper, lower)) => {
                    out.push(
                        candidate(
                            ChartPatternKind::WolfeWave,
                            window_of(nodes, i, 5),
                            Some(upper),
                            Some(lower),
                        ),
                    );
                },
                None => {},
            }
            i = i + 1;
        }
        out
    }

    /// The auto-fitted trendline through the highs (`for_highs`) or the lows; see [`auto_fit`].
    fn auto_trendline(&self, nodes: &[ZigZagNode], for_highs: bool) -> (r: Option<
        ChartPatternCandidate,
    >)
        requires
            all_detectable(nodes@),
        ensures
            match auto_fit(self.tolerance as int, nodes@, for_highs) {
                Some(f) => r matches Some(c) && describes(c, f),
                None => r is None,
            },
    {
        let mut same: Vec<ZigZagNode> = Vec::new();
        let mut i: usize = 0;
        while i < nodes.len()
            invariant
                i <= nodes@.len(),
                all_detectable(nodes@),
                same@ == same_type(nodes@.subrange(0, i as int), for_highs),
                all_detectable(same@),
            decreases nodes@.len() - i,
        {
            assert(nodes@.subrange(0, i + 1).drop_last() =~= nodes@.subrange(0, i as int));
            assert(detectable(nodes@[i as int]));
            if nodes[i].is_high == for_highs {
                same.push(nodes[i]);
            }
            i = i + 1;
        }
        assert(nodes@.subrange(0, nodes@.len() as int) =~= nodes@);
        if same.len() < 2 {
            return None;
        }
        let line = TrendLine::from_nodes(&same[0], &same[same.len() - 1]);
        assert(detectable(same@[0]) && detectable(same@[same@.len() - 1]));
        let (_, line_run) = rise_run(&line);
        let tol = self.tolerance as i128;
        let mut j: usize = 0;
        while j < same.len()
            invariant
                j <= same@.len(),
                all_detectable(same@),
                small_line(line),
                line_run == run(line),
                0 < line_run < 0x800_0000_0000,
                same@ == same_type(nodes@, for_highs),
                same@.len() >= 2,
                line == line_of(same@[0], same@.last()),
                tol == self.tolerance,
                forall|k: int| 0 <= k < j ==> !breaks_line(line, #[trigger] same@[k], for_highs, tol as int),
            decreases same@.len() - j,
        {
            let n = same[j];
            assert(detectable(same@[j as int]));
            let level = level_times_run_at(&line, n.timestamp);
            assert(-0x2_0000_0000_0000_0000_0000 < (n.price as i128) * line_run
                < 0x2_0000_0000_0000_0000_0000) by (nonlinear_arith)
                requires
                    -0x40_0000_0000 < n.price < 0x40_0000_0000,
                    0 < line_run < 0x800_0000_0000,
            ;
            let lhs = (n.price as i128) * line_run * 100_000;
            let factor = if for_highs {
                100_000 + tol
            } else {
                100_000 - tol
            };
            assert(-0x2_0000_0000 * 0x8_0000_0000_0000_0000_0000 < factor * level < 0x2_0000_0000
                * 0x8_0000_0000_0000_0000_0000) by (nonlinear_arith)
                requires
                    -0x2_0000_0000 < factor < 0x2_0000_0000,
                    -0x8_0000_0000_0000_0000_0000 < level < 0x8_0000_0000_0000_0000_0000,
            ;
            let rhs = factor * level;
            if (for_highs && lhs > rhs) || (!for_highs && lhs < rhs) {
                assert(breaks_line(line, same@[j as int], for_highs, self.tolerance as int));
                return None;
            }
            j = j + 1;
        }
        if for_highs {
            Some(candidate(ChartPatternKind::AutoTrendline, same, Some(line), None))
        } else {
            Some(candidate(ChartPatternKind::AutoTrendline, same, None, Some(line)))
        }
    }

    /// Every candidate the detectors find over `nodes`, before eviction, each still `Forming`;
    /// see [`detected`].
    pub fn detect(&self, nodes: &[ZigZagNode]) -> (r: Vec<ChartPatternCandidate>)
        requires
            all_detectable(nodes@),
        ensures
            describes_all(r@, detected(*self, nodes@)),
    {
        let mut out = self.scan_triangles_and_wedges(nodes);
        let ghost fs = window_fits(*self, nodes@, WindowScan::TrianglesAndWedges);
        append_described(
            &mut out,
            self.scan_reversal_one_two_three(nodes),
            Ghost(fs),
            Ghost(window_fits(*self, nodes@, WindowScan::OneTwoThree)),
        );
        let ghost fs = fs + window_fits(*self, nodes@, WindowScan::OneTwoThree);
        append_described(
            &mut out,
            self.scan_wolfe_waves(nodes),
            Ghost(fs),
            Ghost(window_fits(*self, nodes@, WindowScan::WolfeWaves)),
        );
        let ghost fs = fs + window_fits(*self, nodes@, WindowScan::WolfeWaves);
        append_described(
            &mut out,
            self.scan_double_extremes(nodes),
            Ghost(fs),
            Ghost(window_fits(*self, nodes@, WindowScan::DoubleExtremes)),
        );
        let ghost fs = fs + window_fits(*self, nodes@, WindowScan::DoubleExtremes);
        append_described(
            &mut out,
            self.scan_triple_extremes(nodes),
            Ghost(fs),
            Ghost(window_fits(*self, nodes@, WindowScan::TripleExtremes)),
        );
        let ghost fs = fs + window_fits(*self, nodes@, WindowScan::TripleExtremes);
        append_described(
            &mut out,
            self.scan_head_and_shoulders(nodes),
            Ghost(fs),
            Ghost(window_fits(*self, nodes@, WindowScan::HeadAndShoulders)),
        );
        let ghost fs = fs + window_fits(*self, nodes@, WindowScan::HeadAndShoulders);
        let mut tail: Vec<ChartPatternCandidate> = Vec::new();
        match self.auto_trendline(nodes, true) {
            Some(c) => tail.push(c),
            None => {},
        }
        append_described(
            &mut out,
            tail,
            Ghost(fs),
            Ghost(as_seq(auto_fit(self.tolerance as int, nodes@, true))),
        );
        let ghost fs = fs + as_seq(auto_fit(self.tolerance as int, nodes@, true));
        let mut tail: Vec<ChartPatternCandidate> = Vec::new();
        match self.auto_trendline(nodes, false) {
            Some(c) => tail.push(c),
            None => {},
        }
        append_described(
            &mut out,
            tail,
            Ghost(fs),
            Ghost(as_seq(auto_fit(self.tolerance as int, nodes@, false))),
        );
        out
    }

    /// Evicts overlapping candidates of one kind. `ranked` lists the candidates in priority
    /// order (within each kind, the one to keep first); a candidate survives unless it overlaps
    /// in time a surviving candidate of its kind. Kinds never evict each other. The survivors
    /// come out ordered by formation time; see [`evicted`] and
    /// [`eviction_keeps_one_per_overlap`].
    pub fn evict_overlaps(&self, ranked: Vec<ChartPatternCandidate>) -> (r: Vec<
        ChartPatternCandidate,
    >)
        ensures
            r@ == evicted(ranked@),
    {
        let ghost orig = ranked@;
        let ghost mut i: int = 0;
        let mut rest = ranked;
        let mut kept: Vec<ChartPatternCandidate> = Vec::new();
        while rest.len() > 0
            invariant
                0 <= i <= orig.len(),
                rest@ == orig.subrange(i, orig.len() as int),
                kept@ == survivors(orig.subrange(0, i)),
            decreases rest@.len(),
        {
            let c = rest.remove(0);
            assert(c == orig[i]);
            let (c_start, c_end) = c.node_range();
            let mut hit = false;
            let mut j: usize = 0;
            while j < kept.len()
                invariant
                    j <= kept@.len(),
                    c_start == started_at(c),
                    c_end == formed_at(c),
                    hit == exists|m: int| 0 <= m < j && clash(#[trigger] kept@[m], c),
                decreases kept@.len() - j,
            {
                let (e_start, e_end) = kept[j].node_range();
                if kept[j].kind == c.kind && c_start <= e_end && e_start <= c_end {
                    hit = true;
                }
                assert(hit == exists|m: int| 0 <= m < j + 1 && clash(#[trigger] kept@[m], c)) by {
                    if clash(kept@[j as int], c) {
                        assert(0 <= j < j + 1);
                    }
                }
                j = j + 1;
            }
            proof {
                assert(orig.subrange(0, i + 1).drop_last() =~= orig.subrange(0, i));
                assert(orig.subrange(0, i + 1).last() == c);
                i = i + 1;
            }
            if !hit {
                kept.push(c);
            }
            assert(rest@ =~= orig.subrange(i, orig.len() as int));
        }
        assert(orig.subrange(0, orig.len() as int) =~= orig);
        sort_by_formation(kept)
    }
}

} // verus!
