//! Harmonic XABCD patterns: the ratio table, the ratio measurement of a swing sequence, and the
//! lifecycle of a candidate.
//!
//! Gartley, Bat, Butterfly, Crab, Deep Crab and Shark are all five-point zigzags; what separates
//! them is four ratio intervals. Ratios are held in thousandths, and a measured ratio is the exact
//! quotient of two integer leg lengths, so every table lookup is an exact comparison.

use vstd::prelude::*;

use crate::bar::Bar;
use crate::chart_patterns::fits;
use crate::elliott::dist;
use crate::swing::{alternating, is_alternating, ZigZagNode};

verus! {

/// An inclusive ratio interval, in thousandths (`618` is 0.618).
#[derive(Debug, Clone, Copy, PartialEq, Eq)]
pub struct RatioRange {
    pub min: u32,
    pub max: u32,
}

/// The quotient `num / den` lies in `[min - tol, max + tol]` thousandths.
pub open spec fn ratio_within(range: RatioRange, num: int, den: int, tol: int) -> bool {
    &&& 1000 * num >= (range.min - tol) * den
    &&& 1000 * num <= (range.max + tol) * den
}

impl RatioRange {
    pub fn new(min: u32, max: u32) -> (r: Self)
        ensures
            r.min == min,
            r.max == max,
    {
        RatioRange { min, max }
    }

    /// Whether the ratio `num / den` lies in the interval, widened by `tolerance` thousandths on
    /// both sides.
    pub fn contains(&self, num: u64, den: u64, tolerance: u32) -> (r: bool)
        requires
            den > 0,
        ensures
            r == ratio_within(*self, num as int, den as int, tolerance as int),
    {
        let n = num as i128;
        let d = den as i128;
        let lo = self.min as i128 - tolerance as i128;
        let hi = self.max as i128 + tolerance as i128;
        assert(-0x1_0000_0000 * d <= lo * d <= 0x2_0000_0000 * d) by (nonlinear_arith)
            requires
                -0x1_0000_0000 <= lo <= 0x2_0000_0000,
                1 <= d;
        assert(0 <= hi * d <= 0x2_0000_0000 * d) by (nonlinear_arith)
            requires
                0 <= hi <= 0x2_0000_0000,
                1 <= d;
        assert(0x2_0000_0000 * d <= 0x2_0000_0000 * 0x1_0000_0000_0000_0000) by (nonlinear_arith)
            requires
                d <= 0x1_0000_0000_0000_0000;
        1000 * n >= lo * d && 1000 * n <= hi * d
    }

    /// The midpoint of the interval, in two-thousandths.
    pub fn center_doubled(&self) -> (r: u64)
        ensures
            r == self.min + self.max,
    {
        self.min as u64 + self.max as u64
    }
}

/// One row of the ratio table: the entire difference between two harmonic patterns.
#[derive(Debug, Clone, Copy, PartialEq, Eq)]
pub struct HarmonicDefinition {
    pub name: &'static str,
    /// How far B retraces XA.
    pub b: RatioRange,
    /// How far C retraces AB.
    pub c: RatioRange,
    /// Where D sits relative to XA. Above 1000 the pattern extends past X.
    pub d: RatioRange,
    /// How far CD extends BC.
    pub cd: RatioRange,
}

pub open spec fn rr(min: u32, max: u32) -> RatioRange {
    RatioRange { min, max }
}

pub open spec fn row(
    name: &'static str,
    b: RatioRange,
    c: RatioRange,
    d: RatioRange,
    cd: RatioRange,
) -> HarmonicDefinition {
    HarmonicDefinition { name, b, c, d, cd }
}

/// The ratio table, as data.
pub open spec fn table() -> Seq<HarmonicDefinition> {
    seq![
        row("gartley", rr(586, 650), rr(382, 886), rr(750, 820), rr(1130, 1618)),
        row("bat", rr(382, 500), rr(382, 886), rr(850, 920), rr(1618, 2618)),
        row("butterfly", rr(750, 820), rr(382, 886), rr(1130, 1618), rr(1618, 2618)),
        row("crab", rr(382, 618), rr(382, 886), rr(1500, 1700), rr(2240, 3618)),
        row("deep_crab", rr(850, 920), rr(382, 886), rr(1500, 1700), rr(2240, 3618)),
        row("shark", rr(382, 618), rr(1130, 1618), rr(850, 1130), rr(1618, 2240)),
    ]
}

fn definition(
    name: &'static str,
    b: (u32, u32),
    c: (u32, u32),
    d: (u32, u32),
    cd: (u32, u32),
) -> (r: HarmonicDefinition)
    ensures
        r == row(name, rr(b.0, b.1), rr(c.0, c.1), rr(d.0, d.1), rr(cd.0, cd.1)),
{
    HarmonicDefinition {
        name,
        b: RatioRange::new(b.0, b.1),
        c: RatioRange::new(c.0, c.1),
        d: RatioRange::new(d.0, d.1),
        cd: RatioRange::new(cd.0, cd.1),
    }
}

/// The table the documentation prints, as data: one row per pattern.
pub fn harmonic_table() -> (r: Vec<HarmonicDefinition>)
    ensures
        r@ == table(),
{
    let mut t: Vec<HarmonicDefinition> = Vec::new();
    t.push(definition("gartley", (586, 650), (382, 886), (750, 820), (1130, 1618)));
    t.push(definition("bat", (382, 500), (382, 886), (850, 920), (1618, 2618)));
    t.push(definition("butterfly", (750, 820), (382, 886), (1130, 1618), (1618, 2618)));
    t.push(definition("crab", (382, 618), (382, 886), (1500, 1700), (2240, 3618)));
    t.push(definition("deep_crab", (850, 920), (382, 886), (1500, 1700), (2240, 3618)));
    t.push(definition("shark", (382, 618), (1130, 1618), (850, 1130), (1618, 2240)));
    assert(t@ =~= table());
    t
}

/// Every interval of the table is non-empty, and the d interval of a retracement pattern
/// (Gartley, Bat) stays inside XA while that of an extension pattern (Butterfly, Crab, Deep Crab)
/// runs past X.
pub proof fn table_is_well_formed()
    ensures
        forall|i: int|
            0 <= i < table().len() ==> {
                let r = #[trigger] table()[i];
                &&& r.b.min <= r.b.max
                &&& r.c.min <= r.c.max
                &&& r.d.min <= r.d.max
                &&& r.cd.min <= r.cd.max
            },
        table()[0].d.max < 1000 && table()[1].d.max < 1000,
        table()[2].d.min > 1000 && table()[3].d.min > 1000 && table()[4].d.min > 1000,
{
}

/// Where a candidate stands.
#[derive(Debug, Clone, Copy, PartialEq, Eq, Structural)]
pub enum HarmonicState {
    /// X, A, B and C are in place; D is a projection and nothing has happened yet.
    Candidate,
    /// Price has reached the zone and the ratios hold.
    Complete,
    /// A reversal out of the zone has occurred.
    Confirmed,
    /// Price ran through the zone without turning.
    Invalidated,
}


/// Prices inside a zone are held in units of `1 / PRZ_SCALE` tick, fine enough for every
/// projection and midpoint to be exact.
pub const PRZ_SCALE: i128 = 8000;

/// The zone where the independent projections of D coincide, in `1 / PRZ_SCALE` ticks.
#[derive(Debug, Clone, Copy, PartialEq, Eq)]
pub struct Prz {
    pub low: i128,
    pub high: i128,
}

impl Prz {
    /// Whether `price` (in ticks) lies inside the zone.
    pub fn contains(&self, price: i64) -> (r: bool)
        ensures
            r == (self.low <= price * PRZ_SCALE <= self.high),
    {
        let p = price as i128 * PRZ_SCALE;
        self.low <= p && p <= self.high
    }

    /// The zone's width, in `1 / PRZ_SCALE` ticks.
    pub fn width(&self) -> (r: i128)
        requires
            self.low <= self.high,
            self.high - self.low <= i128::MAX,
        ensures
            r == self.high - self.low,
    {
        self.high - self.low
    }
}

/// Configuration of the detector, in thousandths.
#[derive(Debug, Clone, Copy, PartialEq, Eq)]
pub struct HarmonicConfig {
    /// Absolute widening of every ratio interval: the number that decides how many patterns
    /// exist.
    pub ratio_tolerance: u32,
    /// Minimum zone half-width as a share of XA, so a zone is never a line by accident.
    pub min_prz_share: u32,
}

impl Default for HarmonicConfig {
    fn default() -> (r: Self)
        ensures
            r.ratio_tolerance == 30,
            r.min_prz_share == 5,
    {
        HarmonicConfig { ratio_tolerance: 30, min_prz_share: 5 }
    }
}

/// A recognised or projected XABCD structure.
#[derive(Debug, Clone, Copy, PartialEq, Eq)]
pub struct HarmonicCandidate {
    pub name: &'static str,
    /// True when the structure resolves upward at D: X a low, A a high, ...
    pub bullish: bool,
    pub x: i64,
    pub a: i64,
    pub b: i64,
    pub c: i64,
    /// `None` while the structure is a candidate.
    pub d: Option<i64>,
    pub prz: Prz,
    pub state: HarmonicState,
}

pub open spec fn min3(p: int, q: int, r: int) -> int {
    if p <= q && p <= r {
        p
    } else if q <= r {
        q
    } else {
        r
    }
}

pub open spec fn max3(p: int, q: int, r: int) -> int {
    if p >= q && p >= r {
        p
    } else if q >= r {
        q
    } else {
        r
    }
}

/// The zone spanned by the three projections of D: the XA retracement at the centre of the d
/// interval, the BC extension at the centre of the cd interval, and AB=CD. When they agree the
/// zone is narrow; it is widened around its middle to a half-width of at least `share`
/// thousandths of XA.
pub open spec fn prz_of(def: HarmonicDefinition, x: int, a: int, b: int, c: int, share: int) -> Prz {
    let xa = a - x;
    let bc = c - b;
    let ab = b - a;
    // The three projections and the minimum full width, in quarters of the zone unit.
    let from_xa = 2000 * a - (def.d.min + def.d.max) * xa;
    let from_bc = 2000 * c - (def.cd.min + def.cd.max) * bc;
    let from_abcd = 2000 * (c + ab);
    let lo = min3(from_xa, from_bc, from_abcd);
    let hi = max3(from_xa, from_bc, from_abcd);
    let floor = 4 * share * dist(a, x);
    if hi - lo < floor {
        Prz { low: (2 * (hi + lo - floor)) as i128, high: (2 * (hi + lo + floor)) as i128 }
    } else {
        Prz { low: (4 * lo) as i128, high: (4 * hi) as i128 }
    }
}

/// The zone covers all three projections of D (in the zone unit), and its half-width is at least
/// `share` thousandths of XA: `high - low >= 2 · share / 1000 · |XA| · PRZ_SCALE`.
pub proof fn zone_covers_projections_with_minimum_half_width(
    def: HarmonicDefinition,
    x: int,
    a: int,
    b: int,
    c: int,
    share: int,
)
    requires
        fits(x),
        fits(a),
        fits(b),
        fits(c),
        0 <= share <= u32::MAX,
    ensures
        ({
            let z = prz_of(def, x, a, b, c, share);
            let from_xa = 2000 * a - (def.d.min + def.d.max) * (a - x);
            let from_bc = 2000 * c - (def.cd.min + def.cd.max) * (c - b);
            let from_abcd = 2000 * (c + (b - a));
            &&& z.low <= 4 * min3(from_xa, from_bc, from_abcd)
            &&& 4 * max3(from_xa, from_bc, from_abcd) <= z.high
            &&& z.high - z.low >= 16 * share * dist(a, x)
        }),
{
    let dsum = def.d.min + def.d.max;
    let cdsum = def.cd.min + def.cd.max;
    assert(-0x1_0000_0000_0000_0000_0000_0000 < dsum * (a - x) < 0x1_0000_0000_0000_0000_0000_0000)
        by (nonlinear_arith)
        requires
            0 <= dsum < 0x2_0000_0000,
            -0x2000_0000_0000_0000 < a - x < 0x2000_0000_0000_0000,
    ;
    assert(-0x1_0000_0000_0000_0000_0000_0000 < cdsum * (c - b) < 0x1_0000_0000_0000_0000_0000_0000)
        by (nonlinear_arith)
        requires
            0 <= cdsum < 0x2_0000_0000,
            -0x2000_0000_0000_0000 < c - b < 0x2000_0000_0000_0000,
    ;
    let d = dist(a, x);
    assert(0 <= 4 * share * d < 0x4_0000_0000_0000_0000_0000_0000) by (nonlinear_arith)
        requires
            0 <= share <= 0xffff_ffff,
            0 <= d < 0x2000_0000_0000_0000,
    ;
    assert(16 * share * d == 4 * (4 * share * d)) by (nonlinear_arith);
}

/// The ratios of `x, a, b, c` (and `d`) lie in the row's intervals, widened by `tol`.
pub open spec fn matches_row(
    def: HarmonicDefinition,
    x: int,
    a: int,
    b: int,
    c: int,
    d: Option<int>,
    tol: int,
) -> bool {
    let xa = dist(a, x);
    let ab = dist(b, a);
    let bc = dist(c, b);
    &&& ratio_within(def.b, ab, xa, tol)
    &&& ratio_within(def.c, bc, ab, tol)
    &&& match d {
        Some(dd) => ratio_within(def.d, dist(a, dd), xa, tol) && ratio_within(
            def.cd,
            dist(dd, c),
            bc,
            tol,
        ),
        None => true,
    }
}

/// The legs XA, AB and BC all have length: the ratios are defined.
pub open spec fn measurable(x: int, a: int, b: int, c: int) -> bool {
    dist(a, x) > 0 && dist(b, a) > 0 && dist(c, b) > 0
}

/// The candidate built from row `def` over the window `w` (five pivots with D, four without).
pub open spec fn candidate_from(def: HarmonicDefinition, w: Seq<ZigZagNode>, with_d: bool, share: int) -> HarmonicCandidate {
    HarmonicCandidate {
        name: def.name,
        bullish: !w[0].is_high,
        x: w[0].price,
        a: w[1].price,
        b: w[2].price,
        c: w[3].price,
        d: if with_d {
            Some(w[4].price)
        } else {
            None
        },
        prz: prz_of(def, w[0].price as int, w[1].price as int, w[2].price as int, w[3].price as int, share),
        state: if with_d {
            HarmonicState::Complete
        } else {
            HarmonicState::Candidate
        },
    }
}

/// The candidates the first `k` rows of `rows` yield for the window `w`.
pub open spec fn row_hits(
    rows: Seq<HarmonicDefinition>,
    k: int,
    w: Seq<ZigZagNode>,
    with_d: bool,
    cfg: HarmonicConfig,
) -> Seq<HarmonicCandidate>
    decreases k,
{
    if k <= 0 {
        Seq::empty()
    } else {
        let before = row_hits(rows, k - 1, w, with_d, cfg);
        let def = rows[k - 1];
        let d = if with_d {
            Some(w[4].price as int)
        } else {
            None
        };
        if matches_row(
            def,
            w[0].price as int,
            w[1].price as int,
            w[2].price as int,
            w[3].price as int,
            d,
            cfg.ratio_tolerance as int,
        ) {
            before.push(candidate_from(def, w, with_d, cfg.min_prz_share as int))
        } else {
            before
        }
    }
}

/// The candidates of one window: none unless its pivots alternate and its legs have length.
pub open spec fn window_hits(w: Seq<ZigZagNode>, with_d: bool, cfg: HarmonicConfig) -> Seq<HarmonicCandidate> {
    if alternating(w) && measurable(
        w[0].price as int,
        w[1].price as int,
        w[2].price as int,
        w[3].price as int,
    ) {
        row_hits(table(), table().len() as int, w, with_d, cfg)
    } else {
        Seq::empty()
    }
}

/// The candidates of the first `i` windows of `size` pivots, in window order.
pub open spec fn scan_hits(nodes: Seq<ZigZagNode>, i: int, size: int, cfg: HarmonicConfig) -> Seq<HarmonicCandidate>
    decreases i,
{
    if i <= 0 {
        Seq::empty()
    } else {
        scan_hits(nodes, i - 1, size, cfg) + window_hits(
            nodes.subrange(i - 1, i - 1 + size),
            size == 5,
            cfg,
        )
    }
}

/// Every pivot price fits exact arithmetic.
pub open spec fn prices_fit(nodes: Seq<ZigZagNode>) -> bool {
    forall|i: int| 0 <= i < nodes.len() ==> fits(#[trigger] nodes[i].price as int)
}

/// How many windows of `size` pivots a sequence of `n` pivots has.
pub open spec fn window_count(n: int, size: int) -> int {
    if n >= size {
        n - size + 1
    } else {
        0
    }
}


fn leg(p: i64, q: i64) -> (r: u64)
    requires
        fits(p as int),
        fits(q as int),
    ensures
        r == dist(p as int, q as int),
{
    if p >= q {
        (p - q) as u64
    } else {
        (q - p) as u64
    }
}

fn lesser(p: i128, q: i128) -> (r: i128)
    ensures
        r == if p <= q {
            p
        } else {
            q
        },
{
    if p <= q {
        p
    } else {
        q
    }
}

fn greater(p: i128, q: i128) -> (r: i128)
    ensures
        r == if p >= q {
            p
        } else {
            q
        },
{
    if p >= q {
        p
    } else {
        q
    }
}

/// Scans swing sequences for XABCD structures.
#[derive(Debug, Clone, Copy, PartialEq, Eq)]
pub struct HarmonicDetector {
    pub config: HarmonicConfig,
}

impl Default for HarmonicDetector {
    fn default() -> (r: Self)
        ensures
            r.config.ratio_tolerance == 30,
            r.config.min_prz_share == 5,
    {
        HarmonicDetector { config: HarmonicConfig::default() }
    }
}

impl HarmonicDetector {
    pub fn new(config: HarmonicConfig) -> (r: Self)
        ensures
            r.config == config,
    {
        HarmonicDetector { config }
    }

    /// The zone spanned by the three independent projections of D; see [`prz_of`].
    pub fn prz(&self, def: &HarmonicDefinition, x: i64, a: i64, b: i64, c: i64) -> (r: Prz)
        requires
            fits(x as int),
            fits(a as int),
            fits(b as int),
            fits(c as int),
        ensures
            r == prz_of(*def, x as int, a as int, b as int, c as int, self.config.min_prz_share as int),
    {
        let (x, a, b, c) = (x as i128, a as i128, b as i128, c as i128);
        let xa = a - x;
        let bc = c - b;
        let ab = b - a;
        let dsum = def.d.min as i128 + def.d.max as i128;
        let cdsum = def.cd.min as i128 + def.cd.max as i128;
        assert(0 <= dsum < 0x2_0000_0000);
        assert(0 <= cdsum < 0x2_0000_0000);
        assert(-0x1_0000_0000_0000_0000_0000_0000 < dsum * xa < 0x1_0000_0000_0000_0000_0000_0000)
            by (nonlinear_arith)
            requires
                0 <= dsum < 0x2_0000_0000,
                -0x2000_0000_0000_0000 < xa < 0x2000_0000_0000_0000,
        ;
        assert(-0x1_0000_0000_0000_0000_0000_0000 < cdsum * bc < 0x1_0000_0000_0000_0000_0000_0000)
            by (nonlinear_arith)
            requires
                0 <= cdsum < 0x2_0000_0000,
                -0x2000_0000_0000_0000 < bc < 0x2000_0000_0000_0000,
        ;
        let from_xa = 2000 * a - dsum * xa;
        let from_bc = 2000 * c - cdsum * bc;
        let from_abcd = 2000 * (c + ab);
        let lo = lesser(lesser(from_xa, from_bc), from_abcd);
        let hi = greater(greater(from_xa, from_bc), from_abcd);
        let span = if xa >= 0 {
            xa
        } else {
            -xa
        };
        let share = self.config.min_prz_share as i128;
        assert(0 <= share * span < 0x1_0000_0000_0000_0000_0000_0000) by (nonlinear_arith)
            requires
                0 <= share < 0x1_0000_0000,
                0 <= span < 0x2000_0000_0000_0000,
        ;
        let floor = 4 * (share * span);
        assert(floor == 4 * share * dist(a as int, x as int)) by (nonlinear_arith)
            requires
                floor == 4 * (share * span),
                span == dist(a as int, x as int),
        ;
        assert(dsum * xa == (def.d.min + def.d.max) * xa);
        assert(cdsum * bc == (def.cd.min + def.cd.max) * bc);
        if hi - lo < floor {
            Prz { low: 2 * (hi + lo - floor), high: 2 * (hi + lo + floor) }
        } else {
            Prz { low: 4 * lo, high: 4 * hi }
        }
    }

    /// Whether the ratios of `x, a, b, c` (and `d`) fall inside the row, widened by the
    /// configured tolerance. The legs must have length.
    fn matches(&self, def: &HarmonicDefinition, x: i64, a: i64, b: i64, c: i64, d: Option<i64>) -> (r: bool)
        requires
            fits(x as int),
            fits(a as int),
            fits(b as int),
            fits(c as int),
            d matches Some(dd) ==> fits(dd as int),
            measurable(x as int, a as int, b as int, c as int),
        ensures
            r == matches_row(
                *def,
                x as int,
                a as int,
                b as int,
                c as int,
                match d {
                    Some(dd) => Some(dd as int),
                    None => None,
                },
                self.config.ratio_tolerance as int,
            ),
    {
        let t = self.config.ratio_tolerance;
        let xa = leg(a, x);
        let ab = leg(b, a);
        let bc = leg(c, b);
        if !def.b.contains(ab, xa, t) || !def.c.contains(bc, ab, t) {
            return false;
        }
        match d {
            Some(dd) => def.d.contains(leg(a, dd), xa, t) && def.cd.contains(leg(dd, c), bc, t),
            None => true,
        }
    }

    /// The candidates of every window of `size` pivots, in window order.
    fn scan_windows(&self, nodes: &[ZigZagNode], size: usize) -> (r: Vec<HarmonicCandidate>)
        requires
            prices_fit(nodes@),
            size == 4 || size == 5,
        ensures
            r@ == scan_hits(nodes@, window_count(nodes@.len() as int, size as int), size as int, self.config),
    {
        let n = nodes.len();
        let mut out: Vec<HarmonicCandidate> = Vec::new();
        if n < size {
            return out;
        }
        let count = n - size + 1;
        let rows = harmonic_table();
        let mut i: usize = 0;
        while i < count
            invariant
                n == nodes@.len(),
                n >= size,
                size == 4 || size == 5,
                count == n - size + 1,
                rows@ == table(),
                prices_fit(nodes@),
                i <= count,
                out@ == scan_hits(nodes@, i as int, size as int, self.config),
            decreases count - i,
        {
            let window = vstd::slice::slice_subrange(nodes, i, i + size);
            let ghost w = window@;
            assert(forall|j: int| 0 <= j < size ==> #[trigger] w[j] == nodes@[i + j]);
            assert(fits(w[0].price as int) && fits(w[1].price as int) && fits(w[2].price as int)
                && fits(w[3].price as int));
            assert(size == 5 ==> fits(w[4].price as int));
            let ghost before = out@;
            let (x, a, b, c) = (window[0].price, window[1].price, window[2].price, window[3].price);
            let d = if size == 5 {
                Some(window[4].price)
            } else {
                None
            };
            if is_alternating(window) && leg(a, x) > 0 && leg(b, a) > 0 && leg(c, b) > 0 {
                let mut k: usize = 0;
                while k < rows.len()
                    invariant
                        rows@ == table(),
                        k <= rows@.len(),
                        w == nodes@.subrange(i as int, i + size),
                        window@ == w,
                        w.len() == size,
                        size == 4 || size == 5,
                        x == w[0].price && a == w[1].price && b == w[2].price && c == w[3].price,
                        d == (if size == 5 {
                            Some(w[4].price)
                        } else {
                            None::<i64>
                        }),
                        fits(x as int) && fits(a as int) && fits(b as int) && fits(c as int),
                        d matches Some(dd) ==> fits(dd as int),
                        measurable(x as int, a as int, b as int, c as int),
                        out@ == before + row_hits(table(), k as int, w, size == 5, self.config),
                    decreases rows@.len() - k,
                {
                    let def = rows[k];
                    if self.matches(&def, x, a, b, c, d) {
                        let prz = self.prz(&def, x, a, b, c);
                        let cand = HarmonicCandidate {
                            name: def.name,
                            bullish: !window[0].is_high,
                            x,
                            a,
                            b,
                            c,
                            d,
                            prz,
                            state: if size == 5 {
                                HarmonicState::Complete
                            } else {
                                HarmonicState::Candidate
                            },
                        };
                        out.push(cand);
                        assert(out@ =~= before + row_hits(table(), k + 1, w, size == 5, self.config));
                    } else {
                        assert(out@ =~= before + row_hits(table(), k + 1, w, size == 5, self.config));
                    }
                    k = k + 1;
                }
            }
            assert(out@ =~= scan_hits(nodes@, i + 1, size as int, self.config));
            i = i + 1;
        }
        out
    }

    /// Every complete five-point structure whose ratios match a row of the table, window by
    /// window and row by row.
    pub fn scan(&self, nodes: &[ZigZagNode]) -> (r: Vec<HarmonicCandidate>)
        requires
            prices_fit(nodes@),
        ensures
            r@ == scan_hits(nodes@, window_count(nodes@.len() as int, 5), 5, self.config),
    {
        self.scan_windows(nodes, 5)
    }

    /// Structures still missing their D: every four-point window whose B and C ratios match a
    /// row, with the zone where D is to be looked for.
    pub fn scan_candidates(&self, nodes: &[ZigZagNode]) -> (r: Vec<HarmonicCandidate>)
        requires
            prices_fit(nodes@),
        ensures
            r@ == scan_hits(nodes@, window_count(nodes@.len() as int, 4), 4, self.config),
    {
        self.scan_windows(nodes, 4)
    }
}


/// The close ran through the zone against the pattern: below it for a bullish structure, above
/// it for a bearish one.
pub open spec fn ran_through(c: HarmonicCandidate, b: Bar) -> bool {
    if c.bullish {
        b.close * PRZ_SCALE < c.prz.low
    } else {
        b.close * PRZ_SCALE > c.prz.high
    }
}

/// The candidate after one more bar.
///
/// A candidate completes when price trades into the zone, recording that extreme as D, and is
/// confirmed when a later close leaves the zone in the pattern's direction. A close through the
/// zone against it invalidates. Confirmed and invalidated are terminal.
pub open spec fn harmonic_step(c: HarmonicCandidate, b: Bar) -> HarmonicCandidate {
    match c.state {
        HarmonicState::Confirmed | HarmonicState::Invalidated => c,
        HarmonicState::Candidate => {
            let reached = if c.bullish {
                b.low * PRZ_SCALE <= c.prz.high
            } else {
                b.high * PRZ_SCALE >= c.prz.low
            };
            let c1 = if reached {
                HarmonicCandidate {
                    d: Some(
                        if c.bullish {
                            b.low
                        } else {
                            b.high
                        },
                    ),
                    state: HarmonicState::Complete,
                    ..c
                }
            } else {
                c
            };
            if ran_through(c1, b) {
                HarmonicCandidate { state: HarmonicState::Invalidated, ..c1 }
            } else {
                c1
            }
        },
        HarmonicState::Complete => {
            if ran_through(c, b) {
                HarmonicCandidate { state: HarmonicState::Invalidated, ..c }
            } else {
                let turned = if c.bullish {
                    b.close * PRZ_SCALE > c.prz.high
                } else {
                    b.close * PRZ_SCALE < c.prz.low
                };
                if turned {
                    HarmonicCandidate { state: HarmonicState::Confirmed, ..c }
                } else {
                    c
                }
            }
        },
    }
}

impl HarmonicCandidate {
    fn ran_through(&self, bar: &Bar) -> (r: bool)
        ensures
            r == ran_through(*self, *bar),
    {
        let close = bar.close as i128 * PRZ_SCALE;
        if self.bullish {
            close < self.prz.low
        } else {
            close > self.prz.high
        }
    }

    /// Advances the lifecycle with a subsequent bar; see [`harmonic_step`].
    pub fn update_state(&mut self, bar: &Bar) -> (r: HarmonicState)
        ensures
            *final(self) == harmonic_step(*old(self), *bar),
            r == final(self).state,
    {
        match self.state {
            HarmonicState::Confirmed | HarmonicState::Invalidated => self.state,
            HarmonicState::Candidate => {
                let reached = if self.bullish {
                    bar.low as i128 * PRZ_SCALE <= self.prz.high
                } else {
                    bar.high as i128 * PRZ_SCALE >= self.prz.low
                };
                if reached {
                    self.d = Some(
                        if self.bullish {
                            bar.low
                        } else {
                            bar.high
                        },
                    );
                    self.state = HarmonicState::Complete;
                }
                if self.ran_through(bar) {
                    self.state = HarmonicState::Invalidated;
                }
                self.state
            },
            HarmonicState::Complete => {
                if self.ran_through(bar) {
                    self.state = HarmonicState::Invalidated;
                } else {
                    let close = bar.close as i128 * PRZ_SCALE;
                    let turned = if self.bullish {
                        close > self.prz.high
                    } else {
                        close < self.prz.low
                    };
                    if turned {
                        self.state = HarmonicState::Confirmed;
                    }
                }
                self.state
            },
        }
    }
}

/// The candidate after feeding `bars` in order, one `update_state` call each.
pub open spec fn harmonic_after(c: HarmonicCandidate, bars: Seq<Bar>) -> HarmonicCandidate
    decreases bars.len(),
{
    if bars.len() == 0 {
        c
    } else {
        harmonic_after(harmonic_step(c, bars[0]), bars.drop_first())
    }
}

/// Confirmed and invalidated are terminal: no later bar resurrects or changes the structure.
pub proof fn harmonic_terminal_states_are_final(c: HarmonicCandidate, bars: Seq<Bar>)
    requires
        c.state == HarmonicState::Confirmed || c.state == HarmonicState::Invalidated,
    ensures
        harmonic_after(c, bars) == c,
    decreases bars.len(),
{
    if bars.len() > 0 {
        harmonic_terminal_states_are_final(c, bars.drop_first());
    }
}

/// A complete structure is decided by the close alone. A close that leaves the zone in the
/// pattern's direction (above its high when bullish, below its low when bearish) confirms it, a
/// close that leaves it the other way invalidates it, and a close inside the zone keeps it
/// complete. Nothing but the state changes.
pub proof fn complete_structure_follows_the_close(c: HarmonicCandidate, b: Bar)
    requires
        c.state == HarmonicState::Complete,
        c.prz.low <= c.prz.high,
    ensures
        ({
            let n = harmonic_step(c, b);
            let close = b.close * PRZ_SCALE;
            &&& n.d == c.d && n.prz == c.prz && n.bullish == c.bullish && n.x == c.x && n.a == c.a
                && n.b == c.b && n.c == c.c && n.name == c.name
            &&& (n.state == HarmonicState::Confirmed) == (if c.bullish {
                close > c.prz.high
            } else {
                close < c.prz.low
            })
            &&& (n.state == HarmonicState::Invalidated) == (if c.bullish {
                close < c.prz.low
            } else {
                close > c.prz.high
            })
            &&& (n.state == HarmonicState::Complete) == (c.prz.low <= close && close <= c.prz.high)
        }),
{
}

/// A candidate completes on the first bar that trades into the zone from its side (a low at or
/// below the zone's high when bullish, a high at or above its low when bearish), recording that
/// low or high as D; a close through the zone against the pattern invalidates it, and otherwise
/// it stays a candidate with no D recorded anew.
pub proof fn candidate_completes_when_price_reaches_the_zone(c: HarmonicCandidate, b: Bar)
    requires
        c.state == HarmonicState::Candidate,
    ensures
        ({
            let n = harmonic_step(c, b);
            let reached = if c.bullish {
                b.low * PRZ_SCALE <= c.prz.high
            } else {
                b.high * PRZ_SCALE >= c.prz.low
            };
            let through = if c.bullish {
                b.close * PRZ_SCALE < c.prz.low
            } else {
                b.close * PRZ_SCALE > c.prz.high
            };
            &&& n.prz == c.prz && n.bullish == c.bullish
            &&& (n.state == HarmonicState::Invalidated) == through
            &&& (n.state == HarmonicState::Complete) == (reached && !through)
            &&& (n.state == HarmonicState::Candidate) == (!reached && !through)
            &&& n.d == (if reached {
                Some(
                    if c.bullish {
                        b.low
                    } else {
                        b.high
                    },
                )
            } else {
                c.d
            })
        }),
{
}

/// A confirmed or invalidated structure is final: no bar changes anything in it.
pub proof fn decided_structures_are_final(c: HarmonicCandidate, b: Bar)
    requires
        c.state == HarmonicState::Confirmed || c.state == HarmonicState::Invalidated,
    ensures
        harmonic_step(c, b) == c,
{
}

/// A complete structure never falls back to a candidate, and its D stays recorded.
pub proof fn completion_is_never_undone(c: HarmonicCandidate, b: Bar)
    requires
        c.state == HarmonicState::Complete,
    ensures
        harmonic_step(c, b).state != HarmonicState::Candidate,
        harmonic_step(c, b).d == c.d,
{
}

} // verus!
