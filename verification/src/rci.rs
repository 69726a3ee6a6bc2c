//! Rank correlation index: how closely the order of the last `len` closes follows the order of
//! time. The closes are ranked (equal closes share the mean of the ranks they occupy), time is
//! ranked by position, and the two rank series are correlated; the index is the correlation
//! times 100, and 0 for a window whose closes are all equal.
//!
//! Ranks are kept doubled so that shared ranks stay integers, and the correlation is carried as
//! its three integer parts: with `n` ranks `x` against times `y`,
//! `covariance = n·Σxy − Σx·Σy`, `price_spread = n·Σx² − (Σx)²`, `time_spread = n·Σy² − (Σy)²`,
//! and the correlation is `covariance / sqrt(price_spread · time_spread)`. Doubling the ranks
//! doubles the covariance and the square root alike, so the ratio is unchanged.

use vstd::prelude::*;

use crate::bar::Bar;

verus! {

/// The longest window whose sums the engine counts exactly.
pub const MAX_RCI_LEN: usize = 0x10_0000;

/// The three integer parts of a window's rank correlation.
#[derive(Debug, Clone, Copy, PartialEq, Eq)]
pub struct RciReading {
    pub covariance: i128,
    pub price_spread: i128,
    pub time_spread: i128,
}

/// How many values of `s` lie below `v`.
pub open spec fn count_below(s: Seq<i64>, v: i64) -> int
    decreases s.len(),
{
    if s.len() == 0 {
        0
    } else {
        count_below(s.drop_last(), v) + if s.last() < v {
            1int
        } else {
            0int
        }
    }
}

/// How many values of `s` equal `v`.
pub open spec fn count_equal(s: Seq<i64>, v: i64) -> int
    decreases s.len(),
{
    if s.len() == 0 {
        0
    } else {
        count_equal(s.drop_last(), v) + if s.last() == v {
            1int
        } else {
            0int
        }
    }
}

/// Twice the average rank of `s[i]` among the values of `s`, ranked ascending from 1: values
/// below it take the first ranks, and the values equal to it share the mean of the ranks that
/// follow.
pub open spec fn doubled_rank(s: Seq<i64>, i: int) -> int {
    2 * count_below(s, s[i]) + count_equal(s, s[i]) + 1
}

/// The sum of the doubled ranks of the first `k` values.
pub open spec fn rank_sum(s: Seq<i64>, k: int) -> int
    decreases k,
{
    if k <= 0 {
        0
    } else {
        rank_sum(s, k - 1) + doubled_rank(s, k - 1)
    }
}

/// The sum of the doubled ranks of the first `k` values, each times its time rank.
pub open spec fn cross_sum(s: Seq<i64>, k: int) -> int
    decreases k,
{
    if k <= 0 {
        0
    } else {
        cross_sum(s, k - 1) + doubled_rank(s, k - 1) * k
    }
}

/// The sum of the squared doubled ranks of the first `k` values.
pub open spec fn square_sum(s: Seq<i64>, k: int) -> int
    decreases k,
{
    if k <= 0 {
        0
    } else {
        square_sum(s, k - 1) + doubled_rank(s, k - 1) * doubled_rank(s, k - 1)
    }
}

/// `1 + 2 + … + k`.
pub open spec fn time_sum(k: int) -> int
    decreases k,
{
    if k <= 0 {
        0
    } else {
        time_sum(k - 1) + k
    }
}

/// `1² + 2² + … + k²`.
pub open spec fn time_square_sum(k: int) -> int
    decreases k,
{
    if k <= 0 {
        0
    } else {
        time_square_sum(k - 1) + k * k
    }
}

/// `n·Σxy − Σx·Σy` for the doubled ranks `x` of `s` against their times `y`.
pub open spec fn covariance_of(s: Seq<i64>) -> int {
    let n = s.len() as int;
    n * cross_sum(s, n) - rank_sum(s, n) * time_sum(n)
}

/// `n·Σx² − (Σx)²` for the doubled ranks `x` of `s`.
pub open spec fn price_spread_of(s: Seq<i64>) -> int {
    let n = s.len() as int;
    n * square_sum(s, n) - rank_sum(s, n) * rank_sum(s, n)
}

/// `n·Σy² − (Σy)²` for the times `1..=n`.
pub open spec fn time_spread_of(n: int) -> int {
    n * time_square_sum(n) - time_sum(n) * time_sum(n)
}

/// The rank correlation of the window `s` against time, in its three parts.
pub open spec fn rci_of(s: Seq<i64>) -> RciReading {
    RciReading {
        covariance: covariance_of(s) as i128,
        price_spread: price_spread_of(s) as i128,
        time_spread: time_spread_of(s.len() as int) as i128,
    }
}

pub open spec fn strictly_rising(s: Seq<i64>) -> bool {
    forall|a: int, b: int| 0 <= a < b < s.len() ==> #[trigger] s[a] < #[trigger] s[b]
}

pub open spec fn strictly_falling(s: Seq<i64>) -> bool {
    forall|a: int, b: int| 0 <= a < b < s.len() ==> #[trigger] s[a] > #[trigger] s[b]
}

proof fn lemma_rising_counts(s: Seq<i64>, i: int, k: int)
    requires
        strictly_rising(s),
        0 <= i < s.len(),
        0 <= k <= s.len(),
    ensures
        count_below(s.subrange(0, k), s[i]) == if k <= i {
            k
        } else {
            i
        },
        count_equal(s.subrange(0, k), s[i]) == if k > i {
            1int
        } else {
            0int
        },
    decreases k,
{
    if k > 0 {
        let p = s.subrange(0, k);
        assert(p.drop_last() =~= s.subrange(0, k - 1));
        assert(p.last() == s[k - 1]);
        lemma_rising_counts(s, i, k - 1);
    } else {
        assert(s.subrange(0, 0) =~= Seq::<i64>::empty());
    }
}

proof fn lemma_falling_counts(s: Seq<i64>, i: int, k: int)
    requires
        strictly_falling(s),
        0 <= i < s.len(),
        0 <= k <= s.len(),
    ensures
        count_below(s.subrange(0, k), s[i]) == if k <= i + 1 {
            0
        } else {
            k - i - 1
        },
        count_equal(s.subrange(0, k), s[i]) == if k > i {
            1int
        } else {
            0int
        },
    decreases k,
{
    if k > 0 {
        let p = s.subrange(0, k);
        assert(p.drop_last() =~= s.subrange(0, k - 1));
        assert(p.last() == s[k - 1]);
        lemma_falling_counts(s, i, k - 1);
    } else {
        assert(s.subrange(0, 0) =~= Seq::<i64>::empty());
    }
}

/// When every doubled rank is `a + b·t` at time `t`, the sums follow from the time sums.
proof fn lemma_affine_sums(s: Seq<i64>, k: int, a: int, b: int)
    requires
        0 <= k <= s.len(),
        forall|i: int| 0 <= i < s.len() ==> #[trigger] doubled_rank(s, i) == a + b * (i + 1),
    ensures
        rank_sum(s, k) == k * a + b * time_sum(k),
        cross_sum(s, k) == a * time_sum(k) + b * time_square_sum(k),
        square_sum(s, k) == k * a * a + 2 * a * b * time_sum(k) + b * b * time_square_sum(k),
    decreases k,
{
    if k > 0 {
        lemma_affine_sums(s, k - 1, a, b);
        let x = doubled_rank(s, k - 1);
        assert(x == a + b * k);
        let t = time_sum(k - 1);
        let q = time_square_sum(k - 1);
        assert((k - 1) * a + b * t + (a + b * k) == k * a + b * (t + k)) by (nonlinear_arith);
        assert(a * t + b * q + (a + b * k) * k == a * (t + k) + b * (q + k * k))
            by (nonlinear_arith);
        assert((k - 1) * a * a + 2 * a * b * t + b * b * q + (a + b * k) * (a + b * k) == k * a * a
            + 2 * a * b * (t + k) + b * b * (q + k * k)) by (nonlinear_arith);
    } else {
        assert(0 * a == 0 && b * 0 == 0 && a * 0 == 0 && 0 * a * a == 0 && 2 * a * b * 0 == 0 && b
            * b * 0 == 0) by (nonlinear_arith);
    }
}

proof fn lemma_time_sums(k: int)
    requires
        0 <= k,
    ensures
        2 * time_sum(k) == k * (k + 1),
        6 * time_square_sum(k) == k * (k + 1) * (2 * k + 1),
    decreases k,
{
    if k > 0 {
        lemma_time_sums(k - 1);
        let t = time_sum(k - 1);
        let q = time_square_sum(k - 1);
        assert(2 * (t + k) == k * (k + 1)) by (nonlinear_arith)
            requires
                2 * t == (k - 1) * k,
        ;
        assert(6 * (q + k * k) == k * (k + 1) * (2 * k + 1)) by (nonlinear_arith)
            requires
                6 * q == (k - 1) * k * (2 * (k - 1) + 1),
        ;
    }
}

/// Times `1..=n` spread whenever there are two of them.
proof fn lemma_time_spread_positive(n: int)
    requires
        2 <= n,
    ensures
        time_spread_of(n) > 0,
        12 * time_spread_of(n) == n * n * (n + 1) * (n - 1),
{
    lemma_time_sums(n);
    let t = time_sum(n);
    let q = time_square_sum(n);
    assert(12 * (n * q - t * t) == n * n * (n + 1) * (n - 1)) by (nonlinear_arith)
        requires
            2 * t == n * (n + 1),
            6 * q == n * (n + 1) * (2 * n + 1),
    ;
    assert(n * n * (n + 1) * (n - 1) > 0) by (nonlinear_arith)
        requires
            2 <= n,
    ;
}

proof fn lemma_affine_parts(s: Seq<i64>, a: int, b: int)
    requires
        forall|i: int| 0 <= i < s.len() ==> #[trigger] doubled_rank(s, i) == a + b * (i + 1),
    ensures
        covariance_of(s) == b * time_spread_of(s.len() as int),
        price_spread_of(s) == b * b * time_spread_of(s.len() as int),
{
    let n = s.len() as int;
    lemma_affine_sums(s, n, a, b);
    let t = time_sum(n);
    let q = time_square_sum(n);
    assert(n * (a * t + b * q) - (n * a + b * t) * t == b * (n * q - t * t)) by (nonlinear_arith);
    lemma_spread_expansion(n, a, b, t, q);
}

proof fn lemma_spread_expansion(n: int, a: int, b: int, t: int, q: int)
    ensures
        n * (n * a * a + 2 * a * b * t + b * b * q) - (n * a + b * t) * (n * a + b * t) == b * b * (n
            * q - t * t),
{
    let x = n * a;
    let y = b * t;
    assert((x + y) * (x + y) == x * x + 2 * (x * y) + y * y) by (nonlinear_arith);
    assert(x * x == n * (n * a * a)) by (nonlinear_arith)
        requires
            x == n * a,
    ;
    assert(x * y == n * (a * b * t)) by (nonlinear_arith)
        requires
            x == n * a,
            y == b * t,
    ;
    assert(y * y == b * b * (t * t)) by (nonlinear_arith)
        requires
            y == b * t,
    ;
    let p = n * a * a;
    let r = a * b * t;
    let u = b * b * q;
    assert(n * (p + 2 * r + u) == n * p + 2 * (n * r) + n * u) by (nonlinear_arith);
    assert(n * u == b * b * (n * q)) by (nonlinear_arith)
        requires
            u == b * b * q,
    ;
    let w = n * q;
    let z = t * t;
    assert(b * b * (w - z) == b * b * w - b * b * z) by (nonlinear_arith);
    assert(2 * a * b * t == 2 * r) by (nonlinear_arith)
        requires
            r == a * b * t,
    ;
    assert(n * (n * a * a + 2 * a * b * t + b * b * q) == n * p + 2 * (n * r) + n * u);
    assert((n * a + b * t) * (n * a + b * t) == (x + y) * (x + y));
}

/// A window whose closes rise strictly reads +100: its covariance is the full square root of the
/// two spreads, `2·time_spread = sqrt(4·time_spread · time_spread)`.
pub proof fn rising_window_reads_full_agreement(s: Seq<i64>)
    requires
        s.len() >= 2,
        strictly_rising(s),
    ensures
        time_spread_of(s.len() as int) > 0,
        covariance_of(s) == 2 * time_spread_of(s.len() as int),
        price_spread_of(s) == 4 * time_spread_of(s.len() as int),
{
    assert forall|i: int| 0 <= i < s.len() implies #[trigger] doubled_rank(s, i) == 0 + 2 * (i + 1) by {
        lemma_rising_counts(s, i, s.len() as int);
        assert(s.subrange(0, s.len() as int) =~= s);
    }
    lemma_affine_parts(s, 0, 2);
    lemma_time_spread_positive(s.len() as int);
}

/// A window whose closes fall strictly reads -100: its covariance is minus the full square root
/// of the two spreads.
pub proof fn falling_window_reads_full_disagreement(s: Seq<i64>)
    requires
        s.len() >= 2,
        strictly_falling(s),
    ensures
        time_spread_of(s.len() as int) > 0,
        covariance_of(s) == -2 * time_spread_of(s.len() as int),
        price_spread_of(s) == 4 * time_spread_of(s.len() as int),
{
    let n = s.len() as int;
    assert forall|i: int| 0 <= i < s.len() implies #[trigger] doubled_rank(s, i) == 2 * (n + 1) + (-2)
        * (i + 1) by {
        lemma_falling_counts(s, i, n);
        assert(s.subrange(0, n) =~= s);
    }
    lemma_affine_parts(s, 2 * (n + 1), -2);
    lemma_time_spread_positive(n);
}

/// Appends `x` to the rolling closes `s`, dropping the oldest once more than `cap` are kept.
pub open spec fn slide_closes(s: Seq<i64>, x: i64, cap: int) -> Seq<i64> {
    let p = s.push(x);
    if p.len() > cap {
        p.drop_first()
    } else {
        p
    }
}

proof fn lemma_counts_bounded(s: Seq<i64>, v: i64)
    ensures
        0 <= count_below(s, v),
        0 <= count_equal(s, v),
        count_below(s, v) + count_equal(s, v) <= s.len(),
    decreases s.len(),
{
    if s.len() > 0 {
        lemma_counts_bounded(s.drop_last(), v);
    }
}

/// Twice the average rank of each value of `values`, in their order.
pub fn doubled_average_ranks(values: &Vec<i64>) -> (r: Vec<i64>)
    requires
        values@.len() <= MAX_RCI_LEN,
    ensures
        r@.len() == values@.len(),
        forall|i: int| 0 <= i < values@.len() ==> #[trigger] r@[i] == doubled_rank(values@, i),
{
    let n = values.len();
    let mut ranks: Vec<i64> = Vec::new();
    let mut i: usize = 0;
    while i < n
        invariant
            0 <= i <= n,
            n == values@.len(),
            n <= MAX_RCI_LEN,
            ranks@.len() == i,
            forall|k: int| 0 <= k < i ==> #[trigger] ranks@[k] == doubled_rank(values@, k),
        decreases n - i,
    {
        let v = values[i];
        let mut below: i64 = 0;
        let mut equal: i64 = 0;
        let mut j: usize = 0;
        while j < n
            invariant
                0 <= j <= n,
                n == values@.len(),
                n <= MAX_RCI_LEN,
                below == count_below(values@.subrange(0, j as int), v),
                equal == count_equal(values@.subrange(0, j as int), v),
                0 <= below,
                0 <= equal,
                below + equal <= j,
            decreases n - j,
        {
            let ghost p = values@.subrange(0, j + 1);
            assert(p.drop_last() =~= values@.subrange(0, j as int));
            assert(p.last() == values@[j as int]);
            let w = values[j];
            if w < v {
                below = below + 1;
            } else if w == v {
                equal = equal + 1;
            }
            j = j + 1;
        }
        assert(values@.subrange(0, n as int) =~= values@);
        ranks.push(2 * below + equal + 1);
        i = i + 1;
    }
    ranks
}

/// Rank correlation index over the last `len` closes (at least two).
pub struct RciEngine {
    len: usize,
    window: Vec<i64>,
}

impl RciEngine {
    pub closed spec fn span(&self) -> int {
        self.len as int
    }

    /// The closes held, oldest first.
    pub closed spec fn closes(&self) -> Seq<i64> {
        self.window@
    }

    pub closed spec fn inv(&self) -> bool {
        &&& self.len >= 2
        &&& self.window@.len() <= self.len
    }

    pub fn new(len: usize) -> (r: Self)
        ensures
            r.inv(),
            r.span() == if len < 2 {
                2
            } else {
                len as int
            },
            r.closes() == Seq::<i64>::empty(),
    {
        let len = if len < 2 {
            2
        } else {
            len
        };
        RciEngine { len, window: Vec::new() }
    }

    /// Nine closes.
    pub fn with_defaults() -> (r: Self)
        ensures
            r.inv(),
            r.span() == 9,
            r.closes() == Seq::<i64>::empty(),
    {
        Self::new(9)
    }

    pub fn name(&self) -> (r: &'static str)
        ensures
            r@ == "rci"@,
    {
        "rci"
    }

    pub fn warmup_period(&self) -> (r: usize)
        ensures
            r == self.span(),
    {
        self.len
    }

    pub fn reset(&mut self)
        requires
            old(self).inv(),
        ensures
            final(self).inv(),
            final(self).span() == old(self).span(),
            final(self).closes() == Seq::<i64>::empty(),
    {
        self.window = Vec::new();
    }

    /// Feeds one bar's close. `None` until `len` closes are held; then the rank correlation of
    /// the window.
    pub fn on_bar(&mut self, bar: &Bar) -> (r: Option<RciReading>)
        requires
            old(self).inv(),
            old(self).span() <= MAX_RCI_LEN,
        ensures
            final(self).inv(),
            final(self).span() == old(self).span(),
            final(self).closes() == slide_closes(old(self).closes(), bar.close, old(self).span()),
            final(self).closes().len() < old(self).span() ==> r is None,
            final(self).closes().len() == old(self).span() ==> r == Some(rci_of(final(self).closes())),
    {
        let ghost pushed = self.window@.push(bar.close);
        self.window.push(bar.close);
        if self.window.len() > self.len {
            self.window.remove(0);
            assert(self.window@ =~= pushed.drop_first());
        }
        let n = self.window.len();
        if n < self.len {
            return None;
        }
        let ghost s = self.window@;
        let ranks = doubled_average_ranks(&self.window);
        let mut sx: i128 = 0;
        let mut sxx: i128 = 0;
        let mut sxy: i128 = 0;
        let mut sy: i128 = 0;
        let mut syy: i128 = 0;
        let mut i: usize = 0;
        while i < n
            invariant
                0 <= i <= n,
                n == s.len(),
                n <= MAX_RCI_LEN,
                ranks@.len() == n,
                forall|k: int| 0 <= k < n ==> #[trigger] ranks@[k] == doubled_rank(s, k),
                sx == rank_sum(s, i as int),
                sxx == square_sum(s, i as int),
                sxy == cross_sum(s, i as int),
                sy == time_sum(i as int),
                syy == time_square_sum(i as int),
                0 <= sx <= i * 0x20_0002,
                0 <= sxx <= i * 0x800_0000_0000,
                0 <= sxy <= i * 0x400_0000_0000,
                0 <= sy <= i * 0x10_0000,
                0 <= syy <= i * 0x100_0000_0000,
            decreases n - i,
        {
            let x = ranks[i] as i128;
            proof {
                lemma_counts_bounded(s, s[i as int]);
            }
            assert(1 <= x <= 0x20_0001);
            let t = (i + 1) as i128;
            assert(x * t <= 0x400_0000_0000) by (nonlinear_arith)
                requires
                    1 <= x <= 0x20_0001,
                    1 <= t <= 0x10_0000,
            ;
            assert(x * x <= 0x800_0000_0000) by (nonlinear_arith)
                requires
                    1 <= x <= 0x20_0001,
            ;
            assert(t * t <= 0x100_0000_0000) by (nonlinear_arith)
                requires
                    1 <= t <= 0x10_0000,
            ;
            sx = sx + x;
            sxx = sxx + x * x;
            sxy = sxy + x * t;
            sy = sy + t;
            syy = syy + t * t;
            i = i + 1;
        }
        let nn = n as i128;
        assert(0 <= nn * sxy <= 0x400_0000_0000_0000_0000_0000) by (nonlinear_arith)
            requires
                0 <= nn <= 0x10_0000,
                0 <= sxy <= nn * 0x400_0000_0000,
        ;
        assert(0 <= sx * sy <= 0x400_0000_0000_0000_0000_0000) by (nonlinear_arith)
            requires
                0 <= nn <= 0x10_0000,
                0 <= sx <= nn * 0x20_0002,
                0 <= sy <= nn * 0x10_0000,
        ;
        assert(0 <= nn * sxx <= 0x400_0000_0000_0000_0000_0000) by (nonlinear_arith)
            requires
                0 <= nn <= 0x10_0000,
                0 <= sxx <= nn * 0x800_0000_0000,
        ;
        assert(0 <= sx * sx <= 0x400_0000_0000_0000_0000_0000) by (nonlinear_arith)
            requires
                0 <= nn <= 0x10_0000,
                0 <= sx <= nn * 0x20_0002,
        ;
        assert(0 <= nn * syy <= 0x400_0000_0000_0000_0000_0000) by (nonlinear_arith)
            requires
                0 <= nn <= 0x10_0000,
                0 <= syy <= nn * 0x100_0000_0000,
        ;
        assert(0 <= sy * sy <= 0x400_0000_0000_0000_0000_0000) by (nonlinear_arith)
            requires
                0 <= nn <= 0x10_0000,
                0 <= sy <= nn * 0x10_0000,
        ;
        let cross = nn * sxy;
        let sxsy = sx * sy;
        let squares = nn * sxx;
        let sxsx = sx * sx;
        let times = nn * syy;
        let sysy = sy * sy;
        Some(
            RciReading {
                covariance: cross - sxsy,
                price_spread: squares - sxsx,
                time_spread: times - sysy,
            },
        )
    }
}

} // verus!
