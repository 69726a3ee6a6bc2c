//! Leg efficiency: how much of the path the close travelled over the last `len` bars was net
//! progress. The ratio is `|close_now - close_len_bars_ago| / Σ |close_i - close_{i-1}|`, 0 when
//! the closes did not move; from 0.65 up it reads as a clean trend, at 0.20 or below as chop.

use vstd::prelude::*;

verus! {

/// What a ratio reads as.
#[derive(Debug, Clone, Copy, PartialEq, Eq, Structural)]
pub enum EfficiencyAlert {
    High,
    Low,
}

impl EfficiencyAlert {
    /// The alert kind under which the reading is reported.
    pub fn kind(&self) -> (r: &'static str)
        ensures
            r@ == match *self {
                EfficiencyAlert::High => "high_leg_efficiency"@,
                EfficiencyAlert::Low => "low_leg_efficiency"@,
            },
    {
        match self {
            EfficiencyAlert::High => "high_leg_efficiency",
            EfficiencyAlert::Low => "low_leg_efficiency",
        }
    }
}

/// The efficiency of a leg as the two integers of its ratio, `change / path` (0 for no path),
/// and what the ratio reads as.
#[derive(Debug, Clone, Copy, PartialEq, Eq)]
pub struct Efficiency {
    pub change: i128,
    pub path: i128,
    pub alert: Option<EfficiencyAlert>,
}

pub open spec fn abs(x: int) -> int {
    if x < 0 {
        -x
    } else {
        x
    }
}

/// The length of the path through the closes: the sum of the moves between neighbours.
pub open spec fn path_len(s: Seq<i64>) -> int
    decreases s.len(),
{
    if s.len() < 2 {
        0
    } else {
        path_len(s.drop_last()) + abs(s.last() - s[s.len() - 2])
    }
}

/// The net move from the first close to the last.
pub open spec fn net_change(s: Seq<i64>) -> int {
    if s.len() == 0 {
        0
    } else {
        abs(s.last() - s[0])
    }
}

/// A ratio of at least 0.65 reads as a clean trend, one of at most 0.20 (or no movement at all)
/// as chop.
pub open spec fn efficiency_alert(change: int, path: int) -> Option<EfficiencyAlert> {
    if path > 0 && change * 100 >= 65 * path {
        Some(EfficiencyAlert::High)
    } else if path <= 0 || change * 100 <= 20 * path {
        Some(EfficiencyAlert::Low)
    } else {
        None
    }
}

/// Appends `x` to the rolling closes `s`, dropping the oldest once more than `cap` are kept.
pub open spec fn slide_closes(s: Seq<i64>, x: i64, cap: int) -> Seq<i64> {
    let p = s.push(x);
    if p.len() > cap {
        p.drop_first()
    } else {
        p
    }
}

/// The net move never exceeds the path: the efficiency ratio lies between 0 and 1.
pub proof fn change_never_exceeds_path(s: Seq<i64>)
    ensures
        0 <= net_change(s) <= path_len(s),
        path_len(s) >= 0,
    decreases s.len(),
{
    if s.len() >= 2 {
        let d = s.drop_last();
        change_never_exceeds_path(d);
        assert(d[0] == s[0]);
        assert(d.last() == s[s.len() - 2]);
    }
}

/// The path length of `s`, exactly.
fn leg_path(s: &Vec<i64>) -> (r: i128)
    requires
        s@.len() <= 0x4_0000_0000_0000,
    ensures
        r == path_len(s@),
        0 <= r <= 0x2_0000_0000_0000_0000 * 0x4_0000_0000_0000,
{
    let n = s.len();
    if n < 2 {
        return 0;
    }
    let mut path: i128 = 0;
    let mut i: usize = 1;
    while i < n
        invariant
            1 <= i <= n,
            n == s@.len(),
            n <= 0x4_0000_0000_0000,
            path == path_len(s@.subrange(0, i as int)),
            0 <= path <= 0x2_0000_0000_0000_0000 * i,
        decreases n - i,
    {
        let ghost prefix = s@.subrange(0, i + 1);
        assert(prefix.drop_last() =~= s@.subrange(0, i as int));
        assert(prefix.last() == s@[i as int]);
        assert(prefix[prefix.len() - 2] == s@[i - 1]);
        let a = s[i] as i128;
        let b = s[i - 1] as i128;
        let step = if a >= b {
            a - b
        } else {
            b - a
        };
        path = path + step;
        i = i + 1;
    }
    assert(s@.subrange(0, n as int) =~= s@);
    path
}

pub struct LegEfficiencyEngine {
    len: usize,
    closes: Vec<i64>,
    alert: Option<EfficiencyAlert>,
}

impl LegEfficiencyEngine {
    pub closed spec fn span(&self) -> int {
        self.len as int
    }

    /// The closes kept, oldest first.
    pub closed spec fn kept(&self) -> Seq<i64> {
        self.closes@
    }

    pub closed spec fn raised(&self) -> Option<EfficiencyAlert> {
        self.alert
    }

    pub closed spec fn inv(&self) -> bool {
        self.closes@.len() <= self.len + 1
    }

    pub fn new(len: usize) -> (r: Self)
        ensures
            r.inv(),
            r.span() == len,
            r.kept() == Seq::<i64>::empty(),
            r.raised() is None,
    {
        LegEfficiencyEngine { len, closes: Vec::new(), alert: None }
    }

    pub fn name(&self) -> (r: &'static str)
        ensures
            r@ == "efficiency"@,
    {
        "efficiency"
    }

    pub fn warmup_period(&self) -> (r: usize)
        ensures
            r == self.span(),
    {
        self.len
    }

    pub fn reset(&mut self)
        ensures
            final(self).inv(),
            final(self).span() == old(self).span(),
            final(self).kept() == Seq::<i64>::empty(),
            final(self).raised() is None,
    {
        self.closes = Vec::new();
        self.alert = None;
    }

    /// The reading raised on the latest bar, if any.
    pub fn alerts(&self) -> (r: Option<EfficiencyAlert>)
        ensures
            r == self.raised(),
    {
        self.alert
    }

    /// Feeds one close. `None` until `len + 1` closes are kept; then the efficiency of the leg
    /// they span.
    pub fn on_bar(&mut self, close: i64) -> (r: Option<Efficiency>)
        requires
            old(self).inv(),
            old(self).span() < usize::MAX,
            old(self).span() < 0x4_0000_0000_0000,
        ensures
            final(self).inv(),
            final(self).span() == old(self).span(),
            final(self).kept() == slide_closes(old(self).kept(), close, old(self).span() + 1),
            final(self).kept().len() < old(self).span() + 1 ==> r is None && final(self).raised() is None,
            final(self).kept().len() == old(self).span() + 1 ==> {
                let s = final(self).kept();
                &&& r == Some(
                    Efficiency {
                        change: net_change(s) as i128,
                        path: path_len(s) as i128,
                        alert: efficiency_alert(net_change(s), path_len(s)),
                    },
                )
                &&& final(self).raised() == efficiency_alert(net_change(s), path_len(s))
            },
    {
        let len = self.len;
        let ghost pushed = self.closes@.push(close);
        self.closes.push(close);
        if self.closes.len() - 1 > len {
            self.closes.remove(0);
            assert(self.closes@ =~= pushed.drop_first());
        }
        self.alert = None;
        let n = self.closes.len();
        if n < len + 1 {
            return None;
        }
        let first = self.closes[0] as i128;
        let last = self.closes[n - 1] as i128;
        let change = if last >= first {
            last - first
        } else {
            first - last
        };
        proof {
            change_never_exceeds_path(self.closes@);
        }
        let path = leg_path(&self.closes);
        let alert = if path > 0 && change * 100 >= 65 * path {
            Some(EfficiencyAlert::High)
        } else if path <= 0 || change * 100 <= 20 * path {
            Some(EfficiencyAlert::Low)
        } else {
            None
        };
        self.alert = alert;
        Some(Efficiency { change, path, alert })
    }
}

} // verus!
