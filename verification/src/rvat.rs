//! Relative volume at time: a bar's volume against the volume at the same time of day on the
//! previous days.
//!
//! The day starts `day_start_offset` seconds after midnight UTC; a slot is the number of seconds
//! into that day. For each slot the engine keeps the latest days' entries (day, bar volume, volume
//! accumulated that day by the slot). Only days strictly before today are comparison material, so
//! no reading depends on today's own bars. The reading carries the two sums and the number of
//! days that contributed; the regular ratio is `volume * samples / volume_sum`, the cumulative one
//! `cumulative * samples / cumulative_sum`. Entries older than `days` days are dropped when a new
//! day begins, and each slot keeps at most `days + 1` entries.

use vstd::prelude::*;

use crate::bar::Bar;

verus! {

pub const SECONDS_PER_DAY: i64 = 86_400;

/// The largest volume accumulated over one day that the engine takes.
pub const MAX_DAY_VOLUME: i128 = 0x1_0000_0000_0000_0000_0000;

/// The largest number of comparison days the engine takes.
pub const MAX_DAYS: u64 = 0x100_0000_0000;

/// One day's entry in the history of a slot.
#[derive(Debug, Clone, Copy, PartialEq, Eq)]
pub struct SlotEntry {
    pub slot: i64,
    pub day: i64,
    pub volume: i64,
    /// The volume accumulated that day up to and including this bar.
    pub cumulative: i128,
}

/// One bar's comparison with the same slot on the previous days.
#[derive(Debug, Clone, Copy, PartialEq, Eq)]
pub struct RvatReading {
    pub volume: i64,
    /// The volume accumulated today so far.
    pub cumulative: i128,
    /// How many previous days had a bar in this slot.
    pub samples: usize,
    pub volume_sum: i128,
    pub cumulative_sum: i128,
    /// Every one of the `days` comparison days contributed.
    pub complete: bool,
}

/// The day of a timestamp already shifted by the day start.
pub open spec fn day_of(shifted: int) -> int {
    shifted / (SECONDS_PER_DAY as int)
}

/// The slot (seconds into the day) of a shifted timestamp.
pub open spec fn slot_of(shifted: int) -> int {
    shifted % (SECONDS_PER_DAY as int)
}

/// The entries of `h` from day `horizon` on, in order.
pub open spec fn kept_since(h: Seq<SlotEntry>, horizon: int) -> Seq<SlotEntry>
    decreases h.len(),
{
    if h.len() == 0 {
        h
    } else {
        let k = kept_since(h.drop_last(), horizon);
        if h.last().day >= horizon {
            k.push(h.last())
        } else {
            k
        }
    }
}

/// The entries of `h` in `slot` from days before `day`, in order.
pub open spec fn earlier_in_slot(h: Seq<SlotEntry>, slot: i64, day: i64) -> Seq<SlotEntry>
    decreases h.len(),
{
    if h.len() == 0 {
        h
    } else {
        let k = earlier_in_slot(h.drop_last(), slot, day);
        if h.last().slot == slot && h.last().day < day {
            k.push(h.last())
        } else {
            k
        }
    }
}

pub open spec fn volume_total(h: Seq<SlotEntry>) -> int
    decreases h.len(),
{
    if h.len() == 0 {
        0
    } else {
        volume_total(h.drop_last()) + h.last().volume
    }
}

pub open spec fn cumulative_total(h: Seq<SlotEntry>) -> int
    decreases h.len(),
{
    if h.len() == 0 {
        0
    } else {
        cumulative_total(h.drop_last()) + h.last().cumulative
    }
}

/// How many entries of `h` are in `slot`.
pub open spec fn slot_count(h: Seq<SlotEntry>, slot: i64) -> int
    decreases h.len(),
{
    if h.len() == 0 {
        0
    } else {
        slot_count(h.drop_last(), slot) + if h.last().slot == slot {
            1int
        } else {
            0int
        }
    }
}

/// `i` is the oldest entry of `h` in `slot`.
pub open spec fn oldest_in_slot(h: Seq<SlotEntry>, slot: i64, i: int) -> bool {
    &&& 0 <= i < h.len()
    &&& h[i].slot == slot
    &&& forall|k: int| 0 <= k < i ==> #[trigger] h[k].slot != slot
}

/// `h` without the oldest entry of `slot` once that slot holds more than `cap` entries.
pub open spec fn trimmed(h: Seq<SlotEntry>, slot: i64, cap: int) -> Seq<SlotEntry> {
    if slot_count(h, slot) > cap {
        h.remove(choose|i: int| oldest_in_slot(h, slot, i))
    } else {
        h
    }
}

/// What the comparison of a bar with `prev` reads, if anything: nothing without a previous day,
/// or when the previous days traded nothing.
pub open spec fn reading_of(
    prev: Seq<SlotEntry>,
    volume: i64,
    cumulative: int,
    days: int,
) -> Option<RvatReading> {
    if prev.len() == 0 || volume_total(prev) <= 0 || cumulative_total(prev) <= 0 {
        None
    } else {
        Some(
            RvatReading {
                volume,
                cumulative: cumulative as i128,
                samples: prev.len() as usize,
                volume_sum: volume_total(prev) as i128,
                cumulative_sum: cumulative_total(prev) as i128,
                complete: prev.len() >= days,
            },
        )
    }
}

/// The comparison material is strictly earlier days of the same slot.
pub proof fn reference_is_strictly_earlier(h: Seq<SlotEntry>, slot: i64, day: i64)
    ensures
        forall|i: int|
            0 <= i < earlier_in_slot(h, slot, day).len() ==> #[trigger] earlier_in_slot(
                h,
                slot,
                day,
            )[i].day < day && earlier_in_slot(h, slot, day)[i].slot == slot,
    decreases h.len(),
{
    if h.len() > 0 {
        let t = h.drop_last();
        reference_is_strictly_earlier(t, slot, day);
        let k = earlier_in_slot(t, slot, day);
        assert(earlier_in_slot(h, slot, day) == if h.last().slot == slot && h.last().day < day {
            k.push(h.last())
        } else {
            k
        });
    }
}

proof fn lemma_kept_since(h: Seq<SlotEntry>, horizon: int, slot: i64)
    ensures
        slot_count(kept_since(h, horizon), slot) <= slot_count(h, slot),
        forall|i: int|
            0 <= i < kept_since(h, horizon).len() ==> #[trigger] kept_since(h, horizon)[i].day
                >= horizon,
    decreases h.len(),
{
    if h.len() > 0 {
        let t = h.drop_last();
        lemma_kept_since(t, horizon, slot);
        let k = kept_since(t, horizon);
        if h.last().day >= horizon {
            assert(kept_since(h, horizon) == k.push(h.last()));
            assert(k.push(h.last()).drop_last() =~= k);
        } else {
            assert(kept_since(h, horizon) == k);
        }
    }
}

proof fn lemma_kept_bounded(h: Seq<SlotEntry>, horizon: int)
    requires
        forall|i: int|
            0 <= i < h.len() ==> 0 <= #[trigger] h[i].volume && 0 <= h[i].cumulative
                <= MAX_DAY_VOLUME,
    ensures
        forall|i: int|
            0 <= i < kept_since(h, horizon).len() ==> 0 <= #[trigger] kept_since(h, horizon)[i].volume
                && 0 <= kept_since(h, horizon)[i].cumulative <= MAX_DAY_VOLUME,
    decreases h.len(),
{
    if h.len() > 0 {
        let t = h.drop_last();
        assert forall|i: int| 0 <= i < t.len() implies 0 <= #[trigger] t[i].volume && 0
            <= t[i].cumulative <= MAX_DAY_VOLUME by {
            assert(t[i] == h[i]);
        }
        lemma_kept_bounded(t, horizon);
        let k = kept_since(t, horizon);
        assert(kept_since(h, horizon) == if h.last().day >= horizon {
            k.push(h.last())
        } else {
            k
        });
    }
}

proof fn lemma_slot_count_prefix(h: Seq<SlotEntry>, i: int, slot: i64)
    requires
        0 <= i <= h.len(),
    ensures
        0 <= slot_count(h.subrange(0, i), slot) <= slot_count(h, slot),
    decreases h.len() - i,
{
    if i < h.len() {
        let p = h.subrange(0, i + 1);
        assert(p.drop_last() =~= h.subrange(0, i));
        lemma_slot_count_prefix(h, i + 1, slot);
    } else {
        assert(h.subrange(0, i) =~= h);
    }
    lemma_slot_count_nonneg(h.subrange(0, i), slot);
}

proof fn lemma_slot_count_nonneg(h: Seq<SlotEntry>, slot: i64)
    ensures
        0 <= slot_count(h, slot),
        slot_count(h, slot) <= h.len(),
    decreases h.len(),
{
    if h.len() > 0 {
        lemma_slot_count_nonneg(h.drop_last(), slot);
    }
}

proof fn lemma_slot_count_remove(h: Seq<SlotEntry>, i: int, slot: i64)
    requires
        0 <= i < h.len(),
    ensures
        slot_count(h.remove(i), slot) == slot_count(h, slot) - if h[i].slot == slot {
            1int
        } else {
            0int
        },
    decreases h.len(),
{
    if i == h.len() - 1 {
        assert(h.remove(i) =~= h.drop_last());
    } else {
        let t = h.drop_last();
        lemma_slot_count_remove(t, i, slot);
        assert(h.remove(i).drop_last() =~= t.remove(i));
        assert(h.remove(i).last() == h.last());
    }
}

/// Relative volume at time over the previous `days` days.
pub struct RelativeVolumeAtTime {
    days: usize,
    day_start_offset: i64,
    bar_seconds: i64,
    history: Vec<SlotEntry>,
    current_day: Option<i64>,
    cumulative_today: i128,
}

impl RelativeVolumeAtTime {
    pub closed spec fn days(&self) -> int {
        self.days as int
    }

    pub closed spec fn offset(&self) -> int {
        self.day_start_offset as int
    }

    pub closed spec fn bar_seconds(&self) -> int {
        self.bar_seconds as int
    }

    /// The entries held, in the order they arrived.
    pub closed spec fn entries(&self) -> Seq<SlotEntry> {
        self.history@
    }

    pub closed spec fn current_day(&self) -> Option<i64> {
        self.current_day
    }

    /// The volume accumulated on the current day.
    pub closed spec fn today(&self) -> int {
        self.cumulative_today as int
    }

    pub closed spec fn inv(&self) -> bool {
        &&& self.days >= 1
        &&& 1 <= self.bar_seconds <= SECONDS_PER_DAY
        &&& 0 <= self.cumulative_today <= MAX_DAY_VOLUME
        &&& forall|i: int|
            0 <= i < self.history@.len() ==> 0 <= #[trigger] self.history@[i].volume && 0
                <= self.history@[i].cumulative <= MAX_DAY_VOLUME
        &&& forall|s: i64| #[trigger] slot_count(self.history@, s) <= self.days + 1
        &&& self.current_day is None ==> self.history@.len() == 0
        &&& self.current_day is Some ==> forall|i: int|
            0 <= i < self.history@.len() ==> #[trigger] self.history@[i].day
                >= self.current_day->0 - self.days
    }

    /// Each slot holds at most `days + 1` entries, and none is older than `days` days before the
    /// current day.
    pub proof fn history_is_bounded(&self)
        requires
            self.inv(),
        ensures
            forall|s: i64| #[trigger] slot_count(self.entries(), s) <= self.days() + 1,
            self.current_day() is Some ==> forall|i: int|
                0 <= i < self.entries().len() ==> #[trigger] self.entries()[i].day
                    >= self.current_day()->0 - self.days(),
    {
    }

    /// Compares with the previous `days` days (at least one), with days starting
    /// `day_start_offset` seconds after midnight UTC; `bar_seconds` (kept between 1 and a day)
    /// only states the warmup in bars.
    pub fn new(days: usize, day_start_offset: i64, bar_seconds: i64) -> (r: Self)
        ensures
            r.inv(),
            r.days() == if days == 0 {
                1
            } else {
                days as int
            },
            r.offset() == day_start_offset,
            r.bar_seconds() == if bar_seconds < 1 {
                1
            } else if bar_seconds > SECONDS_PER_DAY {
                SECONDS_PER_DAY as int
            } else {
                bar_seconds as int
            },
            r.entries() == Seq::<SlotEntry>::empty(),
            r.current_day() is None,
            r.today() == 0,
    {
        let days = if days == 0 {
            1
        } else {
            days
        };
        let bar_seconds = if bar_seconds < 1 {
            1
        } else if bar_seconds > SECONDS_PER_DAY {
            SECONDS_PER_DAY
        } else {
            bar_seconds
        };
        let r = RelativeVolumeAtTime {
            days,
            day_start_offset,
            bar_seconds,
            history: Vec::new(),
            current_day: None,
            cumulative_today: 0,
        };
        proof {
            assert forall|s: i64| #[trigger] slot_count(r.history@, s) <= r.days + 1 by {
                assert(r.history@.len() == 0);
            }
        }
        r
    }

    /// Ten days, days starting at midnight UTC, one-minute bars.
    pub fn with_defaults() -> (r: Self)
        ensures
            r.inv(),
            r.days() == 10,
            r.offset() == 0,
            r.bar_seconds() == 60,
            r.entries() == Seq::<SlotEntry>::empty(),
            r.current_day() is None,
            r.today() == 0,
    {
        Self::new(10, 0, 60)
    }

    pub fn name(&self) -> (r: &'static str)
        ensures
            r@ == "rvat"@,
    {
        "rvat"
    }

    /// One day of bars.
    pub fn warmup_period(&self) -> (r: usize)
        requires
            self.inv(),
        ensures
            r == (SECONDS_PER_DAY as int) / self.bar_seconds(),
    {
        (SECONDS_PER_DAY / self.bar_seconds) as usize
    }

    pub fn reset(&mut self)
        requires
            old(self).inv(),
        ensures
            final(self).inv(),
            final(self).days() == old(self).days(),
            final(self).offset() == old(self).offset(),
            final(self).bar_seconds() == old(self).bar_seconds(),
            final(self).entries() == Seq::<SlotEntry>::empty(),
            final(self).current_day() is None,
            final(self).today() == 0,
    {
        self.history = Vec::new();
        self.current_day = None;
        self.cumulative_today = 0;
        proof {
            assert forall|s: i64| #[trigger] slot_count(self.history@, s) <= self.days + 1 by {
                assert(self.history@.len() == 0);
            }
        }
    }

    /// The volume accumulated on the current day.
    pub fn cumulative_today(&self) -> (r: i128)
        ensures
            r == self.today(),
    {
        self.cumulative_today
    }

    /// The day and slot of `timestamp`.
    fn day_and_slot(&self, timestamp: i64) -> (r: (i64, i64))
        requires
            i64::MIN <= timestamp - self.offset() <= i64::MAX,
        ensures
            r.0 == day_of(timestamp - self.offset()),
            -0x4_0000_0000_0000 <= r.0 <= 0x8_0000_0000_0000,
            r.1 == slot_of(timestamp - self.offset()),
            0 <= r.1 < SECONDS_PER_DAY,
    {
        let shifted: i128 = timestamp as i128 - self.day_start_offset as i128;
        let lift: i128 = 86_400 * 0x4_0000_0000_0000;
        let u: u128 = (shifted + lift) as u128;
        let q: u128 = u / 86_400;
        let rem: u128 = u % 86_400;
        proof {
            vstd::arithmetic::div_mod::lemma_fundamental_div_mod(u as int, 86_400);
            vstd::arithmetic::div_mod::lemma_fundamental_div_mod_converse(
                shifted as int,
                86_400,
                q as int - 0x4_0000_0000_0000,
                rem as int,
            );
        }
        let day = (q as i128 - 0x4_0000_0000_0000) as i64;
        (day, rem as i64)
    }

    /// Feeds one bar. A bar with negative volume is ignored. A bar of a day other than the
    /// current one starts that day: the day's volume restarts and entries older than `days` days
    /// are dropped.
    pub fn on_bar(&mut self, bar: &Bar) -> (r: Option<RvatReading>)
        requires
            old(self).inv(),
            old(self).days() <= MAX_DAYS,
            old(self).days() < usize::MAX,
            i64::MIN <= bar.timestamp - old(self).offset() <= i64::MAX,
            bar.volume >= 0 ==> (if old(self).current_day() == Some(
                day_of(bar.timestamp - old(self).offset()) as i64,
            ) {
                old(self).today()
            } else {
                0
            }) + bar.volume <= MAX_DAY_VOLUME,
        ensures
            final(self).inv(),
            final(self).days() == old(self).days(),
            final(self).offset() == old(self).offset(),
            final(self).bar_seconds() == old(self).bar_seconds(),
            bar.volume < 0 ==> {
                &&& r is None
                &&& final(self).entries() == old(self).entries()
                &&& final(self).current_day() == old(self).current_day()
                &&& final(self).today() == old(self).today()
            },
            bar.volume >= 0 ==> {
                let shifted = bar.timestamp - old(self).offset();
                let day = day_of(shifted) as i64;
                let slot = slot_of(shifted) as i64;
                let fresh = old(self).current_day() != Some(day);
                let base = if fresh {
                    kept_since(old(self).entries(), day - old(self).days())
                } else {
                    old(self).entries()
                };
                let today = (if fresh {
                    0
                } else {
                    old(self).today()
                }) + bar.volume;
                let prev = earlier_in_slot(base, slot, day);
                let entry = SlotEntry { slot, day, volume: bar.volume, cumulative: today as i128 };
                &&& final(self).current_day() == Some(day)
                &&& final(self).today() == today
                &&& final(self).entries() == trimmed(base.push(entry), slot, old(self).days() + 1)
                &&& r == reading_of(prev, bar.volume, today, old(self).days())
            },
    {
        if bar.volume < 0 {
            return None;
        }
        let (day, slot) = self.day_and_slot(bar.timestamp);
        let ghost old_h = self.history@;
        let fresh = match self.current_day {
            Some(d) => d != day,
            None => true,
        };
        if fresh {
            let horizon: i64 = day - self.days as i64;
            let mut kept: Vec<SlotEntry> = Vec::new();
            let n = self.history.len();
            let mut i: usize = 0;
            while i < n
                invariant
                    0 <= i <= n,
                    n == self.history@.len(),
                    self.history@ == old_h,
                    kept@ == kept_since(old_h.subrange(0, i as int), horizon as int),
                decreases n - i,
            {
                let ghost p = old_h.subrange(0, i + 1);
                assert(p.drop_last() =~= old_h.subrange(0, i as int));
                assert(p.last() == old_h[i as int]);
                let e = self.history[i];
                if e.day >= horizon {
                    kept.push(e);
                }
                i = i + 1;
            }
            assert(old_h.subrange(0, n as int) =~= old_h);
            proof {
                assert forall|s: i64| #[trigger] slot_count(kept@, s) <= self.days + 1 by {
                    lemma_kept_since(old_h, horizon as int, s);
                }
                lemma_kept_since(old_h, horizon as int, 0);
                lemma_kept_bounded(old_h, horizon as int);
            }
            self.history = kept;
            self.current_day = Some(day);
            self.cumulative_today = 0;
        }
        let ghost base = self.history@;
        self.cumulative_today = self.cumulative_today + bar.volume as i128;
        let today = self.cumulative_today;
        // The comparison material, gathered before today's entry goes in.
        let n = self.history.len();
        let mut samples: usize = 0;
        let mut in_slot: usize = 0;
        let mut volume_sum: i128 = 0;
        let mut cumulative_sum: i128 = 0;
        let mut i: usize = 0;
        while i < n
            invariant
                0 <= i <= n,
                n == base.len(),
                self.history@ == base,
                self.days >= 1,
                self.days <= MAX_DAYS,
                self.days < usize::MAX,
                forall|k: int|
                    0 <= k < base.len() ==> 0 <= #[trigger] base[k].volume && 0
                        <= base[k].cumulative <= MAX_DAY_VOLUME,
                forall|s: i64| #[trigger] slot_count(base, s) <= self.days + 1,
                samples == earlier_in_slot(base.subrange(0, i as int), slot, day).len(),
                in_slot == slot_count(base.subrange(0, i as int), slot),
                samples <= in_slot,
                volume_sum == volume_total(earlier_in_slot(base.subrange(0, i as int), slot, day)),
                cumulative_sum == cumulative_total(
                    earlier_in_slot(base.subrange(0, i as int), slot, day),
                ),
                0 <= volume_sum <= samples * 0x8000_0000_0000_0000,
                0 <= cumulative_sum <= samples * MAX_DAY_VOLUME,
            decreases n - i,
        {
            let ghost p = base.subrange(0, i + 1);
            assert(p.drop_last() =~= base.subrange(0, i as int));
            assert(p.last() == base[i as int]);
            proof {
                lemma_slot_count_prefix(base, i + 1, slot);
            }
            let e = self.history[i];
            let ghost earlier = earlier_in_slot(base.subrange(0, i as int), slot, day);
            assert(earlier.push(e).drop_last() =~= earlier);
            if e.slot == slot {
                in_slot = in_slot + 1;
                if e.day < day {
                    samples = samples + 1;
                    volume_sum = volume_sum + e.volume as i128;
                    cumulative_sum = cumulative_sum + e.cumulative;
                }
            }
            i = i + 1;
        }
        assert(base.subrange(0, n as int) =~= base);
        let entry = SlotEntry { slot, day, volume: bar.volume, cumulative: today };
        self.history.push(entry);
        let ghost pushed = self.history@;
        proof {
            assert(pushed.drop_last() =~= base);
            assert forall|s: i64| s != slot implies #[trigger] slot_count(pushed, s) == slot_count(
                base,
                s,
            ) by {}
            assert(slot_count(pushed, slot) == in_slot + 1);
        }
        if in_slot > self.days {
            let mut j: usize = 0;
            while j < self.history.len() && self.history[j].slot != slot
                invariant
                    0 <= j <= pushed.len(),
                    self.history@ == pushed,
                    pushed[pushed.len() - 1].slot == slot,
                    forall|k: int| 0 <= k < j ==> #[trigger] pushed[k].slot != slot,
                decreases pushed.len() - j,
            {
                j = j + 1;
            }
            proof {
                assert(oldest_in_slot(pushed, slot, j as int));
                let c = choose|c: int| oldest_in_slot(pushed, slot, c);
                assert(c == j) by {
                    if c < j {
                        assert(pushed[c].slot != slot);
                    } else if c > j {
                        assert(pushed[j as int].slot != slot);
                    }
                }
                assert forall|s: i64| #[trigger] slot_count(pushed.remove(j as int), s)
                    <= self.days + 1 by {
                    lemma_slot_count_remove(pushed, j as int, s);
                }
            }
            self.history.remove(j);
        }
        proof {
            reference_is_strictly_earlier(base, slot, day);
        }
        if samples == 0 || volume_sum <= 0 || cumulative_sum <= 0 {
            return None;
        }
        Some(
            RvatReading {
                volume: bar.volume,
                cumulative: today,
                samples,
                volume_sum,
                cumulative_sum,
                complete: samples >= self.days,
            },
        )
    }
}

} // verus!
