//! Smart-money structure: liquidity pool classification and the cross-detector linker that
//! correlates alert streams within a trailing window.

use vstd::prelude::*;

use std::collections::VecDeque;

use crate::bar::Bar;
use crate::text::same_text;

verus! {

/// Buy-side liquidity (`Bsl`) rests above swing highs, sell-side liquidity (`Ssl`) below swing
/// lows.
#[derive(Debug, Clone, Copy, PartialEq, Eq, Structural)]
pub enum LiquidityPoolKind {
    Bsl,
    Ssl,
}

/// Lifecycle state of a liquidity pool: a stop hunt (price pierced the pool, then closed back
/// inside) is kept apart from a breakout (price pierced and closed beyond), and a reclaim is a
/// prior breakout that later reversed back through the level.
#[derive(Debug, Clone, Copy, PartialEq, Eq, Structural)]
pub enum LiquidityPoolState {
    Active,
    StopHunted,
    BrokenThrough,
    Reclaimed,
}

/// How a bar met a pool's level: whether it pierced the level (traded above a buy-side pool,
/// below a sell-side one) and whether it closed back on the pool's side of it.
#[derive(Debug, Clone, Copy, PartialEq, Eq)]
pub struct PoolEvent {
    pub pierced: bool,
    pub closed_back: bool,
}

/// What a pool's transition is reported as.
#[derive(Debug, Clone, Copy, PartialEq, Eq, Structural)]
pub enum PoolAlert {
    StopHunt,
    Breakout,
    Reclaim,
}

impl PoolAlert {
    /// The alert kind under which the transition is reported.
    pub fn kind(&self) -> (r: &'static str)
        ensures
            r@ == match *self {
                PoolAlert::StopHunt => "liquidity_pool_stop_hunt"@,
                PoolAlert::Breakout => "liquidity_pool_breakout"@,
                PoolAlert::Reclaim => "liquidity_pool_reclaim"@,
            },
    {
        match self {
            PoolAlert::StopHunt => "liquidity_pool_stop_hunt",
            PoolAlert::Breakout => "liquidity_pool_breakout",
            PoolAlert::Reclaim => "liquidity_pool_reclaim",
        }
    }
}

/// A pool's lifecycle: an active pool that is pierced is stop-hunted if the bar closes back,
/// broken through otherwise; a broken-through pool that price closes back through is reclaimed.
/// Stop-hunted and reclaimed pools stay as they are.
pub open spec fn pool_next(state: LiquidityPoolState, e: PoolEvent) -> (
    LiquidityPoolState,
    Option<PoolAlert>,
) {
    match state {
        LiquidityPoolState::Active => if e.pierced {
            if e.closed_back {
                (LiquidityPoolState::StopHunted, Some(PoolAlert::StopHunt))
            } else {
                (LiquidityPoolState::BrokenThrough, Some(PoolAlert::Breakout))
            }
        } else {
            (LiquidityPoolState::Active, None)
        },
        LiquidityPoolState::BrokenThrough => if e.closed_back {
            (LiquidityPoolState::Reclaimed, Some(PoolAlert::Reclaim))
        } else {
            (LiquidityPoolState::BrokenThrough, None)
        },
        _ => (state, None),
    }
}

/// The pool's next state on a bar, and the alert it raises; see [`pool_next`].
pub fn pool_transition(state: LiquidityPoolState, event: PoolEvent) -> (r: (
    LiquidityPoolState,
    Option<PoolAlert>,
))
    ensures
        r == pool_next(state, event),
{
    match state {
        LiquidityPoolState::Active => {
            if event.pierced {
                if event.closed_back {
                    (LiquidityPoolState::StopHunted, Some(PoolAlert::StopHunt))
                } else {
                    (LiquidityPoolState::BrokenThrough, Some(PoolAlert::Breakout))
                }
            } else {
                (LiquidityPoolState::Active, None)
            }
        },
        LiquidityPoolState::BrokenThrough => {
            if event.closed_back {
                (LiquidityPoolState::Reclaimed, Some(PoolAlert::Reclaim))
            } else {
                (LiquidityPoolState::BrokenThrough, None)
            }
        },
        _ => (state, None),
    }
}

/// The pool's state after a run of bars.
pub open spec fn pool_after(state: LiquidityPoolState, events: Seq<PoolEvent>) -> LiquidityPoolState
    decreases events.len(),
{
    if events.len() == 0 {
        state
    } else {
        pool_after(pool_next(state, events[0]).0, events.drop_first())
    }
}

/// A pool never returns to being active once it has been pierced, a stop hunt and a reclaim are
/// final, and only a pool that broke through can be reclaimed: whatever bars follow, a
/// stop-hunted or reclaimed pool keeps its state and a broken-through one ends broken through or
/// reclaimed.
pub proof fn pool_lifecycle_only_advances(state: LiquidityPoolState, events: Seq<PoolEvent>)
    ensures
        state == LiquidityPoolState::StopHunted || state == LiquidityPoolState::Reclaimed
            ==> pool_after(state, events) == state,
        state == LiquidityPoolState::BrokenThrough ==> pool_after(state, events)
            == LiquidityPoolState::BrokenThrough || pool_after(state, events)
            == LiquidityPoolState::Reclaimed,
        state != LiquidityPoolState::Active ==> pool_after(state, events)
            != LiquidityPoolState::Active,
    decreases events.len(),
{
    if events.len() > 0 {
        pool_lifecycle_only_advances(pool_next(state, events[0]).0, events.drop_first());
    }
}

/// Whether the middle bar of `bars`, at `mid`, is a swing high (no other bar higher) and a swing
/// low (no other bar lower); equal extremes do not disqualify it.
pub fn window_pivots(bars: &[Bar], mid: usize) -> (r: (bool, bool))
    requires
        mid < bars@.len(),
    ensures
        r.0 == forall|i: int| 0 <= i < bars@.len() && i != mid ==> #[trigger] bars@[i].high
            <= bars@[mid as int].high,
        r.1 == forall|i: int| 0 <= i < bars@.len() && i != mid ==> #[trigger] bars@[i].low
            >= bars@[mid as int].low,
{
    let m = bars[mid];
    let mut high = true;
    let mut low = true;
    let mut i: usize = 0;
    while i < bars.len()
        invariant
            i <= bars@.len(),
            mid < bars@.len(),
            m == bars@[mid as int],
            high == forall|k: int| 0 <= k < i && k != mid ==> #[trigger] bars@[k].high <= m.high,
            low == forall|k: int| 0 <= k < i && k != mid ==> #[trigger] bars@[k].low >= m.low,
        decreases bars@.len() - i,
    {
        if i != mid {
            if bars[i].high > m.high {
                high = false;
            }
            if bars[i].low < m.low {
                low = false;
            }
        }
        i = i + 1;
    }
    (high, low)
}

/// Which structural family an alert kind belongs to, for correlation purposes. Declared in the
/// order in which a linked event lists them.
#[derive(Debug, Clone, Copy, PartialEq, Eq, PartialOrd, Ord, Structural)]
pub enum StructureCategory {
    Break,
    Liquidity,
    OrderBlock,
    Fvg,
}

/// The family of an alert kind, or `None` for kinds outside the four families.
pub open spec fn category_of(kind: Seq<char>) -> Option<StructureCategory> {
    if kind == "structure_break"@ {
        Some(StructureCategory::Break)
    } else if kind == "sweep"@ || kind == "liquidity_pool_stop_hunt"@ || kind
        == "liquidity_pool_breakout"@ || kind == "liquidity_pool_reclaim"@ || kind
        == "bullish_liquidity_sweep"@ || kind == "bearish_liquidity_sweep"@ {
        Some(StructureCategory::Liquidity)
    } else if kind == "bullish_order_block"@ || kind == "bearish_order_block"@ || kind
        == "ob_retest_bullish"@ || kind == "ob_retest_bearish"@ {
        Some(StructureCategory::OrderBlock)
    } else if kind == "bullish_fvg"@ || kind == "bearish_fvg"@ || kind == "fvg_filled"@ {
        Some(StructureCategory::Fvg)
    } else {
        None
    }
}

/// The structural family of an alert kind.
pub fn categorize(kind: &str) -> (r: Option<StructureCategory>)
    ensures
        r == category_of(kind@),
{
    if same_text(kind, "structure_break") {
        Some(StructureCategory::Break)
    } else if same_text(kind, "sweep") || same_text(kind, "liquidity_pool_stop_hunt") || same_text(
        kind,
        "liquidity_pool_breakout",
    ) || same_text(kind, "liquidity_pool_reclaim") || same_text(kind, "bullish_liquidity_sweep")
        || same_text(kind, "bearish_liquidity_sweep") {
        Some(StructureCategory::Liquidity)
    } else if same_text(kind, "bullish_order_block") || same_text(kind, "bearish_order_block")
        || same_text(kind, "ob_retest_bullish") || same_text(kind, "ob_retest_bearish") {
        Some(StructureCategory::OrderBlock)
    } else if same_text(kind, "bullish_fvg") || same_text(kind, "bearish_fvg") || same_text(
        kind,
        "fvg_filled",
    ) {
        Some(StructureCategory::Fvg)
    } else {
        None
    }
}


/// A confirmed cross-detector confluence: a structure break co-occurring, within the linker's
/// window, with corroborating evidence from at least one other family.
#[derive(Debug, Clone, PartialEq)]
pub struct LinkedStructureEvent {
    pub timestamp: i64,
    /// The families present in the window, each once, in declaration order.
    pub categories: Vec<StructureCategory>,
    /// Every alert kind in the window, oldest first.
    pub kinds: Vec<String>,
}

impl LinkedStructureEvent {
    /// How many of the four families corroborate, in quarters: the confluence score is this
    /// number divided by four, and never exceeds one.
    pub fn confluence_quarters(&self) -> (r: usize)
        ensures
            r == self.categories@.len(),
    {
        self.categories.len()
    }
}

/// One recorded alert: the bar it was observed at, and its kind.
pub open spec fn event_view(e: (i64, String)) -> (int, Seq<char>) {
    (e.0 as int, e.1@)
}

/// Drops events from the front while they lie more than `window` bars before `now`.
pub open spec fn prune(s: Seq<(int, Seq<char>)>, now: int, window: int) -> Seq<(int, Seq<char>)>
    decreases s.len(),
{
    if s.len() > 0 && now - s[0].0 > window {
        prune(s.drop_first(), now, window)
    } else {
        s
    }
}

/// The event belongs to family `c`.
pub open spec fn in_family(e: (int, Seq<char>), c: StructureCategory) -> bool {
    category_of(e.1) == Some(c)
}

/// The event is a structure break recorded at exactly `now`.
pub open spec fn is_break_event(e: (int, Seq<char>), now: int) -> bool {
    e.0 == now && category_of(e.1) == Some(StructureCategory::Break)
}

/// Some event among the first `n` of `h` belongs to family `c`.
pub open spec fn has_category_before(h: Seq<(int, Seq<char>)>, c: StructureCategory, n: int) -> bool {
    exists|i: int| 0 <= i < n && in_family(#[trigger] h[i], c)
}

/// Some event in `h` belongs to family `c`.
pub open spec fn has_category(h: Seq<(int, Seq<char>)>, c: StructureCategory) -> bool {
    has_category_before(h, c, h.len() as int)
}

/// Some event among the first `n` of `h` is a structure break at `now`.
pub open spec fn break_before(h: Seq<(int, Seq<char>)>, now: int, n: int) -> bool {
    exists|i: int| 0 <= i < n && is_break_event(#[trigger] h[i], now)
}

/// A structure break was recorded at exactly `now`.
pub open spec fn break_at(h: Seq<(int, Seq<char>)>, now: int) -> bool {
    break_before(h, now, h.len() as int)
}

/// The families present in `h`, each once, in declaration order.
pub open spec fn present_categories(h: Seq<(int, Seq<char>)>) -> Seq<StructureCategory> {
    let s0 = Seq::<StructureCategory>::empty();
    let s1 = if has_category(h, StructureCategory::Break) {
        s0.push(StructureCategory::Break)
    } else {
        s0
    };
    let s2 = if has_category(h, StructureCategory::Liquidity) {
        s1.push(StructureCategory::Liquidity)
    } else {
        s1
    };
    let s3 = if has_category(h, StructureCategory::OrderBlock) {
        s2.push(StructureCategory::OrderBlock)
    } else {
        s2
    };
    if has_category(h, StructureCategory::Fvg) {
        s3.push(StructureCategory::Fvg)
    } else {
        s3
    }
}

/// What `check_confluence` answers for the history `h` at bar `now`.
pub open spec fn confluence(h: Seq<(int, Seq<char>)>, now: int) -> bool {
    break_at(h, now) && present_categories(h).len() >= 2
}

/// Correlates alert streams from independently running detectors within a trailing bar window,
/// without depending on their internal types: any detector's alert kinds can feed it.
pub struct SmartMoneyStructureLinker {
    window_bars: i64,
    events: VecDeque<(i64, String)>,
}

impl SmartMoneyStructureLinker {
    /// The trailing window, in bars.
    pub closed spec fn window(&self) -> int {
        self.window_bars as int
    }

    /// The recorded events, oldest first.
    pub closed spec fn history(&self) -> Seq<(int, Seq<char>)> {
        self.events@.map_values(|e: (i64, String)| event_view(e))
    }

    /// A linker with the given window (at least one bar) and no history.
    pub fn new(window_bars: i64) -> (r: Self)
        ensures
            r.window() == if window_bars >= 1 {
                window_bars as int
            } else {
                1
            },
            r.history() == Seq::<(int, Seq<char>)>::empty(),
    {
        let w = if window_bars >= 1 {
            window_bars
        } else {
            1
        };
        let r = SmartMoneyStructureLinker { window_bars: w, events: VecDeque::new() };
        assert(r.history() =~= Seq::<(int, Seq<char>)>::empty());
        r
    }

    /// Forgets the history; the window stays.
    pub fn reset(&mut self)
        ensures
            final(self).window() == old(self).window(),
            final(self).history() == Seq::<(int, Seq<char>)>::empty(),
    {
        self.events = VecDeque::new();
        assert(self.history() =~= Seq::<(int, Seq<char>)>::empty());
    }

    /// Records the alert kinds observed at `timestamp` and prunes every event older than the
    /// window.
    pub fn observe(&mut self, timestamp: i64, alert_kinds: &[String])
        ensures
            final(self).window() == old(self).window(),
            final(self).history() == prune(
                old(self).history() + alert_kinds@.map_values(|k: String| (timestamp as int, k@)),
                timestamp as int,
                old(self).window(),
            ),
    {
        let ghost added = alert_kinds@.map_values(|k: String| (timestamp as int, k@));
        let n = alert_kinds.len();
        let mut i: usize = 0;
        while i < n
            invariant
                n == alert_kinds@.len(),
                i <= n,
                added == alert_kinds@.map_values(|k: String| (timestamp as int, k@)),
                self.window_bars == old(self).window_bars,
                self.history() == old(self).history() + added.subrange(0, i as int),
            decreases n - i,
        {
            let ghost before = self.history();
            let kind = alert_kinds[i].clone();
            self.events.push_back((timestamp, kind));
            assert(self.history() =~= before.push((timestamp as int, alert_kinds@[i as int]@)));
            assert(added.subrange(0, i + 1) =~= added.subrange(0, i as int).push(
                (timestamp as int, alert_kinds@[i as int]@),
            ));
            assert(self.history() =~= old(self).history() + added.subrange(0, i + 1));
            i = i + 1;
        }
        assert(added.subrange(0, n as int) =~= added);
        loop
            invariant
                self.window_bars == old(self).window_bars,
                prune(self.history(), timestamp as int, self.window()) == prune(
                    old(self).history() + added,
                    timestamp as int,
                    old(self).window(),
                ),
            ensures
                self.window_bars == old(self).window_bars,
                self.history() == prune(
                    old(self).history() + added,
                    timestamp as int,
                    old(self).window(),
                ),
            decreases self.events@.len(),
        {
            if self.events.len() == 0 {
                break;
            }
            let front_ts = self.events[0].0;
            if timestamp as i128 - front_ts as i128 > self.window_bars as i128 {
                let ghost before = self.history();
                let _ = self.events.pop_front();
                assert(self.history() =~= before.drop_first());
            } else {
                break;
            }
        }
    }

    /// Call after `observe` for `timestamp`: if a structure break was recorded exactly at
    /// `timestamp` and at least one other family co-occurred within the window, returns the
    /// linked event.
    pub fn check_confluence(&self, timestamp: i64) -> (r: Option<LinkedStructureEvent>)
        ensures
            r.is_some() == confluence(self.history(), timestamp as int),
            r matches Some(e) ==> {
                &&& e.timestamp == timestamp
                &&& e.categories@ == present_categories(self.history())
                &&& e.kinds@.map_values(|k: String| k@) == self.history().map_values(
                    |h: (int, Seq<char>)| h.1,
                )
            },
    {
        let ghost h = self.history();
        let n = self.events.len();
        let mut break_now = false;
        let mut has_break = false;
        let mut has_liquidity = false;
        let mut has_order_block = false;
        let mut has_fvg = false;
        let mut kinds: Vec<String> = Vec::new();
        let mut i: usize = 0;
        while i < n
            invariant
                n == h.len(),
                h == self.history(),
                i <= n,
                break_now == break_before(h, timestamp as int, i as int),
                has_break == has_category_before(h, StructureCategory::Break, i as int),
                has_liquidity == has_category_before(h, StructureCategory::Liquidity, i as int),
                has_order_block == has_category_before(h, StructureCategory::OrderBlock, i as int),
                has_fvg == has_category_before(h, StructureCategory::Fvg, i as int),
                kinds@.map_values(|k: String| k@) == h.subrange(0, i as int).map_values(
                    |e: (int, Seq<char>)| e.1,
                ),
            decreases n - i,
        {
            let entry = &self.events[i];
            assert(h[i as int] == event_view(self.events@[i as int]));
            let c = categorize(entry.1.as_str());
            let is_break = match c {
                Some(StructureCategory::Break) => true,
                _ => false,
            };
            let ghost prev_kinds = kinds@;
            if is_break && entry.0 == timestamp {
                break_now = true;
            }
            match c {
                Some(StructureCategory::Break) => {
                    has_break = true;
                },
                Some(StructureCategory::Liquidity) => {
                    has_liquidity = true;
                },
                Some(StructureCategory::OrderBlock) => {
                    has_order_block = true;
                },
                Some(StructureCategory::Fvg) => {
                    has_fvg = true;
                },
                None => {},
            }
            kinds.push(entry.1.clone());
            assert(is_break_event(h[i as int], timestamp as int) == (is_break && entry.0 == timestamp));
            assert(break_now == break_before(h, timestamp as int, i + 1));
            assert(has_break == has_category_before(h, StructureCategory::Break, i + 1));
            assert(has_liquidity == has_category_before(h, StructureCategory::Liquidity, i + 1));
            assert(has_order_block == has_category_before(h, StructureCategory::OrderBlock, i + 1));
            assert(has_fvg == has_category_before(h, StructureCategory::Fvg, i + 1));
            assert(kinds@.map_values(|k: String| k@) =~= prev_kinds.map_values(|k: String| k@).push(
                h[i as int].1,
            ));
            assert(h.subrange(0, i + 1).map_values(|e: (int, Seq<char>)| e.1) =~= h.subrange(
                0,
                i as int,
            ).map_values(|e: (int, Seq<char>)| e.1).push(h[i as int].1));
            i = i + 1;
        }
        assert(h.subrange(0, n as int) =~= h);
        assert(break_now == break_at(h, timestamp as int));
        assert(has_break == has_category(h, StructureCategory::Break));
        assert(has_liquidity == has_category(h, StructureCategory::Liquidity));
        assert(has_order_block == has_category(h, StructureCategory::OrderBlock));
        assert(has_fvg == has_category(h, StructureCategory::Fvg));
        if !break_now {
            return None;
        }
        let mut categories: Vec<StructureCategory> = Vec::new();
        if has_break {
            categories.push(StructureCategory::Break);
        }
        if has_liquidity {
            categories.push(StructureCategory::Liquidity);
        }
        if has_order_block {
            categories.push(StructureCategory::OrderBlock);
        }
        if has_fvg {
            categories.push(StructureCategory::Fvg);
        }
        assert(categories@ =~= present_categories(h));
        if categories.len() < 2 {
            return None;
        }
        Some(LinkedStructureEvent { timestamp, categories, kinds })
    }
}

/// A fair value gap zone followed until it fills.
#[derive(Debug, Clone, Copy, PartialEq, Eq)]
pub struct FvgZone {
    pub is_bullish: bool,
    pub top: i64,
    pub bottom: i64,
    pub formed_at: i64,
    pub filled: bool,
}

/// A zone fills when a bar trades back into it: down to its top for a bullish zone, up to its
/// bottom for a bearish one.
pub open spec fn touches(z: FvgZone, b: Bar) -> bool {
    if z.is_bullish {
        b.low <= z.top
    } else {
        b.high >= z.bottom
    }
}

/// The zone after `b`: filled once touched, and filled for good.
pub open spec fn after_bar(z: FvgZone, b: Bar) -> FvgZone {
    FvgZone { filled: z.filled || touches(z, b), ..z }
}

/// Tracks fair value gap zones as persistent objects and marks them filled once price trades
/// back through them.
pub struct FvgZoneTracker {
    zones: Vec<FvgZone>,
}

impl FvgZoneTracker {
    pub closed spec fn held(&self) -> Seq<FvgZone> {
        self.zones@
    }

    pub fn new() -> (r: Self)
        ensures
            r.held() == Seq::<FvgZone>::empty(),
    {
        FvgZoneTracker { zones: Vec::new() }
    }

    /// Registers a newly detected gap, unfilled.
    pub fn register(&mut self, is_bullish: bool, top: i64, bottom: i64, formed_at: i64)
        ensures
            final(self).held() == old(self).held().push(
                FvgZone { is_bullish, top, bottom, formed_at, filled: false },
            ),
    {
        self.zones.push(FvgZone { is_bullish, top, bottom, formed_at, filled: false });
    }

    /// The zones held, in registration order.
    pub fn zones(&self) -> (r: &[FvgZone])
        ensures
            r@ == self.held(),
    {
        self.zones.as_slice()
    }

    pub fn reset(&mut self)
        ensures
            final(self).held() == Seq::<FvgZone>::empty(),
    {
        self.zones = Vec::new();
    }

    /// Feeds a bar, marking every unfilled zone the bar traded back into as filled. Returns the
    /// zones newly filled by this bar, in registration order.
    pub fn on_bar(&mut self, bar: &Bar) -> (r: Vec<FvgZone>)
        ensures
            final(self).held().len() == old(self).held().len(),
            forall|i: int|
                0 <= i < old(self).held().len() ==> #[trigger] final(self).held()[i]
                    == after_bar(old(self).held()[i], *bar),
            r@ == newly_filled(old(self).held(), *bar),
    {
        let ghost before = self.zones@;
        let mut filled_now: Vec<FvgZone> = Vec::new();
        let n = self.zones.len();
        let mut i: usize = 0;
        while i < n
            invariant
                n == before.len(),
                self.zones@.len() == n,
                i <= n,
                forall|j: int| 0 <= j < i ==> #[trigger] self.zones@[j] == after_bar(before[j], *bar),
                forall|j: int| i <= j < n ==> #[trigger] self.zones@[j] == before[j],
                filled_now@ == newly_filled(before.subrange(0, i as int), *bar),
            decreases n - i,
        {
            let z = self.zones[i];
            assert(before.subrange(0, i + 1).drop_last() =~= before.subrange(0, i as int));
            let touched = if z.is_bullish {
                bar.low <= z.top
            } else {
                bar.high >= z.bottom
            };
            if !z.filled && touched {
                let f = FvgZone { filled: true, ..z };
                self.zones.set(i, f);
                filled_now.push(f);
            }
            i = i + 1;
        }
        assert(before.subrange(0, n as int) =~= before);
        filled_now
    }
}

/// The zones of `s` that `b` fills for the first time, as they read once filled.
pub open spec fn newly_filled(s: Seq<FvgZone>, b: Bar) -> Seq<FvgZone>
    decreases s.len(),
{
    if s.len() == 0 {
        Seq::empty()
    } else {
        let k = newly_filled(s.drop_last(), b);
        if !s.last().filled && touches(s.last(), b) {
            k.push(after_bar(s.last(), b))
        } else {
            k
        }
    }
}

/// Filling is permanent: a zone once filled stays filled whatever bars follow.
pub proof fn filled_zones_stay_filled(z: FvgZone, b: Bar)
    requires
        z.filled,
    ensures
        after_bar(z, b) == z,
{
}

/// The events are recorded in time order.
pub open spec fn time_ordered(s: Seq<(int, Seq<char>)>) -> bool {
    forall|i: int, j: int| 0 <= i <= j < s.len() ==> #[trigger] s[i].0 <= #[trigger] s[j].0
}

/// Pruning keeps a suffix of the history, and when the history is in time order every event it
/// keeps lies within the window of `now`.
pub proof fn pruned_history_lies_within_window(s: Seq<(int, Seq<char>)>, now: int, window: int)
    requires
        time_ordered(s),
    ensures
        prune(s, now, window).len() <= s.len(),
        s.subrange(s.len() - prune(s, now, window).len(), s.len() as int) == prune(s, now, window),
        forall|i: int|
            0 <= i < prune(s, now, window).len() ==> now - #[trigger] prune(s, now, window)[i].0
                <= window,
    decreases s.len(),
{
    if s.len() > 0 && now - s[0].0 > window {
        let t = s.drop_first();
        assert(time_ordered(t)) by {
            assert forall|i: int, j: int| 0 <= i <= j < t.len() implies #[trigger] t[i].0
                <= #[trigger] t[j].0 by {
                assert(t[i] == s[i + 1]);
                assert(t[j] == s[j + 1]);
            }
        }
        pruned_history_lies_within_window(t, now, window);
        assert(s.subrange(s.len() - prune(t, now, window).len(), s.len() as int) =~= t.subrange(
            t.len() - prune(t, now, window).len(),
            t.len() as int,
        ));
    } else {
        assert(s.subrange(0, s.len() as int) =~= s);
        if s.len() > 0 {
            assert forall|i: int| 0 <= i < s.len() implies now - #[trigger] s[i].0 <= window by {
                assert(s[0].0 <= s[i].0);
            }
        }
    }
}

} // verus!
