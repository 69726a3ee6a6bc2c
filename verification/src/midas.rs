//! The lifecycle of a MIDAS Topfinder/Bottomfinder projection. After price sets a new extreme
//! (a high for a Topfinder, a low for a Bottomfinder) since launch, the projection runs from the
//! first bar that does not extend it; once `maturity_bars` such bars have passed without a new
//! extreme the projection has played out. Bars are counted only once some volume has traded
//! since launch.

use vstd::prelude::*;

use crate::bar::Bar;
use crate::choices::{MidasMode, MidasState};

verus! {

/// What one bar did to the projection.
#[derive(Debug, Clone, Copy, PartialEq, Eq)]
pub struct MidasStep {
    pub state: MidasState,
    /// The running extreme after the bar.
    pub extreme: i64,
    /// Bars since the running extreme was set; 0 on the bar that set it.
    pub bars_since_extreme: u32,
    /// The bar set a new extreme.
    pub new_extreme: bool,
    /// The new extreme came after a pullback had begun, restarting a projection.
    pub restarted: bool,
    /// The projection reached maturity on this bar.
    pub matured: bool,
}

/// Whether `bar` sets a new extreme over `extreme` (any bar does while there is none yet).
pub open spec fn beats(mode: MidasMode, extreme: Option<i64>, bar: Bar) -> bool {
    match extreme {
        None => true,
        Some(e) => match mode {
            MidasMode::Topfinder => bar.high > e,
            MidasMode::Bottomfinder => bar.low < e,
        },
    }
}

/// The price of `bar` that a `mode` projection tracks.
pub open spec fn extreme_of(mode: MidasMode, bar: Bar) -> i64 {
    match mode {
        MidasMode::Topfinder => bar.high,
        MidasMode::Bottomfinder => bar.low,
    }
}

/// The state of a projection `since` bars after its extreme: it launches on the bar that sets
/// the extreme and is exhausted from `maturity` bars on.
pub open spec fn state_after(since: int, maturity: int) -> MidasState {
    if since == 0 {
        MidasState::Launch
    } else if since >= maturity {
        MidasState::Exhausted
    } else {
        MidasState::Projecting
    }
}

/// An exhausted projection stays exhausted, and does not mature again, until a new extreme.
pub proof fn exhaustion_persists_until_new_extreme(since: int, maturity: int)
    requires
        1 <= maturity,
        0 <= since,
        state_after(since, maturity) == MidasState::Exhausted,
    ensures
        state_after(since + 1, maturity) == MidasState::Exhausted,
        since + 1 != maturity,
{
}

pub struct MidasLifecycle {
    mode: MidasMode,
    maturity_bars: u32,
    cum_volume: i128,
    extreme: Option<i64>,
    bars_since_extreme: u32,
}

impl MidasLifecycle {
    pub closed spec fn mode(&self) -> MidasMode {
        self.mode
    }

    pub closed spec fn maturity(&self) -> int {
        self.maturity_bars as int
    }

    /// The volume traded since launch.
    pub closed spec fn volume(&self) -> int {
        self.cum_volume as int
    }

    pub closed spec fn extreme(&self) -> Option<i64> {
        self.extreme
    }

    pub closed spec fn since(&self) -> int {
        self.bars_since_extreme as int
    }

    pub closed spec fn inv(&self) -> bool {
        &&& self.maturity_bars >= 1
        &&& self.extreme is None ==> self.bars_since_extreme == 0
    }

    /// A projection that matures `maturity_bars` bars after its extreme (at least one).
    pub fn new(mode: MidasMode, maturity_bars: u32) -> (r: Self)
        ensures
            r.inv(),
            r.mode() == mode,
            r.maturity() == if maturity_bars == 0 {
                1
            } else {
                maturity_bars as int
            },
            r.volume() == 0,
            r.extreme() is None,
            r.since() == 0,
    {
        let maturity_bars = if maturity_bars == 0 {
            1
        } else {
            maturity_bars
        };
        MidasLifecycle { mode, maturity_bars, cum_volume: 0, extreme: None, bars_since_extreme: 0 }
    }

    /// Maturity after 20 bars.
    pub fn with_defaults(mode: MidasMode) -> (r: Self)
        ensures
            r.inv(),
            r.mode() == mode,
            r.maturity() == 20,
            r.volume() == 0,
            r.extreme() is None,
            r.since() == 0,
    {
        Self::new(mode, 20)
    }

    pub fn name(&self) -> (r: &'static str)
        ensures
            r@ == "midas"@,
    {
        "midas"
    }

    pub fn reset(&mut self)
        requires
            old(self).inv(),
        ensures
            final(self).inv(),
            final(self).mode() == old(self).mode(),
            final(self).maturity() == old(self).maturity(),
            final(self).volume() == 0,
            final(self).extreme() is None,
            final(self).since() == 0,
    {
        self.cum_volume = 0;
        self.extreme = None;
        self.bars_since_extreme = 0;
    }

    /// Feeds one bar. `None` while no volume has traded since launch; otherwise where the
    /// projection stands after the bar.
    pub fn on_bar(&mut self, bar: &Bar) -> (r: Option<MidasStep>)
        requires
            old(self).inv(),
            i128::MIN <= old(self).volume() + bar.volume <= i128::MAX,
            old(self).volume() + bar.volume > 0 && !beats(old(self).mode(), old(self).extreme(), *bar)
                ==> old(self).since() < u32::MAX,
        ensures
            final(self).inv(),
            final(self).mode() == old(self).mode(),
            final(self).maturity() == old(self).maturity(),
            final(self).volume() == old(self).volume() + bar.volume,
            final(self).volume() <= 0 ==> {
                &&& r is None
                &&& final(self).extreme() == old(self).extreme()
                &&& final(self).since() == old(self).since()
            },
            final(self).volume() > 0 ==> {
                let mode = old(self).mode();
                let fresh = beats(mode, old(self).extreme(), *bar);
                let ext = if fresh {
                    extreme_of(mode, *bar)
                } else {
                    old(self).extreme()->0
                };
                let since = if fresh {
                    0
                } else {
                    old(self).since() + 1
                };
                &&& final(self).extreme() == Some(ext)
                &&& final(self).since() == since
                &&& r == Some(
                    MidasStep {
                        state: state_after(since, old(self).maturity()),
                        extreme: ext,
                        bars_since_extreme: since as u32,
                        new_extreme: fresh,
                        restarted: fresh && old(self).since() > 0,
                        matured: since == old(self).maturity(),
                    },
                )
            },
    {
        self.cum_volume = self.cum_volume + bar.volume as i128;
        if self.cum_volume <= 0 {
            return None;
        }
        let had_pullback = self.bars_since_extreme > 0;
        let fresh = match self.extreme {
            None => true,
            Some(e) => match self.mode {
                MidasMode::Topfinder => bar.high > e,
                MidasMode::Bottomfinder => bar.low < e,
            },
        };
        let ext = if fresh {
            let price = match self.mode {
                MidasMode::Topfinder => bar.high,
                MidasMode::Bottomfinder => bar.low,
            };
            self.extreme = Some(price);
            self.bars_since_extreme = 0;
            price
        } else {
            self.bars_since_extreme = self.bars_since_extreme + 1;
            match self.extreme {
                Some(e) => e,
                None => bar.high,
            }
        };
        let since = self.bars_since_extreme;
        let state = if since == 0 {
            MidasState::Launch
        } else if since >= self.maturity_bars {
            MidasState::Exhausted
        } else {
            MidasState::Projecting
        };
        Some(
            MidasStep {
                state,
                extreme: ext,
                bars_since_extreme: since,
                new_extreme: fresh,
                restarted: fresh && had_pullback,
                matured: since == self.maturity_bars,
            },
        )
    }
}

} // verus!
