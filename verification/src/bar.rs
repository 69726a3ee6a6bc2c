//! Price bars in integer ticks.

use vstd::prelude::*;

verus! {

/// One OHLCV bar. Prices are integer ticks of the instrument, so every comparison and every
/// difference between them is exact.
#[derive(Debug, Clone, Copy, PartialEq, Eq)]
pub struct Bar {
    pub timestamp: i64,
    pub open: i64,
    pub high: i64,
    pub low: i64,
    pub close: i64,
    pub volume: i64,
}

impl Bar {
    pub fn new(timestamp: i64, open: i64, high: i64, low: i64, close: i64, volume: i64) -> (r: Self)
        ensures
            r == (Bar { timestamp, open, high, low, close, volume }),
    {
        Bar { timestamp, open, high, low, close, volume }
    }
}

/// Appends `b` to the rolling window `w` and drops the oldest bar once it holds more than `cap`.
pub open spec fn slide(w: Seq<Bar>, b: Bar, cap: int) -> Seq<Bar> {
    let p = w.push(b);
    if p.len() > cap {
        p.drop_first()
    } else {
        p
    }
}

/// Appends `bar` to `window`, dropping the oldest bar once the window holds more than `cap`.
pub fn slide_window(window: &mut Vec<Bar>, bar: Bar, cap: usize)
    requires
        old(window)@.len() <= cap,
    ensures
        final(window)@ == slide(old(window)@, bar, cap as int),
        final(window)@.len() <= cap || cap == 0 && final(window)@.len() == 0,
{
    let ghost pushed = window@.push(bar);
    window.push(bar);
    if window.len() > cap {
        window.remove(0);
        assert(window@ =~= pushed.drop_first());
    }
}

} // verus!
