//! The decisions of the Chandelier flip radar: the direction it holds, the risk state it
//! reports and the signals it raises, given how the bar met the previous stops.

use vstd::prelude::*;

verus! {

/// The label of a risk state: positive while long, negative while short, and the closer to zero
/// the nearer price sits to the active stop.
pub open spec fn risk_label(state: i32) -> Seq<char> {
    if state == 3 {
        "long_healthy"@
    } else if state == 2 {
        "long_caution"@
    } else if state == 1 {
        "long_danger"@
    } else if state == -1 {
        "short_danger"@
    } else if state == -2 {
        "short_caution"@
    } else {
        "short_healthy"@
    }
}

/// The label of the risk state `state` (`-3..=3`); every other value reads as short and healthy.
pub fn state_label(state: i32) -> (r: &'static str)
    ensures
        r@ == risk_label(state),
{
    match state {
        3 => "long_healthy",
        2 => "long_caution",
        1 => "long_danger",
        -1 => "short_danger",
        -2 => "short_caution",
        _ => "short_healthy",
    }
}


/// The side the radar is on.
#[derive(Debug, Clone, Copy, PartialEq, Eq, Structural)]
pub enum FlipDirection {
    Long,
    Short,
}

/// How a bar met the previous bar's stops and the short average, as the comparisons the radar
/// decides on. The stops, distances and averages themselves are measured elsewhere.
#[derive(Debug, Clone, Copy, PartialEq, Eq)]
pub struct FlipObservation {
    /// The close is above the previous short stop.
    pub above_short_stop: bool,
    /// The close is below the previous long stop.
    pub below_long_stop: bool,
    /// The body is large enough for a real flip (or the body filter is off).
    pub body_ok: bool,
    /// The close is nearer the active stop than the danger distance.
    pub danger: bool,
    /// The close is nearer the active stop than the warning distance.
    pub warn: bool,
    /// The close is below the short average.
    pub below_average: bool,
    /// The close is above the short average.
    pub above_average: bool,
    /// The high reached above the previous short stop.
    pub wick_above_short_stop: bool,
    /// The low reached below the previous long stop.
    pub wick_below_long_stop: bool,
}

/// The radar's decision on one bar.
#[derive(Debug, Clone, Copy, PartialEq, Eq)]
pub struct FlipStep {
    pub direction: FlipDirection,
    /// The risk state: `3, 2, 1` long healthy, caution, danger; `-3, -2, -1` likewise short.
    pub state: i32,
    pub flipped_long: bool,
    pub flipped_short: bool,
    /// A close through the short stop that the body filter did not accept.
    pub weak_long: bool,
    /// A close through the long stop that the body filter did not accept.
    pub weak_short: bool,
    /// A wick above the short stop that closed back below it, while short.
    pub bull_trap: bool,
    /// A wick below the long stop that closed back above it, while long.
    pub bear_trap: bool,
}

/// A close through the opposite stop with an accepted body flips the direction, long first; the
/// risk state follows the distance to the active stop and, short of danger or warning, whether
/// price pulled back through the short average against the direction.
pub open spec fn flip_next(direction: FlipDirection, o: FlipObservation) -> FlipStep {
    let flip_long = o.above_short_stop && o.body_ok;
    let flip_short = o.below_long_stop && o.body_ok;
    let d = if flip_long {
        FlipDirection::Long
    } else if flip_short {
        FlipDirection::Short
    } else {
        direction
    };
    let warn = !o.danger && o.warn;
    let state: i32 = if d == FlipDirection::Long {
        if o.danger {
            1
        } else if warn || o.below_average {
            2
        } else {
            3
        }
    } else if o.danger {
        -1i32
    } else if warn || o.above_average {
        -2i32
    } else {
        -3i32
    };
    FlipStep {
        direction: d,
        state,
        flipped_long: d == FlipDirection::Long && direction == FlipDirection::Short,
        flipped_short: d == FlipDirection::Short && direction == FlipDirection::Long,
        weak_long: d == FlipDirection::Short && o.above_short_stop && !o.body_ok,
        weak_short: d == FlipDirection::Long && o.below_long_stop && !o.body_ok,
        bull_trap: d == FlipDirection::Short && o.wick_above_short_stop && !o.above_short_stop,
        bear_trap: d == FlipDirection::Long && o.wick_below_long_stop && !o.below_long_stop,
    }
}

/// The radar's decision on one bar; see [`flip_next`].
pub fn flip_step(direction: FlipDirection, o: FlipObservation) -> (r: FlipStep)
    ensures
        r == flip_next(direction, o),
{
    let flip_long = o.above_short_stop && o.body_ok;
    let flip_short = o.below_long_stop && o.body_ok;
    let d = if flip_long {
        FlipDirection::Long
    } else if flip_short {
        FlipDirection::Short
    } else {
        direction
    };
    let long = match d {
        FlipDirection::Long => true,
        FlipDirection::Short => false,
    };
    let was_long = match direction {
        FlipDirection::Long => true,
        FlipDirection::Short => false,
    };
    let warn = !o.danger && o.warn;
    let state: i32 = if long {
        if o.danger {
            1
        } else if warn || o.below_average {
            2
        } else {
            3
        }
    } else if o.danger {
        -1
    } else if warn || o.above_average {
        -2
    } else {
        -3
    };
    FlipStep {
        direction: d,
        state,
        flipped_long: long && !was_long,
        flipped_short: !long && was_long,
        weak_long: !long && o.above_short_stop && !o.body_ok,
        weak_short: long && o.below_long_stop && !o.body_ok,
        bull_trap: !long && o.wick_above_short_stop && !o.above_short_stop,
        bear_trap: long && o.wick_below_long_stop && !o.below_long_stop,
    }
}

/// The risk state grades the distance to the active stop and, short of danger or warning, a
/// pullback through the short average against the direction. Long: danger gives 1; a warning or
/// a close below the average gives 2; anything else 3. Short: danger gives -1; a warning or a
/// close above the average gives -2; anything else -3. A close on the trend's own side of the
/// average (above it while long, below it while short) never changes the state.
pub proof fn risk_state_grades_stop_distance_and_pullback(direction: FlipDirection, o: FlipObservation)
    ensures
        ({
            let r = flip_next(direction, o);
            &&& r.direction == FlipDirection::Long ==> {
                &&& (r.state == 1) == o.danger
                &&& (r.state == 2) == (!o.danger && (o.warn || o.below_average))
                &&& (r.state == 3) == (!o.danger && !o.warn && !o.below_average)
            }
            &&& r.direction == FlipDirection::Short ==> {
                &&& (r.state == -1) == o.danger
                &&& (r.state == -2) == (!o.danger && (o.warn || o.above_average))
                &&& (r.state == -3) == (!o.danger && !o.warn && !o.above_average)
            }
            &&& r.direction == FlipDirection::Short ==> flip_next(
                direction,
                FlipObservation { below_average: !o.below_average, ..o },
            ).state == r.state
            &&& r.direction == FlipDirection::Long ==> flip_next(
                direction,
                FlipObservation { above_average: !o.above_average, ..o },
            ).state == r.state
        }),
{
}

/// The direction follows the stops alone: a close above the previous short stop with an accepted
/// body turns long, otherwise one below the previous long stop with an accepted body turns short,
/// and otherwise the direction is kept.
pub proof fn direction_follows_the_stops(direction: FlipDirection, o: FlipObservation)
    ensures
        flip_next(direction, o).direction == (if o.above_short_stop && o.body_ok {
            FlipDirection::Long
        } else if o.below_long_stop && o.body_ok {
            FlipDirection::Short
        } else {
            direction
        }),
{
}

/// The radar's signals agree with its direction: the risk state is positive exactly while long,
/// a flip is signalled exactly when the direction changes, a weak flip never changes it, and a
/// bull trap is only reported while short, a bear trap only while long.
pub proof fn flip_signals_agree_with_direction(direction: FlipDirection, o: FlipObservation)
    ensures
        ({
            let r = flip_next(direction, o);
            &&& (r.state > 0) == (r.direction == FlipDirection::Long)
            &&& 1 <= r.state <= 3 || -3 <= r.state <= -1
            &&& (r.flipped_long || r.flipped_short) == (r.direction != direction)
            &&& r.weak_long || r.weak_short ==> r.direction == direction
            &&& r.bull_trap ==> r.direction == FlipDirection::Short
            &&& r.bear_trap ==> r.direction == FlipDirection::Long
        }),
{
}

} // verus!
