use indicator_core::chandelier::{flip_step, state_label, FlipDirection, FlipObservation, FlipStep};

fn quiet() -> FlipObservation {
    FlipObservation {
        above_short_stop: false,
        below_long_stop: false,
        body_ok: true,
        danger: false,
        warn: false,
        below_average: false,
        above_average: false,
        wick_above_short_stop: false,
        wick_below_long_stop: false,
    }
}

#[test]
fn a_close_through_the_short_stop_flips_long() {
    let o = FlipObservation { above_short_stop: true, ..quiet() };
    let r = flip_step(FlipDirection::Short, o);
    assert_eq!(
        r,
        FlipStep {
            direction: FlipDirection::Long,
            state: 3,
            flipped_long: true,
            flipped_short: false,
            weak_long: false,
            weak_short: false,
            bull_trap: false,
            bear_trap: false,
        }
    );
    assert_eq!(state_label(r.state), "long_healthy");
}

#[test]
fn a_small_body_makes_the_flip_weak() {
    let o = FlipObservation { above_short_stop: true, body_ok: false, warn: true, ..quiet() };
    let r = flip_step(FlipDirection::Short, o);
    assert_eq!(r.direction, FlipDirection::Short);
    assert!(r.weak_long && !r.flipped_long);
    assert_eq!(r.state, -2);
    assert_eq!(state_label(r.state), "short_caution");
}

#[test]
fn danger_outranks_warning_and_pullback() {
    let o = FlipObservation { danger: true, warn: true, below_average: true, ..quiet() };
    let r = flip_step(FlipDirection::Long, o);
    assert_eq!(r.state, 1);
    assert_eq!(state_label(1), "long_danger");
    let pullback = flip_step(FlipDirection::Long, FlipObservation { below_average: true, ..quiet() });
    assert_eq!(pullback.state, 2);
}

#[test]
fn a_wick_through_the_stop_that_closes_back_is_a_trap() {
    let bull_trap = flip_step(
        FlipDirection::Short,
        FlipObservation { wick_above_short_stop: true, ..quiet() },
    );
    assert!(bull_trap.bull_trap && !bull_trap.bear_trap);
    assert_eq!(bull_trap.state, -3);
    assert_eq!(state_label(-3), "short_healthy");
    let bear_trap = flip_step(
        FlipDirection::Long,
        FlipObservation { wick_below_long_stop: true, ..quiet() },
    );
    assert!(bear_trap.bear_trap);
    let flipped_short = flip_step(
        FlipDirection::Long,
        FlipObservation { below_long_stop: true, danger: true, ..quiet() },
    );
    assert!(flipped_short.flipped_short);
    assert_eq!(flipped_short.state, -1);
    assert_eq!(state_label(-1), "short_danger");
}
