use indicator_core::bar::Bar;
use indicator_core::choices::{MidasMode, MidasState};
use indicator_core::midas::{MidasLifecycle, MidasStep};

/// A rally to a peak at bar 4 (high 1150 ticks), then a pullback.
fn up_move_bars() -> Vec<Bar> {
    vec![
        Bar::new(0, 1000, 1010, 990, 1005, 100),
        Bar::new(60, 1005, 1030, 1000, 1025, 120),
        Bar::new(120, 1025, 1060, 1020, 1055, 150),
        Bar::new(180, 1055, 1100, 1050, 1090, 200),
        Bar::new(240, 1090, 1150, 1085, 1130, 250),
        Bar::new(300, 1130, 1140, 1080, 1090, 180),
        Bar::new(360, 1090, 1110, 1050, 1060, 160),
    ]
}

#[test]
fn test_state_transitions_launch_projecting_exhausted() {
    let mut engine = MidasLifecycle::new(MidasMode::Topfinder, 2);
    let bars = up_move_bars();

    // The first bar always sets the running extreme (still "climbing"), so it is Launch.
    assert_eq!(engine.on_bar(&bars[0]).unwrap().state, MidasState::Launch);

    for bar in &bars[1..5] {
        engine.on_bar(bar);
    }
    // Bar 5 and 6 are two bars past the peak at bar 4 with maturity_bars = 2.
    let out5 = engine.on_bar(&bars[5]).unwrap();
    assert_eq!(out5.state, MidasState::Projecting);
    let out6 = engine.on_bar(&bars[6]).unwrap();
    assert_eq!(out6.state, MidasState::Exhausted);
}

#[test]
fn test_bottomfinder_tracks_lows_not_highs() {
    let mut engine = MidasLifecycle::with_defaults(MidasMode::Bottomfinder);
    let down_bars: Vec<Bar> = up_move_bars()
        .into_iter()
        .map(|b| Bar::new(b.timestamp, 2200 - b.close, 2200 - b.low, 2200 - b.high, 2200 - b.open, b.volume))
        .collect();
    let mut saw_projecting = false;
    for bar in &down_bars {
        if let Some(step) = engine.on_bar(bar) {
            if step.state == MidasState::Projecting {
                saw_projecting = true;
            }
        }
    }
    assert!(saw_projecting, "a clear down-move must eventually start a Bottomfinder projection");
}

#[test]
fn the_steps_report_extreme_count_and_maturity() {
    let mut engine = MidasLifecycle::new(MidasMode::Topfinder, 2);
    assert_eq!(engine.name(), "midas");
    let bars = up_move_bars();
    for bar in &bars[0..4] {
        engine.on_bar(bar);
    }
    assert_eq!(
        engine.on_bar(&bars[4]),
        Some(MidasStep {
            state: MidasState::Launch,
            extreme: 1150,
            bars_since_extreme: 0,
            new_extreme: true,
            restarted: false,
            matured: false,
        })
    );
    assert_eq!(
        engine.on_bar(&bars[5]),
        Some(MidasStep {
            state: MidasState::Projecting,
            extreme: 1150,
            bars_since_extreme: 1,
            new_extreme: false,
            restarted: false,
            matured: false,
        })
    );
    assert_eq!(
        engine.on_bar(&bars[6]),
        Some(MidasStep {
            state: MidasState::Exhausted,
            extreme: 1150,
            bars_since_extreme: 2,
            new_extreme: false,
            restarted: false,
            matured: true,
        })
    );
    // Still exhausted on the next bar, without maturing a second time.
    let next = engine.on_bar(&Bar::new(420, 1060, 1070, 1040, 1050, 100)).unwrap();
    assert_eq!(next.state, MidasState::Exhausted);
    assert!(!next.matured);
    // A new high after the pullback restarts the projection.
    let restart = engine.on_bar(&Bar::new(480, 1050, 1160, 1045, 1155, 300)).unwrap();
    assert_eq!(restart.state, MidasState::Launch);
    assert_eq!(restart.extreme, 1160);
    assert!(restart.new_extreme && restart.restarted);
}

#[test]
fn nothing_is_counted_before_volume_trades() {
    let mut engine = MidasLifecycle::new(MidasMode::Topfinder, 0);
    assert_eq!(engine.on_bar(&Bar::new(0, 100, 110, 90, 105, 0)), None);
    let first = engine.on_bar(&Bar::new(60, 105, 108, 100, 106, 10)).unwrap();
    assert_eq!(first.extreme, 108);
    assert_eq!(first.state, MidasState::Launch);
    // A maturity of zero is taken as one bar.
    let second = engine.on_bar(&Bar::new(120, 106, 107, 101, 102, 10)).unwrap();
    assert_eq!(second.state, MidasState::Exhausted);
    assert!(second.matured);
    engine.reset();
    let again = engine.on_bar(&Bar::new(180, 102, 104, 99, 100, 5)).unwrap();
    assert_eq!(again.extreme, 104);
    assert_eq!(again.state, MidasState::Launch);
}
