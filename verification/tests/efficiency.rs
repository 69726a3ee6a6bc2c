use indicator_core::efficiency::{Efficiency, EfficiencyAlert, LegEfficiencyEngine};

fn feed(engine: &mut LegEfficiencyEngine, closes: &[i64]) -> Option<Efficiency> {
    let mut last = None;
    for c in closes {
        last = engine.on_bar(*c);
    }
    last
}

#[test]
fn a_straight_leg_is_fully_efficient() {
    let mut engine = LegEfficiencyEngine::new(3);
    assert_eq!(engine.warmup_period(), 3);
    assert_eq!(feed(&mut engine, &[100, 101, 102]), None);
    assert_eq!(
        engine.on_bar(103),
        Some(Efficiency { change: 3, path: 3, alert: Some(EfficiencyAlert::High) })
    );
    assert_eq!(engine.alerts(), Some(EfficiencyAlert::High));
    assert_eq!(EfficiencyAlert::High.kind(), "high_leg_efficiency");
}

#[test]
fn a_zigzag_leg_is_in_between_and_chop_is_low() {
    let mut engine = LegEfficiencyEngine::new(3);
    assert_eq!(
        feed(&mut engine, &[100, 110, 100, 110]),
        Some(Efficiency { change: 10, path: 30, alert: None })
    );
    // The window slides: 110, 100, 110, 111.
    assert_eq!(
        engine.on_bar(111),
        Some(Efficiency { change: 1, path: 21, alert: Some(EfficiencyAlert::Low) })
    );
    assert_eq!(EfficiencyAlert::Low.kind(), "low_leg_efficiency");
}

#[test]
fn closes_that_do_not_move_read_as_chop() {
    let mut engine = LegEfficiencyEngine::new(2);
    assert_eq!(
        feed(&mut engine, &[100, 100, 100]),
        Some(Efficiency { change: 0, path: 0, alert: Some(EfficiencyAlert::Low) })
    );
    engine.reset();
    assert_eq!(engine.on_bar(100), None);
    assert_eq!(engine.alerts(), None);
}
