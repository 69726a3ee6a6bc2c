use indicator_core::bar::Bar;
use indicator_core::smart_money::FvgZoneTracker;
use indicator_core::sweeps::LiquiditySweepEngine;

#[test]
fn test_liquidity_sweep_detection() {
    let mut sweep = LiquiditySweepEngine::with_defaults();
    for i in 0..20 {
        let b = Bar::new(i, 100, 105, 95, 100, 1000);
        sweep.on_bar(&b);
    }
    // Sweep bar: low dips to 90 (piercing 95), close reclaims at 98.
    let sweep_bar = Bar::new(20, 99, 101, 90, 98, 1000);
    let out = sweep.on_bar(&sweep_bar);
    assert!(out.is_some());
}

#[test]
fn flat_bars_make_equal_pivots_and_a_low_sweep() {
    let mut sweep = LiquiditySweepEngine::with_defaults();
    for i in 0..20 {
        sweep.on_bar(&Bar::new(i, 100, 105, 95, 100, 1000));
    }
    let out = sweep.on_bar(&Bar::new(20, 99, 101, 90, 98, 1000)).unwrap();
    assert_eq!(out.sweep, 1);
    assert!(out.eql_count > 0 && out.eqh_count > 0);
    assert_eq!(sweep.alert_note(), Some("Bullish Liquidity Sweep & Reclaim"));
    assert_eq!(sweep.warmup_period(), 11);
    sweep.reset();
    assert_eq!(sweep.alert_note(), None);
}

#[test]
fn equal_level_tolerance_is_relative_to_the_first_level() {
    // Pivot highs 1000 and 1002 differ by 0.2 %: equal at 200 thousandths of a percent.
    let mut tight = LiquiditySweepEngine::new(2, 199);
    let mut loose = LiquiditySweepEngine::new(2, 200);
    let highs = [990, 995, 1000, 995, 990, 995, 1002, 995, 990];
    let mut a = None;
    let mut b = None;
    for (i, h) in highs.iter().enumerate() {
        let bar = Bar::new(i as i64, h - 5, *h, h - 10, h - 5, 0);
        a = tight.on_bar(&bar);
        b = loose.on_bar(&bar);
    }
    assert_eq!(a.unwrap().eqh_count, 0);
    assert_eq!(b.unwrap().eqh_count, 1);
}

#[test]
fn fvg_zone_tracker_fills_once() {
    let mut t = FvgZoneTracker::new();
    t.register(true, 105, 100, 10);
    t.register(false, 120, 115, 11);
    let filled = t.on_bar(&Bar::new(12, 106, 107, 104, 106, 0));
    assert_eq!(filled.len(), 1);
    assert!(filled[0].is_bullish && filled[0].filled);
    assert!(t.zones()[0].filled && !t.zones()[1].filled);
    // Already filled: not reported again.
    assert!(t.on_bar(&Bar::new(13, 104, 105, 103, 104, 0)).is_empty());
    let filled = t.on_bar(&Bar::new(14, 114, 116, 113, 114, 0));
    assert_eq!(filled.len(), 1);
    t.reset();
    assert!(t.zones().is_empty());
}

#[test]
fn test_fvg_zone_tracker_marks_fill() {
    let mut tracker = FvgZoneTracker::new();
    tracker.register(true, 105, 100, 0);
    assert!(!tracker.zones()[0].filled);

    // Price stays above the gap: not filled yet.
    tracker.on_bar(&Bar::new(60, 110, 112, 108, 111, 10));
    assert!(!tracker.zones()[0].filled);

    // Price trades back down into the gap zone [100, 105].
    let filled = tracker.on_bar(&Bar::new(120, 106, 107, 102, 103, 10));
    assert_eq!(filled.len(), 1);
    assert!(tracker.zones()[0].filled);
}
