use indicator_core::bar::Bar;
use indicator_core::fvg::{FvgAlert, LiquidityFvgEngine, FvgReading};
use indicator_core::structure::{
    BosChochEngine, MarketStructureBreaksEngine, StructureEventKind, StructureBreak,
};

/// Prices in these tests are ticks of 0.5, so 100.0 is 200.
fn t(price_times_two: i64) -> i64 {
    price_times_two
}

fn hl(ts: i64, high: i64, low: i64) -> Bar {
    let mid = (high + low) / 2;
    Bar::new(ts, mid, high, low, mid, 0)
}

#[test]
fn bildet_und_fuellt_fvg_zonen() {
    let mut engine = LiquidityFvgEngine::new(20);
    let bars = [hl(0, t(202), t(198)), hl(1, t(204), t(200)), hl(2, t(220), t(210))];
    for b in bars.iter() {
        engine.on_bar(b);
    }
    assert_eq!(engine.zones().len(), 1, "eine bullische Lücke");
    assert_eq!(engine.zones()[0].bottom, t(202));
    assert_eq!(engine.zones()[0].top, t(210));
    assert!(engine.zones()[0].is_bullish);

    engine.on_bar(&Bar::new(3, t(208), t(208), t(196), t(198), 0));
    assert!(
        engine.zones().is_empty(),
        "gefüllte Lücke bleibt nicht stehen"
    );
}

#[test]
fn reset_leert_die_zonen() {
    let mut engine = LiquidityFvgEngine::new(20);
    engine.on_bar(&Bar::new(0, 200, 202, 198, 200, 0));
    engine.on_bar(&Bar::new(1, 202, 204, 200, 202, 0));
    engine.on_bar(&Bar::new(2, 216, 220, 210, 216, 0));
    assert!(!engine.zones().is_empty());
    engine.reset();
    assert!(engine.zones().is_empty());
}

#[test]
fn fvg_reports_gap_size_and_alert() {
    let mut engine = LiquidityFvgEngine::new(20);
    assert_eq!(
        engine.on_bar(&Bar::new(0, 100, 101, 99, 100, 0)),
        FvgReading { fvg_type: 0, gap_size: None }
    );
    engine.on_bar(&Bar::new(1, 101, 102, 100, 101, 0));
    let r = engine.on_bar(&Bar::new(2, 106, 110, 105, 108, 0));
    assert_eq!(r, FvgReading { fvg_type: 1, gap_size: Some(4) });
    assert_eq!(engine.alerts(), vec![FvgAlert::BullishFvg { bottom: 101, top: 105 }]);
    assert_eq!(engine.alerts()[0].kind(), "bullish_fvg");
}

#[test]
fn fvg_bearish_gap_and_sweep() {
    let mut engine = LiquidityFvgEngine::new(3);
    engine.on_bar(&Bar::new(0, 110, 112, 108, 110, 0));
    engine.on_bar(&Bar::new(1, 109, 111, 107, 109, 0));
    let r = engine.on_bar(&Bar::new(2, 104, 105, 100, 102, 0));
    assert_eq!(r, FvgReading { fvg_type: -1, gap_size: Some(3) });
    assert!(!engine.zones()[0].is_bullish);
    // Pierces the lowest low of the last three bars (100) and closes back above it.
    engine.on_bar(&Bar::new(3, 101, 103, 99, 102, 0));
    assert!(engine.alerts().contains(&FvgAlert::BullishSweep { level: 100 }));
    assert_eq!(engine.alerts().last().unwrap().kind(), "bullish_liquidity_sweep");
}

#[test]
fn fvg_holds_at_most_twenty_zones_oldest_first() {
    let mut engine = LiquidityFvgEngine::new(20);
    // A staircase whose every bar opens a bullish gap over the bar two before it.
    for i in 0..40i64 {
        let low = 100 + 10 * i;
        engine.on_bar(&Bar::new(i, low + 2, low + 4, low, low + 3, 0));
    }
    let zones = engine.zones();
    assert_eq!(zones.len(), 20);
    assert!(zones.windows(2).all(|p| p[0].created_bar < p[1].created_bar));
}

#[test]
fn test_bos_choch_detection() {
    let mut engine = BosChochEngine::new(3);
    for i in 0..30i64 {
        // 100.0 + 1.5 * i, in ticks of 0.5.
        let price = 200 + 3 * i;
        let bar = Bar::new(i, price, price + 2, price - 2, price, 1000);
        engine.on_bar(&bar);
    }
    assert!(engine
        .on_bar(&Bar::new(30, 300, 310, 298, 308, 1000))
        .is_some());
}

#[test]
fn bos_choch_first_break_is_a_change_of_character() {
    let mut engine = BosChochEngine::new(2);
    let highs = [10, 11, 15, 12, 11];
    for (i, h) in highs.iter().enumerate() {
        engine.on_bar(&Bar::new(i as i64, h - 1, *h, h - 2, h - 1, 0));
    }
    // The middle bar (high 15) is the pivot; a close above it breaks.
    let r = engine.on_bar(&Bar::new(5, 14, 17, 13, 16, 0)).unwrap();
    assert_eq!(r.event_code, 2);
    assert_eq!(r.trend, 1);
    assert_eq!(engine.last_event(), Some(StructureEventKind::BullishChoch));
    assert_eq!(engine.alert_note(), Some("Bullish Change of Character (CHoCH)"));
    assert_eq!(engine.warmup_period(), 5);
    engine.reset();
    assert_eq!(engine.last_event(), None);
}

#[test]
fn market_structure_break_choch_then_bos() {
    let mut engine = MarketStructureBreaksEngine::new(1);
    assert_eq!(engine.warmup_period(), 3);
    assert_eq!(engine.on_bar(&Bar::new(0, 10, 11, 9, 10, 0)), None);
    assert_eq!(engine.on_bar(&Bar::new(1, 12, 15, 11, 12, 0)), None);
    // Bar 1 becomes a swing high of 15; this close does not break it.
    assert_eq!(engine.on_bar(&Bar::new(2, 12, 13, 10, 12, 0)), Some(0));
    // A close above 15 out of a neutral trend: change of character.
    assert_eq!(engine.on_bar(&Bar::new(3, 14, 17, 13, 16, 0)), Some(2));
    assert_eq!(
        engine.alerts(),
        vec![StructureBreak { kind: StructureEventKind::BullishChoch, level: 15 }]
    );
    assert_eq!(engine.alerts()[0].kind.alert_kind(), "bullish_choch");
    // A new swing high at 20, then a close above it in the uptrend: continuation.
    engine.on_bar(&Bar::new(4, 18, 20, 16, 18, 0));
    assert_eq!(engine.on_bar(&Bar::new(5, 17, 18, 16, 17, 0)), Some(0));
    assert_eq!(engine.on_bar(&Bar::new(6, 19, 22, 18, 21, 0)), Some(1));
    engine.reset();
    assert!(engine.alerts().is_empty());
    assert_eq!(engine.name(), "market_structure_breaks");
}
