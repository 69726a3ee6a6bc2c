use indicator_core::bar::Bar;
use indicator_core::order_block::{ActiveBlock, OrderBlockAlert, OrderBlockEngine, OrderBlockReading};

fn bar(t: i64, o: i64, h: i64, l: i64, c: i64) -> Bar {
    Bar::new(t, o, h, l, c, 1000)
}

#[test]
fn blocks_form_get_retested_and_mitigated() {
    let mut engine = OrderBlockEngine::new(2, 1000);
    assert_eq!(engine.name(), "order_block");
    assert_eq!(engine.warmup_period(), 7);

    assert_eq!(engine.on_bar(&bar(0, 100, 105, 95, 102)), None);
    assert_eq!(engine.on_bar(&bar(1, 102, 104, 98, 99)), None);

    // Body 19 against an average true range of (6 + 22) / 2 = 14: a bullish displacement after a
    // bearish bar, which the bar then trades back into and holds.
    assert_eq!(
        engine.on_bar(&bar(2, 99, 120, 98, 118)),
        Some(OrderBlockReading {
            active_count: 1,
            latest_active: Some(ActiveBlock { top: 104, bottom: 98, duration: 0 }),
        })
    );
    assert_eq!(
        engine.alerts(),
        vec![
            OrderBlockAlert::BullishBlock { bottom: 98, top: 104 },
            OrderBlockAlert::BullishRetest { top: 104 },
        ]
    );

    // Price stays above the block.
    assert_eq!(
        engine.on_bar(&bar(3, 118, 125, 110, 122)),
        Some(OrderBlockReading {
            active_count: 1,
            latest_active: Some(ActiveBlock { top: 104, bottom: 98, duration: 1 }),
        })
    );
    assert_eq!(engine.alerts(), vec![]);

    // Body 27 against (15 + 33) / 2 = 24: a bearish displacement after a bullish bar. Its close
    // below 98 mitigates the bullish block; the new bearish block is retested on the same bar.
    assert_eq!(
        engine.on_bar(&bar(4, 122, 123, 90, 95)),
        Some(OrderBlockReading {
            active_count: 0,
            latest_active: Some(ActiveBlock { top: 125, bottom: 110, duration: 0 }),
        })
    );
    assert_eq!(
        engine.alerts(),
        vec![
            OrderBlockAlert::BearishBlock { bottom: 110, top: 125 },
            OrderBlockAlert::BearishRetest { bottom: 110 },
        ]
    );

    // Only the bearish block is still counted.
    assert_eq!(
        engine.on_bar(&bar(5, 95, 96, 94, 95)),
        Some(OrderBlockReading {
            active_count: -1,
            latest_active: Some(ActiveBlock { top: 125, bottom: 110, duration: 1 }),
        })
    );
    assert_eq!(engine.alerts(), vec![]);

    engine.reset();
    assert_eq!(engine.on_bar(&bar(6, 95, 96, 94, 95)), None);
}

#[test]
fn a_small_body_or_a_same_direction_bar_forms_no_block() {
    // With a multiplier of 2.0 the 19-tick body no longer displaces against an average of 14.
    let mut engine = OrderBlockEngine::new(2, 2000);
    engine.on_bar(&bar(0, 100, 105, 95, 102));
    engine.on_bar(&bar(1, 102, 104, 98, 99));
    assert_eq!(
        engine.on_bar(&bar(2, 99, 120, 98, 118)),
        Some(OrderBlockReading { active_count: 0, latest_active: None })
    );
    assert_eq!(engine.alerts(), vec![]);

    // A displacement after a bar in the same direction forms nothing either.
    let mut engine = OrderBlockEngine::new(2, 1000);
    engine.on_bar(&bar(0, 100, 105, 95, 102));
    engine.on_bar(&bar(1, 99, 104, 98, 102));
    assert_eq!(
        engine.on_bar(&bar(2, 99, 120, 98, 118)),
        Some(OrderBlockReading { active_count: 0, latest_active: None })
    );
}

#[test]
fn alert_kinds() {
    assert_eq!(OrderBlockAlert::BullishBlock { bottom: 1, top: 2 }.kind(), "bullish_order_block");
    assert_eq!(OrderBlockAlert::BearishBlock { bottom: 1, top: 2 }.kind(), "bearish_order_block");
    assert_eq!(OrderBlockAlert::BullishRetest { top: 2 }.kind(), "ob_retest_bullish");
    assert_eq!(OrderBlockAlert::BearishRetest { bottom: 1 }.kind(), "ob_retest_bearish");
}
