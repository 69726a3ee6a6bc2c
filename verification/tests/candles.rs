use indicator_core::bar::Bar;
use indicator_core::candle_story::{
    CandleContext, CandlePattern, CandleStoryConfig, CandleStoryEngine,
};

fn bar(ts: i64, open: i64, high: i64, low: i64, close: i64) -> Bar {
    Bar::new(ts, open, high, low, close, 0)
}

const PLAIN: CandleContext = CandleContext { big_enough: true, downtrend: false, uptrend: false };
const AFTER_DECLINE: CandleContext =
    CandleContext { big_enough: true, downtrend: true, uptrend: false };
const AFTER_ADVANCE: CandleContext =
    CandleContext { big_enough: true, downtrend: false, uptrend: true };

fn read(bars: &[Bar], ctx: CandleContext) -> Vec<CandlePattern> {
    let mut engine = CandleStoryEngine::new();
    for b in bars {
        engine.record_bar(*b);
    }
    engine.classify(ctx)
}

#[test]
fn a_doji_with_two_long_legs() {
    let found = read(&[bar(0, 100, 110, 90, 100)], PLAIN);
    assert_eq!(found, vec![CandlePattern::Doji, CandlePattern::LongLeggedDoji]);
}

#[test]
fn a_bar_is_reported_as_every_pattern_it_shows() {
    let prev = bar(0, 105, 106, 99, 100);
    let cur = bar(1, 99, 110, 99, 110);
    let found = read(&[prev, cur], PLAIN);
    assert_eq!(
        found,
        vec![
            CandlePattern::BullishMarubozu,
            CandlePattern::BullishBeltHoldShape,
            CandlePattern::BullishEngulfing,
            CandlePattern::BullishEngulfingRange,
            CandlePattern::BullishTweezer,
        ]
    );
    let after_decline = read(&[prev, cur], AFTER_DECLINE);
    assert!(after_decline.contains(&CandlePattern::BullishBeltHold));
}

#[test]
fn the_prior_move_names_the_hammer_shape() {
    let b = bar(0, 108, 110, 100, 110);
    let shape_only = vec![
        CandlePattern::SpinningTop,
        CandlePattern::BullishPinbar,
        CandlePattern::HammerShape,
    ];
    assert_eq!(read(&[b], PLAIN), shape_only);
    let mut hammer = shape_only.clone();
    hammer.push(CandlePattern::Hammer);
    assert_eq!(read(&[b], AFTER_DECLINE), hammer);
    let mut hanging = shape_only.clone();
    hanging.push(CandlePattern::HangingMan);
    assert_eq!(read(&[b], AFTER_ADVANCE), hanging);
}

#[test]
fn a_bar_below_the_size_floor_shows_no_shape() {
    let small = CandleContext { big_enough: false, downtrend: true, uptrend: false };
    assert!(read(&[bar(0, 108, 110, 100, 110)], small).is_empty());
}

#[test]
fn a_bar_without_range_shows_nothing() {
    assert!(read(&[bar(0, 100, 100, 100, 100)], PLAIN).is_empty());
    assert!(CandleStoryEngine::new().classify(PLAIN).is_empty());
}

#[test]
fn a_morning_star() {
    let first = bar(0, 110, 111, 99, 100);
    let middle = bar(1, 98, 100, 95, 97);
    let last = bar(2, 99, 109, 98, 108);
    assert_eq!(read(&[first, middle, last], PLAIN), vec![CandlePattern::MorningStar]);
}

#[test]
fn a_rising_three_methods() {
    let bars = [
        bar(0, 100, 121, 99, 120),
        bar(1, 118, 119, 112, 114),
        bar(2, 114, 116, 110, 112),
        bar(3, 112, 115, 109, 113),
        bar(4, 113, 126, 112, 125),
    ];
    let found = read(&bars, PLAIN);
    assert!(found.contains(&CandlePattern::RisingThreeMethods));
    assert!(found.contains(&CandlePattern::MatHold));
    assert!(!found.contains(&CandlePattern::FallingThreeMethods));
}

#[test]
fn the_true_range_reaches_back_to_the_previous_close() {
    let mut engine = CandleStoryEngine::new();
    assert_eq!(engine.record_bar(bar(0, 100, 102, 98, 100)), 4);
    assert_eq!(engine.record_bar(bar(1, 106, 110, 105, 108)), 10);
    assert_eq!(engine.record_bar(bar(2, 104, 109, 100, 101)), 9);
}

#[test]
fn the_prior_move_spans_the_lookback() {
    let mut config = CandleStoryConfig::default();
    config.trend_lookback = 3;
    let mut engine = CandleStoryEngine::with_config(config);
    for (i, close) in [100, 101, 103].iter().enumerate() {
        engine.record_bar(bar(i as i64, *close, *close + 1, *close - 1, *close));
        assert_eq!(engine.prior_move(), None);
    }
    engine.record_bar(bar(3, 96, 97, 95, 96));
    assert_eq!(engine.prior_move(), Some(-4));
    engine.record_bar(bar(4, 110, 111, 109, 110));
    assert_eq!(engine.prior_move(), Some(9));
    engine.reset();
    assert_eq!(engine.prior_move(), None);
    assert_eq!(engine.warmup_period(), 2);
}

#[test]
fn patterns_are_reported_under_their_names() {
    assert_eq!(CandlePattern::Doji.kind(), "doji");
    assert_eq!(CandlePattern::ThreeStarsInTheSouth.kind(), "three_stars_in_the_south");
    assert_eq!(CandlePattern::BullishBeltHoldShape.kind(), "bullish_belt_hold_shape");
    assert_eq!(CandlePattern::LadderBottom.kind(), "ladder_bottom");
    let mut engine = CandleStoryEngine::new();
    engine.record_bar(bar(0, 100, 110, 90, 100));
    assert_eq!(engine.window().len(), 1);
}
