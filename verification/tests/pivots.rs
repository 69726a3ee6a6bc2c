use indicator_core::bar::Bar;
use indicator_core::pivot_structure::{PivotStructureEngine, StructureBias, StructureScore};

fn hl(ts: i64, high: i64, low: i64) -> Bar {
    let mid = (high + low) / 2;
    Bar::new(ts, mid, high, low, mid, 0)
}

fn score(sum: i128, scored: usize, window: usize, bias: Option<StructureBias>) -> Option<StructureScore> {
    Some(StructureScore { sum, scored, window, bias })
}

#[test]
fn higher_highs_and_higher_lows_signal_a_bullish_bias() {
    let mut engine = PivotStructureEngine::new(1, 1, 2);
    assert_eq!(engine.warmup_period(), 3);
    assert_eq!(engine.on_bar(&hl(0, 10, 5)), None);
    assert_eq!(engine.on_bar(&hl(1, 12, 7)), None);
    // The first pivot high only seeds the comparison.
    assert_eq!(engine.on_bar(&hl(2, 11, 6)), score(0, 0, 2, None));
    // The first pivot low likewise.
    assert_eq!(engine.on_bar(&hl(3, 14, 9)), score(0, 0, 2, None));
    // A higher high scores +2, which fills the window of two to its length.
    assert_eq!(engine.on_bar(&hl(4, 13, 8)), score(2, 1, 2, Some(StructureBias::Bullish)));
    assert_eq!(engine.alerts(), Some(StructureBias::Bullish));
    // A higher low adds +1.
    assert_eq!(engine.on_bar(&hl(5, 16, 11)), score(3, 2, 2, Some(StructureBias::Bullish)));
    // Another higher high: the window keeps the last two scores, 1 and 2.
    assert_eq!(engine.on_bar(&hl(6, 15, 10)), score(3, 2, 2, Some(StructureBias::Bullish)));
    assert_eq!(StructureBias::Bullish.kind(), "structure_bullish_bias");
}

#[test]
fn lower_highs_and_lower_lows_signal_a_bearish_bias() {
    let mut engine = PivotStructureEngine::new(1, 1, 2);
    for (ts, high, low) in [(0, 20, 15), (1, 22, 17), (2, 21, 16), (3, 19, 14), (4, 20, 15)] {
        engine.on_bar(&hl(ts, high, low));
    }
    // Pivot high 22 at bar 1, pivot low 14 at bar 3; bar 5 makes 20 a lower high: -1.
    assert_eq!(engine.on_bar(&hl(5, 18, 13)), score(-1, 1, 2, None));
    // Bar 6 confirms a lower low at 13: -2, the window now sums to -3.
    assert_eq!(engine.on_bar(&hl(6, 19, 14)), score(-3, 2, 2, Some(StructureBias::Bearish)));
    assert_eq!(StructureBias::Bearish.kind(), "structure_bearish_bias");
    engine.reset();
    assert_eq!(engine.on_bar(&hl(7, 19, 14)), None);
    assert_eq!(engine.alerts(), None);
}
