use indicator_core::choices::PriceLevelKind;
use indicator_core::price_levels::{
    opening_range_levels, round_number_levels, swing_fibonacci_levels, LevelLabel,
};

/// Levels are in thousandths of a tick: 105.0 is 105_000.
#[test]
fn test_opening_range_levels() {
    let levels = opening_range_levels(110, 100);
    assert_eq!(levels.len(), 3);
    assert!(levels
        .iter()
        .any(|l| l.kind == PriceLevelKind::OpeningRangeMid && l.price_milli == 105_000));
}

#[test]
fn test_round_number_levels_bracket_price() {
    let levels = round_number_levels(1234, 100, 1);
    let prices: Vec<i128> = levels.iter().map(|l| l.price_milli).collect();
    assert!(prices.contains(&1_200_000));
    assert!(prices.contains(&1_300_000));
    assert!(prices.contains(&1_100_000));
    assert!(prices.contains(&1_400_000));
    assert_eq!(prices, vec![1_200_000, 1_300_000, 1_400_000, 1_100_000]);
    assert!(levels.iter().all(|l| l.label == LevelLabel::Increment(100)));
}

#[test]
fn test_round_number_levels_rejects_degenerate_input() {
    assert!(round_number_levels(100, 0, 3).is_empty());
    assert!(round_number_levels(100, -10, 3).is_empty());
}

#[test]
fn round_numbers_below_zero_start_at_the_multiple_below() {
    let prices: Vec<i128> =
        round_number_levels(-1234, 100, 0).iter().map(|l| l.price_milli).collect();
    assert_eq!(prices, vec![-1_300_000, -1_200_000]);
}

#[test]
fn test_swing_fibonacci_uptrend_retraces_down_from_high() {
    let levels = swing_fibonacci_levels(200, 100, true);
    assert_eq!(levels.len(), 8);
    let half = levels.iter().find(|l| l.label == LevelLabel::Ratio(500)).unwrap();
    assert_eq!(half.price_milli, 150_000);
    let full_ext = levels.iter().find(|l| l.label == LevelLabel::Ratio(1618)).unwrap();
    assert!(
        full_ext.price_milli < 100_000,
        "1.618 extension in an uptrend must project below the swing low"
    );
    assert_eq!(full_ext.price_milli, 38_200);
}

#[test]
fn test_swing_fibonacci_downtrend_retraces_up_from_low() {
    let levels = swing_fibonacci_levels(200, 100, false);
    let half = levels.iter().find(|l| l.label == LevelLabel::Ratio(500)).unwrap();
    assert_eq!(half.price_milli, 150_000);
    let full_ext = levels.iter().find(|l| l.label == LevelLabel::Ratio(1618)).unwrap();
    assert!(
        full_ext.price_milli > 200_000,
        "1.618 extension in a downtrend must project above the swing high"
    );
}
