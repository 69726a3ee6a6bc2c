use indicator_core::chandelier::state_label;
use indicator_core::chart_patterns::ChartPatternKind;
use indicator_core::harmonics::{harmonic_table, RatioRange};
use indicator_core::registry::{output_range, threshold_params, OutputRange};

#[test]
fn a_butterfly_extends_past_x_and_a_gartley_does_not() {
    let table = harmonic_table();
    let gartley = table.iter().find(|d| d.name == "gartley").unwrap();
    let butterfly = table.iter().find(|d| d.name == "butterfly").unwrap();
    // Ratios are in thousandths: 1000 is 1.0.
    assert!(gartley.d.max < 1000, "retracement stays inside XA");
    assert!(butterfly.d.min > 1000, "extension runs past X");
}

#[test]
fn harmonic_table_has_six_rows_in_order() {
    let names: Vec<&str> = harmonic_table().iter().map(|d| d.name).collect();
    assert_eq!(names, vec!["gartley", "bat", "butterfly", "crab", "deep_crab", "shark"]);
}

#[test]
fn ratio_range_contains_with_tolerance() {
    let r = RatioRange::new(586, 650);
    // 0.618 lies inside; 0.600 lies inside; 0.55 lies outside unless widened by 0.036.
    assert!(r.contains(618, 1000, 0));
    assert!(r.contains(3, 5, 0));
    assert!(!r.contains(55, 100, 0));
    assert!(r.contains(55, 100, 36));
    assert_eq!(r.center_doubled(), 1236);
}

#[test]
fn output_ranges_are_declared_by_construction() {
    assert_eq!(output_range("rsi"), OutputRange::Bounded { min: 0, max: 100 });
    assert_eq!(output_range("dmi"), OutputRange::Bounded { min: -100, max: 100 });
    assert_eq!(output_range("bop"), OutputRange::Bounded { min: -1, max: 1 });
    assert_eq!(output_range("macd"), OutputRange::Centered { center: 0 });
    assert_eq!(output_range("atr"), OutputRange::NonNegative);
    assert_eq!(output_range("sma"), OutputRange::Unbounded);
}

#[test]
fn threshold_params_name_the_levels() {
    assert_eq!(threshold_params("rsi"), &["oversold", "overbought"]);
    assert_eq!(threshold_params("adx"), &["level_weak"]);
    assert_eq!(threshold_params("wavetrend"), &["os_level", "ob_level"]);
    assert!(threshold_params("macd").is_empty());
    // Every indicator with thresholds declares a range for them to lie in.
    for name in ["cci", "fisher_transform", "mfi", "rsi", "stoch_rsi", "williams_r", "adx", "wavetrend"] {
        assert_ne!(output_range(name), OutputRange::Unbounded, "{name}");
    }
}

#[test]
fn risk_state_labels() {
    assert_eq!(state_label(3), "long_healthy");
    assert_eq!(state_label(2), "long_caution");
    assert_eq!(state_label(1), "long_danger");
    assert_eq!(state_label(-1), "short_danger");
    assert_eq!(state_label(-2), "short_caution");
    assert_eq!(state_label(-3), "short_healthy");
    assert_eq!(state_label(0), "short_healthy");
}

#[test]
fn chart_pattern_kind_families() {
    assert!(ChartPatternKind::HeadAndShoulders.is_top());
    assert!(!ChartPatternKind::InverseHeadAndShoulders.is_top());
    assert!(ChartPatternKind::TripleBottom.is_reversal_family());
    assert!(!ChartPatternKind::WolfeWave.is_reversal_family());
    assert!(!ChartPatternKind::Triangle.is_top());
}
