use indicator_core::elliott::{
    c_setup_levels, identify_extended_wave, is_truncated_fifth, validate_combination, validate_correction,
    validate_diagonal, validate_impulse, validate_triangle, CombinationVariant, CorrectionVariant,
    DiagonalKind, DiagonalVariant, PullbackQuality, TriangleVariant,
};
use indicator_core::model::{
    ContinuityKind, LiquidityTier, PriceAdjustment, Provenance, SeriesCapabilities, SessionKind,
    VolumeKind,
};
use indicator_core::price_levels::swing_fibonacci_levels;
use indicator_core::swing::ZigZagNode;

fn node(ts: i64, price: i64, is_high: bool) -> ZigZagNode {
    ZigZagNode {
        timestamp: ts,
        price,
        is_high,
        confirmed: true,
    }
}

fn quality(q: PullbackQuality) -> f64 {
    (1.0 - q.first_gap as f64 / q.first_scale as f64 - q.second_gap as f64 / q.second_scale as f64)
        .clamp(0.0, 1.0)
}

fn sample_capabilities() -> SeriesCapabilities {
    SeriesCapabilities {
        volume: VolumeKind::RealTurnover,
        trade_direction: false,
        session: SessionKind::Regular,
        continuity: ContinuityKind::SingleContract,
        price_adjustment: PriceAdjustment::Raw,
        provenance: Provenance::Exchange,
        liquidity_tier: LiquidityTier::Deep,
    }
}

#[test]
fn test_valid_bullish_impulse_passes_all_rules() {
    let nodes = vec![
        node(0, 100, false),
        node(1, 120, true),
        node(2, 110, false),
        node(3, 140, true),
        node(4, 130, false),
        node(5, 150, true),
    ];
    let result = validate_impulse(&nodes).unwrap();
    assert!(result.valid, "violations: {:?}", result.violations);
    assert!(quality(result.pullback_quality) > 0.0);
}

#[test]
fn test_impulse_rejects_wave2_full_retrace() {
    let nodes = vec![
        node(0, 100, false),
        node(1, 120, true),
        node(2, 95, false),
        node(3, 140, true),
        node(4, 130, false),
        node(5, 150, true),
    ];
    let result = validate_impulse(&nodes).unwrap();
    assert!(!result.valid);
    assert!(result
        .violations
        .iter()
        .any(|v| v.rule == "wave2_no_full_retrace"));
}

#[test]
fn test_impulse_rejects_wave4_overlap() {
    let nodes = vec![
        node(0, 100, false),
        node(1, 120, true),
        node(2, 110, false),
        node(3, 140, true),
        node(4, 115, false),
        node(5, 150, true),
    ];
    let result = validate_impulse(&nodes).unwrap();
    assert!(!result.valid);
    assert!(result.violations.iter().any(|v| v.rule == "wave4_no_overlap"));
}

#[test]
fn test_impulse_rejects_wave3_shortest() {
    let nodes = vec![
        node(0, 100, false),
        node(1, 130, true),
        node(2, 120, false),
        node(3, 135, true),
        node(4, 125, false),
        node(5, 160, true),
    ];
    let result = validate_impulse(&nodes).unwrap();
    assert!(!result.valid);
    assert!(result
        .violations
        .iter()
        .any(|v| v.rule == "wave3_not_shortest"));
}

#[test]
fn test_validate_impulse_requires_exactly_six_alternating_nodes() {
    let too_few = vec![node(0, 100, false), node(1, 120, true)];
    assert!(validate_impulse(&too_few).is_none());

    let non_alternating = vec![
        node(0, 100, false),
        node(1, 120, false),
        node(2, 110, false),
        node(3, 140, true),
        node(4, 130, false),
        node(5, 150, true),
    ];
    assert!(validate_impulse(&non_alternating).is_none());
}

#[test]
fn test_correction_classifies_zigzag_vs_flat() {
    let zigzag = vec![
        node(0, 150, true),
        node(1, 130, false),
        node(2, 141, true),
        node(3, 120, false),
    ];
    let result = validate_correction(&zigzag).unwrap();
    assert_eq!(result.variant, CorrectionVariant::Zigzag);

    let flat = vec![
        node(0, 150, true),
        node(1, 130, false),
        node(2, 149, true),
        node(3, 128, false),
    ];
    let result = validate_correction(&flat).unwrap();
    assert_eq!(result.variant, CorrectionVariant::Flat);
}

#[test]
fn test_correction_rejects_c_not_extending_past_b() {
    let nodes = vec![
        node(0, 150, true),
        node(1, 130, false),
        node(2, 141, true),
        node(3, 145, false),
    ];
    let result = validate_correction(&nodes).unwrap();
    assert!(!result.valid);
    assert!(result
        .violations
        .iter()
        .any(|v| v.rule == "wave_c_must_extend_past_b"));
}

#[test]
fn test_impulse_validation_defaults_to_no_capabilities_and_can_be_tagged() {
    let nodes = vec![
        node(0, 100, false),
        node(1, 120, true),
        node(2, 110, false),
        node(3, 140, true),
        node(4, 130, false),
        node(5, 150, true),
    ];
    let result = validate_impulse(&nodes).unwrap();
    assert_eq!(result.series_capabilities, None);

    let tagged = result.with_capabilities(sample_capabilities());
    assert_eq!(tagged.series_capabilities, Some(sample_capabilities()));
}

#[test]
fn test_correction_validation_defaults_to_no_capabilities_and_can_be_tagged() {
    let nodes = vec![
        node(0, 150, true),
        node(1, 130, false),
        node(2, 141, true),
        node(3, 100, false),
    ];
    let result = validate_correction(&nodes).unwrap();
    assert_eq!(result.series_capabilities, None);

    let tagged = result.with_capabilities(sample_capabilities());
    assert_eq!(tagged.series_capabilities, Some(sample_capabilities()));
}

#[test]
fn test_diagonal_allows_wave4_overlap_that_would_fail_a_plain_impulse() {
    let nodes = vec![
        node(0, 100, false),
        node(1, 120, true),
        node(2, 110, false),
        node(3, 140, true),
        node(4, 115, false),
        node(5, 150, true),
    ];
    assert!(validate_impulse(&nodes)
        .unwrap()
        .violations
        .iter()
        .any(|v| v.rule == "wave4_no_overlap"));

    let result = validate_diagonal(&nodes, DiagonalKind::Ending).unwrap();
    assert!(result.valid, "violations: {:?}", result.violations);
    assert!(result.wave4_overlaps_wave1);
}

#[test]
fn test_diagonal_still_rejects_wave2_full_retrace() {
    let nodes = vec![
        node(0, 100, false),
        node(1, 120, true),
        node(2, 95, false),
        node(3, 140, true),
        node(4, 130, false),
        node(5, 150, true),
    ];
    let result = validate_diagonal(&nodes, DiagonalKind::Leading).unwrap();
    assert!(!result.valid);
    assert!(result
        .violations
        .iter()
        .any(|v| v.rule == "wave2_no_full_retrace"));
}

#[test]
fn test_diagonal_classifies_contracting_vs_expanding() {
    let contracting = vec![
        node(0, 100, false),
        node(1, 120, true),
        node(2, 110, false),
        node(3, 125, true),
        node(4, 116, false),
        node(5, 124, true),
    ];
    let result = validate_diagonal(&contracting, DiagonalKind::Ending).unwrap();
    assert!(result.valid, "violations: {:?}", result.violations);
    assert_eq!(result.variant, DiagonalVariant::Contracting);

    let expanding = vec![
        node(0, 100, false),
        node(1, 110, true),
        node(2, 102, false),
        node(3, 125, true),
        node(4, 90, false),
        node(5, 140, true),
    ];
    let result = validate_diagonal(&expanding, DiagonalKind::Leading).unwrap();
    assert!(result.valid, "violations: {:?}", result.violations);
    assert_eq!(result.variant, DiagonalVariant::Expanding);
}

#[test]
fn test_triangle_classifies_contracting_expanding_and_running() {
    let contracting = vec![
        node(0, 100, false),
        node(1, 130, true),
        node(2, 110, false),
        node(3, 125, true),
        node(4, 115, false),
        node(5, 122, true),
    ];
    assert_eq!(
        validate_triangle(&contracting).unwrap().variant,
        TriangleVariant::Contracting
    );

    let expanding = vec![
        node(0, 100, false),
        node(1, 110, true),
        node(2, 95, false),
        node(3, 120, true),
        node(4, 85, false),
        node(5, 140, true),
    ];
    assert_eq!(
        validate_triangle(&expanding).unwrap().variant,
        TriangleVariant::Expanding
    );

    let running = vec![
        node(0, 100, false),
        node(1, 130, true),
        node(2, 110, false),
        node(3, 125, true),
        node(4, 108, false),
        node(5, 120, true),
    ];
    assert_eq!(
        validate_triangle(&running).unwrap().variant,
        TriangleVariant::RunningOrBarrier
    );

    let contracting_von_hoch = vec![
        node(0, 140, true),
        node(1, 110, false),
        node(2, 130, true),
        node(3, 115, false),
        node(4, 125, true),
        node(5, 118, false),
    ];
    assert_eq!(
        validate_triangle(&contracting_von_hoch).unwrap().variant,
        TriangleVariant::Contracting
    );
}

#[test]
fn test_validate_combination_classifies_wxy_from_two_valid_corrections() {
    let nodes = vec![
        node(0, 150, true),
        node(1, 130, false),
        node(2, 141, true),
        node(3, 120, false),
        node(4, 140, true),
        node(5, 125, false),
        node(6, 134, true),
        node(7, 112, false),
    ];
    let result = validate_combination(&nodes).unwrap();
    assert_eq!(result.variant, CombinationVariant::DoubleThree);
    assert_eq!(result.segments.len(), 2);
    assert!(result.valid, "segments: {:?}", result.segments);
    assert!(result
        .segments
        .iter()
        .all(|s| s.variant == CorrectionVariant::Zigzag));
}

#[test]
fn test_validate_combination_rejects_wrong_node_count() {
    let too_few = vec![node(0, 100, false), node(1, 120, true)];
    assert!(validate_combination(&too_few).is_none());
}

#[test]
fn test_identify_extended_wave() {
    let wave3_extended = vec![
        node(0, 100, false),
        node(1, 110, true),
        node(2, 105, false),
        node(3, 145, true),
        node(4, 135, false),
        node(5, 150, true),
    ];
    assert_eq!(identify_extended_wave(&wave3_extended), Some(3));

    let no_extension = vec![
        node(0, 100, false),
        node(1, 120, true),
        node(2, 110, false),
        node(3, 142, true),
        node(4, 130, false),
        node(5, 148, true),
    ];
    assert_eq!(identify_extended_wave(&no_extension), None);
}

#[test]
fn test_is_truncated_fifth() {
    let truncated = vec![
        node(0, 100, false),
        node(1, 130, true),
        node(2, 115, false),
        node(3, 150, true),
        node(4, 135, false),
        node(5, 145, true),
    ];
    assert_eq!(is_truncated_fifth(&truncated), Some(true));

    let not_truncated = vec![
        node(0, 100, false),
        node(1, 130, true),
        node(2, 115, false),
        node(3, 150, true),
        node(4, 135, false),
        node(5, 160, true),
    ];
    assert_eq!(is_truncated_fifth(&not_truncated), Some(false));
}

// Beyond the ported cases: edges, laws on concrete values and exact thresholds.

#[test]
fn bearish_impulse_is_judged_like_its_reflection() {
    let bullish = vec![
        node(0, 100, false),
        node(1, 120, true),
        node(2, 110, false),
        node(3, 140, true),
        node(4, 115, false),
        node(5, 150, true),
    ];
    let bearish: Vec<ZigZagNode> = bullish
        .iter()
        .map(|n| node(n.timestamp, -n.price, !n.is_high))
        .collect();
    let a = validate_impulse(&bullish).unwrap();
    let b = validate_impulse(&bearish).unwrap();
    assert_eq!(a.violations, b.violations);
    assert_eq!(
        validate_triangle(&bullish).unwrap().variant,
        validate_triangle(&bearish).unwrap().variant
    );
}

#[test]
fn correction_thresholds_are_exact() {
    // B retraces exactly 90 % of A: a flat; one tick less: a zigzag over the 78.6 % bound.
    let flat = vec![node(0, 1000, true), node(1, 900, false), node(2, 990, true), node(3, 880, false)];
    assert_eq!(validate_correction(&flat).unwrap().variant, CorrectionVariant::Flat);
    let zig = vec![node(0, 1000, true), node(1, 900, false), node(2, 989, true), node(3, 880, false)];
    let r = validate_correction(&zig).unwrap();
    assert_eq!(r.variant, CorrectionVariant::Zigzag);
    assert!(r.violations.iter().any(|v| v.rule == "zigzag_b_retrace_bound"));
    // B retraces all of A: an expanded flat.
    let expanded = vec![node(0, 1000, true), node(1, 900, false), node(2, 1000, true), node(3, 880, false)];
    assert_eq!(
        validate_correction(&expanded).unwrap().variant,
        CorrectionVariant::ExpandedFlat
    );
}

#[test]
fn extension_ratio_is_exactly_1_618() {
    // len1 = 1618, len3 = 1000: exactly the ratio, so wave 1 is extended.
    let at = vec![
        node(0, 0, false),
        node(1, 1618, true),
        node(2, 1000, false),
        node(3, 2000, true),
        node(4, 1900, false),
        node(5, 2100, true),
    ];
    assert_eq!(identify_extended_wave(&at), Some(1));
    let below = vec![
        node(0, 0, false),
        node(1, 1617, true),
        node(2, 1000, false),
        node(3, 2000, true),
        node(4, 1900, false),
        node(5, 2100, true),
    ];
    assert_eq!(identify_extended_wave(&below), None);
}

#[test]
fn triple_three_has_three_segments() {
    let nodes = vec![
        node(0, 150, true),
        node(1, 130, false),
        node(2, 141, true),
        node(3, 120, false),
        node(4, 140, true),
        node(5, 125, false),
        node(6, 134, true),
        node(7, 112, false),
        node(8, 130, true),
        node(9, 110, false),
        node(10, 120, true),
        node(11, 100, false),
    ];
    let r = validate_combination(&nodes).unwrap();
    assert_eq!(r.variant, CombinationVariant::TripleThree);
    assert_eq!(r.segments.len(), 3);
    assert_eq!(r.valid, r.segments.iter().all(|s| s.valid));
}

#[test]
fn test_c_setup_levels_delegate_to_swing_fibonacci() {
    let levels = c_setup_levels(100, 150, true);
    assert_eq!(levels.len(), 8);
    assert_eq!(levels, swing_fibonacci_levels(150, 100, true));
    assert_eq!(c_setup_levels(150, 100, false), swing_fibonacci_levels(150, 100, false));
}

#[test]
fn pullback_quality_measures_the_distance_from_the_common_ratios() {
    // Wave 2 retraces exactly half of wave 1; wave 4 retraces a third of wave 3, 0.049 short of
    // 0.382.
    let impulse = vec![
        node(0, 100, false),
        node(1, 120, true),
        node(2, 110, false),
        node(3, 140, true),
        node(4, 130, false),
        node(5, 150, true),
    ];
    let q = validate_impulse(&impulse).unwrap().pullback_quality;
    assert_eq!(q, PullbackQuality { first_gap: 0, first_scale: 20_000, second_gap: 1460, second_scale: 30_000 });
    assert!((quality(q) - (1.0 - 1460.0 / 30_000.0)).abs() < 1e-12);

    // A zigzag whose B retraces 0.55 of A: 0.05 from 0.5.
    let zigzag = vec![node(0, 150, true), node(1, 130, false), node(2, 141, true), node(3, 120, false)];
    let q = validate_correction(&zigzag).unwrap().pullback_quality;
    assert_eq!(q, PullbackQuality { first_gap: 1000, first_scale: 20_000, second_gap: 0, second_scale: 1 });

    // A flat whose C is 21 against an A of 20.
    let flat = vec![node(0, 150, true), node(1, 130, false), node(2, 149, true), node(3, 128, false)];
    let q = validate_correction(&flat).unwrap().pullback_quality;
    assert_eq!(q, PullbackQuality { first_gap: 1, first_scale: 20, second_gap: 0, second_scale: 1 });
    assert!((quality(q) - 0.95).abs() < 1e-12);

    // A wave 1 without length leaves nothing to measure.
    let flat_start = vec![
        node(0, 100, false),
        node(1, 100, true),
        node(2, 90, false),
        node(3, 140, true),
        node(4, 130, false),
        node(5, 150, true),
    ];
    assert_eq!(quality(validate_impulse(&flat_start).unwrap().pullback_quality), 0.0);
}
