use indicator_core::bar::Bar;
use indicator_core::chart_detector::ChartPatternDetector;
use indicator_core::chart_patterns::{
    ChartPatternCandidate, ChartPatternKind, PatternState, TrendLine,
};
use indicator_core::swing::ZigZagNode;

/// Prices in these tests are ticks of 0.1, so 118.0 is 1180; tolerances are thousandths of a
/// percent, so 2.0 % is 2000.
fn node(ts: i64, price: i64, is_high: bool) -> ZigZagNode {
    ZigZagNode { timestamp: ts, price, is_high, confirmed: true }
}

fn bar(ts: i64, open: i64, high: i64, low: i64, close: i64) -> Bar {
    Bar::new(ts, open, high, low, close, 1)
}

fn detector(tolerance: u32) -> ChartPatternDetector {
    ChartPatternDetector::new(tolerance)
}

fn find(candidates: Vec<ChartPatternCandidate>, kind: ChartPatternKind) -> Option<ChartPatternCandidate> {
    candidates.into_iter().find(|c| c.kind == kind)
}

#[test]
fn test_trendline_value_at_interpolates() {
    let a = node(0, 1000, true);
    let b = node(100, 2000, true);
    let line = TrendLine::from_nodes(&a, &b);
    assert_eq!(line.excess_at(50, 1500), 0);
    assert!(line.is_above(50, 1501));
    assert!(line.is_below(50, 1499));
}

#[test]
fn test_detects_converging_triangle() {
    let nodes = vec![
        node(0, 1100, true),
        node(10, 900, false),
        node(20, 1050, true),
        node(30, 950, false),
    ];
    let candidates = detector(50_000).detect(&nodes);
    assert!(candidates.iter().any(|c| c.kind == ChartPatternKind::Triangle));
}

#[test]
fn test_detects_bearish_one_two_three_reversal() {
    let nodes = vec![node(0, 1000, false), node(10, 1100, true), node(20, 950, false)];
    let candidates = detector(1_000).detect(&nodes);
    assert!(candidates.iter().any(|c| c.kind == ChartPatternKind::ReversalOneTwoThree));
}

#[test]
fn test_auto_trendline_rejects_violated_support() {
    let nodes = vec![
        node(0, 1000, false),
        node(5, 1050, true),
        node(10, 900, false),
        node(15, 1020, true),
        node(20, 950, false),
    ];
    let candidates = detector(100).detect(&nodes);
    assert!(!candidates
        .iter()
        .any(|c| c.kind == ChartPatternKind::AutoTrendline && c.nodes.iter().all(|n| !n.is_high)));
}

#[test]
fn test_evict_overlaps_keeps_only_highest_confidence_within_same_kind() {
    let nodes = vec![
        node(0, 1300, true),
        node(10, 700, false),
        node(20, 1200, true),
        node(30, 800, false),
        node(40, 1100, true),
        node(50, 900, false),
    ];
    let d = detector(50_000);
    let candidates = d.evict_overlaps(d.detect(&nodes));

    for kind in [
        ChartPatternKind::Triangle,
        ChartPatternKind::RisingWedge,
        ChartPatternKind::FallingWedge,
    ] {
        let same_kind: Vec<&ChartPatternCandidate> =
            candidates.iter().filter(|c| c.kind == kind).collect();
        for (i, a) in same_kind.iter().enumerate() {
            for b in same_kind.iter().skip(i + 1) {
                let (a_start, a_end) = a.node_range();
                let (b_start, b_end) = b.node_range();
                assert!(
                    a_end < b_start || b_end < a_start,
                    "overlapping candidates of the same kind must have been evicted"
                );
            }
        }
    }
    assert!(!candidates.is_empty());
}

#[test]
fn test_triangle_confirms_on_breakout() {
    let nodes = vec![
        node(0, 1100, true),
        node(10, 900, false),
        node(20, 1050, true),
        node(30, 950, false),
    ];
    let mut triangle =
        find(detector(50_000).detect(&nodes), ChartPatternKind::Triangle).unwrap();
    assert_eq!(triangle.update_state(&bar(35, 1000, 1005, 995, 1000)), PatternState::Forming);
    assert_eq!(triangle.update_state(&bar(40, 1300, 1305, 1295, 1300)), PatternState::Confirmed);
    assert_eq!(triangle.update_state(&bar(50, 500, 505, 495, 500)), PatternState::Confirmed);
}

#[test]
fn test_reversal_one_two_three_confirms_and_invalidates() {
    let confirm_nodes = vec![node(0, 1000, false), node(10, 1100, true), node(20, 950, false)];
    let mut confirm_candidate =
        find(detector(1_000).detect(&confirm_nodes), ChartPatternKind::ReversalOneTwoThree)
            .unwrap();
    assert_eq!(
        confirm_candidate.update_state(&bar(30, 900, 905, 895, 900)),
        PatternState::Confirmed
    );

    let mut invalidate_candidate =
        find(detector(1_000).detect(&confirm_nodes), ChartPatternKind::ReversalOneTwoThree)
            .unwrap();
    assert_eq!(
        invalidate_candidate.update_state(&bar(30, 1150, 1155, 1145, 1150)),
        PatternState::Invalidated
    );
}

fn double_top_nodes() -> Vec<ZigZagNode> {
    vec![node(0, 1180, true), node(1200, 1080, false), node(2400, 1174, true)]
}

#[test]
fn test_double_top_is_forming_until_the_neckline_breaks() {
    let mut candidate = find(detector(2_000).detect(&double_top_nodes()), ChartPatternKind::DoubleTop)
        .expect("double top detected");
    assert_eq!(candidate.state, PatternState::Forming);
    assert_eq!(
        candidate.update_state(&bar(3000, 1120, 1130, 1110, 1120)),
        PatternState::Forming
    );
    assert_eq!(
        candidate.update_state(&bar(3600, 1090, 1095, 1070, 1075)),
        PatternState::Confirmed
    );
}

#[test]
fn test_double_top_invalidates_above_its_own_extreme() {
    let mut candidate = find(detector(2_000).detect(&double_top_nodes()), ChartPatternKind::DoubleTop)
        .expect("double top detected");
    assert_eq!(
        candidate.update_state(&bar(3000, 1180, 1200, 1170, 1190)),
        PatternState::Invalidated
    );
}

#[test]
fn test_double_top_needs_the_two_highs_to_match() {
    assert!(!detector(100)
        .detect(&double_top_nodes())
        .iter()
        .any(|c| c.kind == ChartPatternKind::DoubleTop));
}

#[test]
fn test_double_bottom_mirrors() {
    let nodes = vec![node(0, 900, false), node(1200, 1000, true), node(2400, 905, false)];
    let mut candidate = find(detector(2_000).detect(&nodes), ChartPatternKind::DoubleBottom)
        .expect("double bottom detected");
    assert_eq!(
        candidate.update_state(&bar(3000, 1005, 1020, 1000, 1015)),
        PatternState::Confirmed
    );
}

#[test]
fn test_triple_top_uses_the_lower_trough_as_neckline() {
    let nodes = vec![
        node(0, 1200, true),
        node(600, 1120, false),
        node(1200, 1195, true),
        node(1800, 1080, false),
        node(2400, 1204, true),
    ];
    let mut candidate = find(detector(2_000).detect(&nodes), ChartPatternKind::TripleTop)
        .expect("triple top detected");
    assert_eq!(
        candidate.update_state(&bar(3000, 1110, 1115, 1100, 1100)),
        PatternState::Forming
    );
    assert_eq!(
        candidate.update_state(&bar(3600, 1090, 1092, 1070, 1074)),
        PatternState::Confirmed
    );
}

fn head_and_shoulders_nodes() -> Vec<ZigZagNode> {
    vec![
        node(0, 1120, true),
        node(600, 1040, false),
        node(1200, 1240, true),
        node(1800, 1034, false),
        node(2400, 1116, true),
    ]
}

#[test]
fn test_head_and_shoulders_confirms_on_the_sloping_neckline() {
    let mut candidate = find(
        detector(2_000).detect(&head_and_shoulders_nodes()),
        ChartPatternKind::HeadAndShoulders,
    )
    .expect("head and shoulders detected");
    assert_eq!(candidate.state, PatternState::Forming, "the right shoulder confirms nothing");

    // The neckline falls from 104.0 at t=600 to 103.4 at t=1800, so it lies at 102.8 at t=3000.
    let neckline = candidate.lower_line.expect("neckline");
    assert_eq!(neckline.excess_at(3000, 1028), 0);

    assert_eq!(
        candidate.update_state(&bar(3000, 1035, 1036, 1030, 1032)),
        PatternState::Forming,
        "above the line, though below the lower trough"
    );
    assert_eq!(
        candidate.update_state(&bar(3600, 1030, 1031, 1010, 1015)),
        PatternState::Confirmed
    );
}

#[test]
fn test_head_and_shoulders_needs_a_head() {
    let nodes = vec![
        node(0, 1120, true),
        node(600, 1040, false),
        node(1200, 1110, true),
        node(1800, 1034, false),
        node(2400, 1116, true),
    ];
    assert!(!detector(2_000)
        .detect(&nodes)
        .iter()
        .any(|c| c.kind == ChartPatternKind::HeadAndShoulders));
}

#[test]
fn test_inverse_head_and_shoulders_mirrors() {
    let nodes = vec![
        node(0, 980, false),
        node(600, 1060, true),
        node(1200, 860, false),
        node(1800, 1066, true),
        node(2400, 984, false),
    ];
    let mut candidate = find(detector(2_000).detect(&nodes), ChartPatternKind::InverseHeadAndShoulders)
        .expect("inverse head and shoulders detected");
    assert_eq!(
        candidate.update_state(&bar(3000, 1060, 1080, 1055, 1075)),
        PatternState::Confirmed
    );
}

#[test]
fn evicted_candidates_come_out_in_formation_order() {
    let nodes = vec![
        node(0, 1300, true),
        node(10, 700, false),
        node(20, 1200, true),
        node(30, 800, false),
        node(40, 1100, true),
        node(50, 900, false),
    ];
    let d = detector(50_000);
    let all = d.detect(&nodes);
    let triangles = all.iter().filter(|c| c.kind == ChartPatternKind::Triangle).count();
    assert_eq!(triangles, 3);
    let kept = d.evict_overlaps(all);
    let kept_triangles: Vec<&ChartPatternCandidate> =
        kept.iter().filter(|c| c.kind == ChartPatternKind::Triangle).collect();
    assert_eq!(kept_triangles.len(), 1);
    assert_eq!(kept_triangles[0].node_range(), (0, 30));
    for pair in kept.windows(2) {
        assert!(pair[0].formed_at() <= pair[1].formed_at());
    }
}

#[test]
fn the_tolerance_has_a_floor() {
    assert_eq!(ChartPatternDetector::new(0).tolerance, 1);
    assert_eq!(ChartPatternDetector::new(2_000).tolerance, 2_000);
    let d = detector(2_000);
    assert!(d.within_tolerance(1180, 1157, 1180));
    assert!(!d.within_tolerance(1180, 1156, 1180));
}
