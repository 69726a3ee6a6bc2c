use indicator_core::bar::Bar;
use indicator_core::harmonics::{
    harmonic_table, HarmonicConfig, HarmonicDetector, HarmonicState,
};
use indicator_core::swing::ZigZagNode;

/// Prices in these tests are in cents: 107.64 is 10764.
fn node(ts: i64, price: i64, is_high: bool) -> ZigZagNode {
    ZigZagNode {
        timestamp: ts,
        price,
        is_high,
        confirmed: true,
    }
}

/// X = 100, A = 120, Gartley ratios: B = 107.64, C = 113.82, D = 104.28.
fn gartley_nodes() -> Vec<ZigZagNode> {
    vec![
        node(0, 10000, false),
        node(600, 12000, true),
        node(1200, 10764, false),
        node(1800, 11382, true),
        node(2400, 10428, false),
    ]
}

#[test]
fn recognises_a_gartley() {
    let found = HarmonicDetector::default().scan(&gartley_nodes());
    assert!(found.iter().any(|h| h.name == "gartley"), "{found:?}");
    let g = found.iter().find(|h| h.name == "gartley").unwrap();
    assert!(g.bullish, "X is a low, so D resolves upward");
    assert_eq!(g.state, HarmonicState::Complete);
}

#[test]
fn the_tolerance_decides_whether_it_exists() {
    // 0.60 instead of 0.618 — B at 108.0. Inside a three-point tolerance, outside a tight one.
    let mut nodes = gartley_nodes();
    nodes[2].price = 10800;

    let weit = HarmonicDetector::default();
    assert!(weit.scan(&nodes).iter().any(|h| h.name == "gartley"));

    let eng = HarmonicDetector::new(HarmonicConfig {
        ratio_tolerance: 0,
        ..HarmonicConfig::default()
    });
    assert!(!eng.scan(&nodes).iter().any(|h| h.name == "gartley"));
}

#[test]
fn a_candidate_has_no_d_but_a_zone() {
    let nodes = &gartley_nodes()[..4];
    let candidates = HarmonicDetector::default().scan_candidates(nodes);
    let g = candidates
        .iter()
        .find(|h| h.name == "gartley")
        .expect("candidate");
    assert_eq!(g.state, HarmonicState::Candidate);
    assert!(g.d.is_none());
    assert!(g.prz.width() > 0, "a zone, never a line");
    assert!(g.prz.contains(10428), "the actual D lies inside: {:?}", g.prz);
}

#[test]
fn the_zone_is_never_a_line() {
    // The floor keeps it a zone at least 0.5 % of XA wide: 0.1 = 10 cents, in 1/8000 cent units.
    let d = HarmonicDetector::default();
    let prz = d.prz(&harmonic_table()[0], 10000, 12000, 10764, 11382);
    assert!(prz.width() >= 10 * 8000);
}

#[test]
fn a_candidate_completes_and_confirms() {
    let mut c = HarmonicDetector::default()
        .scan_candidates(&gartley_nodes()[..4])
        .into_iter()
        .find(|h| h.name == "gartley")
        .expect("candidate");

    // Above the zone: nothing has happened.
    assert_eq!(
        c.update_state(&Bar::new(3000, 11000, 11100, 10900, 11000, 1)),
        HarmonicState::Candidate
    );
    // Into the zone.
    assert_eq!(
        c.update_state(&Bar::new(3600, 10600, 10650, 10339, 10359, 1)),
        HarmonicState::Complete
    );
    assert_eq!(c.d, Some(10339));
    // Back out of it upward.
    assert_eq!(
        c.update_state(&Bar::new(4200, 10600, 11200, 10580, 11100, 1)),
        HarmonicState::Confirmed
    );
}

#[test]
fn running_through_the_zone_invalidates() {
    let mut c = HarmonicDetector::default()
        .scan_candidates(&gartley_nodes()[..4])
        .into_iter()
        .find(|h| h.name == "gartley")
        .expect("candidate");
    assert_eq!(
        c.update_state(&Bar::new(3600, 10600, 10650, 9000, 9100, 1)),
        HarmonicState::Invalidated
    );
    // Terminal: a later recovery does not resurrect it.
    assert_eq!(
        c.update_state(&Bar::new(4200, 9100, 12000, 9100, 11900, 1)),
        HarmonicState::Invalidated
    );
}

#[test]
fn zone_edges_are_exact_projections() {
    // XA retracement at 0.785 of 20.00 from A: 104.30; BC extension 1.374 * 6.18 from C:
    // 105.32868; AB=CD: 101.46. The zone spans the outer two.
    let prz = HarmonicDetector::default().prz(&harmonic_table()[0], 10000, 12000, 10764, 11382);
    assert_eq!(prz.low, 10146 * 8000);
    assert_eq!(prz.high, 10532868 * 8);
    assert!(prz.contains(10430));
    assert!(!prz.contains(10533));
}

#[test]
fn a_bearish_gartley_mirrors() {
    // The mirror image: X a high at 120, A a low at 100.
    let nodes = vec![
        node(0, 12000, true),
        node(600, 10000, false),
        node(1200, 11236, true),
        node(1800, 10618, false),
        node(2400, 11572, true),
    ];
    let found = HarmonicDetector::default().scan(&nodes);
    let g = found.iter().find(|h| h.name == "gartley").expect("gartley");
    assert!(!g.bullish);
}

#[test]
fn non_alternating_or_flat_windows_yield_nothing() {
    let mut nodes = gartley_nodes();
    nodes[1].is_high = false;
    assert!(HarmonicDetector::default().scan(&nodes).is_empty());
    let flat = vec![node(0, 100, false), node(1, 100, true), node(2, 100, false), node(3, 100, true), node(4, 100, false)];
    assert!(HarmonicDetector::default().scan(&flat).is_empty());
    assert!(HarmonicDetector::default().scan(&gartley_nodes()[..4]).is_empty());
}

#[test]
fn a_narrow_zone_is_widened_to_the_minimum_half_width() {
    // The three projections agree within 0.074 tick around 215.037; the share of 5 thousandths of
    // XA = 1000 gives a half-width of 5 ticks: 210.037 to 220.037, in 1/8000 tick units.
    let prz = HarmonicDetector::default().prz(&harmonic_table()[0], 0, 1000, 383, 832);
    assert_eq!(prz.low, 1_680_296);
    assert_eq!(prz.high, 1_760_296);
    assert_eq!(prz.width(), 2 * 5 * 8000);
}
