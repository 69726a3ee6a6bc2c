use indicator_core::choices::{MidasMode, PivotSetType, VwapAnchorKind, ZeroVolumePolicy};
use indicator_core::registry::{
    anchor_kind_from, enum_choice, midas_mode_from, pivot_type_from, zero_volume_policy_from,
    RegistryError,
};
use indicator_core::smart_money::{
    pool_transition, window_pivots, LiquidityPoolState, PoolAlert, PoolEvent,
};
use indicator_core::bar::Bar;

fn invalid(parameter: &str, value: &str, reason: &str) -> RegistryError {
    RegistryError::InvalidEnumValue {
        parameter: parameter.to_string(),
        value: value.to_string(),
        reason: reason.to_string(),
    }
}

#[test]
fn enum_choices_are_matched_lower_cased() {
    assert_eq!(enum_choice(Some("Week")), Some("week".to_string()));
    assert_eq!(enum_choice(Some("CAMARILLA")), Some("camarilla".to_string()));
    assert_eq!(enum_choice(None), None);
    let lowered = enum_choice(Some("Month")).unwrap();
    assert_eq!(anchor_kind_from(Some(&lowered), None), Ok(VwapAnchorKind::Month));
}

#[test]
fn anchor_kind_choices() {
    assert_eq!(anchor_kind_from(None, None), Ok(VwapAnchorKind::Session));
    assert_eq!(anchor_kind_from(Some("session"), None), Ok(VwapAnchorKind::Session));
    assert_eq!(anchor_kind_from(Some("day"), None), Ok(VwapAnchorKind::Day));
    assert_eq!(anchor_kind_from(Some("week"), None), Ok(VwapAnchorKind::Week));
    assert_eq!(anchor_kind_from(Some("external"), None), Ok(VwapAnchorKind::External));
    assert_eq!(
        anchor_kind_from(Some("manual_timestamp"), Some(1_700_000_000_000)),
        Ok(VwapAnchorKind::ManualTimestamp(1_700_000_000_000))
    );
    assert_eq!(
        anchor_kind_from(Some("manual_timestamp"), None),
        Err(invalid(
            "anchor_kind",
            "manual_timestamp",
            "requires an accompanying 'anchor_timestamp' Timestamp parameter"
        ))
    );
    assert_eq!(
        anchor_kind_from(Some("hourly"), None),
        Err(invalid(
            "anchor_kind",
            "hourly",
            "expected one of session|day|week|month|external|manual_timestamp"
        ))
    );
}

#[test]
fn zero_volume_policy_choices() {
    assert_eq!(zero_volume_policy_from(None), Ok(ZeroVolumePolicy::EqualWeight));
    assert_eq!(zero_volume_policy_from(Some("equal_weight")), Ok(ZeroVolumePolicy::EqualWeight));
    assert_eq!(zero_volume_policy_from(Some("skip")), Ok(ZeroVolumePolicy::Skip));
    assert_eq!(
        zero_volume_policy_from(Some("drop")),
        Err(invalid("zero_volume_policy", "drop", "expected one of equal_weight|skip"))
    );
}

#[test]
fn pivot_type_choices() {
    assert_eq!(pivot_type_from(None), Ok(PivotSetType::Classic));
    assert_eq!(pivot_type_from(Some("fibonacci")), Ok(PivotSetType::Fibonacci));
    assert_eq!(pivot_type_from(Some("camarilla")), Ok(PivotSetType::Camarilla));
    assert_eq!(pivot_type_from(Some("woodie")), Ok(PivotSetType::Woodie));
    assert_eq!(pivot_type_from(Some("demark")), Ok(PivotSetType::DeMark));
    assert_eq!(pivot_type_from(Some("cpr")), Ok(PivotSetType::Cpr));
    assert_eq!(
        pivot_type_from(Some("Classic")),
        Err(invalid(
            "pivot_type",
            "Classic",
            "expected one of classic|fibonacci|camarilla|woodie|demark|cpr"
        ))
    );
}

#[test]
fn midas_mode_choices() {
    assert_eq!(midas_mode_from(None), Ok(MidasMode::Topfinder));
    assert_eq!(midas_mode_from(Some("bottomfinder")), Ok(MidasMode::Bottomfinder));
    assert_eq!(
        midas_mode_from(Some("sideways")),
        Err(invalid("mode", "sideways", "expected one of topfinder|bottomfinder"))
    );
}

#[test]
fn a_pierced_pool_is_stop_hunted_or_broken_through() {
    let hunt = pool_transition(
        LiquidityPoolState::Active,
        PoolEvent { pierced: true, closed_back: true },
    );
    assert_eq!(hunt, (LiquidityPoolState::StopHunted, Some(PoolAlert::StopHunt)));
    let breakout = pool_transition(
        LiquidityPoolState::Active,
        PoolEvent { pierced: true, closed_back: false },
    );
    assert_eq!(breakout, (LiquidityPoolState::BrokenThrough, Some(PoolAlert::Breakout)));
    let quiet = pool_transition(
        LiquidityPoolState::Active,
        PoolEvent { pierced: false, closed_back: true },
    );
    assert_eq!(quiet, (LiquidityPoolState::Active, None));
}

#[test]
fn a_broken_pool_is_reclaimed_and_then_stays() {
    let back = PoolEvent { pierced: true, closed_back: true };
    let reclaim = pool_transition(LiquidityPoolState::BrokenThrough, back);
    assert_eq!(reclaim, (LiquidityPoolState::Reclaimed, Some(PoolAlert::Reclaim)));
    assert_eq!(PoolAlert::Reclaim.kind(), "liquidity_pool_reclaim");
    assert_eq!(PoolAlert::StopHunt.kind(), "liquidity_pool_stop_hunt");
    assert_eq!(PoolAlert::Breakout.kind(), "liquidity_pool_breakout");
    assert_eq!(pool_transition(LiquidityPoolState::Reclaimed, back), (LiquidityPoolState::Reclaimed, None));
    assert_eq!(pool_transition(LiquidityPoolState::StopHunted, back), (LiquidityPoolState::StopHunted, None));
}

#[test]
fn the_middle_bar_of_a_window_is_a_swing_extreme() {
    let bars = [
        Bar::new(0, 1000, 1050, 990, 1000, 10),
        Bar::new(60, 1000, 1080, 990, 1000, 10),
        Bar::new(120, 1000, 1100, 990, 1000, 10),
        Bar::new(180, 1000, 1060, 990, 1000, 10),
        Bar::new(240, 1000, 1040, 995, 1000, 10),
    ];
    assert_eq!(window_pivots(&bars, 2), (true, true));
    assert_eq!(window_pivots(&bars, 1), (false, true));
    assert_eq!(window_pivots(&bars, 4), (false, false));
}
