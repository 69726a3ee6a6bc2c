use indicator_core::choices::{DeltaProvenance, PivotSetType, VwapAnchorKind, ZeroVolumePolicy};
use indicator_core::engines::{
    BalanceOfPowerEngine, BuySellPressureEstimator, ChaikinOscillatorEngine, ElderRayEngine,
    RviEngine, TrSmoother, TrueRangeSmoothing,
};

#[test]
fn periods_are_clamped_to_one() {
    assert_eq!(BalanceOfPowerEngine::new(0).warmup_period(), 1);
    assert_eq!(BalanceOfPowerEngine::new(14).warmup_period(), 14);
    assert_eq!(RviEngine::new(10).warmup_period(), 14);
    assert_eq!(RviEngine::new(0).warmup_period(), 5);
    assert_eq!(BuySellPressureEstimator::with_defaults().warmup_period(), 14);
    assert_eq!(ElderRayEngine::new(0).warmup_period(), 1);
    assert_eq!(BalanceOfPowerEngine::new(14).name(), "bop");
    assert_eq!(RviEngine::new(10).name(), "rvi");
}

#[test]
fn chaikin_publishes_from_the_slow_length_on() {
    let mut cho = ChaikinOscillatorEngine::with_defaults();
    assert_eq!((cho.fast_len(), cho.slow_len()), (3, 10));
    let ready: Vec<bool> = (0..12).map(|_| cho.count_bar()).collect();
    assert_eq!(ready.iter().position(|r| *r), Some(9));
    cho.reset();
    assert_eq!(cho.bar_count(), 0);
    assert!(!cho.count_bar());
}

#[test]
fn elder_ray_publishes_from_the_ema_period_on() {
    let mut e = ElderRayEngine::new(3);
    assert!(!e.count_bar());
    assert!(!e.count_bar());
    assert!(e.count_bar());
    e.reset();
    assert!(!e.count_bar());
}

#[test]
fn exponential_true_range_waits_for_its_length() {
    let mut s = TrSmoother::new(TrueRangeSmoothing::Ema, 3);
    assert!(!s.on_value());
    assert!(!s.on_value());
    assert!(s.on_value());
    s.reset();
    assert!(!s.on_value());
    let mut w = TrSmoother::new(TrueRangeSmoothing::Wma, 3);
    assert!(w.on_value());
    assert_eq!(TrueRangeSmoothing::default(), TrueRangeSmoothing::Rma);
}

#[test]
fn choice_defaults_and_labels() {
    assert_eq!(VwapAnchorKind::default(), VwapAnchorKind::Session);
    assert_eq!(ZeroVolumePolicy::default(), ZeroVolumePolicy::EqualWeight);
    assert_eq!(PivotSetType::default(), PivotSetType::Classic);
    assert_eq!(DeltaProvenance::IntrabarShape.label(), "intrabar shape");
}
