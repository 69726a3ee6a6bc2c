use indicator_core::bar::Bar;
use indicator_core::rci::{doubled_average_ranks, RciEngine, RciReading};

fn close(c: i64) -> Bar {
    Bar::new(0, c, c, c, c, 1)
}

fn index(r: RciReading) -> f64 {
    if r.price_spread == 0 {
        0.0
    } else {
        100.0 * r.covariance as f64 / ((r.price_spread as f64) * (r.time_spread as f64)).sqrt()
    }
}

#[test]
fn equal_values_share_the_mean_of_their_ranks() {
    // Ranks 4, 1.5, 3, 1.5, doubled.
    assert_eq!(doubled_average_ranks(&vec![3, 1, 2, 1]), vec![8, 3, 6, 3]);
    assert_eq!(doubled_average_ranks(&vec![]), Vec::<i64>::new());
}

#[test]
fn a_rising_window_reads_plus_one_hundred_and_a_falling_one_minus() {
    let mut engine = RciEngine::new(3);
    assert_eq!(engine.name(), "rci");
    assert_eq!(engine.warmup_period(), 3);
    assert_eq!(engine.on_bar(&close(10)), None);
    assert_eq!(engine.on_bar(&close(20)), None);
    let up = engine.on_bar(&close(30)).unwrap();
    assert_eq!(up, RciReading { covariance: 12, price_spread: 24, time_spread: 6 });
    assert!((index(up) - 100.0).abs() < 1e-9);

    let mut engine = RciEngine::new(3);
    engine.on_bar(&close(30));
    engine.on_bar(&close(20));
    let down = engine.on_bar(&close(10)).unwrap();
    assert_eq!(down, RciReading { covariance: -12, price_spread: 24, time_spread: 6 });
    assert!((index(down) + 100.0).abs() < 1e-9);
}

#[test]
fn ties_and_flat_windows() {
    let mut engine = RciEngine::new(3);
    engine.on_bar(&close(10));
    engine.on_bar(&close(20));
    let tied = engine.on_bar(&close(20)).unwrap();
    assert_eq!(tied, RciReading { covariance: 9, price_spread: 18, time_spread: 6 });
    assert!((index(tied) - 86.602_540_378).abs() < 1e-6);

    // The window slides on to 20, 20, 20: no ordering at all.
    engine.on_bar(&close(20));
    let flat = engine.on_bar(&close(20)).unwrap();
    assert_eq!(flat.covariance, 0);
    assert_eq!(flat.price_spread, 0);
    assert_eq!(index(flat), 0.0);

    engine.reset();
    assert_eq!(engine.on_bar(&close(1)), None);
    // Lengths under two are taken as two.
    assert_eq!(RciEngine::new(1).warmup_period(), 2);
    assert_eq!(RciEngine::with_defaults().warmup_period(), 9);
}
