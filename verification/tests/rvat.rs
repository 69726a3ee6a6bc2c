use indicator_core::bar::Bar;
use indicator_core::rvat::{RelativeVolumeAtTime, RvatReading};

fn at(timestamp: i64, volume: i64) -> Bar {
    Bar::new(timestamp, 100, 101, 99, 100, volume)
}

const DAY: i64 = 86_400;

#[test]
fn compares_with_the_same_slot_on_previous_days() {
    let mut engine = RelativeVolumeAtTime::new(2, 0, 60);
    assert_eq!(engine.name(), "rvat");
    assert_eq!(engine.warmup_period(), 1440);

    // Day 0 has nothing to compare with.
    assert_eq!(engine.on_bar(&at(0, 100)), None);
    assert_eq!(engine.on_bar(&at(60, 50)), None);

    assert_eq!(
        engine.on_bar(&at(DAY, 200)),
        Some(RvatReading {
            volume: 200,
            cumulative: 200,
            samples: 1,
            volume_sum: 100,
            cumulative_sum: 100,
            complete: false,
        })
    );
    // The 00:01 slot compares its cumulative volume with day 0's 150 by then.
    assert_eq!(
        engine.on_bar(&at(DAY + 60, 100)),
        Some(RvatReading {
            volume: 100,
            cumulative: 300,
            samples: 1,
            volume_sum: 50,
            cumulative_sum: 150,
            complete: false,
        })
    );
    assert_eq!(
        engine.on_bar(&at(2 * DAY, 300)),
        Some(RvatReading {
            volume: 300,
            cumulative: 300,
            samples: 2,
            volume_sum: 300,
            cumulative_sum: 300,
            complete: true,
        })
    );
}

#[test]
fn negative_volume_is_ignored_and_silent_slots_give_nothing() {
    let mut engine = RelativeVolumeAtTime::with_defaults();
    assert_eq!(engine.on_bar(&at(0, 0)), None);
    assert_eq!(engine.on_bar(&at(DAY, -5)), None);
    // The previous day traded nothing in this slot: no ratio against nothing.
    assert_eq!(engine.on_bar(&at(DAY, 10)), None);
    // A negative-volume bar did not start day 1 or add to it.
    assert_eq!(
        engine.on_bar(&at(2 * DAY, 10)),
        Some(RvatReading {
            volume: 10,
            cumulative: 10,
            samples: 2,
            volume_sum: 10,
            cumulative_sum: 10,
            complete: false,
        })
    );
}

#[test]
fn days_start_at_the_offset() {
    // Days start at 01:00 UTC, so 00:30 UTC belongs to the previous day's 23:30 slot.
    let mut engine = RelativeVolumeAtTime::new(1, 3600, 60);
    assert_eq!(engine.on_bar(&at(1800, 10)), None);
    assert_eq!(
        engine.on_bar(&at(DAY + 1800, 30)),
        Some(RvatReading {
            volume: 30,
            cumulative: 30,
            samples: 1,
            volume_sum: 10,
            cumulative_sum: 10,
            complete: true,
        })
    );
}

#[test]
fn old_days_are_dropped_and_slots_are_capped() {
    let mut engine = RelativeVolumeAtTime::new(1, 0, 60);
    engine.on_bar(&at(0, 10));
    engine.on_bar(&at(DAY, 10));
    // Day 3 keeps only days from 2 on: nothing left to compare with.
    assert_eq!(engine.on_bar(&at(3 * DAY, 10)), None);

    // Three bars in one slot on one day: the slot keeps the newest two.
    let mut engine = RelativeVolumeAtTime::new(1, 0, 60);
    assert_eq!(engine.on_bar(&at(0, 10)), None);
    assert_eq!(engine.on_bar(&at(0, 20)), None);
    assert_eq!(engine.on_bar(&at(0, 30)), None);
    assert_eq!(
        engine.on_bar(&at(DAY, 40)),
        Some(RvatReading {
            volume: 40,
            cumulative: 40,
            samples: 2,
            volume_sum: 50,
            cumulative_sum: 90,
            complete: true,
        })
    );

    engine.reset();
    assert_eq!(engine.on_bar(&at(2 * DAY, 40)), None);
}

#[test]
fn bar_seconds_only_state_the_warmup() {
    assert_eq!(RelativeVolumeAtTime::new(0, 0, 0).warmup_period(), 86_400);
    assert_eq!(RelativeVolumeAtTime::new(5, 0, 100_000).warmup_period(), 1);
    assert_eq!(RelativeVolumeAtTime::new(5, 0, 300).warmup_period(), 288);
}
