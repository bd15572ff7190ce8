//! Tick-to-millisecond arithmetic for the two clocks.

use wintime::timing::{accounting_millis, wall_millis};

#[test]
fn wall_time_scales_by_the_counter_frequency() {
    // Two seconds of ticks at one thousand ticks per second.
    assert_eq!(wall_millis(500, 2_500, 1_000), 2_000);
    // The same interval at ten million ticks per second is a fifth of a
    // millisecond, rounded down.
    assert_eq!(wall_millis(500, 2_500, 10_000_000), 0);
    assert_eq!(wall_millis(0, 10_000_000, 10_000_000), 1_000);
}

#[test]
fn frequency_is_never_assumed_to_be_one() {
    let ticks = 3_579_545; // one second of an old counter
    assert_eq!(wall_millis(0, ticks, 3_579_545), 1_000);
    assert_ne!(wall_millis(0, ticks, 1_000), 1_000);
}

#[test]
fn reversed_samples_count_as_zero() {
    assert_eq!(wall_millis(100, 99, 1_000), 0);
}

#[test]
fn an_unrepresentable_wall_time_saturates() {
    assert_eq!(wall_millis(0, u64::MAX, 1), u64::MAX);
}

#[test]
fn accounting_ticks_are_hundred_nanosecond_units() {
    assert_eq!(accounting_millis(0), 0);
    assert_eq!(accounting_millis(9_999), 0);
    assert_eq!(accounting_millis(10_000), 1);
    assert_eq!(accounting_millis(25_000), 2);
    assert_eq!(accounting_millis(10_000_000), 1_000);
}
