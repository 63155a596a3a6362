//! Tests of the daylight-bounded interval overlap.
//!
//! Timestamps are seconds on the reference timeline (day 1 starts at 0);
//! daylight durations and fractional hours are Q32.32 fixed point. With a
//! 12-hour daylight window the day's sunrise is at 6:00 and its sunset at
//! 18:00.

use transient_solar_battery_simulation::bounded_daylight_duration;
use transient_solar_battery_simulation::bounded_daylight_hours;
use transient_solar_battery_simulation::earlier_of;
use transient_solar_battery_simulation::later_of;

const Q: i64 = 4294967296;

/// Noon to 13:00 lies fully inside a 12-hour daylight window: one hour.
#[test]
fn test_bounded_daylight_duration_1() {
    assert_eq!(bounded_daylight_duration(43200, 46800, 12 * Q), 3600);
}

/// The same window in fractional hours: exactly 1.0.
#[test]
fn test_bounded_daylight_hours_1() {
    assert_eq!(bounded_daylight_hours(43200, 46800, 12 * Q), Q);
}

/// Noon plus a one-hour duration: exactly 1.0 again.
#[test]
fn test_bounded_daylight_hours_2() {
    let start: u64 = 43200;
    let dur: u64 = 3600;
    assert_eq!(bounded_daylight_hours(start, start + dur, 12 * Q), Q);
}

/// 5:15 to 6:15 overlaps a 6:00 sunrise by a quarter hour: exactly 0.25.
#[test]
fn test_bounded_daylight_hours_3() {
    assert_eq!(bounded_daylight_hours(18900, 22500, 12 * Q), Q / 4);
}

/// A window entirely before sunrise has no overlap at all.
#[test]
fn test_bounded_daylight_no_overlap() {
    assert_eq!(bounded_daylight_duration(0, 21600, 12 * Q), 0);
    assert_eq!(bounded_daylight_hours(0, 21600, 12 * Q), 0);
}

/// A window across sunset is clipped at sunset: 17:30 to 19:30 yields half
/// an hour of a 12-hour window ending at 18:00.
#[test]
fn test_bounded_daylight_clipped_at_sunset() {
    assert_eq!(bounded_daylight_duration(63000, 70200, 12 * Q), 1800);
    assert_eq!(bounded_daylight_hours(63000, 70200, 12 * Q), Q / 2);
}

/// The overlap uses the daylight window of the start's own calendar day.
#[test]
fn test_bounded_daylight_second_day() {
    assert_eq!(bounded_daylight_duration(86400 + 43200, 86400 + 46800, 12 * Q), 3600);
}

/// Ordering of equal timestamps: either argument may come back, so both
/// comparisons see the same value.
#[test]
fn test_time_comparison() {
    let noon: u64 = 43200;
    let nine_am: u64 = 43200;
    assert_eq!(later_of(noon, nine_am), noon);
    assert_eq!(later_of(nine_am, noon), noon);
    assert_eq!(earlier_of(noon, nine_am), nine_am);
    assert_eq!(earlier_of(nine_am, noon), nine_am);
}

/// Ordering of distinct timestamps.
#[test]
fn test_time_comparison_distinct() {
    let nine_am: u64 = 32400;
    let noon: u64 = 43200;
    assert_eq!(later_of(nine_am, noon), noon);
    assert_eq!(later_of(noon, nine_am), noon);
    assert_eq!(earlier_of(nine_am, noon), nine_am);
    assert_eq!(earlier_of(noon, nine_am), nine_am);
}
