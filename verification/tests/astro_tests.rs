//! Tests of the astronomical model and the solar production curve.
//!
//! Quantities are Q32.32 fixed point; latitudes are degrees, daylight is
//! hours, times of day are seconds since midnight.

use transient_solar_battery_simulation::daylight_hours;
use transient_solar_battery_simulation::solar_power;
use transient_solar_battery_simulation::solar_production_curve;
use transient_solar_battery_simulation::sunrise;
use transient_solar_battery_simulation::sunset;
use transient_solar_battery_simulation::time_hours;
use transient_solar_battery_simulation::SimState;

const Q: i64 = 4294967296;

/// Equinox-like behavior at the equator: close to 12 hours of daylight on
/// day ordinal 85 (late March).
#[test]
fn test_daylight_1() {
    let error = (daylight_hours(0, 85) - 12 * Q).abs();
    assert!(error < (3 * Q) / 20);
}

/// Mid-March at 45 degrees north: about 11.446 hours of daylight.
#[test]
fn test_daylight_march_45() {
    let error = (daylight_hours(45 * Q, 73) - 49160590222).abs();
    assert!(error < Q / 20);
}

/// Winter solstice at 45 degrees north: about 8.383 hours of daylight.
#[test]
fn test_daylight_winter_45() {
    let error = (daylight_hours(45 * Q, 354) - 36004117287).abs();
    assert!(error < Q / 20);
}

/// Polar night: the north pole sees no daylight at the winter solstice.
#[test]
fn test_daylight_polar_night() {
    assert!(daylight_hours(90 * Q, 354) < Q / 2);
}

/// Polar day: the north pole sees daylight around the clock at the summer
/// solstice, and the south pole at the winter solstice.
#[test]
fn test_daylight_polar_day() {
    assert!(daylight_hours(90 * Q, 171) > 23 * Q + Q / 2);
    assert!(daylight_hours(-90 * Q, 354) > 23 * Q + Q / 2);
}

/// On day ordinal 73 (mid-March) at 45 degrees north the sun rises within
/// the six o'clock hour.
#[test]
fn test_sunrise_1() {
    assert_eq!(sunrise(73, 45 * Q) / 3600, 6);
}

/// Sunrise and sunset are symmetric about solar noon.
#[test]
fn test_sunrise_sunset_symmetric() {
    let rise = sunrise(73, 45 * Q);
    let set = sunset(73, 45 * Q);
    assert_eq!(43200 - rise, set - 43200);
}

/// 1:30:00 is 1.5 hours.
#[test]
fn test_time_hours() {
    assert_eq!(time_hours(5400), 6442450944);
}

/// At 6:00 with a roughly 11.2-hour daylight window (latitude 12 degrees,
/// day ordinal 0) the sun is not yet up: the coefficient is exactly zero at
/// and before the sunrise boundary.
#[test]
fn test_solar_production_2() {
    assert_eq!(solar_production_curve(21600, 12 * Q), 0);
}

/// The curve peaks at solar noon: the coefficient is 1 up to fixed-point
/// granularity.
#[test]
fn test_solar_production_noon_peak() {
    let c = solar_production_curve(43200, 0);
    assert!((c - Q).abs() < Q / 1000);
}

/// A one-second window at 9:00 on day ordinal 59 (the start of March) at
/// the equator: the averaged coefficient is about 0.4926 of the 1 W nominal
/// output.
#[test]
fn test_solar_power_2() {
    let mut state = SimState::new();
    state.now = 59 * 86400 + 32400;
    state.step_size = 1;
    state.solar_nominal_output = Q;
    let net = solar_power(&state);
    assert!((net - 2115787025).abs() < Q / 100);
}
