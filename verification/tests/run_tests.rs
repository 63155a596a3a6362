//! Tests of the run driver: parameter validation, the simulation loop, and
//! the properties of a finished run.

use transient_solar_battery_simulation::run_simulation;
use transient_solar_battery_simulation::ParamError;
use transient_solar_battery_simulation::SimState;

const Q: i64 = 4294967296;

fn two_day_params() -> SimState {
    let mut state = SimState::new();
    state.battery_capacity = 100 * Q;
    state.solar_nominal_output = 10 * Q;
    state.load = 20 * Q;
    state.latitude = 36 * Q;
    state.step_size = 3600;
    state.start_day = 1;
    state.end_day = 3;
    state
}

/// A two-day run with hourly steps performs 48 steps, one history sample
/// each, and ends at midnight of the end day.
#[test]
fn test_run_lengths_and_final_clock() {
    let out = run_simulation(&two_day_params()).unwrap();
    assert_eq!(out.charge_history.len(), 48);
    assert_eq!(out.history_dates.len(), 48);
    assert_eq!(out.solar_history.len(), 48);
    assert_eq!(out.daylight_history.len(), 48);
    assert_eq!(out.history_dates[0], 0);
    assert_eq!(out.now, 172800);
}

/// The history timestamps are strictly increasing by exactly the step size.
#[test]
fn test_run_timestamps_monotonic() {
    let out = run_simulation(&two_day_params()).unwrap();
    for i in 0..out.history_dates.len() - 1 {
        assert_eq!(out.history_dates[i + 1], out.history_dates[i] + 3600);
        assert!(out.history_dates[i] < out.history_dates[i + 1]);
    }
}

/// Every charge sample and the final charge lie within [0, capacity].
#[test]
fn test_run_charge_within_capacity() {
    let out = run_simulation(&two_day_params()).unwrap();
    for &c in out.charge_history.iter() {
        assert!(0 <= c && c <= 100 * Q);
    }
    assert!(0 <= out.current_stored_energy && out.current_stored_energy <= 100 * Q);
}

/// Running twice with identical parameters yields identical output series:
/// there is no hidden state between runs.
#[test]
fn test_run_idempotent() {
    let a = run_simulation(&two_day_params()).unwrap();
    let b = run_simulation(&two_day_params()).unwrap();
    assert_eq!(a.charge_history, b.charge_history);
    assert_eq!(a.history_dates, b.history_dates);
    assert_eq!(a.solar_history, b.solar_history);
    assert_eq!(a.daylight_history, b.daylight_history);
    assert_eq!(a.current_stored_energy, b.current_stored_energy);
    assert_eq!(a.now, b.now);
}

/// The run may be driven from a state that already holds histories and a
/// charge: they are discarded and rebuilt, so the result is the same.
#[test]
fn test_run_resets_state() {
    let fresh = run_simulation(&two_day_params()).unwrap();
    let again = run_simulation(&fresh).unwrap();
    assert_eq!(fresh.charge_history, again.charge_history);
    assert_eq!(fresh.current_stored_energy, again.current_stored_energy);
}

/// One day of the demonstration defaults, 45-minute steps: 32 samples and a
/// reproducible final charge of about 78.66 Wh.
#[test]
fn test_run_default_day_golden() {
    let mut state = SimState::default();
    state.end_day = 2;
    let out = run_simulation(&state).unwrap();
    assert_eq!(out.charge_history.len(), 32);
    assert!((out.current_stored_energy - 337861379023).abs() < Q / 10);
}

/// A tiny battery is filled to its capacity, exactly, and stays there: the
/// first sample is the empty start, the dark first quarter of the day adds
/// nothing, then the clamp holds the charge at the 1 Wh capacity.
#[test]
fn test_run_clamps_to_capacity() {
    let mut state = SimState::new();
    state.battery_capacity = Q;
    state.solar_nominal_output = 1000 * Q;
    state.load = 0;
    state.latitude = 0;
    state.step_size = 21600;
    state.start_day = 1;
    state.end_day = 2;
    let out = run_simulation(&state).unwrap();
    assert_eq!(out.charge_history, vec![0, 0, Q, Q]);
    assert_eq!(out.current_stored_energy, Q);
}

/// An end day at or before the start day means an already expired loop:
/// zero steps, documented behavior rather than an error.
#[test]
fn test_run_expired_range() {
    let mut state = two_day_params();
    state.start_day = 5;
    state.end_day = 2;
    let out = run_simulation(&state).unwrap();
    assert_eq!(out.charge_history.len(), 0);
    assert_eq!(out.now, 345600);
    assert_eq!(out.current_stored_energy, 0);
}

/// Day 0 is clamped to day 1 on both ends.
#[test]
fn test_run_day_zero_clamped() {
    let mut state = two_day_params();
    state.start_day = 0;
    state.end_day = 1;
    let out = run_simulation(&state).unwrap();
    assert_eq!(out.charge_history.len(), 0);
    assert_eq!(out.now, 0);
}

#[test]
fn test_run_rejects_negative_load() {
    let mut state = two_day_params();
    state.load = -1;
    assert_eq!(run_simulation(&state).unwrap_err(), ParamError::LoadOutOfRange);
}

#[test]
fn test_run_rejects_negative_capacity() {
    let mut state = two_day_params();
    state.battery_capacity = -1;
    assert_eq!(run_simulation(&state).unwrap_err(), ParamError::CapacityOutOfRange);
}

#[test]
fn test_run_rejects_huge_solar_output() {
    let mut state = two_day_params();
    state.solar_nominal_output = 281474976710657;
    assert_eq!(run_simulation(&state).unwrap_err(), ParamError::SolarOutputOutOfRange);
}

#[test]
fn test_run_rejects_latitude_beyond_pole() {
    let mut state = two_day_params();
    state.latitude = 91 * Q;
    assert_eq!(run_simulation(&state).unwrap_err(), ParamError::LatitudeOutOfRange);
}

#[test]
fn test_run_rejects_zero_step() {
    let mut state = two_day_params();
    state.step_size = 0;
    assert_eq!(run_simulation(&state).unwrap_err(), ParamError::StepSizeOutOfRange);
}

#[test]
fn test_run_rejects_start_day_past_year() {
    let mut state = two_day_params();
    state.start_day = 367;
    assert_eq!(run_simulation(&state).unwrap_err(), ParamError::StartDayOutOfRange);
}

#[test]
fn test_run_rejects_end_day_past_year() {
    let mut state = two_day_params();
    state.end_day = 367;
    assert_eq!(run_simulation(&state).unwrap_err(), ParamError::EndDayOutOfRange);
}

/// Day 366 is a valid end day (leap years have one), one day past day 365.
#[test]
fn test_run_accepts_day_366() {
    let mut state = two_day_params();
    state.start_day = 365;
    state.end_day = 366;
    state.step_size = 86400;
    let out = run_simulation(&state).unwrap();
    assert_eq!(out.charge_history.len(), 1);
    assert_eq!(out.now, 365 * 86400);
}

/// The largest representable parameters and a polar latitude are accepted
/// and run to completion without overflow.
#[test]
fn test_run_accepts_boundary_parameters() {
    let mut state = two_day_params();
    state.load = 281474976710656;
    state.battery_capacity = 281474976710656;
    state.solar_nominal_output = 281474976710656;
    state.latitude = -90 * Q;
    let out = run_simulation(&state).unwrap();
    assert_eq!(out.charge_history.len(), 48);
}
