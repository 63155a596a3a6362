//! Tests of the simulation state machine: one step of the energy balance,
//! the charge clamping, and the history alignment.
//!
//! Quantities are Q32.32 fixed point: 1.0 is 4294967296.

use transient_solar_battery_simulation::step;
use transient_solar_battery_simulation::SimState;

const Q: i64 = 4294967296;

/// A 2-hour step at noon with no solar input: the 20 W load drains 40 Wh,
/// leaving 10 Wh of the initial 50.
#[test]
fn test_step_1() {
    let mut state = SimState::new();
    state.now = 43200;
    state.step_size = 7200;
    state.battery_capacity = 100 * Q;
    state.current_stored_energy = 50 * Q;
    state.solar_nominal_output = 0;
    state.load = 20 * Q;
    let net = step(&state);
    assert_eq!(net.current_stored_energy, 10 * Q);
}

/// The default 45-minute step at midnight of day 1: both curve samples fall
/// before sunrise, so the panel contributes nothing and the 20 W load drains
/// exactly 15 Wh, leaving 35 of the initial 50.
#[test]
fn test_step_2() {
    let mut state = SimState::new();
    state.battery_capacity = 100 * Q;
    state.current_stored_energy = 50 * Q;
    state.solar_nominal_output = 10 * Q;
    state.load = 20 * Q;
    let net = step(&state);
    assert_eq!(net.current_stored_energy, 35 * Q);
}

/// Discharging below empty is floored at zero: unmet load is not tracked.
#[test]
fn test_step_discharge_floored_at_zero() {
    let mut state = SimState::new();
    state.now = 0;
    state.step_size = 7200;
    state.battery_capacity = 100 * Q;
    state.current_stored_energy = 5 * Q;
    state.solar_nominal_output = 0;
    state.load = 20 * Q;
    let net = step(&state);
    assert_eq!(net.current_stored_energy, 0);
}

/// Charging above capacity is capped: excess solar energy is lost. A 6-hour
/// step ending at solar noon of day 1 gathers far more than the 1 Wh
/// battery holds.
#[test]
fn test_step_overcharge_capped_at_capacity() {
    let mut state = SimState::new();
    state.now = 21600;
    state.step_size = 21600;
    state.battery_capacity = Q;
    state.current_stored_energy = 0;
    state.solar_nominal_output = 1000 * Q;
    state.load = 0;
    let net = step(&state);
    assert_eq!(net.current_stored_energy, Q);
}

/// Each step appends the pre-step charge and the pre-step timestamp before
/// advancing the clock, so the last applied step's result is only in
/// `current_stored_energy`.
#[test]
fn test_step_history_alignment() {
    let mut state = SimState::new();
    state.now = 43200;
    state.step_size = 7200;
    state.battery_capacity = 100 * Q;
    state.current_stored_energy = 50 * Q;
    state.solar_nominal_output = 0;
    state.load = 20 * Q;
    let next = step(&state);
    assert_eq!(next.charge_history.len(), 1);
    assert_eq!(next.history_dates.len(), 1);
    assert_eq!(next.solar_history.len(), 1);
    assert_eq!(next.daylight_history.len(), 1);
    assert_eq!(next.charge_history[0], 50 * Q);
    assert_eq!(next.history_dates[0], 43200);
    assert_eq!(next.solar_history[0], 0);
    assert_eq!(next.now, 50400);
}
