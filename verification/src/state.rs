//! The simulation state: user parameters, the battery's charge, the clock
//! and the accumulated history series.
//!
//! One `SimState` value serves both as the parameter record handed to the
//! run driver and as the state the simulation loop advances. Powers and
//! energies are Q32.32 watts and watt-hours, the latitude is Q32.32 degrees,
//! and timestamps are whole seconds on the reference timeline.

use vstd::prelude::*;
use crate::astro::LAT_MAX_Q;
use crate::timeline::MAX_TS;

verus! {

/// Largest accepted magnitude for the power and energy parameters:
/// 65536 (2^16) watts or watt-hours in Q32.32, which keeps every energy
/// balance comfortably inside 64-bit fixed point.
pub const MAX_POWER_Q: i64 = 281474976710656;

/// Largest accepted step size: 366 days in seconds.
pub const MAX_STEP_SECS: u64 = 31622400;

/// Largest accepted day of year (leap years have 366 days).
pub const MAX_DAY: u32 = 366;

#[derive(Debug)]
pub struct SimState {
    /// Constant load drawn from the battery, watts (Q32.32).
    pub load: i64,
    /// Battery capacity, watt-hours (Q32.32).
    pub battery_capacity: i64,
    /// State of charge, watt-hours (Q32.32).
    pub current_stored_energy: i64,
    /// Nominal solar output, watts (Q32.32).
    pub solar_nominal_output: i64,
    /// Pre-step state of charge, one sample per step.
    pub charge_history: Vec<i64>,
    /// Latitude, degrees (Q32.32).
    pub latitude: i64,
    /// Timestamp at the start of each step, parallel to the histories.
    pub history_dates: Vec<u64>,
    /// The current simulated timestamp, seconds.
    pub now: u64,
    /// Step duration, seconds.
    pub step_size: u64,
    /// First simulated day of the year, 1-based (0 is clamped to 1).
    pub start_day: u32,
    /// Day of the year whose midnight ends the run, 1-based (0 is clamped
    /// to 1).
    pub end_day: u32,
    /// Solar power of each step, watts (Q32.32).
    pub solar_history: Vec<i64>,
    /// Daylight duration of each step's day, hours (Q32.32).
    pub daylight_history: Vec<i64>,
}

/// The load is a representable nonnegative power.
pub open spec fn load_ok(s: SimState) -> bool {
    0 <= s.load <= MAX_POWER_Q
}

/// The battery capacity is a representable nonnegative energy.
pub open spec fn capacity_ok(s: SimState) -> bool {
    0 <= s.battery_capacity <= MAX_POWER_Q
}

/// The nominal solar output is a representable nonnegative power.
pub open spec fn solar_ok(s: SimState) -> bool {
    0 <= s.solar_nominal_output <= MAX_POWER_Q
}

/// The latitude lies between the poles.
pub open spec fn latitude_ok(s: SimState) -> bool {
    -LAT_MAX_Q <= s.latitude <= LAT_MAX_Q
}

/// The step size is positive and at most a year.
pub open spec fn step_size_ok(s: SimState) -> bool {
    1 <= s.step_size <= MAX_STEP_SECS
}

/// The start day is a day of the year (0 standing for day 1).
pub open spec fn start_day_ok(s: SimState) -> bool {
    s.start_day <= MAX_DAY
}

/// The end day is a day of the year (0 standing for day 1).
pub open spec fn end_day_ok(s: SimState) -> bool {
    s.end_day <= MAX_DAY
}

/// All the user parameters are acceptable to the run driver.
pub open spec fn params_ok(s: SimState) -> bool {
    &&& load_ok(s)
    &&& capacity_ok(s)
    &&& solar_ok(s)
    &&& latitude_ok(s)
    &&& step_size_ok(s)
    &&& start_day_ok(s)
    &&& end_day_ok(s)
}

/// The state is ready to be advanced one step: valid parameters, a charge
/// within the battery, and a step window inside the timeline.
pub open spec fn step_ready(s: SimState) -> bool {
    &&& params_ok(s)
    &&& 0 <= s.current_stored_energy <= s.battery_capacity
    &&& s.now + s.step_size <= MAX_TS
}

/// Two states carry the same user parameters.
pub open spec fn same_params(a: SimState, b: SimState) -> bool {
    &&& a.load == b.load
    &&& a.battery_capacity == b.battery_capacity
    &&& a.solar_nominal_output == b.solar_nominal_output
    &&& a.latitude == b.latitude
    &&& a.step_size == b.step_size
    &&& a.start_day == b.start_day
    &&& a.end_day == b.end_day
}

impl SimState {
    /// A zeroed state: no load, no battery, no solar output, the equator,
    /// the clock at midnight of day 1, a 45-minute step, and a run over
    /// nearly the whole year.
    pub fn new() -> (s: SimState)
        ensures
            s.load == 0,
            s.battery_capacity == 0,
            s.current_stored_energy == 0,
            s.solar_nominal_output == 0,
            s.latitude == 0,
            s.now == 0,
            s.step_size == 2700,
            s.start_day == 1,
            s.end_day == 364,
            s.charge_history@.len() == 0,
            s.history_dates@.len() == 0,
            s.solar_history@.len() == 0,
            s.daylight_history@.len() == 0,
            params_ok(s),
            step_ready(s),
    {
        SimState {
            load: 0,
            battery_capacity: 0,
            current_stored_energy: 0,
            solar_nominal_output: 0,
            charge_history: Vec::new(),
            latitude: 0,
            history_dates: Vec::new(),
            now: 0,
            step_size: 2700,
            start_day: 1,
            end_day: 364,
            solar_history: Vec::new(),
            daylight_history: Vec::new(),
        }
    }
}

impl Default for SimState {
    /// The demonstration defaults: a 1000 Wh battery, 100 W of solar,
    /// a 25 W load, latitude 36 degrees; everything else as `new`.
    fn default() -> (s: SimState)
        ensures
            s.battery_capacity == 4294967296000,
            s.solar_nominal_output == 429496729600,
            s.load == 107374182400,
            s.latitude == 154618822656,
            s.current_stored_energy == 0,
            s.now == 0,
            s.step_size == 2700,
            s.start_day == 1,
            s.end_day == 364,
            s.charge_history@.len() == 0,
            s.history_dates@.len() == 0,
            s.solar_history@.len() == 0,
            s.daylight_history@.len() == 0,
            params_ok(s),
            step_ready(s),
    {
        let mut s: SimState = SimState::new();
        s.battery_capacity = 4294967296000;
        s.solar_nominal_output = 429496729600;
        s.load = 107374182400;
        s.latitude = 154618822656;
        s
    }
}

} // verus!
