//! The simulation state machine and the run driver.
//!
//! `step` advances the state by one step: it appends the pre-step charge,
//! the pre-step timestamp, the step's solar power and the day's daylight
//! hours to the history series, applies the net energy clamped to
//! `[0, capacity]`, and advances the clock. `run_simulation` validates the
//! parameters, builds a fresh state at midnight of the start day, and steps
//! until the clock reaches midnight of the end day.
//!
//! `run_result_of` characterizes the finished state in closed form — every
//! history sample and the final charge are pinned by the input parameters
//! alone — and the lemmas at the end derive the library's laws from it: the
//! charge never leaves `[0, capacity]`, a run is a pure function of its
//! parameters, and the history timestamps advance by exactly the step size.

use vstd::prelude::*;
use crate::fixq::clamp_int;
use crate::fixq::clamp_q;
use crate::astro::{daylight_hours, daylight_q};
use crate::power::{net_energy, net_energy_q, solar_power, solar_power_q, NET_ENERGY_MAX};
use crate::state::{
    capacity_ok,
    end_day_ok,
    latitude_ok,
    load_ok,
    params_ok,
    same_params,
    solar_ok,
    start_day_ok,
    step_ready,
    step_size_ok,
    SimState,
    MAX_DAY,
    MAX_POWER_Q,
    MAX_STEP_SECS,
};
use crate::astro::LAT_MAX_Q;
use crate::timeline::{day_of, SECS_PER_DAY};
use vstd::arithmetic::div_mod::lemma_fundamental_div_mod_converse;
use vstd::arithmetic::mul::lemma_mul_nonnegative;

verus! {

/// Why `run_simulation` rejected its parameters.
#[derive(Clone, Copy, Debug, PartialEq, Eq, Structural)]
pub enum ParamError {
    /// The load is negative or too large to represent.
    LoadOutOfRange,
    /// The battery capacity is negative or too large to represent.
    CapacityOutOfRange,
    /// The nominal solar output is negative or too large to represent.
    SolarOutputOutOfRange,
    /// The latitude lies beyond the poles.
    LatitudeOutOfRange,
    /// The step size is zero or longer than a year.
    StepSizeOutOfRange,
    /// The start day is past the end of a year.
    StartDayOutOfRange,
    /// The end day is past the end of a year.
    EndDayOutOfRange,
}

/// The first parameter check that fails, in the order the run driver tests
/// them.
pub open spec fn first_param_error(s: SimState) -> ParamError
    recommends
        !params_ok(s),
{
    if !load_ok(s) {
        ParamError::LoadOutOfRange
    } else if !capacity_ok(s) {
        ParamError::CapacityOutOfRange
    } else if !solar_ok(s) {
        ParamError::SolarOutputOutOfRange
    } else if !latitude_ok(s) {
        ParamError::LatitudeOutOfRange
    } else if !step_size_ok(s) {
        ParamError::StepSizeOutOfRange
    } else if !start_day_ok(s) {
        ParamError::StartDayOutOfRange
    } else {
        ParamError::EndDayOutOfRange
    }
}

/// A day-of-year parameter with 0 standing for day 1.
pub open spec fn eff_day(d: int) -> int {
    if d == 0 {
        1
    } else {
        d
    }
}

/// Midnight of the run's start day.
pub open spec fn run_start_ts(p: SimState) -> int {
    (eff_day(p.start_day as int) - 1) * (SECS_PER_DAY as int)
}

/// Midnight of the run's end day: the loop's termination boundary.
pub open spec fn run_end_ts(p: SimState) -> int {
    (eff_day(p.end_day as int) - 1) * (SECS_PER_DAY as int)
}

/// The clock at the start of step `i` of a run with parameters `p`.
pub open spec fn sim_now_at(p: SimState, i: int) -> int {
    run_start_ts(p) + i * p.step_size
}

/// How many steps a run with parameters `p` performs: zero for an already
/// expired range, otherwise the steps needed to carry the clock from the
/// start boundary up to or past the end boundary.
pub open spec fn num_steps(p: SimState) -> int {
    if run_start_ts(p) >= run_end_ts(p) {
        0
    } else {
        (run_end_ts(p) - run_start_ts(p) + p.step_size - 1) / (p.step_size as int)
    }
}

/// The net energy of the step whose window starts at `t`, under the
/// parameters of `p`.
pub open spec fn step_net(p: SimState, t: int) -> int {
    net_energy_q(p.load as int, p.solar_nominal_output as int, p.latitude as int, t, p.step_size as int)
}

/// The solar power of the step whose window starts at `t`, under the
/// parameters of `p`.
pub open spec fn step_solar(p: SimState, t: int) -> int {
    solar_power_q(p.solar_nominal_output as int, p.latitude as int, t, p.step_size as int)
}

/// The daylight hours of the day the step starting at `t` falls in, under
/// the parameters of `p`.
pub open spec fn step_light(p: SimState, t: int) -> int {
    daylight_q(p.latitude as int, day_of(t))
}

/// The battery charge at the start of step `i`: zero initially, then each
/// step's net energy applied and clamped to `[0, capacity]`.
pub open spec fn charge_at(p: SimState, i: nat) -> int
    decreases i,
{
    if i == 0 {
        0
    } else {
        clamp_int(
            charge_at(p, (i - 1) as nat) + step_net(p, sim_now_at(p, i - 1)),
            0,
            p.battery_capacity as int,
        )
    }
}

/// The finished state of a run with parameters `p`, in closed form: the
/// parameters are kept, every history series has one sample per step, and
/// each sample, the final clock and the final charge are pinned by `p`
/// alone.
pub open spec fn run_result_of(p: SimState, r: SimState) -> bool {
    &&& same_params(p, r)
    &&& r.charge_history@.len() == num_steps(p)
    &&& r.history_dates@.len() == num_steps(p)
    &&& r.solar_history@.len() == num_steps(p)
    &&& r.daylight_history@.len() == num_steps(p)
    &&& forall|i: int|
        0 <= i < num_steps(p) ==> #[trigger] r.history_dates@[i] == sim_now_at(p, i)
    &&& forall|i: int|
        0 <= i < num_steps(p) ==> #[trigger] r.charge_history@[i] == charge_at(p, i as nat)
    &&& forall|i: int|
        0 <= i < num_steps(p) ==> #[trigger] r.solar_history@[i] == step_solar(p, sim_now_at(p, i))
    &&& forall|i: int|
        0 <= i < num_steps(p) ==> #[trigger] r.daylight_history@[i] == step_light(
            p,
            sim_now_at(p, i),
        )
    &&& r.now == sim_now_at(p, num_steps(p))
    &&& r.current_stored_energy == charge_at(p, num_steps(p) as nat)
}

/// One simulation step. Appends the pre-step charge, the pre-step
/// timestamp, the step's solar power and the day's daylight hours to the
/// histories, clamps the new charge into `[0, capacity]` (excess solar
/// energy is lost, unmet load is not tracked), and advances the clock by
/// one step.
pub fn step(state: &SimState) -> (r: SimState)
    requires
        step_ready(*state),
    ensures
        same_params(*state, r),
        r.now == state.now + state.step_size,
        r.current_stored_energy == clamp_int(
            state.current_stored_energy + step_net(*state, state.now as int),
            0,
            state.battery_capacity as int,
        ),
        0 <= r.current_stored_energy <= r.battery_capacity,
        r.charge_history@ == state.charge_history@.push(state.current_stored_energy),
        r.history_dates@ == state.history_dates@.push(state.now),
        r.solar_history@ == state.solar_history@.push(step_solar(*state, state.now as int) as i64),
        r.daylight_history@ == state.daylight_history@.push(
            step_light(*state, state.now as int) as i64,
        ),
        0 <= step_solar(*state, state.now as int) <= MAX_POWER_Q,
        0 <= step_light(*state, state.now as int) <= 103079215104,
{
    let delta: i64 = net_energy(state);
    let unbounded_charge: i64 = state.current_stored_energy + delta;
    let new_charge: i64 = clamp_q(unbounded_charge, 0, state.battery_capacity);

    let mut charge_history: Vec<i64> = copy_i64_samples(&state.charge_history);
    charge_history.push(state.current_stored_energy);
    let mut history_dates: Vec<u64> = copy_u64_samples(&state.history_dates);
    history_dates.push(state.now);
    let mut solar_history: Vec<i64> = copy_i64_samples(&state.solar_history);
    solar_history.push(solar_power(state));
    let mut daylight_history: Vec<i64> = copy_i64_samples(&state.daylight_history);
    let day: u64 = state.now / SECS_PER_DAY;
    proof {
        vstd::arithmetic::div_mod::lemma_div_is_ordered(state.now as int, 69120000, SECS_PER_DAY as int);
    }
    daylight_history.push(daylight_hours(state.latitude, day as u32));

    SimState {
        load: state.load,
        battery_capacity: state.battery_capacity,
        current_stored_energy: new_charge,
        solar_nominal_output: state.solar_nominal_output,
        charge_history,
        latitude: state.latitude,
        history_dates,
        now: state.now + state.step_size,
        step_size: state.step_size,
        start_day: state.start_day,
        end_day: state.end_day,
        solar_history,
        daylight_history,
    }
}

/// Runs a full simulation from the parameters in `state`: validates them,
/// builds a fresh state (empty histories, zero charge, the clock at
/// midnight of the start day), then steps until the clock reaches midnight
/// of the end day. A start day at or past the end day runs zero steps. The
/// result is pinned by `run_result_of`; each error comes exactly when its
/// parameter check is the first to fail.
pub fn run_simulation(state: &SimState) -> (r: Result<SimState, ParamError>)
    ensures
        match r {
            Ok(out) => params_ok(*state) && run_result_of(*state, out),
            Err(e) => !params_ok(*state) && e == first_param_error(*state),
        },
{
    if !(0 <= state.load && state.load <= MAX_POWER_Q) {
        return Err(ParamError::LoadOutOfRange);
    }
    if !(0 <= state.battery_capacity && state.battery_capacity <= MAX_POWER_Q) {
        return Err(ParamError::CapacityOutOfRange);
    }
    if !(0 <= state.solar_nominal_output && state.solar_nominal_output <= MAX_POWER_Q) {
        return Err(ParamError::SolarOutputOutOfRange);
    }
    if !(-LAT_MAX_Q <= state.latitude && state.latitude <= LAT_MAX_Q) {
        return Err(ParamError::LatitudeOutOfRange);
    }
    if !(1 <= state.step_size && state.step_size <= MAX_STEP_SECS) {
        return Err(ParamError::StepSizeOutOfRange);
    }
    if !(state.start_day <= MAX_DAY) {
        return Err(ParamError::StartDayOutOfRange);
    }
    if !(state.end_day <= MAX_DAY) {
        return Err(ParamError::EndDayOutOfRange);
    }

    let start_day: u32 = if state.start_day == 0 {
        1
    } else {
        state.start_day
    };
    let end_day: u32 = if state.end_day == 0 {
        1
    } else {
        state.end_day
    };
    let start_ts: u64 = ((start_day - 1) as u64) * 86400;
    let end_ts: u64 = ((end_day - 1) as u64) * 86400;

    let mut sim: SimState = SimState {
        load: state.load,
        battery_capacity: state.battery_capacity,
        current_stored_energy: 0,
        solar_nominal_output: state.solar_nominal_output,
        charge_history: Vec::new(),
        latitude: state.latitude,
        history_dates: Vec::new(),
        now: start_ts,
        step_size: state.step_size,
        start_day: state.start_day,
        end_day: state.end_day,
        solar_history: Vec::new(),
        daylight_history: Vec::new(),
    };

    while sim.now < end_ts
        invariant
            params_ok(*state),
            same_params(*state, sim),
            start_ts == run_start_ts(*state),
            end_ts == run_end_ts(*state),
            end_ts <= 31536000,
            sim.charge_history@.len() == sim.history_dates@.len(),
            sim.solar_history@.len() == sim.history_dates@.len(),
            sim.daylight_history@.len() == sim.history_dates@.len(),
            sim.now == sim_now_at(*state, sim.history_dates@.len() as int),
            sim.history_dates@.len() > 0 ==> sim_now_at(
                *state,
                sim.history_dates@.len() - 1,
            ) < end_ts,
            forall|j: int|
                0 <= j < sim.history_dates@.len() ==> #[trigger] sim.history_dates@[j]
                    == sim_now_at(*state, j),
            forall|j: int|
                0 <= j < sim.history_dates@.len() ==> #[trigger] sim.charge_history@[j]
                    == charge_at(*state, j as nat),
            forall|j: int|
                0 <= j < sim.history_dates@.len() ==> #[trigger] sim.solar_history@[j]
                    == step_solar(*state, sim_now_at(*state, j)),
            forall|j: int|
                0 <= j < sim.history_dates@.len() ==> #[trigger] sim.daylight_history@[j]
                    == step_light(*state, sim_now_at(*state, j)),
            sim.current_stored_energy == charge_at(*state, sim.history_dates@.len() as nat),
            0 <= sim.current_stored_energy <= sim.battery_capacity,
        decreases (if sim.now < end_ts {
            end_ts - sim.now
        } else {
            0int
        }),
    {
        let ghost n: int = sim.history_dates@.len() as int;
        let ghost old_sim: SimState = sim;
        proof {
            assert(n >= 0);
            lemma_mul_nonnegative(n, state.step_size as int);
        }
        sim = step(&sim);
        proof {
            assert((n + 1) * (state.step_size as int) == n * (state.step_size as int) + (
            state.step_size as int)) by (nonlinear_arith);
            assert(step_net(old_sim, old_sim.now as int) == step_net(
                *state,
                sim_now_at(*state, n),
            ));
            assert(charge_at(*state, (n + 1) as nat) == clamp_int(
                charge_at(*state, n as nat) + step_net(*state, sim_now_at(*state, n)),
                0,
                state.battery_capacity as int,
            ));
        }
    }

    proof {
        let n: int = sim.history_dates@.len() as int;
        if start_ts >= end_ts {
            if n > 0 {
                lemma_mul_nonnegative(n - 1, state.step_size as int);
                assert(false);
            }
        } else {
            assert(n > 0) by {
                if n == 0 {
                    assert(sim.now == run_start_ts(*state));
                }
            }
            let d: int = end_ts - start_ts;
            let s: int = state.step_size as int;
            assert(n * s == (n - 1) * s + s) by (nonlinear_arith);
            lemma_fundamental_div_mod_converse(d + s - 1, s, n, d + s - 1 - n * s);
        }
        assert(n == num_steps(*state));
    }
    Ok(sim)
}

/// Copies a history of fixed-point samples.
fn copy_i64_samples(v: &Vec<i64>) -> (r: Vec<i64>)
    ensures
        r@ == v@,
{
    let mut r: Vec<i64> = Vec::new();
    let mut i: usize = 0;
    while i < v.len()
        invariant
            i <= v.len(),
            r@ == v@.subrange(0, i as int),
        decreases v.len() - i,
    {
        r.push(v[i]);
        proof {
            assert(v@.subrange(0, i as int).push(v@[i as int]) =~= v@.subrange(0, i + 1));
        }
        i = i + 1;
    }
    proof {
        assert(v@.subrange(0, i as int) =~= v@);
    }
    r
}

/// Copies a history of timestamps.
fn copy_u64_samples(v: &Vec<u64>) -> (r: Vec<u64>)
    ensures
        r@ == v@,
{
    let mut r: Vec<u64> = Vec::new();
    let mut i: usize = 0;
    while i < v.len()
        invariant
            i <= v.len(),
            r@ == v@.subrange(0, i as int),
        decreases v.len() - i,
    {
        r.push(v[i]);
        proof {
            assert(v@.subrange(0, i as int).push(v@[i as int]) =~= v@.subrange(0, i + 1));
        }
        i = i + 1;
    }
    proof {
        assert(v@.subrange(0, i as int) =~= v@);
    }
    r
}

/// Law: the battery charge of a run never leaves `[0, capacity]` — every
/// history sample and the final charge are clamped into that interval.
pub proof fn lemma_charge_within_capacity(p: SimState, r: SimState)
    requires
        run_result_of(p, r),
        0 <= p.battery_capacity,
    ensures
        forall|i: int|
            0 <= i < r.charge_history@.len() ==> 0 <= #[trigger] r.charge_history@[i]
                <= p.battery_capacity,
        0 <= r.current_stored_energy <= p.battery_capacity,
{
    assert forall|i: int|
        0 <= i < r.charge_history@.len() implies 0 <= #[trigger] r.charge_history@[i]
        <= p.battery_capacity by {
        lemma_charge_at_within_capacity(p, i as nat);
    }
    lemma_charge_at_within_capacity(p, num_steps(p) as nat);
}

/// The charge bound at a single step index, by induction on the step count.
pub proof fn lemma_charge_at_within_capacity(p: SimState, i: nat)
    requires
        0 <= p.battery_capacity,
    ensures
        0 <= charge_at(p, i) <= p.battery_capacity,
    decreases i,
{
    if i > 0 {
        lemma_charge_at_within_capacity(p, (i - 1) as nat);
    }
}

/// Law: a run is a pure function of its parameters. Two finished states of
/// the same parameters hold identical output series, the same final charge
/// and the same final clock.
pub proof fn lemma_run_deterministic(p: SimState, a: SimState, b: SimState)
    requires
        run_result_of(p, a),
        run_result_of(p, b),
    ensures
        a.charge_history@ == b.charge_history@,
        a.history_dates@ == b.history_dates@,
        a.solar_history@ == b.solar_history@,
        a.daylight_history@ == b.daylight_history@,
        a.current_stored_energy == b.current_stored_energy,
        a.now == b.now,
{
    assert(a.charge_history@ =~= b.charge_history@);
    assert(a.history_dates@ =~= b.history_dates@);
    assert(a.solar_history@ =~= b.solar_history@);
    assert(a.daylight_history@ =~= b.daylight_history@);
}

/// Law: the history timestamps of a run are strictly increasing, by exactly
/// the step size between consecutive entries.
pub proof fn lemma_timestamps_strictly_increasing(p: SimState, r: SimState, i: int)
    requires
        run_result_of(p, r),
        1 <= p.step_size,
        0 <= i,
        i + 1 < r.history_dates@.len(),
    ensures
        r.history_dates@[i + 1] == r.history_dates@[i] + p.step_size,
        r.history_dates@[i] < r.history_dates@[i + 1],
{
    assert((i + 1) * (p.step_size as int) == i * (p.step_size as int) + (p.step_size as int))
        by (nonlinear_arith);
}

} // verus!

