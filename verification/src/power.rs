//! Energy balance of one simulation step.
//!
//! `solar_power` samples the production curve at the start and the end of
//! the current step window and averages the two (a trapezoidal
//! approximation), scaled by the nominal solar capacity. `net_energy`
//! multiplies that power by the daylight-bounded fraction of the step and
//! subtracts the energy the load draws over the step's whole minutes.
//!
//! The spec functions take the parameters they depend on as plain values
//! (nominal output, latitude, window start, step size), so that the run
//! driver can state each history sample as a function of the run parameters
//! and the step index alone.

use vstd::prelude::*;
use crate::fixq::{lemma_qmul_bound, qmul, qmul_e, tdiv, Q_ONE};
use crate::astro::{daylight_hours, daylight_q, HOURS_24_Q};
use crate::curve::{curve_q, solar_production_curve};
use crate::interval::{bounded_daylight_hours, bounded_hours_q};
use crate::state::{step_ready, SimState, MAX_POWER_Q};
use crate::timeline::{day_of, SECS_PER_DAY};
use vstd::arithmetic::div_mod::lemma_div_is_ordered;
use vstd::arithmetic::div_mod::lemma_div_multiples_vanish;

verus! {

/// Magnitude bound on a step's net energy, watt-hours in Q32.32: a year of
/// the largest load comfortably fits.
pub const NET_ENERGY_MAX: i64 = 0x4000000000000000;

/// The averaged solar coefficient of the window `[now, now + step]` at
/// latitude `lat`: the curve sampled at both ends, averaged; in [0, 1]
/// (Q32.32).
pub open spec fn avg_coeff_q(lat: int, now: int, step: int) -> int {
    (curve_q(now, lat) + curve_q(now + step, lat)) / 2
}

/// The solar power of that window: nominal output `solar` times the
/// averaged coefficient, watts (Q32.32).
pub open spec fn solar_power_q(solar: int, lat: int, now: int, step: int) -> int {
    qmul(solar, avg_coeff_q(lat, now, step))
}

/// The energy drawn by `load` watts over the step's whole minutes,
/// watt-hours (Q32.32).
pub open spec fn load_energy_q(load: int, step: int) -> int {
    tdiv(load * (step / 60), 60)
}

/// The net energy into the battery over the window `[now, now + step]`:
/// solar power times the daylight-bounded hours of the window, minus the
/// load energy. Watt-hours (Q32.32); positive charges, negative discharges.
pub open spec fn net_energy_q(load: int, solar: int, lat: int, now: int, step: int) -> int {
    qmul(
        solar_power_q(solar, lat, now, step),
        bounded_hours_q(now, now + step, daylight_q(lat, day_of(now))),
    ) - load_energy_q(load, step)
}

/// Solar power produced over the current step window: the nominal output
/// scaled by the averaged production coefficient. Never negative, never
/// above the nominal output.
pub fn solar_power(state: &SimState) -> (r: i64)
    requires
        step_ready(*state),
    ensures
        r == solar_power_q(
            state.solar_nominal_output as int,
            state.latitude as int,
            state.now as int,
            state.step_size as int,
        ),
        0 <= r <= state.solar_nominal_output,
{
    let c1: i64 = solar_production_curve(state.now, state.latitude);
    let c2: i64 = solar_production_curve(state.now + state.step_size, state.latitude);
    let avg: i64 = (((c1 as u64) + (c2 as u64)) / 2) as i64;
    proof {
        lemma_qmul_bound(
            state.solar_nominal_output as int,
            avg as int,
            MAX_POWER_Q as int,
            Q_ONE as int,
        );
        lemma_qmul_bound(
            state.solar_nominal_output as int,
            avg as int,
            state.solar_nominal_output as int,
            Q_ONE as int,
        );
        lemma_div_multiples_vanish(state.solar_nominal_output as int, Q_ONE as int);
    }
    qmul_e(state.solar_nominal_output, avg)
}

/// Net energy transferred into the battery over the current step: positive
/// charges, negative discharges. Exactly `net_energy_q`, and bounded so that
/// adding it to any valid charge stays inside 64-bit fixed point.
pub fn net_energy(state: &SimState) -> (r: i64)
    requires
        step_ready(*state),
    ensures
        r == net_energy_q(
            state.load as int,
            state.solar_nominal_output as int,
            state.latitude as int,
            state.now as int,
            state.step_size as int,
        ),
        -NET_ENERGY_MAX <= r <= NET_ENERGY_MAX,
{
    let day: u64 = state.now / SECS_PER_DAY;
    proof {
        lemma_div_is_ordered(state.now as int, 69120000, SECS_PER_DAY as int);
    }
    let light: i64 = daylight_hours(state.latitude, day as u32);
    let hours: i64 = bounded_daylight_hours(state.now, state.now + state.step_size, light);
    let sp: i64 = solar_power(state);
    proof {
        lemma_qmul_bound(sp as int, hours as int, MAX_POWER_Q as int, HOURS_24_Q as int);
    }
    let solar_energy: i64 = qmul_e(sp, hours);
    let minutes: u64 = state.step_size / 60;
    proof {
        lemma_div_is_ordered(state.step_size as int, 31622400, 60);
        assert((state.load as int) * (minutes as int) <= (MAX_POWER_Q as int) * 527040)
            by (nonlinear_arith)
            requires
                0 <= state.load <= MAX_POWER_Q,
                0 <= minutes <= 527040,
        ;
    }
    let load_scaled: u128 = (state.load as u128) * (minutes as u128);
    proof {
        lemma_div_is_ordered(load_scaled as int, (MAX_POWER_Q as int) * 527040, 60);
    }
    let load_energy: i64 = (load_scaled / 60) as i64;
    assert(load_energy == load_energy_q(state.load as int, state.step_size as int));
    solar_energy - load_energy
}

} // verus!
