//! Solar production curve: the normalized instantaneous output coefficient.
//!
//! Outside the daylight window of the timestamp's day the coefficient is
//! zero. Inside it is the cosine bump `0.5 * cos(s * (hour - 12)) + 0.5` with
//! `s = 2*pi / daylightHours`: a half-cycle fitted to the daylight window,
//! peaking at 1 at solar noon and falling to 0 at sunrise and sunset.

use vstd::prelude::*;
use crate::fixq::{lemma_qmul_bound, qdiv_sat, qdiv_sat_e, qmul, qmul_e, Q_HALF, Q_ONE};
use crate::trig::{cos_clamped, cos_e, TWO_PI_Q};
use crate::astro::{
    daylight_hours,
    daylight_q,
    half_daylight_secs,
    half_daylight_width,
    HOURS_12_Q,
    HOURS_24_Q,
    LAT_MAX_Q,
    NOON_SECS,
};
use crate::timeline::{day_of, hour_q_of_secs, sec_of_day, time_hours, MAX_TS, SECS_PER_DAY};
use vstd::arithmetic::div_mod::lemma_div_is_ordered;
use vstd::arithmetic::div_mod::lemma_fundamental_div_mod;

verus! {

/// Saturation bound for the curve's time scaler `2*pi / light`: 2^46 in bits
/// (16384.0), above any value the scaler reaches whenever the daylight
/// window is wide enough to contain an instant at all.
pub const SCALER_CAP: i64 = 70368744177664;

/// The normalized solar output coefficient at a timestamp, for a latitude in
/// degrees (Q32.32): zero outside the day's daylight window, the cosine bump
/// inside it. Always within [0, 1]. Opaque: callers reason through
/// `solar_production_curve`, whose result equals this function.
#[verifier::opaque]
pub open spec fn curve_q(now: int, lat: int) -> int {
    let light: int = daylight_q(lat, day_of(now));
    let half: int = half_daylight_secs(light);
    let sod: int = sec_of_day(now);
    if sod <= (NOON_SECS as int) - half || sod >= (NOON_SECS as int) + half {
        0
    } else {
        let hour: int = hour_q_of_secs(sod);
        let scaler: int = qdiv_sat(TWO_PI_Q as int, light, SCALER_CAP as int);
        let c: int = cos_clamped(qmul(scaler, hour - (HOURS_12_Q as int)));
        qmul(Q_HALF as int, c) + (Q_HALF as int)
    }
}

/// Normalized solar output (0 to 1 in Q32.32) at timestamp `now` for
/// latitude `lat` (degrees, Q32.32), exactly as `curve_q` specifies.
pub fn solar_production_curve(now: u64, lat: i64) -> (r: i64)
    requires
        now <= MAX_TS,
        -LAT_MAX_Q <= lat <= LAT_MAX_Q,
    ensures
        r == curve_q(now as int, lat as int),
        0 <= r <= Q_ONE,
{
    proof {
        reveal(curve_q);
    }
    let day: u64 = now / SECS_PER_DAY;
    proof {
        lemma_div_is_ordered(now as int, MAX_TS as int, SECS_PER_DAY as int);
    }
    let light: i64 = daylight_hours(lat, day as u32);
    let half: u64 = half_daylight_width(light);
    let sod: u64 = now % SECS_PER_DAY;
    proof {
        lemma_fundamental_div_mod(now as int, SECS_PER_DAY as int);
    }
    if sod <= NOON_SECS - half || sod >= NOON_SECS + half {
        0
    } else {
        let hour: i64 = time_hours(sod);
        let scaler: i64 = qdiv_sat_e(TWO_PI_Q, light, SCALER_CAP);
        proof {
            lemma_qmul_bound(
                scaler as int,
                hour as int - (HOURS_12_Q as int),
                SCALER_CAP as int,
                HOURS_12_Q as int,
            );
        }
        let c: i64 = cos_e(qmul_e(scaler, hour - HOURS_12_Q));
        proof {
            lemma_qmul_bound(Q_HALF as int, c as int, Q_HALF as int, Q_ONE as int);
        }
        qmul_e(Q_HALF, c) + Q_HALF
    }
}

} // verus!
