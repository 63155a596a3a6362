//! Astronomical model: daylight duration and the sunrise/sunset window.
//!
//! `daylight_hours` implements the standard solar-declination approximation
//!
//! ```text
//! P = asin(0.39795 * cos(0.2163108 + 2 * atan(0.9671396 * tan(0.0086 * day))))
//! hours = (24/pi) * acos((sin(0.8333 deg) + sin(lat) * sin(P)) / (cos(lat) * cos(P)))
//! ```
//!
//! in Q32.32 fixed point, with day-of-year as a 0-based ordinal. Where the
//! real formula leaves the domain of `acos` (polar day or night) the argument
//! is saturated, yielding 0 hours of daylight for polar night and 24 for
//! polar day; a vanishing or negative denominator (latitude at the poles) is
//! resolved the same way by the sign of the numerator. Sunrise and sunset are
//! symmetric about solar noon, in whole seconds since midnight.

use vstd::prelude::*;
use crate::fixq::{
    abs_int,
    clamp_int,
    clamp_q,
    lemma_qmul_bound,
    qdiv_sat,
    qdiv_sat_e,
    qmul,
    qmul_e,
    tdiv,
    Q_ONE,
};
use crate::trig::{
    acos_clamped,
    acos_e,
    asin_clamped,
    asin_e,
    atan_clamped,
    atan_e,
    cos_clamped,
    cos_e,
    sin_clamped,
    sin_e,
    ATAN_ARG_MAX,
    HALF_PI_Q,
    PI_Q,
};
use vstd::arithmetic::div_mod::lemma_div_is_ordered;

verus! {

/// 0.0086 in Q32.32: radians of declination phase per day ordinal.
pub const C_DAY_RAD: i64 = 36936719;

/// 0.39795 in Q32.32: amplitude of the declination's sine.
pub const C_AMPLITUDE: i64 = 1709182235;

/// 0.2163108 in Q32.32: phase offset of the declination, radians.
pub const C_PHASE: i64 = 929047812;

/// 0.9671396 in Q32.32: obliquity factor on the tangent.
pub const C_OBLIQUITY: i64 = 4153832953;

/// 0.8333 degrees in radians, Q32.32: the sun's apparent radius plus
/// refraction, the altitude that defines sunrise.
pub const C_DUSK_RAD: i64 = 62465268;

/// pi / 180 in Q32.32: radians per degree.
pub const C_RAD_PER_DEG: i64 = 74961321;

/// 24 / pi in Q32.32: scale from the acos result to hours.
pub const C_24_OVER_PI: i64 = 32811133228;

/// Saturation bound for the tangent: 8192.0 in Q32.32 (2^45), far above any
/// tangent the day range produces, standing in for an infinite tangent where
/// the cosine vanishes.
pub const TAN_CAP: i64 = 35184372088832;

/// 90 degrees in Q32.32: the largest latitude magnitude accepted.
pub const LAT_MAX_Q: i64 = 386547056640;

/// Largest day ordinal accepted, comfortably past one year so that a step
/// window reaching beyond the simulated year still has a daylight model.
pub const DAY_MAX: u32 = 800;

/// 24 hours in Q32.32.
pub const HOURS_24_Q: i64 = 103079215104;

/// 12 hours in Q32.32.
pub const HOURS_12_Q: i64 = 51539607552;

/// Solar noon, in seconds since midnight.
pub const NOON_SECS: u64 = 43200;

/// The saturated tangent: sine over cosine, truncated toward zero and
/// saturated to `TAN_CAP` (by the sign of the sine where the cosine is
/// exactly zero).
pub open spec fn tan_sat(x: int) -> int {
    qdiv_sat(sin_clamped(x), cos_clamped(x), TAN_CAP as int)
}

/// The solar declination angle `P` for a 0-based day ordinal, radians in
/// Q32.32.
pub open spec fn declination_q(day: int) -> int {
    let a1: int = qmul(C_DAY_RAD as int, day * (Q_ONE as int));
    let t: int = qmul(C_OBLIQUITY as int, tan_sat(a1));
    let a2: int = C_PHASE + 2 * atan_clamped(t);
    asin_clamped(qmul(C_AMPLITUDE as int, cos_clamped(a2)))
}

/// Daylight duration in hours (Q32.32) for a latitude in degrees (Q32.32)
/// and a 0-based day ordinal. Always within [0, 24]; polar night yields 0
/// and polar day 24. Opaque: callers reason through `daylight_hours`, whose
/// result equals this function.
#[verifier::opaque]
pub open spec fn daylight_q(lat: int, day: int) -> int {
    let p: int = declination_q(day);
    let lat_rad: int = qmul(lat, C_RAD_PER_DEG as int);
    let num: int = sin_clamped(C_DUSK_RAD as int) + qmul(sin_clamped(lat_rad), sin_clamped(p));
    let den: int = qmul(cos_clamped(lat_rad), cos_clamped(p));
    if den <= 0 {
        if num > 0 {
            0
        } else if num < 0 {
            HOURS_24_Q as int
        } else {
            HOURS_12_Q as int
        }
    } else {
        let ratio: int = qdiv_sat(num, den, Q_ONE as int);
        clamp_int(qmul(acos_clamped(ratio), C_24_OVER_PI as int), 0, HOURS_24_Q as int)
    }
}

/// Half the daylight window, in whole seconds (truncated): `hours / 2` times
/// 3600.
pub open spec fn half_daylight_secs(light: int) -> int {
    tdiv(light * 1800, Q_ONE as int)
}

/// Sunrise at `lat` on day ordinal `day`: noon minus half the daylight
/// window, seconds since midnight.
pub open spec fn sunrise_secs(lat: int, day: int) -> int {
    NOON_SECS - half_daylight_secs(daylight_q(lat, day))
}

/// Sunset at `lat` on day ordinal `day`: noon plus half the daylight
/// window, seconds since midnight.
pub open spec fn sunset_secs(lat: int, day: int) -> int {
    NOON_SECS + half_daylight_secs(daylight_q(lat, day))
}

/// Hours of daylight at `lat` degrees (Q32.32) on the 0-based day ordinal
/// `day`, per the solar-declination approximation. The result is exactly
/// `daylight_q` and always lies in [0, 24] hours.
pub fn daylight_hours(lat: i64, day: u32) -> (r: i64)
    requires
        -LAT_MAX_Q <= lat <= LAT_MAX_Q,
        day <= DAY_MAX,
    ensures
        r == daylight_q(lat as int, day as int),
        0 <= r <= HOURS_24_Q,
{
    proof {
        reveal(daylight_q);
    }
    let day_angle: i64 = (day as i64) * Q_ONE;
    proof {
        lemma_qmul_bound(C_DAY_RAD as int, day_angle as int, C_DAY_RAD as int, 800 * (Q_ONE as int));
    }
    let a1: i64 = qmul_e(C_DAY_RAD, day_angle);
    let t: i64 = qdiv_sat_e(sin_e(a1), cos_e(a1), TAN_CAP);
    proof {
        lemma_qmul_bound(C_OBLIQUITY as int, t as int, Q_ONE as int, TAN_CAP as int);
    }
    let ot: i64 = qmul_e(C_OBLIQUITY, t);
    let a2: i64 = C_PHASE + 2 * atan_e(ot);
    let ca2: i64 = cos_e(a2);
    proof {
        lemma_qmul_bound(C_AMPLITUDE as int, ca2 as int, C_AMPLITUDE as int, Q_ONE as int);
    }
    let p: i64 = asin_e(qmul_e(C_AMPLITUDE, ca2));
    proof {
        lemma_qmul_bound(lat as int, C_RAD_PER_DEG as int, LAT_MAX_Q as int, C_RAD_PER_DEG as int);
    }
    let lat_rad: i64 = qmul_e(lat, C_RAD_PER_DEG);
    let sl: i64 = sin_e(lat_rad);
    let sp: i64 = sin_e(p);
    proof {
        lemma_qmul_bound(sl as int, sp as int, Q_ONE as int, Q_ONE as int);
    }
    let num: i64 = sin_e(C_DUSK_RAD) + qmul_e(sl, sp);
    let cl: i64 = cos_e(lat_rad);
    let cp: i64 = cos_e(p);
    proof {
        lemma_qmul_bound(cl as int, cp as int, Q_ONE as int, Q_ONE as int);
    }
    let den: i64 = qmul_e(cl, cp);
    if den <= 0 {
        if num > 0 {
            0
        } else if num < 0 {
            HOURS_24_Q
        } else {
            HOURS_12_Q
        }
    } else {
        let ratio: i64 = qdiv_sat_e(num, den, Q_ONE);
        let ac: i64 = acos_e(ratio);
        proof {
            lemma_qmul_bound(ac as int, C_24_OVER_PI as int, PI_Q as int, C_24_OVER_PI as int);
        }
        let d_raw: i64 = qmul_e(ac, C_24_OVER_PI);
        clamp_q(d_raw, 0, HOURS_24_Q)
    }
}

/// Half the daylight window in whole seconds, executable form.
pub fn half_daylight_width(light: i64) -> (r: u64)
    requires
        0 <= light <= HOURS_24_Q,
    ensures
        r == half_daylight_secs(light as int),
        r <= NOON_SECS,
{
    let r: u64 = ((light as u64) * 1800) / 4294967296;
    proof {
        lemma_div_is_ordered(
            light as int * 1800,
            HOURS_24_Q as int * 1800,
            Q_ONE as int,
        );
        assert(light as int * 1800 <= HOURS_24_Q as int * 1800) by (nonlinear_arith)
            requires
                0 <= light <= HOURS_24_Q,
        ;
    }
    r
}

/// Sunrise on the 0-based day ordinal `day` at latitude `lat` (degrees,
/// Q32.32): seconds since midnight, symmetric about noon.
pub fn sunrise(day: u32, lat: i64) -> (r: u64)
    requires
        -LAT_MAX_Q <= lat <= LAT_MAX_Q,
        day <= DAY_MAX,
    ensures
        r == sunrise_secs(lat as int, day as int),
        r <= NOON_SECS,
{
    let light: i64 = daylight_hours(lat, day);
    NOON_SECS - half_daylight_width(light)
}

/// Sunset on the 0-based day ordinal `day` at latitude `lat` (degrees,
/// Q32.32): seconds since midnight, symmetric about noon.
pub fn sunset(day: u32, lat: i64) -> (r: u64)
    requires
        -LAT_MAX_Q <= lat <= LAT_MAX_Q,
        day <= DAY_MAX,
    ensures
        r == sunset_secs(lat as int, day as int),
        NOON_SECS <= r <= 2 * NOON_SECS,
{
    let light: i64 = daylight_hours(lat, day);
    NOON_SECS + half_daylight_width(light)
}

} // verus!
