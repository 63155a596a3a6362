//! Interval integrator support: the daylight-bounded part of a step window.
//!
//! A simulation step covers the window `[start, end]`. Solar energy is only
//! collected while that window overlaps the daylight window
//! `[sunrise, sunset]` of `start`'s calendar day, so the integrator needs the
//! overlap duration `min(end, sunset) - max(start, sunrise)`, or zero when
//! the windows do not meet.

use vstd::prelude::*;
use crate::fixq::{max_int, min_int};
use crate::astro::{half_daylight_secs, half_daylight_width, HOURS_24_Q, NOON_SECS};
use crate::timeline::{
    day_of,
    earlier_of,
    hour_q_of_secs,
    later_of,
    MAX_TS,
    SECS_PER_DAY,
    SECS_PER_HOUR,
};
use vstd::arithmetic::div_mod::lemma_div_is_ordered;
use vstd::arithmetic::div_mod::lemma_fundamental_div_mod;

verus! {

/// Overlap in whole seconds between `[start, end]` and the daylight window
/// of `start`'s day, for a daylight duration of `light` hours (Q32.32).
pub open spec fn overlap_secs(start: int, end: int, light: int) -> int {
    let base: int = day_of(start) * (SECS_PER_DAY as int);
    let rise: int = base + (NOON_SECS as int) - half_daylight_secs(light);
    let set: int = base + (NOON_SECS as int) + half_daylight_secs(light);
    if end < rise || start > set {
        0
    } else {
        min_int(end, set) - max_int(start, rise)
    }
}

/// The overlap converted to fractional hours in Q32.32, truncated.
pub open spec fn bounded_hours_q(start: int, end: int, light: int) -> int {
    hour_q_of_secs(overlap_secs(start, end, light))
}

/// Duration in whole seconds during which the step window `[start, end]`
/// lies inside the daylight window of `start`'s calendar day, given that
/// day's daylight duration `light` in hours (Q32.32). Zero when the windows
/// do not overlap; never more than a full day.
pub fn bounded_daylight_duration(start: u64, end: u64, light: i64) -> (r: u64)
    requires
        start <= end,
        end <= MAX_TS,
        0 <= light <= HOURS_24_Q,
    ensures
        r == overlap_secs(start as int, end as int, light as int),
        r <= SECS_PER_DAY,
{
    let base: u64 = (start / SECS_PER_DAY) * SECS_PER_DAY;
    let half: u64 = half_daylight_width(light);
    let rise: u64 = base + NOON_SECS - half;
    let set: u64 = base + NOON_SECS + half;
    proof {
        lemma_fundamental_div_mod(start as int, SECS_PER_DAY as int);
    }
    if end < rise || start > set {
        0
    } else {
        earlier_of(end, set) - later_of(start, rise)
    }
}

/// `bounded_daylight_duration` converted to fractional hours in Q32.32.
pub fn bounded_daylight_hours(start: u64, end: u64, light: i64) -> (r: i64)
    requires
        start <= end,
        end <= MAX_TS,
        0 <= light <= HOURS_24_Q,
    ensures
        r == bounded_hours_q(start as int, end as int, light as int),
        0 <= r <= HOURS_24_Q,
{
    let secs: u64 = bounded_daylight_duration(start, end, light);
    let scaled: u64 = secs * 4294967296;
    let r: u64 = scaled / SECS_PER_HOUR;
    proof {
        lemma_div_is_ordered(scaled as int, 86400int * 4294967296int, SECS_PER_HOUR as int);
    }
    r as i64
}

} // verus!
