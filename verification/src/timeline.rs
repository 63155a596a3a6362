//! The simulation's timeline: whole seconds on a reference year.
//!
//! A timestamp is a `u64` count of seconds from midnight beginning day 1 of
//! the year, so day `d` (1-based) starts at `(d - 1) * 86400` and the 0-based
//! day ordinal of a timestamp is `t / 86400`. The timeline extends a little
//! past one year (`MAX_TS`) so that a step window that starts inside the year
//! may end beyond it.

use vstd::prelude::*;
use crate::fixq::{max_int, min_int, Q_ONE};
use crate::astro::HOURS_24_Q;
use vstd::arithmetic::div_mod::lemma_div_is_ordered;

verus! {

/// Seconds in a day.
pub const SECS_PER_DAY: u64 = 86400;

/// Seconds in an hour.
pub const SECS_PER_HOUR: u64 = 3600;

/// Upper bound of the timeline: 800 days, comfortably past one year.
pub const MAX_TS: u64 = 69120000;

/// 0-based day ordinal of a timestamp.
pub open spec fn day_of(t: int) -> int {
    t / (SECS_PER_DAY as int)
}

/// Seconds since midnight of a timestamp's day.
pub open spec fn sec_of_day(t: int) -> int {
    t % (SECS_PER_DAY as int)
}

/// A second count as fractional hours in Q32.32, truncated.
pub open spec fn hour_q_of_secs(s: int) -> int {
    (s * (Q_ONE as int)) / (SECS_PER_HOUR as int)
}

/// The later of two timestamps.
pub fn later_of(a: u64, b: u64) -> (r: u64)
    ensures
        r == max_int(a as int, b as int),
{
    if a > b {
        a
    } else {
        b
    }
}

/// The earlier of two timestamps.
pub fn earlier_of(a: u64, b: u64) -> (r: u64)
    ensures
        r == min_int(a as int, b as int),
{
    if a < b {
        a
    } else {
        b
    }
}

/// A time of day (seconds since midnight) as fractional hours in Q32.32.
pub fn time_hours(time: u64) -> (r: i64)
    requires
        time < SECS_PER_DAY,
    ensures
        r == hour_q_of_secs(time as int),
        0 <= r <= HOURS_24_Q,
{
    let scaled: u64 = time * 4294967296;
    let r: u64 = scaled / SECS_PER_HOUR;
    proof {
        lemma_div_is_ordered(scaled as int, 86400int * 4294967296int, SECS_PER_HOUR as int);
    }
    r as i64
}

} // verus!
