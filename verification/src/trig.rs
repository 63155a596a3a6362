//! Trigonometric primitives in Q32.32 fixed point.
//!
//! The transcendental functions themselves come from the `cordic` crate,
//! computing on `fixed::types::I32F32` values whose bit patterns are exactly
//! this crate's Q32.32 integers. CORDIC is a pure integer algorithm, so each
//! result is a deterministic function of the argument alone; the uninterpreted
//! spec functions below name those results, and nothing more is assumed of
//! them. The verified wrappers clamp each result to the range the true
//! function never leaves, so that every caller has sound magnitude bounds
//! without trusting any numeric claim about CORDIC.

use vstd::prelude::*;
use crate::fixq::{clamp_int, clamp_q, Q_ONE};

verus! {

/// Pi in Q32.32.
pub const PI_Q: i64 = 13493037705;

/// Pi / 2 in Q32.32.
pub const HALF_PI_Q: i64 = 6746518852;

/// 2 * pi in Q32.32.
pub const TWO_PI_Q: i64 = 26986075409;

/// Largest magnitude handed to the arc-tangent: 2^50 in bits, i.e. 2^18 as a
/// real value, far above any tangent this crate produces but small enough
/// that the CORDIC rotations stay inside the fixed-point range.
pub const ATAN_ARG_MAX: i64 = 1125899906842624;

/// The sine of a Q32.32 angle (radians), as the CORDIC routine computes it.
pub uninterp spec fn sin_fix(x: int) -> int;

/// The cosine of a Q32.32 angle (radians), as the CORDIC routine computes it.
pub uninterp spec fn cos_fix(x: int) -> int;

/// The arc-sine of a Q32.32 value, as the CORDIC routine computes it.
pub uninterp spec fn asin_fix(x: int) -> int;

/// The arc-cosine of a Q32.32 value, as the CORDIC routine computes it.
pub uninterp spec fn acos_fix(x: int) -> int;

/// The arc-tangent of a Q32.32 value, as the CORDIC routine computes it.
pub uninterp spec fn atan_fix(x: int) -> int;

/// Relies on cordic::sin over fixed::types::I32F32: a pure integer CORDIC
/// rotation whose result depends on the angle's bits alone. It reduces any
/// angle into [-pi/2, pi/2] before rotating, so it returns for every input.
#[verifier::external_body]
fn sin_raw(x: i64) -> (r: i64)
    ensures
        r == sin_fix(x as int),
{
    cordic::sin(fixed::types::I32F32::from_bits(x)).to_bits()
}

/// Relies on cordic::cos over fixed::types::I32F32: a pure integer CORDIC
/// rotation whose result depends on the angle's bits alone. It reduces any
/// angle into [-pi/2, pi/2] before rotating, so it returns for every input.
#[verifier::external_body]
fn cos_raw(x: i64) -> (r: i64)
    ensures
        r == cos_fix(x as int),
{
    cordic::cos(fixed::types::I32F32::from_bits(x)).to_bits()
}

/// Relies on cordic::asin over fixed::types::I32F32: a pure integer
/// double-rotation CORDIC whose result depends on the argument's bits alone.
/// Its internal values stay bounded for arguments of magnitude at most one,
/// hence the precondition.
#[verifier::external_body]
fn asin_raw(x: i64) -> (r: i64)
    requires
        -Q_ONE <= x <= Q_ONE,
    ensures
        r == asin_fix(x as int),
{
    cordic::asin(fixed::types::I32F32::from_bits(x)).to_bits()
}

/// Relies on cordic::acos over fixed::types::I32F32, which is pi/2 minus its
/// asin; the same determinism and argument bound apply.
#[verifier::external_body]
fn acos_raw(x: i64) -> (r: i64)
    requires
        -Q_ONE <= x <= Q_ONE,
    ensures
        r == acos_fix(x as int),
{
    cordic::acos(fixed::types::I32F32::from_bits(x)).to_bits()
}

/// Relies on cordic::atan over fixed::types::I32F32: a pure integer CORDIC
/// vectoring whose result depends on the argument's bits alone. Its rotations
/// scale the argument by less than a factor of two, so arguments far below
/// the fixed-point range (see `ATAN_ARG_MAX`) stay in range.
#[verifier::external_body]
fn atan_raw(x: i64) -> (r: i64)
    requires
        -ATAN_ARG_MAX <= x <= ATAN_ARG_MAX,
    ensures
        r == atan_fix(x as int),
{
    cordic::atan(fixed::types::I32F32::from_bits(x)).to_bits()
}

/// Sine, clamped to [-1, 1]: the range the true sine never leaves.
pub open spec fn sin_clamped(x: int) -> int {
    clamp_int(sin_fix(x), -Q_ONE as int, Q_ONE as int)
}

/// Cosine, clamped to [-1, 1].
pub open spec fn cos_clamped(x: int) -> int {
    clamp_int(cos_fix(x), -Q_ONE as int, Q_ONE as int)
}

/// Arc-sine, clamped to [-pi/2, pi/2]: the range the true arc-sine never
/// leaves.
pub open spec fn asin_clamped(x: int) -> int {
    clamp_int(asin_fix(x), -HALF_PI_Q as int, HALF_PI_Q as int)
}

/// Arc-cosine, clamped to [0, pi].
pub open spec fn acos_clamped(x: int) -> int {
    clamp_int(acos_fix(x), 0, PI_Q as int)
}

/// Arc-tangent, clamped to [-pi/2, pi/2].
pub open spec fn atan_clamped(x: int) -> int {
    clamp_int(atan_fix(x), -HALF_PI_Q as int, HALF_PI_Q as int)
}

/// Sine of `x` radians, clamped to [-1, 1].
pub fn sin_e(x: i64) -> (r: i64)
    ensures
        r == sin_clamped(x as int),
        -Q_ONE <= r <= Q_ONE,
{
    clamp_q(sin_raw(x), -Q_ONE, Q_ONE)
}

/// Cosine of `x` radians, clamped to [-1, 1].
pub fn cos_e(x: i64) -> (r: i64)
    ensures
        r == cos_clamped(x as int),
        -Q_ONE <= r <= Q_ONE,
{
    clamp_q(cos_raw(x), -Q_ONE, Q_ONE)
}

/// Arc-sine of `x`, clamped to [-pi/2, pi/2].
pub fn asin_e(x: i64) -> (r: i64)
    requires
        -Q_ONE <= x <= Q_ONE,
    ensures
        r == asin_clamped(x as int),
        -HALF_PI_Q <= r <= HALF_PI_Q,
{
    clamp_q(asin_raw(x), -HALF_PI_Q, HALF_PI_Q)
}

/// Arc-cosine of `x`, clamped to [0, pi].
pub fn acos_e(x: i64) -> (r: i64)
    requires
        -Q_ONE <= x <= Q_ONE,
    ensures
        r == acos_clamped(x as int),
        0 <= r <= PI_Q,
{
    clamp_q(acos_raw(x), 0, PI_Q)
}

/// Arc-tangent of `x`, clamped to [-pi/2, pi/2].
pub fn atan_e(x: i64) -> (r: i64)
    requires
        -ATAN_ARG_MAX <= x <= ATAN_ARG_MAX,
    ensures
        r == atan_clamped(x as int),
        -HALF_PI_Q <= r <= HALF_PI_Q,
{
    clamp_q(atan_raw(x), -HALF_PI_Q, HALF_PI_Q)
}

} // verus!
