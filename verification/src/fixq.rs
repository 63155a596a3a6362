//! Q32.32 fixed-point arithmetic.
//!
//! Every physical quantity in this crate (watts, watt-hours, hours, degrees,
//! radians, dimensionless coefficients) is an `i64` holding the quantity
//! scaled by `Q_ONE` = 2^32. All operations are exact integer arithmetic with
//! truncation toward zero, so every computation in the simulator is a
//! deterministic function of its inputs.

use vstd::prelude::*;
use vstd::arithmetic::div_mod::lemma_div_is_ordered;
use vstd::arithmetic::div_mod::lemma_fundamental_div_mod_converse;

verus! {

/// The fixed-point scale: 1.0 in Q32.32.
pub const Q_ONE: i64 = 4294967296;

/// 0.5 in Q32.32.
pub const Q_HALF: i64 = 2147483648;

/// Mathematical absolute value.
pub open spec fn abs_int(a: int) -> int {
    if a >= 0 {
        a
    } else {
        -a
    }
}

/// Smaller of two integers.
pub open spec fn min_int(a: int, b: int) -> int {
    if a <= b {
        a
    } else {
        b
    }
}

/// Larger of two integers.
pub open spec fn max_int(a: int, b: int) -> int {
    if a >= b {
        a
    } else {
        b
    }
}

/// `x` forced into the interval `[lo, hi]`.
pub open spec fn clamp_int(x: int, lo: int, hi: int) -> int {
    if x < lo {
        lo
    } else if x > hi {
        hi
    } else {
        x
    }
}

/// Division truncated toward zero (the rounding of hardware division),
/// defined over the magnitudes so that it is symmetric in sign.
pub open spec fn tdiv(a: int, b: int) -> int
    recommends
        b != 0,
{
    if (a >= 0) == (b >= 0) {
        abs_int(a) / abs_int(b)
    } else {
        -(abs_int(a) / abs_int(b))
    }
}

/// Product of two Q32.32 values: the full product rescaled by `Q_ONE`,
/// truncated toward zero.
pub open spec fn qmul(a: int, b: int) -> int {
    tdiv(a * b, Q_ONE as int)
}

/// Quotient `a / b` of two Q32.32 values, truncated toward zero and
/// saturated to `[-cap, cap]`; when `b` is zero the quotient is taken as
/// infinite with the sign of `a`, hence `cap` or `-cap`.
pub open spec fn qdiv_sat(a: int, b: int, cap: int) -> int {
    if b == 0 {
        if a >= 0 {
            cap
        } else {
            -cap
        }
    } else {
        clamp_int(tdiv(a * (Q_ONE as int), b), -cap, cap)
    }
}

/// Truncating division has the magnitude of the Euclidean quotient of the
/// magnitudes, so a bound on `|a|` bounds `|tdiv(a, b)|`.
pub proof fn lemma_tdiv_abs_bound(a: int, b: int, bound: int)
    requires
        b != 0,
        abs_int(a) <= bound,
    ensures
        abs_int(tdiv(a, b)) <= bound / abs_int(b),
{
    lemma_div_is_ordered(abs_int(a), bound, abs_int(b));
}

/// `|a * b| == |a| * |b|`, so magnitude bounds on the factors bound the
/// magnitude of a fixed-point product.
pub proof fn lemma_qmul_bound(a: int, b: int, ba: int, bb: int)
    requires
        abs_int(a) <= ba,
        abs_int(b) <= bb,
    ensures
        abs_int(a) * abs_int(b) <= ba * bb,
        abs_int(qmul(a, b)) <= ba * bb / (Q_ONE as int),
        a >= 0 && b >= 0 ==> qmul(a, b) >= 0,
{
    assert(abs_int(a * b) == abs_int(a) * abs_int(b) && abs_int(a) * abs_int(b) <= ba * bb && (a
        >= 0 && b >= 0 ==> a * b >= 0)) by (nonlinear_arith)
        requires
            abs_int(a) <= ba,
            abs_int(b) <= bb,
    ;
    lemma_tdiv_abs_bound(a * b, Q_ONE as int, ba * bb);
}

/// Absolute value of an `i64`, widened so that `i64::MIN` needs no special
/// case.
pub fn iabs(a: i64) -> (r: u128)
    ensures
        r == abs_int(a as int),
{
    if a >= 0 {
        a as u128
    } else {
        (-(a as i128)) as u128
    }
}

/// `x` forced into `[lo, hi]`.
pub fn clamp_q(x: i64, lo: i64, hi: i64) -> (r: i64)
    requires
        lo <= hi,
    ensures
        r == clamp_int(x as int, lo as int, hi as int),
{
    if x < lo {
        lo
    } else if x > hi {
        hi
    } else {
        x
    }
}

/// Fixed-point multiplication. The full 128-bit product is computed on the
/// magnitudes, rescaled, and given the sign of the real product.
pub fn qmul_e(a: i64, b: i64) -> (r: i64)
    requires
        abs_int(a as int) * abs_int(b as int) < 0x8000000000000000 * (Q_ONE as int),
    ensures
        r == qmul(a as int, b as int),
{
    let ghost ai: int = a as int;
    let ghost bi: int = b as int;
    let ghost ab: int = ai * bi;
    let neg: bool = (a < 0) != (b < 0);
    let aa: u128 = iabs(a);
    let bb: u128 = iabs(b);
    proof {
        assert(aa * bb == abs_int(ab) && ((ai >= 0 && bi >= 0) ==> ab >= 0) && ((ai < 0 && bi < 0)
            ==> ab > 0) && ((ai >= 0) != (bi >= 0) ==> ab <= 0) && aa * bb < 0x8000000000000000 * (
        Q_ONE as int)) by (nonlinear_arith)
            requires
                ab == ai * bi,
                aa == abs_int(ai),
                bb == abs_int(bi),
                abs_int(ai) * abs_int(bi) < 0x8000000000000000 * (Q_ONE as int),
        ;
    }
    let p: u128 = aa * bb;
    let q: u128 = p / (Q_ONE as u128);
    proof {
        lemma_div_is_ordered(p as int, 0x8000000000000000 * (Q_ONE as int) - 1, Q_ONE as int);
        lemma_fundamental_div_mod_converse(
            0x8000000000000000 * (Q_ONE as int) - 1,
            Q_ONE as int,
            0x8000000000000000 - 1,
            Q_ONE as int - 1,
        );
        assert(q == abs_int(ab) / (Q_ONE as int));
    }
    if neg {
        assert(tdiv(ab, Q_ONE as int) == -(q as int));
        -(q as i64)
    } else {
        assert(tdiv(ab, Q_ONE as int) == q as int);
        q as i64
    }
}

/// Saturating fixed-point division, as `qdiv_sat` specifies.
pub fn qdiv_sat_e(a: i64, b: i64, cap: i64) -> (r: i64)
    requires
        0 < cap,
    ensures
        r == qdiv_sat(a as int, b as int, cap as int),
{
    if b == 0 {
        if a >= 0 {
            cap
        } else {
            -cap
        }
    } else {
        let ghost ai: int = a as int;
        let ghost num: int = ai * (Q_ONE as int);
        let neg: bool = (a < 0) != (b < 0);
        let aa: u128 = iabs(a);
        let bb: u128 = iabs(b);
        proof {
            assert(aa * (Q_ONE as u128) == abs_int(num) && (ai >= 0 ==> num >= 0) && (ai < 0 ==> num
                < 0) && aa * (Q_ONE as u128) <= 0x8000000000000000 * (Q_ONE as int))
                by (nonlinear_arith)
                requires
                    num == ai * (Q_ONE as int),
                    aa == abs_int(ai),
                    aa <= 0x8000000000000000,
            ;
        }
        let p: u128 = aa * (Q_ONE as u128);
        let q: u128 = p / bb;
        proof {
            lemma_div_is_ordered(abs_int(num), abs_int(num), abs_int(b as int));
            assert(q == abs_int(num) / abs_int(b as int));
            assert(((num >= 0) == (b as int >= 0)) ==> tdiv(num, b as int) == q);
            assert(((num >= 0) != (b as int >= 0)) ==> tdiv(num, b as int) == -(q as int));
            assert(neg ==> tdiv(num, b as int) <= 0);
            assert(!neg ==> tdiv(num, b as int) >= 0);
        }
        let magnitude: i64 = if q > cap as u128 {
            cap
        } else {
            q as i64
        };
        if neg {
            assert(-(magnitude as int) == clamp_int(tdiv(num, b as int), -(cap as int), cap as int));
            -magnitude
        } else {
            assert(magnitude as int == clamp_int(tdiv(num, b as int), -(cap as int), cap as int));
            magnitude
        }
    }
}

} // verus!
