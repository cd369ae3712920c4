//! Fixed-point scalar arithmetic.
//!
//! Angles, trigonometric values and matrix entries are carried as `i64`
//! values scaled by `SCALE`, so that the per-frame math is exact integer
//! arithmetic.  Division follows the host's truncating semantics, captured by
//! [`div_trunc`].

use vstd::prelude::*;
use vstd::arithmetic::div_mod::lemma_div_is_ordered;
use vstd::arithmetic::div_mod::lemma_fundamental_div_mod;
use vstd::arithmetic::div_mod::lemma_div_multiples_vanish;
use vstd::arithmetic::div_mod::lemma_mod_bound;

verus! {

/// The fixed-point unit: a real value `x` is represented by `x * SCALE`.
pub const SCALE: i64 = 65536;

/// One full turn (two pi radians) in fixed-point units,
/// the nearest integer to `2 * pi * SCALE`.
pub const TWO_PI: i64 = 411775;

/// Truncating (round toward zero) integer division, the semantics of `/`
/// on the machine's signed integers; `b` is expected to be positive.
pub open spec fn div_trunc(a: int, b: int) -> int {
    if a >= 0 {
        a / b
    } else {
        -((-a) / b)
    }
}

/// Magnitude of an integer.
pub open spec fn mag(a: int) -> int {
    if a >= 0 {
        a
    } else {
        -a
    }
}

/// The value represented by the fixed-point product of `a` and `b`.
pub open spec fn fp_mul_spec(a: int, b: int) -> int {
    div_trunc(a * b, SCALE as int)
}

/// Truncating division shrinks magnitudes: `mag(div_trunc(a, b)) * b <= mag(a)`.
pub proof fn lemma_div_trunc_mag(a: int, b: int)
    requires
        b > 0,
    ensures
        mag(div_trunc(a, b)) * b <= mag(a),
        mag(div_trunc(a, b)) >= 0,
{
    let c = if a >= 0 { a } else { -a };
    let q = c / b;
    let r = c % b;
    lemma_fundamental_div_mod(c, b);
    lemma_mod_bound(c, b);
    assert(q >= 0 && q * b <= c) by (nonlinear_arith)
        requires c == b * q + r, 0 <= r, r < b, c >= 0, b > 0;
}

/// Truncating division is monotone in the magnitude of the dividend.
pub proof fn lemma_div_trunc_mag_ordered(a: int, c: int, b: int)
    requires
        b > 0,
        mag(a) <= c,
    ensures
        mag(div_trunc(a, b)) <= c / b,
        mag(div_trunc(a, b)) <= c,
{
    lemma_div_trunc_mag(a, b);
    let q = mag(div_trunc(a, b));
    assert(q <= q * b && q * b == b * q) by (nonlinear_arith)
        requires q >= 0, b >= 1;
    lemma_div_multiples_vanish(q, b);
    lemma_div_is_ordered(q * b, c, b);
}

/// Multiplying by the fixed-point one is the identity.
pub proof fn lemma_fp_mul_one(a: int)
    ensures
        fp_mul_spec(a, SCALE as int) == a,
        fp_mul_spec(SCALE as int, a) == a,
{
    let s = SCALE as int;
    if a >= 0 {
        assert(a * s == s * a) by (nonlinear_arith);
        assert((a * s) / s == a) by (nonlinear_arith)
            requires a >= 0 && s > 0;
    } else {
        assert(a * s == s * a) by (nonlinear_arith);
        assert(-(a * s) == (-a) * s) by (nonlinear_arith);
        assert(((-a) * s) / s == -a) by (nonlinear_arith)
            requires a < 0 && s > 0;
    }
}

/// Multiplying by zero gives zero.
pub proof fn lemma_fp_mul_zero(a: int)
    ensures
        fp_mul_spec(a, 0) == 0,
        fp_mul_spec(0, a) == 0,
{
    assert(a * 0 == 0) by (nonlinear_arith);
    assert(0 * a == 0) by (nonlinear_arith);
}

/// A fixed-point factor of magnitude at most one never grows the other operand.
pub proof fn lemma_fp_mul_contracts(a: int, b: int)
    requires
        mag(b) <= SCALE as int,
    ensures
        mag(fp_mul_spec(a, b)) <= mag(a),
{
    let s = SCALE as int;
    assert(mag(a * b) <= mag(a) * s) by (nonlinear_arith)
        requires mag(b) <= s;
    lemma_div_trunc_mag_ordered(a * b, mag(a) * s, s);
    assert((mag(a) * s) / s == mag(a)) by (nonlinear_arith)
        requires mag(a) >= 0 && s > 0;
}

/// Fixed-point product of two scalars.
///
/// The operand bound keeps the intermediate `a * b` inside `i64` and gives
/// the caller a usable bound on the result.
pub fn fp_mul(a: i64, b: i64) -> (r: i64)
    requires
        mag(a as int) <= 0x4000_0000,
        mag(b as int) <= 0x4000_0000,
    ensures
        r as int == fp_mul_spec(a as int, b as int),
        mag(b as int) <= SCALE as int ==> mag(r as int) <= mag(a as int),
{
    proof {
        assert(mag((a as int) * (b as int)) <= 0x4000_0000int * 0x4000_0000int) by (nonlinear_arith)
            requires mag(a as int) <= 0x4000_0000 && mag(b as int) <= 0x4000_0000;
    }
    let p: i64 = a * b;
    let r: i64 = p / SCALE;
    proof {
        lemma_div_trunc_mag_ordered(p as int, 0x4000_0000int * 0x4000_0000int, SCALE as int);
        if mag(b as int) <= SCALE as int {
            lemma_fp_mul_contracts(a as int, b as int);
        }
    }
    r
}

} // verus!
