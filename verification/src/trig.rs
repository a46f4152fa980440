//! Fixed-point sine and cosine.
//!
//! Angles are fixed-point radians (`crate::fx`). The sine of the half
//! period `[0, FX_PI]` is a rational approximation that is exact at `0`,
//! `FX_PI / 2`, and `FX_PI`; the full function reduces its argument modulo
//! `FX_TAU` first, so periodicity holds exactly, by construction.
use vstd::arithmetic::div_mod::lemma_add_mod_noop_right;
use vstd::arithmetic::div_mod::lemma_fundamental_div_mod;
use vstd::arithmetic::div_mod::lemma_fundamental_div_mod_converse_mod;
use vstd::arithmetic::div_mod::lemma_mod_add_multiples_vanish;
use vstd::arithmetic::div_mod::lemma_small_mod;
use vstd::prelude::*;

use crate::fx::FX_ONE;

verus! {

/// One full turn (2 pi) in fixed-point radians, chosen divisible by four so
/// that the quarter turns are exact angle values.
pub const FX_TAU: i64 = 411776;

/// Half a turn (pi) in fixed-point radians.
pub const FX_PI: i64 = 205888;

/// A quarter turn (pi / 2) in fixed-point radians.
pub const FX_HALF_PI: i64 = 102944;

/// Largest angle magnitude the trigonometric entry points accept; wide
/// enough for any product of in-range speeds and times.
pub const FX_ANGLE_LIMIT: i64 = 0x4000_0000_0000_0000;

/// Sine over the half period, as the rational approximation
/// `16 x (pi - x) / (5 pi^2 - 4 x (pi - x))`, scaled to fixed point. The
/// scale of `x` cancels between numerator and denominator.
pub open spec fn half_sin_spec(x: int) -> int {
    ((FX_ONE as int) * (16 * x * ((FX_PI as int) - x))) / (5 * (FX_PI as int) * (FX_PI as int)
        - 4 * x * ((FX_PI as int) - x))
}

/// Full-period sine: reduce modulo one turn, then mirror the half period.
pub open spec fn sin_spec(a: int) -> int {
    let r = a % (FX_TAU as int);
    if r < (FX_PI as int) {
        half_sin_spec(r)
    } else {
        -half_sin_spec(r - (FX_PI as int))
    }
}

/// Cosine as sine shifted a quarter turn forward.
pub open spec fn cos_spec(a: int) -> int {
    sin_spec(a + (FX_HALF_PI as int))
}

proof fn lemma_half_sin_parts(x: int)
    requires
        0 <= x <= FX_PI as int,
    ensures
        0 <= x * ((FX_PI as int) - x) <= (FX_HALF_PI as int) * (FX_HALF_PI as int),
{
    let h = FX_HALF_PI as int;
    assert(0 <= x * (2 * h - x) <= h * h) by (nonlinear_arith)
        requires
            0 <= x <= 2 * h,
    ;
}

/// The half-period sine stays within `[0, FX_ONE]` and is exact at the
/// quarter points.
pub proof fn lemma_half_sin_bounds(x: int)
    requires
        0 <= x <= FX_PI as int,
    ensures
        0 <= half_sin_spec(x) <= FX_ONE as int,
{
    let s = FX_ONE as int;
    let pi = FX_PI as int;
    let h = FX_HALF_PI as int;
    let num = s * (16 * x * (pi - x));
    let den = 5 * pi * pi - 4 * x * (pi - x);
    lemma_half_sin_parts(x);
    assert(0 <= num && num <= s * den && den > 0) by (nonlinear_arith)
        requires
            num == s * (16 * x * (pi - x)),
            den == 5 * pi * pi - 4 * x * (pi - x),
            pi == 2 * h,
            h > 0,
            s > 0,
            0 <= x * (pi - x) <= h * h,
    ;
    assert(0 <= num / den <= s) by (nonlinear_arith)
        requires
            0 <= num <= s * den,
            den > 0,
    ;
}

/// Exact quarter-point values of the half-period sine.
pub proof fn lemma_half_sin_exact()
    ensures
        half_sin_spec(0) == 0,
        half_sin_spec(FX_HALF_PI as int) == FX_ONE as int,
        half_sin_spec(FX_PI as int) == 0,
{
    let s = FX_ONE as int;
    let h = FX_HALF_PI as int;
    let pi = FX_PI as int;
    let d = 16 * h * h;
    assert(5 * pi * pi - 4 * h * (pi - h) == d && s * (16 * h * (pi - h)) == d * s && d > 0)
        by (nonlinear_arith)
        requires
            pi == 2 * h,
            d == 16 * h * h,
            h == FX_HALF_PI as int,
    ;
    vstd::arithmetic::div_mod::lemma_div_multiples_vanish(s, d);
    assert(half_sin_spec(h) == s);
    assert(16 * 0 * (pi - 0) == 0) by (nonlinear_arith);
    assert(16 * pi * (pi - pi) == 0) by (nonlinear_arith);
    vstd::arithmetic::div_mod::lemma_div_of0(5 * pi * pi - 4 * 0 * (pi - 0));
    vstd::arithmetic::div_mod::lemma_div_of0(5 * pi * pi - 4 * pi * (pi - pi));
    assert(s * (16 * 0 * (pi - 0)) == 0) by (nonlinear_arith);
    assert(s * (16 * pi * (pi - pi)) == 0) by (nonlinear_arith);
}

/// Sine of any angle stays within `[-FX_ONE, FX_ONE]`.
pub proof fn lemma_sin_bounds(a: int)
    ensures
        -(FX_ONE as int) <= sin_spec(a) <= FX_ONE as int,
{
    let r = a % (FX_TAU as int);
    vstd::arithmetic::div_mod::lemma_mod_division_less_than_divisor(a, FX_TAU as int);
    if r < FX_PI as int {
        lemma_half_sin_bounds(r);
    } else {
        lemma_half_sin_bounds(r - (FX_PI as int));
    }
}

/// Sine is exactly periodic with period `FX_TAU`.
pub proof fn lemma_sin_periodic(a: int)
    ensures
        sin_spec(a + FX_TAU as int) == sin_spec(a),
{
    lemma_mod_add_multiples_vanish(a, FX_TAU as int);
}

/// Sine is unchanged one turn backward as well.
pub proof fn lemma_sin_periodic_down(a: int)
    ensures
        sin_spec(a - FX_TAU as int) == sin_spec(a),
{
    lemma_sin_periodic(a - FX_TAU as int);
}

/// Cosine is exactly periodic with period `FX_TAU`.
pub proof fn lemma_cos_periodic(a: int)
    ensures
        cos_spec(a + FX_TAU as int) == cos_spec(a),
{
    lemma_sin_periodic(a + FX_HALF_PI as int);
    assert(a + FX_TAU as int + FX_HALF_PI as int == a + FX_HALF_PI as int + FX_TAU as int);
}

/// Cosine is unchanged one turn backward as well.
pub proof fn lemma_cos_periodic_down(a: int)
    ensures
        cos_spec(a - FX_TAU as int) == cos_spec(a),
{
    lemma_cos_periodic(a - FX_TAU as int);
}

/// Reduction modulo one turn leaves the sine unchanged.
pub proof fn lemma_sin_mod(a: int)
    ensures
        sin_spec(a % (FX_TAU as int)) == sin_spec(a),
{
    vstd::arithmetic::div_mod::lemma_mod_twice(a, FX_TAU as int);
}

/// Reduction modulo one turn leaves the cosine unchanged as well.
pub proof fn lemma_cos_mod(a: int)
    ensures
        cos_spec(a % (FX_TAU as int)) == cos_spec(a),
{
    let t = FX_TAU as int;
    let h = FX_HALF_PI as int;
    vstd::arithmetic::div_mod::lemma_add_mod_noop(a, h, t);
    lemma_small_mod(FX_HALF_PI as nat, t as nat);
    assert((a % t + h) % t == (a + h) % t);
}

/// Exact sine and cosine at the four quarter turns.
pub proof fn lemma_trig_exact()
    ensures
        sin_spec(0) == 0,
        sin_spec(FX_HALF_PI as int) == FX_ONE as int,
        sin_spec(FX_PI as int) == 0,
        sin_spec((FX_PI + FX_HALF_PI) as int) == -(FX_ONE as int),
        cos_spec(0) == FX_ONE as int,
        cos_spec(FX_HALF_PI as int) == 0,
        cos_spec(FX_PI as int) == -(FX_ONE as int),
        cos_spec((FX_PI + FX_HALF_PI) as int) == 0,
{
    let t = FX_TAU as int;
    lemma_half_sin_exact();
    lemma_small_mod(0nat, t as nat);
    lemma_small_mod(FX_HALF_PI as nat, t as nat);
    lemma_small_mod(FX_PI as nat, t as nat);
    lemma_small_mod((FX_PI + FX_HALF_PI) as nat, t as nat);
    assert(sin_spec(FX_PI as int + FX_HALF_PI as int) == -half_sin_spec(FX_HALF_PI as int));
    assert((FX_PI + FX_HALF_PI) as int + FX_HALF_PI as int == t);
    vstd::arithmetic::div_mod::lemma_mod_self_0(t);
    assert(cos_spec((FX_PI + FX_HALF_PI) as int) == half_sin_spec(0));
}

/// Euclidean remainder of an angle by one turn.
pub fn fx_mod_tau(a: i64) -> (r: i64)
    requires
        -FX_ANGLE_LIMIT <= a <= FX_ANGLE_LIMIT,
    ensures
        r as int == a as int % (FX_TAU as int),
        0 <= r < FX_TAU,
{
    if a >= 0 {
        a % FX_TAU
    } else {
        let m: i64 = (-a) % FX_TAU;
        proof {
            let t = FX_TAU as int;
            lemma_fundamental_div_mod(-(a as int), t);
            let q = -(a as int) / t;
            if m == 0 {
                assert(a as int == (-q) * t + 0) by (nonlinear_arith)
                    requires
                        -(a as int) == q * t + 0,
                ;
                lemma_fundamental_div_mod_converse_mod(a as int, t, -q, 0);
            } else {
                assert(a as int == (-q - 1) * t + (t - m)) by (nonlinear_arith)
                    requires
                        -(a as int) == q * t + m as int,
                ;
                lemma_fundamental_div_mod_converse_mod(a as int, t, -q - 1, t - m);
            }
        }
        if m == 0 {
            0
        } else {
            FX_TAU - m
        }
    }
}

/// Sine of the half period `[0, FX_PI]`.
fn half_sin(x: i64) -> (r: i64)
    requires
        0 <= x <= FX_PI,
    ensures
        r as int == half_sin_spec(x as int),
        0 <= r <= FX_ONE,
{
    proof {
        lemma_half_sin_parts(x as int);
        lemma_half_sin_bounds(x as int);
    }
    let g: i64 = x * (FX_PI - x);
    let num: i64 = FX_ONE * (16 * g);
    assert(num as int == (FX_ONE as int) * (16 * (x as int) * ((FX_PI as int) - x as int)))
        by (nonlinear_arith)
        requires
            g as int == x as int * ((FX_PI as int) - x as int),
            num as int == (FX_ONE as int) * (16 * g as int),
    ;
    let den: i64 = 5 * FX_PI * FX_PI - 4 * g;
    assert(den as int == 5 * (FX_PI as int) * (FX_PI as int) - 4 * (x as int) * ((FX_PI as int)
        - x as int)) by (nonlinear_arith)
        requires
            g as int == x as int * ((FX_PI as int) - x as int),
            den as int == 5 * (FX_PI as int) * (FX_PI as int) - 4 * g as int,
    ;
    assert(num as int / den as int == half_sin_spec(x as int));
    num / den
}

/// Fixed-point sine of an angle in fixed-point radians.
pub fn sin_fx(a: i64) -> (r: i64)
    requires
        -FX_ANGLE_LIMIT <= a <= FX_ANGLE_LIMIT,
    ensures
        r as int == sin_spec(a as int),
        -FX_ONE <= r <= FX_ONE,
{
    let red = fx_mod_tau(a);
    if red < FX_PI {
        half_sin(red)
    } else {
        let v = half_sin(red - FX_PI);
        -v
    }
}

/// Fixed-point cosine of an angle in fixed-point radians.
pub fn cos_fx(a: i64) -> (r: i64)
    requires
        -FX_ANGLE_LIMIT <= a <= FX_ANGLE_LIMIT,
    ensures
        r as int == cos_spec(a as int),
        -FX_ONE <= r <= FX_ONE,
{
    let red = fx_mod_tau(a);
    proof {
        lemma_sin_mod(a as int);
        lemma_add_mod_noop_right(a as int, FX_HALF_PI as int, FX_TAU as int);
        vstd::arithmetic::div_mod::lemma_mod_twice(a as int, FX_TAU as int);
        assert((red + FX_HALF_PI) as int % (FX_TAU as int) == (a as int + FX_HALF_PI as int) % (
        FX_TAU as int));
    }
    sin_fx(red + FX_HALF_PI)
}

} // verus!
