//! Signed 48.16 fixed-point scalars.
//!
//! A value `v: i64` stands for the real number `v / FX_ONE`. All geometry,
//! angles, colors, and times in the library are expressed on this scale, so
//! every per-frame computation is exact integer arithmetic.
use vstd::prelude::*;

verus! {

/// Number of fixed-point units in 1.0.
pub const FX_ONE: i64 = 65536;

/// Magnitude cap accepted by the multiplier; products of two values within
/// the cap stay inside `i64`.
pub const FX_LIMIT: i64 = 0x8000_0000;

pub open spec fn fx_abs(a: int) -> int {
    if a >= 0 {
        a
    } else {
        -a
    }
}

/// Fixed-point product `a * b / FX_ONE`, with the quotient rounded toward
/// zero (magnitudes divide, the sign is reapplied).
pub open spec fn fx_mul_spec(a: int, b: int) -> int {
    if (a >= 0) == (b >= 0) {
        (fx_abs(a) * fx_abs(b)) / (FX_ONE as int)
    } else {
        -((fx_abs(a) * fx_abs(b)) / (FX_ONE as int))
    }
}

/// Fixed-point quotient `a * FX_ONE / b`, rounded toward zero.
pub open spec fn fx_div_spec(a: int, b: int) -> int {
    if (a >= 0) == (b >= 0) {
        (fx_abs(a) * (FX_ONE as int)) / fx_abs(b)
    } else {
        -((fx_abs(a) * (FX_ONE as int)) / fx_abs(b))
    }
}

pub proof fn lemma_fx_mul_bound(a: int, b: int, ba: int, bb: int)
    requires
        fx_abs(a) <= ba,
        fx_abs(b) <= bb,
        0 <= ba,
        0 <= bb,
    ensures
        fx_abs(fx_mul_spec(a, b)) <= ba * bb / (FX_ONE as int),
{
    let p = fx_abs(a) * fx_abs(b);
    assert(p <= ba * bb) by (nonlinear_arith)
        requires
            0 <= fx_abs(a) <= ba,
            0 <= fx_abs(b) <= bb,
            p == fx_abs(a) * fx_abs(b),
    ;
    assert(p / (FX_ONE as int) <= ba * bb / (FX_ONE as int)) by (nonlinear_arith)
        requires
            p <= ba * bb,
    ;
    assert(0 <= p / (FX_ONE as int)) by (nonlinear_arith)
        requires
            0 <= p,
    ;
}

/// `1.0` is a left and right unit of the fixed-point product.
pub proof fn lemma_fx_mul_one(a: int)
    ensures
        fx_mul_spec(a, FX_ONE as int) == a,
        fx_mul_spec(FX_ONE as int, a) == a,
{
    if a >= 0 {
        assert(a * (FX_ONE as int) / (FX_ONE as int) == a) by (nonlinear_arith);
        assert((FX_ONE as int) * a / (FX_ONE as int) == a) by (nonlinear_arith);
    } else {
        assert((-a) * (FX_ONE as int) / (FX_ONE as int) == -a) by (nonlinear_arith);
        assert((FX_ONE as int) * (-a) / (FX_ONE as int) == -a) by (nonlinear_arith);
    }
}

/// Multiplying by zero gives zero.
pub proof fn lemma_fx_mul_zero(a: int)
    ensures
        fx_mul_spec(a, 0) == 0,
        fx_mul_spec(0, a) == 0,
{
    assert(fx_abs(a) * 0 == 0) by (nonlinear_arith);
    assert(0 * fx_abs(a) == 0) by (nonlinear_arith);
}

pub fn fx_mul(a: i64, b: i64) -> (r: i64)
    requires
        -FX_LIMIT <= a <= FX_LIMIT,
        -FX_LIMIT <= b <= FX_LIMIT,
    ensures
        r == fx_mul_spec(a as int, b as int),
        fx_abs(r as int) <= fx_abs(a as int) * fx_abs(b as int) / (FX_ONE as int),
{
    let neg: bool = (a < 0) != (b < 0);
    let aa: i64 = if a < 0 {
        -a
    } else {
        a
    };
    let bb: i64 = if b < 0 {
        -b
    } else {
        b
    };
    assert(aa * bb <= FX_LIMIT * FX_LIMIT) by (nonlinear_arith)
        requires
            0 <= aa <= FX_LIMIT,
            0 <= bb <= FX_LIMIT,
    ;
    assert(0 <= aa * bb) by (nonlinear_arith)
        requires
            0 <= aa,
            0 <= bb,
    ;
    let p: i64 = aa * bb;
    let q: i64 = p / FX_ONE;
    assert(0 <= q <= p) by (nonlinear_arith)
        requires
            0 <= p,
            q as int == p as int / (FX_ONE as int),
    ;
    if neg {
        -q
    } else {
        q
    }
}

pub fn fx_div(a: i64, b: i64) -> (r: i64)
    requires
        b != 0,
        -FX_LIMIT <= a <= FX_LIMIT,
        -FX_LIMIT <= b <= FX_LIMIT,
    ensures
        r == fx_div_spec(a as int, b as int),
{
    let neg: bool = (a < 0) != (b < 0);
    let aa: i64 = if a < 0 {
        -a
    } else {
        a
    };
    let bb: i64 = if b < 0 {
        -b
    } else {
        b
    };
    let num: i64 = aa * FX_ONE;
    let q: i64 = num / bb;
    assert(0 <= q <= num) by (nonlinear_arith)
        requires
            0 <= num,
            bb >= 1,
            q as int == num as int / bb as int,
    ;
    if neg {
        -q
    } else {
        q
    }
}

/// The quotient of a value by a larger-magnitude divisor stays within one.
pub proof fn lemma_fx_div_unit(a: int, b: int)
    requires
        b > 0,
        fx_abs(a) <= b,
    ensures
        fx_abs(fx_div_spec(a, b)) <= FX_ONE as int,
{
    let s = FX_ONE as int;
    assert((fx_abs(a) * s) / b <= s) by (nonlinear_arith)
        requires
            0 <= fx_abs(a) <= b,
            b > 0,
            s > 0,
    ;
    assert(0 <= (fx_abs(a) * s) / b) by (nonlinear_arith)
        requires
            0 <= fx_abs(a) * s,
            b > 0,
    ;
}

/// Clamp `x` into the inclusive range `[lo, hi]`.
pub fn fx_clamp(x: i64, lo: i64, hi: i64) -> (r: i64)
    requires
        lo <= hi,
    ensures
        r == fx_clamp_spec(x as int, lo as int, hi as int),
        lo <= r <= hi,
{
    if x < lo {
        lo
    } else if x > hi {
        hi
    } else {
        x
    }
}

pub open spec fn fx_clamp_spec(x: int, lo: int, hi: int) -> int {
    if x < lo {
        lo
    } else if x > hi {
        hi
    } else {
        x
    }
}

/// Clamping is idempotent: a clamped value re-clamps to itself.
pub proof fn lemma_fx_clamp_idempotent(x: int, lo: int, hi: int)
    requires
        lo <= hi,
    ensures
        fx_clamp_spec(fx_clamp_spec(x, lo, hi), lo, hi) == fx_clamp_spec(x, lo, hi),
        lo <= fx_clamp_spec(x, lo, hi) <= hi,
{
}

} // verus!
