//! Fixed-point scalars: a quantity `q` is held as the integer `q * SCALE`.

use vstd::prelude::*;

verus! {

/// The integer that stands for one unit.
pub const SCALE: i64 = 1000;

/// Largest magnitude of a world coordinate (about a million units).
pub const POS_MAX: i64 = 0x100_0000_0000;

/// Largest chassis half-extent or suspension length (about 260 units).
pub const EXTENT_MAX: i64 = 0x4_0000;

/// Largest magnitude of a speed (about 16 000 units per second).
pub const SPEED_MAX: i64 = 0x100_0000;

/// Largest tuning gain: stiffness, damping, drive and steering strength, rates.
pub const GAIN_MAX: i64 = 0x1_0000_0000;

/// Longest tick (about four seconds).
pub const DT_MAX: i64 = 0x1000;

pub open spec fn abs(x: int) -> int {
    if x < 0 {
        -x
    } else {
        x
    }
}

/// Division by a positive divisor, rounding toward zero.
pub open spec fn tdiv(a: int, d: int) -> int {
    if a >= 0 {
        a / d
    } else {
        -((-a) / d)
    }
}

/// Product of two fixed-point values, rounded toward zero.
pub open spec fn fmul(a: int, b: int) -> int {
    tdiv(a * b, SCALE as int)
}

pub open spec fn in_i64(x: int) -> bool {
    i64::MIN <= x <= i64::MAX
}

pub proof fn lemma_tdiv_bound(a: int, d: int)
    requires
        d > 0,
    ensures
        abs(tdiv(a, d)) <= abs(a) / d,
        a >= 0 ==> tdiv(a, d) >= 0,
        a <= 0 ==> tdiv(a, d) <= 0,
{
    if a >= 0 {
        assert(a / d >= 0) by (nonlinear_arith)
            requires
                a >= 0,
                d > 0,
        ;
    } else {
        assert((-a) / d >= 0) by (nonlinear_arith)
            requires
                -a >= 0,
                d > 0,
        ;
    }
}

/// Rounding toward zero keeps the order of the dividends.
pub proof fn lemma_tdiv_monotone(a: int, b: int, d: int)
    requires
        d > 0,
        a <= b,
    ensures
        tdiv(a, d) <= tdiv(b, d),
{
    lemma_tdiv_bound(a, d);
    lemma_tdiv_bound(b, d);
    if a >= 0 {
        vstd::arithmetic::div_mod::lemma_div_is_ordered(a, b, d);
    } else if b < 0 {
        vstd::arithmetic::div_mod::lemma_div_is_ordered(-b, -a, d);
    }
}

/// The size of a fixed-point product is bounded by the product of the bounds.
pub proof fn lemma_fmul_bound(a: int, b: int, ba: int, bb: int)
    requires
        abs(a) <= ba,
        abs(b) <= bb,
    ensures
        abs(fmul(a, b)) <= ba * bb / (SCALE as int),
{
    lemma_tdiv_bound(a * b, SCALE as int);
    assert(abs(a * b) <= ba * bb) by (nonlinear_arith)
        requires
            abs(a) <= ba,
            abs(b) <= bb,
    ;
    vstd::arithmetic::div_mod::lemma_div_is_ordered(abs(a * b), ba * bb, SCALE as int);
}

/// A product with a larger non-negative factor is at least as large.
pub proof fn lemma_fmul_monotone(a: int, b: int, k: int)
    requires
        a <= b,
        k >= 0,
    ensures
        fmul(a, k) <= fmul(b, k),
{
    assert(a * k <= b * k) by (nonlinear_arith)
        requires
            a <= b,
            k >= 0,
    ;
    lemma_tdiv_monotone(a * k, b * k, SCALE as int);
}

/// Negating a factor negates the product.
pub proof fn lemma_fmul_neg(a: int, b: int)
    ensures
        fmul(-a, b) == -fmul(a, b),
        fmul(a, -b) == -fmul(a, b),
{
    assert((-a) * b == -(a * b)) by (nonlinear_arith);
    assert(a * (-b) == -(a * b)) by (nonlinear_arith);
}

pub proof fn lemma_fmul_zero(a: int)
    ensures
        fmul(a, 0) == 0,
        fmul(0, a) == 0,
{
    assert(a * 0 == 0 && 0 * a == 0) by (nonlinear_arith);
}

/// Product of two fixed-point values.
pub fn fx_mul(a: i64, b: i64) -> (r: i64)
    requires
        in_i64(fmul(a as int, b as int)),
    ensures
        r as int == fmul(a as int, b as int),
{
    assert(abs(a as int) <= 0x8000_0000_0000_0000 && abs(b as int) <= 0x8000_0000_0000_0000);
    assert(abs((a as int) * (b as int)) <= 0x4000_0000_0000_0000_0000_0000_0000_0000)
        by (nonlinear_arith)
        requires
            abs(a as int) <= 0x8000_0000_0000_0000,
            abs(b as int) <= 0x8000_0000_0000_0000,
    ;
    let p: i128 = (a as i128) * (b as i128);
    let q: i128 = if p >= 0 {
        p / 1000
    } else {
        -((-p) / 1000)
    };
    q as i64
}

} // verus!
