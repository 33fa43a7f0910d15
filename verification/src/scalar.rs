//! Fixed-point scalar arithmetic shared by every bounded value type.
//!
//! A raw value of `SCALE` stands for one unit, so a quantity in the closed
//! real interval `[-1, 1]` is carried as a raw `i64` in `[-SCALE, SCALE]`.
//! Every operation here is total over its stated preconditions, produces an
//! exactly specified result, and (for the saturating family) clamps into a
//! caller-supplied closed interval rather than wrapping.

use vstd::arithmetic::div_mod::{
    lemma_div_is_ordered, lemma_div_multiples_vanish, lemma_div_nonincreasing,
};
use vstd::arithmetic::mul::lemma_mul_inequality;
use vstd::prelude::*;

verus! {

/// Number of raw fixed-point steps per unit: the raw value `SCALE` stands for `1.0`.
pub const SCALE: i64 = 4096;

/// Raw fixed-point value standing for one half.
pub const HALF: i64 = 2048;

/// Clamp `x` into the closed interval `[lo, hi]`.
pub open spec fn clamp_spec(x: int, lo: int, hi: int) -> int {
    if x < lo {
        lo
    } else if x > hi {
        hi
    } else {
        x
    }
}

/// Magnitude of an integer.
pub open spec fn abs_spec(x: int) -> int {
    if x < 0 {
        -x
    } else {
        x
    }
}

/// Fixed-point product `a * b`, truncated toward zero, where both operands
/// carry `SCALE` steps per unit.
pub open spec fn scaled_mul_spec(a: int, b: int) -> int {
    if (a < 0) == (b < 0) {
        abs_spec(a) * abs_spec(b) / (SCALE as int)
    } else {
        -(abs_spec(a) * abs_spec(b) / (SCALE as int))
    }
}

/// Fixed-point quotient `a / b`, truncated toward zero.
pub open spec fn scaled_div_spec(a: int, b: int) -> int {
    if (a < 0) == (b < 0) {
        abs_spec(a) * (SCALE as int) / abs_spec(b)
    } else {
        -(abs_spec(a) * (SCALE as int) / abs_spec(b))
    }
}

/// Remainder of `a` by `b` with the sign of the dividend, as Rust's `%`
/// computes it on its primitive numeric types.
pub open spec fn rem_trunc_spec(a: int, b: int) -> int {
    if a < 0 {
        -(abs_spec(a) % abs_spec(b))
    } else {
        abs_spec(a) % abs_spec(b)
    }
}

/// Saturating sum: the exact sum clamped into `[lo, hi]`.
pub open spec fn sat_add_spec(a: int, b: int, lo: int, hi: int) -> int {
    clamp_spec(a + b, lo, hi)
}

/// Saturating difference: the exact difference clamped into `[lo, hi]`.
pub open spec fn sat_sub_spec(a: int, b: int, lo: int, hi: int) -> int {
    clamp_spec(a - b, lo, hi)
}

/// Saturating fixed-point product clamped into `[lo, hi]`.
pub open spec fn sat_mul_spec(a: int, b: int, lo: int, hi: int) -> int {
    clamp_spec(scaled_mul_spec(a, b), lo, hi)
}

/// Saturating fixed-point quotient clamped into `[lo, hi]`.
pub open spec fn sat_div_spec(a: int, b: int, lo: int, hi: int) -> int {
    clamp_spec(scaled_div_spec(a, b), lo, hi)
}

/// Saturating remainder clamped into `[lo, hi]`.
pub open spec fn sat_rem_spec(a: int, b: int, lo: int, hi: int) -> int {
    clamp_spec(rem_trunc_spec(a, b), lo, hi)
}

/// Saturating negation clamped into `[lo, hi]`.
pub open spec fn sat_neg_spec(a: int, lo: int, hi: int) -> int {
    clamp_spec(-a, lo, hi)
}

/// Linear blend from `a` toward `b` by the fixed-point factor `t`
/// (`t == SCALE` is a full blend), truncated toward zero.
pub open spec fn lerp_spec(a: int, b: int, t: int) -> int {
    if b >= a {
        a + (b - a) * t / (SCALE as int)
    } else {
        a - (a - b) * t / (SCALE as int)
    }
}

/// Normalized progress `elapsed / duration` as a fixed-point factor.
pub open spec fn progress_spec(elapsed: int, duration: int) -> int {
    elapsed * (SCALE as int) / duration
}

/// Scaling a value by a full unit returns the value unchanged.
pub proof fn lemma_scaled_mul_unit(a: int)
    ensures
        scaled_mul_spec(a, SCALE as int) == a,
{
    let m = abs_spec(a);
    lemma_div_multiples_vanish(m, SCALE as int);
    assert((SCALE as int) * m == m * (SCALE as int));
    assert(m * (SCALE as int) / (SCALE as int) == m);
    assert(abs_spec(SCALE as int) == SCALE as int);
    if a < 0 {
        assert(scaled_mul_spec(a, SCALE as int) == -(m * (SCALE as int) / (SCALE as int)));
    } else {
        assert(scaled_mul_spec(a, SCALE as int) == m * (SCALE as int) / (SCALE as int));
    }
}

/// Scaling a value by zero yields zero.
pub proof fn lemma_scaled_mul_zero(a: int)
    ensures
        scaled_mul_spec(a, 0) == 0,
{
    let m = abs_spec(a);
    lemma_div_multiples_vanish(0, SCALE as int);
    assert((SCALE as int) * 0 == 0);
    assert(m * 0 == 0);
    assert(abs_spec(0) == 0);
    assert(m * 0 / (SCALE as int) == 0);
}

/// Clamp `x` into `[lo, hi]`.
pub fn clamp(x: i64, lo: i64, hi: i64) -> (r: i64)
    requires
        lo <= hi,
    ensures
        r as int == clamp_spec(x as int, lo as int, hi as int),
        lo <= r <= hi,
{
    if x < lo {
        lo
    } else if x > hi {
        hi
    } else {
        x
    }
}

/// Magnitude of `a` (always representable: the magnitude of the most
/// negative `i64` still fits in a `u128`).
fn magnitude(a: i64) -> (m: u128)
    ensures
        m as int == abs_spec(a as int),
        m <= 0x8000_0000_0000_0000u128,
{
    if a < 0 {
        (-(a as i128)) as u128
    } else {
        a as u128
    }
}

/// Clamp the signed magnitude `(-1)^neg * m` into `[lo, hi]`.
fn clamp_signed_mag(neg: bool, m: u128, lo: i64, hi: i64) -> (r: i64)
    requires
        lo <= hi,
        m <= 0x4000_0000_0000_0000_0000_0000_0000_0000u128,
    ensures
        r as int == clamp_spec(if neg { -(m as int) } else { m as int }, lo as int, hi as int),
{
    let v: i128 = if neg {
        -(m as i128)
    } else {
        m as i128
    };
    if v < lo as i128 {
        lo
    } else if v > hi as i128 {
        hi
    } else {
        v as i64
    }
}

/// Saturating addition of two raw values into `[lo, hi]`.
pub fn sat_add(a: i64, b: i64, lo: i64, hi: i64) -> (r: i64)
    requires
        lo <= hi,
    ensures
        r as int == sat_add_spec(a as int, b as int, lo as int, hi as int),
        lo <= r <= hi,
{
    let s: i128 = a as i128 + b as i128;
    if s < lo as i128 {
        lo
    } else if s > hi as i128 {
        hi
    } else {
        s as i64
    }
}

/// Saturating subtraction of two raw values into `[lo, hi]`.
pub fn sat_sub(a: i64, b: i64, lo: i64, hi: i64) -> (r: i64)
    requires
        lo <= hi,
    ensures
        r as int == sat_sub_spec(a as int, b as int, lo as int, hi as int),
        lo <= r <= hi,
{
    let s: i128 = a as i128 - b as i128;
    if s < lo as i128 {
        lo
    } else if s > hi as i128 {
        hi
    } else {
        s as i64
    }
}

/// Saturating fixed-point multiplication of two raw values into `[lo, hi]`.
pub fn sat_mul(a: i64, b: i64, lo: i64, hi: i64) -> (r: i64)
    requires
        lo <= hi,
    ensures
        r as int == sat_mul_spec(a as int, b as int, lo as int, hi as int),
        lo <= r <= hi,
{
    let am: u128 = magnitude(a);
    let bm: u128 = magnitude(b);
    proof {
        assert(am as int * bm as int <= 0x4000_0000_0000_0000_0000_0000_0000_0000)
            by (nonlinear_arith)
            requires
                am as int <= 0x8000_0000_0000_0000,
                bm as int <= 0x8000_0000_0000_0000,
                0 <= am as int,
                0 <= bm as int,
        ;
        lemma_div_nonincreasing(am as int * bm as int, SCALE as int);
    }
    let m: u128 = am * bm / (SCALE as u128);
    let neg: bool = (a < 0) != (b < 0);
    clamp_signed_mag(neg, m, lo, hi)
}

/// Saturating fixed-point division of two raw values into `[lo, hi]`.
pub fn sat_div(a: i64, b: i64, lo: i64, hi: i64) -> (r: i64)
    requires
        lo <= hi,
        b != 0,
    ensures
        r as int == sat_div_spec(a as int, b as int, lo as int, hi as int),
        lo <= r <= hi,
{
    let am: u128 = magnitude(a);
    let bm: u128 = magnitude(b);
    proof {
        assert(am as int * (SCALE as int) <= 0x4000_0000_0000_0000_0000_0000_0000_0000)
            by (nonlinear_arith)
            requires
                am as int <= 0x8000_0000_0000_0000,
                0 <= am as int,
        ;
        lemma_div_nonincreasing(am as int * (SCALE as int), bm as int);
    }
    let m: u128 = am * (SCALE as u128) / bm;
    let neg: bool = (a < 0) != (b < 0);
    clamp_signed_mag(neg, m, lo, hi)
}

/// Saturating remainder of two raw values into `[lo, hi]`.
pub fn sat_rem(a: i64, b: i64, lo: i64, hi: i64) -> (r: i64)
    requires
        lo <= hi,
        b != 0,
    ensures
        r as int == sat_rem_spec(a as int, b as int, lo as int, hi as int),
        lo <= r <= hi,
{
    let am: u128 = magnitude(a);
    let bm: u128 = magnitude(b);
    let m: u128 = am % bm;
    clamp_signed_mag(a < 0, m, lo, hi)
}

/// Saturating negation of a raw value into `[lo, hi]`.
pub fn sat_neg(a: i64, lo: i64, hi: i64) -> (r: i64)
    requires
        lo <= hi,
    ensures
        r as int == sat_neg_spec(a as int, lo as int, hi as int),
        lo <= r <= hi,
{
    let v: i128 = -(a as i128);
    if v < lo as i128 {
        lo
    } else if v > hi as i128 {
        hi
    } else {
        v as i64
    }
}

/// Linear blend from `a` toward `b` by the fixed-point factor `t`.
/// The result always lies between the two endpoints.
pub fn lerp(a: i64, b: i64, t: i64) -> (r: i64)
    requires
        -SCALE <= a <= SCALE,
        -SCALE <= b <= SCALE,
        0 <= t <= SCALE,
    ensures
        r as int == lerp_spec(a as int, b as int, t as int),
        a <= b ==> a <= r <= b,
        b <= a ==> b <= r <= a,
{
    if b >= a {
        let d: u64 = (b - a) as u64;
        proof {
            lemma_mul_inequality(t as int, SCALE as int, d as int);
            lemma_div_is_ordered(d as int * t as int, d as int * (SCALE as int), SCALE as int);
            lemma_div_multiples_vanish(d as int, SCALE as int);
            lemma_div_is_ordered(0, d as int * t as int, SCALE as int);
        }
        let q: u64 = (d as u128 * t as u128 / (SCALE as u128)) as u64;
        a + (q as i64)
    } else {
        let d: u64 = (a - b) as u64;
        proof {
            lemma_mul_inequality(t as int, SCALE as int, d as int);
            lemma_div_is_ordered(d as int * t as int, d as int * (SCALE as int), SCALE as int);
            lemma_div_multiples_vanish(d as int, SCALE as int);
            lemma_div_is_ordered(0, d as int * t as int, SCALE as int);
        }
        let q: u64 = (d as u128 * t as u128 / (SCALE as u128)) as u64;
        a - (q as i64)
    }
}

/// Normalized progress of `elapsed` through `duration` as a fixed-point
/// factor in `[0, SCALE]`.
pub fn progress(elapsed: u64, duration: u64) -> (r: i64)
    requires
        0 < duration,
        elapsed <= duration,
    ensures
        r as int == progress_spec(elapsed as int, duration as int),
        0 <= r <= SCALE,
{
    proof {
        lemma_mul_inequality(elapsed as int, duration as int, SCALE as int);
        lemma_div_is_ordered(
            elapsed as int * (SCALE as int),
            duration as int * (SCALE as int),
            duration as int,
        );
        lemma_div_multiples_vanish(SCALE as int, duration as int);
        lemma_div_is_ordered(0, elapsed as int * (SCALE as int), duration as int);
    }
    let q: u128 = elapsed as u128 * (SCALE as u128) / (duration as u128);
    q as i64
}

} // verus!
