//! Fixed-point scalar arithmetic.
//!
//! Every world quantity (length, speed, angle, color channel) is an `i64`
//! counting micro-units: the real value `1.0` is stored as `1_000_000`.
//! Products of two fixed-point values are rescaled by a truncating division,
//! rounding toward zero as hardware float-to-int conversion would.

use vstd::prelude::*;

verus! {

/// Fixed-point units per world unit.
pub const SCALE: i64 = 1_000_000;

/// Machine limits. The simulation accepts coordinates, velocities, time
/// steps and noise values up to these magnitudes; within them every
/// intermediate fixed-point product in the library fits an `i64`. They are
/// far outside anything the simulation produces (a billion world units, a
/// million units per second, a time step of a thousand seconds).
pub const POS_LIMIT: i64 = 1_000_000_000_000_000;

pub const VEL_LIMIT: i64 = 1_000_000_000_000;

pub const DT_LIMIT: i64 = 1_000_000_000;

pub const NOISE_LIMIT: i64 = 1_000_000_000;

/// Magnitude of an integer.
pub open spec fn abs_sp(a: int) -> int {
    if a >= 0 {
        a
    } else {
        -a
    }
}

/// `a / d` rounded toward zero, for a positive divisor `d`.
/// (Spec-mode `/` is Euclidean; executable signed division truncates.)
pub open spec fn trunc_div(a: int, d: int) -> int {
    if a >= 0 {
        a / d
    } else {
        -((-a) / d)
    }
}

/// The fixed-point product of `a` and `b`: the mathematical product,
/// scaled back down and rounded toward zero.
pub open spec fn mul_fp(a: int, b: int) -> int {
    trunc_div(a * b, SCALE as int)
}

/// `a` is strictly inside the symmetric `i64` range (so both it and its
/// negation are representable).
pub open spec fn fits(a: int) -> bool {
    -0x7fff_ffff_ffff_ffff <= a <= 0x7fff_ffff_ffff_ffff
}

/// Magnitude of an `i64`, as a `u64`.
fn abs64(a: i64) -> (r: u64)
    requires
        a != i64::MIN,
    ensures
        r == abs_sp(a as int),
{
    if a >= 0 {
        a as u64
    } else {
        (-a) as u64
    }
}

/// The magnitude of a product is the product of the magnitudes.
pub proof fn lemma_abs_mul(a: int, b: int)
    ensures
        abs_sp(a * b) == abs_sp(a) * abs_sp(b),
        (a >= 0 && b >= 0) || (a <= 0 && b <= 0) ==> a * b >= 0,
        (a <= 0 && b >= 0) || (a >= 0 && b <= 0) ==> a * b <= 0,
{
    if a == 0 || b == 0 {
        vstd::arithmetic::mul::lemma_mul_by_zero_is_zero(a);
        vstd::arithmetic::mul::lemma_mul_by_zero_is_zero(b);
    } else if a >= 0 && b >= 0 {
        vstd::arithmetic::mul::lemma_mul_nonnegative(a, b);
    } else if a < 0 && b < 0 {
        vstd::arithmetic::mul::lemma_mul_cancels_negatives(a, b);
        vstd::arithmetic::mul::lemma_mul_nonnegative(-a, -b);
    } else if a < 0 {
        vstd::arithmetic::mul::lemma_mul_unary_negation(a, b);
        vstd::arithmetic::mul::lemma_mul_nonnegative(-a, b);
        assert(a * b == -((-a) * b));
    } else {
        vstd::arithmetic::mul::lemma_mul_unary_negation(a, b);
        vstd::arithmetic::mul::lemma_mul_nonnegative(a, -b);
        assert(a * b == -(a * (-b)));
    }
}

/// The fixed-point product is bounded by the product of the operands'
/// bounds, scaled down.
pub proof fn lemma_mul_fp_bound(a: int, b: int, ab: int, bb: int)
    requires
        abs_sp(a) <= ab,
        abs_sp(b) <= bb,
    ensures
        abs_sp(mul_fp(a, b)) * SCALE <= ab * bb,
        abs_sp(mul_fp(a, b)) <= abs_sp(a * b),
{
    let p = a * b;
    lemma_abs_mul(a, b);
    vstd::arithmetic::mul::lemma_mul_upper_bound(abs_sp(a), ab, abs_sp(b), bb);
    let q = abs_sp(p) / (SCALE as int);
    assert(abs_sp(mul_fp(a, b)) == q);
    vstd::arithmetic::div_mod::lemma_fundamental_div_mod(abs_sp(p), SCALE as int);
    assert(q * SCALE <= abs_sp(p));
}

/// Multiply two fixed-point values. The result is exactly the rescaled,
/// truncated product `mul_fp`.
pub fn fp_mul(a: i64, b: i64) -> (r: i64)
    requires
        a != i64::MIN,
        b != i64::MIN,
        fits(mul_fp(a as int, b as int)),
    ensures
        r == mul_fp(a as int, b as int),
{
    let negative = (a < 0) != (b < 0);
    let ua = abs64(a);
    let ub = abs64(b);
    proof {
        vstd::arithmetic::mul::lemma_mul_upper_bound(
            ua as int,
            u64::MAX as int,
            ub as int,
            u64::MAX as int,
        );
        lemma_abs_mul(a as int, b as int);
        if !negative {
            assert((a as int) * (b as int) >= 0);
        } else {
            assert((a as int) * (b as int) <= 0);
        }
    }
    let m: u128 = (ua as u128) * (ub as u128) / (SCALE as u128);
    proof {
        assert(m == abs_sp((a as int) * (b as int)) / (SCALE as int));
        if !negative {
            assert(mul_fp(a as int, b as int) == m);
        } else {
            assert(mul_fp(a as int, b as int) == -(m as int));
        }
    }
    if negative {
        -(m as i64)
    } else {
        m as i64
    }
}

/// Divide a fixed-point value by a positive plain integer, rounding toward
/// zero.
pub fn fp_div_pos(a: i64, d: u64) -> (r: i64)
    requires
        a != i64::MIN,
        0 < d,
    ensures
        r == trunc_div(a as int, d as int),
{
    let ua = abs64(a);
    let q = ua / d;
    proof {
        vstd::arithmetic::div_mod::lemma_div_nonincreasing(ua as int, d as int);
        vstd::arithmetic::div_mod::lemma_div_pos_is_pos(ua as int, d as int);
    }
    if a >= 0 {
        q as i64
    } else {
        -(q as i64)
    }
}

} // verus!
