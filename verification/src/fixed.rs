//! Decimal fixed-point arithmetic.
//!
//! A quantity of the model is held as a whole number of billionths of its
//! unit in an `i64`: a length of 0.1 m is `100_000_000`, a ratio of
//! 1 m^2/kg is `1_000_000_000`. Sums and differences are plain integer
//! sums; products and quotients are rounded down to the next billionth.
//! An operation whose exact result has no `i64` representation returns `None`.
//!
//! Areas and masses span too many orders of magnitude for that unit. They
//! are held in an `i128` as whole numbers of `1e-24` of their unit, in which
//! both laws of the area are exact, and a power that an area is a multiple
//! of as a whole number of `1e-18`.

use vstd::arithmetic::div_mod::lemma_fundamental_div_mod;
use vstd::arithmetic::div_mod::lemma_fundamental_div_mod_converse;
use vstd::prelude::*;

verus! {

/// The number one: a quantity `q` stands for the real number `q / UNIT`.
pub const UNIT: i64 = 1_000_000_000;

/// Largest magnitude accepted for a coordinate, a speed component, a mass or
/// a length of a satellite: one billion units.
pub const LIMIT: i64 = 1_000_000_000_000_000_000;

/// Whether an exact result can be held in an `i64`.
pub open spec fn fits(x: int) -> bool {
    i64::MIN <= x <= i64::MAX
}

/// The quotient `n / d` rounded towards minus infinity, for `d != 0`.
pub open spec fn floor_div(n: int, d: int) -> int {
    if d > 0 {
        n / d
    } else {
        (-n) / (-d)
    }
}

/// The product of two quantities, rounded down to a whole billionth.
pub open spec fn product(a: int, b: int) -> int {
    (a * b) / (UNIT as int)
}

/// The quotient of two quantities, rounded down to a whole billionth.
pub open spec fn quotient(a: int, b: int) -> int {
    floor_div(a * UNIT, b)
}

/// `x` as an optional `i64`: the value where it fits, nothing where it does not.
pub open spec fn narrowed(x: int) -> Option<i64> {
    if fits(x) {
        Some(x as i64)
    } else {
        None
    }
}

/// Whether an exact result can be held in an `i128`.
pub open spec fn fits_wide(x: int) -> bool {
    i128::MIN <= x <= i128::MAX
}

/// `x` as an optional `i128`: the value where it fits, nothing where it does
/// not.
pub open spec fn widened(x: int) -> Option<i128> {
    if fits_wide(x) {
        Some(x as i128)
    } else {
        None
    }
}

/// The largest `r >= 0` with `r * r <= n`.
pub open spec fn is_floor_sqrt(n: int, r: int) -> bool {
    0 <= r && r * r <= n && n < (r + 1) * (r + 1)
}

/// Bounds the product of two 64-bit values by `2^126`.
pub proof fn lemma_product_bound(a: int, b: int)
    requires
        fits(a),
        fits(b),
    ensures
        -0x4000_0000_0000_0000_0000_0000_0000_0000 <= a * b
            <= 0x4000_0000_0000_0000_0000_0000_0000_0000,
{
    assert(-0x4000_0000_0000_0000_0000_0000_0000_0000 <= a * b
        <= 0x4000_0000_0000_0000_0000_0000_0000_0000) by (nonlinear_arith)
        requires
            -0x8000_0000_0000_0000 <= a <= 0x8000_0000_0000_0000,
            -0x8000_0000_0000_0000 <= b <= 0x8000_0000_0000_0000,
    ;
}

/// Floor division by a positive denominator, with the remainder.
fn floor_div_rem(n: i128, d: i128) -> (r: (i128, i128))
    requires
        d > 0,
        n > i128::MIN,
    ensures
        r.0 == (n as int) / (d as int),
        r.1 == (n as int) % (d as int),
        0 <= r.1 < d,
        n == r.0 * d + r.1,
{
    proof {
        lemma_fundamental_div_mod(n as int, d as int);
        vstd::arithmetic::div_mod::lemma_mod_bound(n as int, d as int);
        assert((d as int) * ((n as int) / (d as int)) == ((n as int) / (d as int)) * (d as int))
            by (nonlinear_arith);
    }
    if n >= 0 {
        (n / d, n % d)
    } else {
        let m: i128 = -n;
        let q0: i128 = m / d;
        let r0: i128 = m % d;
        proof {
            lemma_fundamental_div_mod(m as int, d as int);
            assert(d * q0 == q0 * d) by (nonlinear_arith);
            if r0 == 0 {
                assert((-q0) * d == -(q0 * d)) by (nonlinear_arith);
                lemma_fundamental_div_mod_converse(n as int, d as int, -q0, 0);
            } else {
                assert((-q0 - 1) * d == -(q0 * d) - d) by (nonlinear_arith);
                lemma_fundamental_div_mod_converse(n as int, d as int, -q0 - 1, d - r0);
            }
        }
        if r0 == 0 {
            (-q0, 0)
        } else {
            (-q0 - 1, d - r0)
        }
    }
}

/// Floor division by a positive denominator is `/`.
fn floor_div_positive(n: i128, d: i128) -> (q: i128)
    requires
        d > 0,
        n > i128::MIN,
    ensures
        q == floor_div(n as int, d as int),
        q == (n as int) / (d as int),
{
    floor_div_rem(n, d).0
}

/// Scaling before dividing is dividing, scaling the quotient, and adding
/// what the scaled remainder holds of the divisor.
proof fn lemma_scaled_quotient(a: int, k: int, d: int)
    requires
        d > 0,
        k >= 0,
    ensures
        (a * k) / d == (a / d) * k + ((a % d) * k) / d,
        0 <= ((a % d) * k) / d,
        k > 0 ==> ((a % d) * k) / d < k,
{
    let q = a / d;
    let r = a % d;
    lemma_fundamental_div_mod(a, d);
    vstd::arithmetic::div_mod::lemma_mod_bound(a, d);
    let t = (r * k) / d;
    let u = (r * k) % d;
    lemma_fundamental_div_mod(r * k, d);
    vstd::arithmetic::div_mod::lemma_mod_bound(r * k, d);
    assert(a * k == (q * k + t) * d + u) by (nonlinear_arith)
        requires
            a == d * q + r,
            r * k == d * t + u,
    ;
    lemma_fundamental_div_mod_converse(a * k, d, q * k + t, u);
    assert(0 <= r * k) by (nonlinear_arith)
        requires
            0 <= r,
            0 <= k,
    ;
    vstd::arithmetic::div_mod::lemma_div_pos_is_pos(r * k, d);
    if k > 0 && t >= k {
        assert(d * t >= d * k) by (nonlinear_arith)
            requires
                d > 0,
                t >= k,
        ;
        assert(r * k < d * k) by (nonlinear_arith)
            requires
                0 <= r < d,
                k > 0,
        ;
    }
}

/// The quotient of `a * k` by a positive `d`, rounded down, where it fits.
fn scaled_quotient_positive(a: i128, k: i128, d: i128) -> (r: Option<i128>)
    requires
        a > i128::MIN,
        0 < k <= 2_000_000_000,
        0 < d <= 0x8000_0000_0000_0000,
    ensures
        r == widened((a * k) / (d as int)),
{
    let (q, rest) = floor_div_rem(a, d);
    proof {
        lemma_scaled_quotient(a as int, k as int, d as int);
    }
    assert(0 <= rest * k <= 0x8000_0000_0000_0000 * 2_000_000_000) by (nonlinear_arith)
        requires
            0 <= rest < 0x8000_0000_0000_0000,
            0 < k <= 2_000_000_000,
    ;
    let part: i128 = (rest * k) / d;
    if q >= 0 {
        assert(q * k >= 0) by (nonlinear_arith)
            requires
                q >= 0,
                k > 0,
        ;
        match q.checked_mul(k) {
            Some(whole) => whole.checked_add(part),
            None => None,
        }
    } else {
        assert((q + 1) * k <= 0 && (q + 1) * k == q * k + k) by (nonlinear_arith)
            requires
                q < 0,
                k > 0,
        ;
        match (q + 1).checked_mul(k) {
            Some(whole) => whole.checked_add(part - k),
            None => None,
        }
    }
}

/// The quotient of `a * k` by `d`, rounded down, where it fits.
pub fn scaled_quotient(a: i128, k: i128, d: i128) -> (r: Option<i128>)
    requires
        a > i128::MIN,
        0 < k <= 2_000_000_000,
        d != 0,
        -0x8000_0000_0000_0000 <= d <= 0x8000_0000_0000_0000,
    ensures
        r == widened(floor_div(a * k, d as int)),
{
    if d > 0 {
        scaled_quotient_positive(a, k, d)
    } else {
        assert((-a) * k == -(a * k)) by (nonlinear_arith);
        scaled_quotient_positive(-a, k, -d)
    }
}

/// Floor division on wide integers, for any non-zero denominator.
pub fn floor_div_wide(n: i128, d: i128) -> (q: i128)
    requires
        d != 0,
        n > i128::MIN,
        d > i128::MIN,
    ensures
        q == floor_div(n as int, d as int),
{
    if d > 0 {
        floor_div_positive(n, d)
    } else {
        floor_div_positive(-n, -d)
    }
}

/// Brings a wide result back to 64 bits where it fits.
pub fn narrow(x: i128) -> (r: Option<i64>)
    ensures
        r == narrowed(x as int),
{
    if x < -0x8000_0000_0000_0000 || x > 0x7fff_ffff_ffff_ffff {
        None
    } else {
        Some(x as i64)
    }
}

/// The exact product of two quantities, rounded down, before it is known
/// to fit.
pub fn product_wide(a: i64, b: i64) -> (r: i128)
    ensures
        r == product(a as int, b as int),
        -0x4000_0000_0000_0000_0000_0000_0000_0000 <= r
            <= 0x4000_0000_0000_0000_0000_0000_0000_0000,
{
    proof {
        lemma_product_bound(a as int, b as int);
    }
    let wide: i128 = (a as i128) * (b as i128);
    floor_div_positive(wide, 1_000_000_000)
}

/// Multiplies two quantities, rounding down.
pub fn multiply(a: i64, b: i64) -> (r: Option<i64>)
    ensures
        r == narrowed(product(a as int, b as int)),
{
    narrow(product_wide(a, b))
}

/// Divides one quantity by another, rounding down. There is no result where
/// the divisor is zero or the quotient does not fit.
pub fn divide(a: i64, b: i64) -> (r: Option<i64>)
    ensures
        b == 0 ==> r.is_none(),
        b != 0 ==> r == narrowed(quotient(a as int, b as int)),
{
    if b == 0 {
        return None;
    }
    proof {
        lemma_product_bound(a as int, UNIT as int);
    }
    let wide: i128 = (a as i128) * (UNIT as i128);
    let q: i128 = floor_div_wide(wide, b as i128);
    narrow(q)
}

/// Adds two quantities. There is no result where the sum does not fit.
pub fn sum(a: i64, b: i64) -> (r: Option<i64>)
    ensures
        r == narrowed(a + b),
{
    narrow(a as i128 + b as i128)
}

/// The integer square root: the largest `r` with `r * r <= n`.
pub fn floor_sqrt(n: u128) -> (r: u64)
    ensures
        is_floor_sqrt(n as int, r as int),
{
    let mut low: u128 = 0;
    let mut high: u128 = 0x1_0000_0000_0000_0000;
    assert(n < high * high) by (nonlinear_arith)
        requires
            high == 0x1_0000_0000_0000_0000,
            n <= u128::MAX,
    ;
    while high - low > 1
        invariant
            low < high <= 0x1_0000_0000_0000_0000,
            low * low <= n,
            n < high * high,
        decreases high - low,
    {
        let mid: u128 = low + (high - low) / 2;
        assert(mid * mid <= u128::MAX) by (nonlinear_arith)
            requires
                0 <= mid < 0x1_0000_0000_0000_0000,
        ;
        if mid * mid <= n {
            low = mid;
        } else {
            high = mid;
        }
    }
    low as u64
}

} // verus!
