//! Fixed-point scalars.
//!
//! A scalar is an `i64` counting steps of `1 / SCALE`.  Multiplication and
//! division rescale their raw integer result with `rdiv`, rounding to the
//! nearest step with ties away from zero, so every arithmetic operation in
//! the crate has an exact integer specification.

use vstd::arithmetic::div_mod::lemma_fundamental_div_mod;
use vstd::prelude::*;

verus! {

/// Number of steps in 1.0.
pub const SCALE: i64 = 100_000_000;

/// Comparison tolerance (1e-5 expressed in steps).
pub const EPSILON: i64 = 1_000;

/// Largest coordinate magnitude (in steps) the geometric operations accept;
/// it keeps every intermediate product inside `i128`.
pub const LIMIT: i64 = 20_000_000_000;

/// Absolute value.
pub open spec fn iabs(x: int) -> int {
    if x >= 0 {
        x
    } else {
        -x
    }
}

/// Does a mathematical integer fit in an `i64`?
pub open spec fn in_i64(x: int) -> bool {
    i64::MIN <= x <= i64::MAX
}

/// `n / d` for `d > 0`, rounded to the nearest integer, ties away from zero.
pub open spec fn rdiv(n: int, d: int) -> int
    recommends
        d > 0,
{
    if n >= 0 {
        (2 * n + d) / (2 * d)
    } else {
        -((2 * -n + d) / (2 * d))
    }
}

/// `rdiv` with the divisor's sign folded into the result.
pub open spec fn rdiv_s(n: int, d: int) -> int
    recommends
        d != 0,
{
    if d > 0 {
        rdiv(n, d)
    } else {
        -rdiv(n, -d)
    }
}

/// Product of two scalars, in steps.
pub open spec fn mul_units(a: int, b: int) -> int {
    rdiv_s(a * b, SCALE as int)
}

/// Quotient of two scalars, in steps.
pub open spec fn div_units(a: int, b: int) -> int
    recommends
        b != 0,
{
    rdiv_s(a * SCALE, b)
}

/// Integer square root, rounded down.
pub open spec fn sqrt_floor(n: int) -> int
    recommends
        n >= 0,
    decreases n,
{
    if n <= 0 {
        0
    } else {
        let r = sqrt_floor(n - 1);
        if (r + 1) * (r + 1) <= n {
            r + 1
        } else {
            r
        }
    }
}

/// The rounded quotient differs from the exact one by at most half a step:
/// `|rdiv(n, d) * d - n| <= d / 2`, stated without fractions.
pub proof fn lemma_rdiv_close(n: int, d: int)
    requires
        d > 0,
    ensures
        2 * iabs(rdiv(n, d) * d - n) <= d,
{
    if n >= 0 {
        lemma_rdiv_close_nonneg(n, d);
    } else {
        lemma_rdiv_close_nonneg(-n, d);
        assert(rdiv(n, d) == -rdiv(-n, d));
        assert(rdiv(n, d) * d - n == -(rdiv(-n, d) * d - -n)) by (nonlinear_arith)
            requires
                rdiv(n, d) == -rdiv(-n, d),
        ;
    }
}

proof fn lemma_rdiv_close_nonneg(n: int, d: int)
    requires
        d > 0,
        n >= 0,
    ensures
        2 * iabs(rdiv(n, d) * d - n) <= d,
{
    let q = (2 * n + d) / (2 * d);
    lemma_fundamental_div_mod(2 * n + d, 2 * d);
    let r = (2 * n + d) % (2 * d);
    assert(0 <= r < 2 * d);
    assert(2 * n + d == 2 * d * q + r);
    assert(2 * (q * d - n) == d - r) by (nonlinear_arith)
        requires
            2 * n + d == 2 * d * q + r,
    ;
}

/// A quotient that is exact stays exact under `rdiv`.
pub proof fn lemma_rdiv_mul_exact(a: int, d: int)
    requires
        d > 0,
    ensures
        rdiv(a * d, d) == a,
{
    lemma_rdiv_close(a * d, d);
    let q = rdiv(a * d, d);
    assert(2 * iabs(q * d - a * d) <= d);
    if q != a {
        assert(2 * iabs(q * d - a * d) >= 2 * d) by (nonlinear_arith)
            requires
                q != a,
                d > 0,
        ;
    }
}

/// `sqrt_floor(n)` really is the rounded-down square root.
pub proof fn lemma_sqrt_floor(n: int)
    requires
        n >= 0,
    ensures
        sqrt_floor(n) >= 0,
        sqrt_floor(n) * sqrt_floor(n) <= n,
        n < (sqrt_floor(n) + 1) * (sqrt_floor(n) + 1),
    decreases n,
{
    if n > 0 {
        lemma_sqrt_floor(n - 1);
        let r = sqrt_floor(n - 1);
        if (r + 1) * (r + 1) <= n {
            assert(n < (r + 2) * (r + 2)) by (nonlinear_arith)
                requires
                    n - 1 < (r + 1) * (r + 1),
                    r >= 0,
            ;
        }
    }
}

/// No other integer satisfies the square-root bracketing.
pub proof fn lemma_sqrt_floor_unique(n: int, r: int)
    requires
        n >= 0,
        r >= 0,
        r * r <= n,
        n < (r + 1) * (r + 1),
    ensures
        r == sqrt_floor(n),
{
    let s = sqrt_floor(n);
    lemma_sqrt_floor(n);
    if r < s {
        assert((r + 1) * (r + 1) <= s * s) by (nonlinear_arith)
            requires
                0 <= r < s,
        ;
    }
    if s < r {
        assert((s + 1) * (s + 1) <= r * r) by (nonlinear_arith)
            requires
                0 <= s < r,
        ;
    }
}

/// Rounding a nonnegative numerator never produces a negative quotient.
pub proof fn lemma_rdiv_nonneg(n: int, d: int)
    requires
        d > 0,
        n >= 0,
    ensures
        rdiv(n, d) >= 0,
{
    vstd::arithmetic::div_mod::lemma_div_pos_is_pos(2 * n + d, 2 * d);
}

/// `rdiv` is monotone in the numerator.
pub proof fn lemma_rdiv_mono(n1: int, n2: int, d: int)
    requires
        d > 0,
        n1 <= n2,
    ensures
        rdiv(n1, d) <= rdiv(n2, d),
{
    if n1 >= 0 {
        vstd::arithmetic::div_mod::lemma_div_is_ordered(2 * n1 + d, 2 * n2 + d, 2 * d);
    } else if n2 < 0 {
        vstd::arithmetic::div_mod::lemma_div_is_ordered(2 * -n2 + d, 2 * -n1 + d, 2 * d);
    } else {
        lemma_rdiv_nonneg(n2, d);
        vstd::arithmetic::div_mod::lemma_div_pos_is_pos(2 * -n1 + d, 2 * d);
    }
}

/// The signed-divisor rounding stays within half of the divisor.
pub proof fn lemma_rdivs_close(n: int, d: int)
    requires
        d != 0,
    ensures
        2 * iabs(rdiv_s(n, d) * d - n) <= iabs(d),
{
    if d > 0 {
        lemma_rdiv_close(n, d);
    } else {
        lemma_rdiv_close(n, -d);
        assert(rdiv_s(n, d) * d == rdiv(n, -d) * -d) by (nonlinear_arith)
            requires
                rdiv_s(n, d) == -rdiv(n, -d),
        ;
    }
}

/// A bound on the numerator gives a bound on the rounded quotient.
pub proof fn lemma_rdiv_bound(n: int, d: int, b: int)
    requires
        d > 0,
        b >= 0,
        iabs(n) <= b * d,
    ensures
        iabs(rdiv(n, d)) <= b,
{
    lemma_rdiv_close(n, d);
    let q = rdiv(n, d);
    assert(iabs(q) <= b) by (nonlinear_arith)
        requires
            2 * iabs(q * d - n) <= d,
            iabs(n) <= b * d,
            d > 0,
            b >= 0,
    ;
}

/// Exact product of two `i64` values, kept wide.
pub fn wide_mul(a: i64, b: i64) -> (r: i128)
    ensures
        r == a as int * b as int,
{
    proof {
        assert(iabs(a as int * b as int) <= i128::MAX) by (nonlinear_arith)
            requires
                i64::MIN <= a <= i64::MAX,
                i64::MIN <= b <= i64::MAX,
        ;
    }
    a as i128 * b as i128
}

/// Round-to-nearest division of a raw `i128`, ties away from zero.
pub fn div_round(n: i128, d: i128) -> (r: i128)
    requires
        0 < d <= 0x4000_0000_0000_0000_0000_0000_0000_0000i128 - 1,
        iabs(n as int) <= 0x4000_0000_0000_0000_0000_0000_0000_0000int,
    ensures
        r == rdiv(n as int, d as int),
{
    let neg = n < 0;
    let m: u128 = if neg {
        (-n) as u128
    } else {
        n as u128
    };
    let du = d as u128;
    let q: u128 = (2 * m + du) / (2 * du);
    assert(q == (2 * (m as int) + du) / (2 * (du as int)));
    assert(q * (2 * (du as int)) <= 2 * (m as int) + du) by (nonlinear_arith)
        requires
            q == (2 * (m as int) + du) / (2 * (du as int)),
            du > 0,
            m >= 0,
    {
        lemma_fundamental_div_mod(2 * (m as int) + du, 2 * (du as int));
    }
    assert(q <= m as int + du as int) by (nonlinear_arith)
        requires
            q * (2 * (du as int)) <= 2 * (m as int) + du,
            du >= 1,
            q >= 0,
    ;
    if neg {
        -(q as i128)
    } else {
        q as i128
    }
}

/// Does `|a - b| < EPSILON` hold?  The fixed-point analogue of the crate's
/// approximate scalar comparison.
pub fn approx_eq(a: i64, b: i64) -> (r: bool)
    ensures
        r == (iabs(a - b) < EPSILON),
{
    let diff: i128 = a as i128 - b as i128;
    if diff < 0 {
        -diff < EPSILON as i128
    } else {
        diff < EPSILON as i128
    }
}

/// Scalar product `a * b`, rescaled.
pub fn mul_s(a: i64, b: i64) -> (r: i64)
    requires
        in_i64(mul_units(a as int, b as int)),
    ensures
        r == mul_units(a as int, b as int),
{
    let raw: i128 = a as i128 * b as i128;
    proof {
        assert(iabs(raw as int) <= 0x4000_0000_0000_0000_0000_0000_0000_0000int)
            by (nonlinear_arith)
            requires
                raw == a as int * b as int,
                i64::MIN <= a <= i64::MAX,
                i64::MIN <= b <= i64::MAX,
        ;
    }
    let q = div_round(raw, SCALE as i128);
    q as i64
}

/// Scalar quotient `a / b`, rescaled.
pub fn div_s(a: i64, b: i64) -> (r: i64)
    requires
        b != 0,
        in_i64(div_units(a as int, b as int)),
    ensures
        r == div_units(a as int, b as int),
{
    let raw: i128 = a as i128 * SCALE as i128;
    let q = if b > 0 {
        div_round(raw, b as i128)
    } else {
        -div_round(raw, -(b as i128))
    };
    q as i64
}

/// Integer square root of a raw `u128`.
pub fn isqrt(n: u128) -> (r: u128)
    ensures
        r == sqrt_floor(n as int),
{
    if n == 0 {
        proof {
            lemma_sqrt_floor_unique(0, 0);
        }
        return 0;
    }
    let mut lo: u128 = 0;
    let mut hi: u128 = 0x1_0000_0000_0000_0000u128;
    proof {
        assert(hi * hi > n) by (nonlinear_arith)
            requires
                hi == 0x1_0000_0000_0000_0000u128,
                n <= u128::MAX,
        ;
    }
    while lo + 1 < hi
        invariant
            0 <= lo < hi <= 0x1_0000_0000_0000_0000u128,
            lo * lo <= n,
            hi * hi > n,
        decreases hi - lo,
    {
        let mid = lo + (hi - lo) / 2;
        assert(lo < mid < hi);
        proof {
            assert(mid * mid < u128::MAX) by (nonlinear_arith)
                requires
                    mid < 0x1_0000_0000_0000_0000u128,
            ;
        }
        if mid * mid <= n {
            lo = mid;
        } else {
            hi = mid;
        }
    }
    proof {
        assert((lo + 1) * (lo + 1) > n);
        lemma_sqrt_floor_unique(n as int, lo as int);
    }
    lo
}

} // verus!
