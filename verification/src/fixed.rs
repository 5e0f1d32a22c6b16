//! Fixed-point scalar arithmetic.
//!
//! A scalar is an `i64` counting thousandths of a world unit.  Products and
//! quotients carry the scale explicitly: a product of two scalars is divided
//! by the scale, a quotient is multiplied by it, both truncating toward zero
//! exactly as hardware signed division does.

use vstd::prelude::*;
use vstd::math::abs;
use vstd::arithmetic::div_mod::{lemma_fundamental_div_mod, lemma_div_pos_is_pos};

verus! {

/// Raw steps per world unit: every scalar counts thousandths of a unit.
pub const FX_ONE: i64 = 1000;

/// Division truncating toward zero by a positive divisor, the semantics of
/// hardware signed division; in spec `/` is Euclidean, so the negative side
/// is written out.
pub open spec fn tdiv(n: int, d: int) -> int {
    if n >= 0 {
        n / d
    } else {
        -((-n) / d)
    }
}

/// The exact value of a fixed-point product: `a * b` carries the scale
/// twice, so the raw result drops one factor of the scale, truncated.
pub open spec fn fx_mul_spec(a: int, b: int) -> int {
    tdiv(a * b, 1000)
}

/// The exact value of a fixed-point quotient: `a` is re-scaled so the
/// result carries the same scale as the operands, truncated.
pub open spec fn fx_div_spec(a: int, b: int) -> int {
    tdiv(a * 1000, b)
}

/// Clamping a value into `[lo, hi]`.
pub open spec fn clamp_spec(x: int, lo: int, hi: int) -> int {
    if x < lo {
        lo
    } else if x > hi {
        hi
    } else {
        x
    }
}

/// `r` is the integer square root of `n`, rounded down.
pub open spec fn is_sqrt_floor(n: int, r: int) -> bool {
    &&& 0 <= r
    &&& r * r <= n
    &&& n < (r + 1) * (r + 1)
}

/// The integer square root, rounded down, as a total recursive definition.
pub open spec fn sqrt_floor(n: int) -> int
    decreases n,
{
    if n <= 0 {
        0
    } else {
        let p = sqrt_floor(n - 1);
        if (p + 1) * (p + 1) <= n {
            p + 1
        } else {
            p
        }
    }
}

/// `sqrt_floor` meets its characterization on the non-negative integers.
pub proof fn lemma_sqrt_floor_correct(n: int)
    requires
        n >= 0,
    ensures
        is_sqrt_floor(n, sqrt_floor(n)),
    decreases n,
{
    if n == 0 {
        assert(sqrt_floor(0) == 0);
    } else {
        lemma_sqrt_floor_correct(n - 1);
        let p = sqrt_floor(n - 1);
        if (p + 1) * (p + 1) <= n {
            assert(n - 1 < (p + 1) * (p + 1));
            assert(n == (p + 1) * (p + 1));
            assert((p + 2) * (p + 2) > (p + 1) * (p + 1)) by (nonlinear_arith)
                requires
                    p >= 0,
            ;
        }
    }
}

/// The characterization determines the root: any witness equals `sqrt_floor`.
pub proof fn lemma_sqrt_floor_unique(n: int, r: int)
    requires
        n >= 0,
        is_sqrt_floor(n, r),
    ensures
        r == sqrt_floor(n),
{
    lemma_sqrt_floor_correct(n);
    let s = sqrt_floor(n);
    if r < s {
        assert(s * s <= n);
        assert(n < (r + 1) * (r + 1));
        assert((r + 1) * (r + 1) <= s * s) by (nonlinear_arith)
            requires
                0 <= r,
                r + 1 <= s,
        ;
    }
    if s < r {
        assert(r * r <= n);
        assert(n < (s + 1) * (s + 1));
        assert((s + 1) * (s + 1) <= r * r) by (nonlinear_arith)
            requires
                0 <= s,
                s + 1 <= r,
        ;
    }
}

/// A square is never larger than the radicand's root allows: any `m` with
/// `m * m <= n` is at most the rounded-down square root.
pub proof fn lemma_sqrt_floor_at_least(n: int, m: int)
    requires
        n >= 0,
        0 <= m,
        m * m <= n,
    ensures
        m <= sqrt_floor(n),
{
    lemma_sqrt_floor_correct(n);
    let s = sqrt_floor(n);
    if s < m {
        assert((s + 1) * (s + 1) <= m * m) by (nonlinear_arith)
            requires
                0 <= s,
                s + 1 <= m,
        ;
    }
}

/// A product of bounded factors is bounded by the product of the bounds.
pub proof fn lemma_mul_abs_bound(a: int, b: int, bound_a: int, bound_b: int)
    by (nonlinear_arith)
    requires
        abs(a) <= bound_a,
        abs(b) <= bound_b,
    ensures
        -(bound_a * bound_b) <= a * b <= bound_a * bound_b,
        abs(a * b) <= bound_a * bound_b,
{
}

/// Shrinking a positive factor keeps a product bound: from `d * q <= m`
/// the same holds for any smaller positive factor in place of `d`.
pub proof fn lemma_div_bound_scale(q: int, d: int, dmin: int, m: int)
    by (nonlinear_arith)
    requires
        1 <= dmin <= d,
        0 <= q,
        d * q <= m,
    ensures
        dmin * q <= m,
{
}

/// A scaled ratio of `a` to `n` stays at or below the scale itself when
/// `a` is at most `n`.
pub proof fn lemma_unit_ratio_bound(u: int, a: int, n: int)
    by (nonlinear_arith)
    requires
        n >= 1,
        0 <= u,
        0 <= a <= n,
        n * u <= 1000 * a,
    ensures
        u <= 1000,
{
}

/// Truncating division leaves a remainder smaller than the divisor:
/// `a == d * tdiv(a, d) + r` with `|r| < d`.
pub proof fn lemma_tdiv_decomposition(a: int, d: int)
    requires
        d >= 1,
    ensures
        abs(a - d * tdiv(a, d)) < d,
{
    if a >= 0 {
        lemma_fundamental_div_mod(a, d);
    } else {
        lemma_fundamental_div_mod(-a, d);
        assert(d * tdiv(a, d) == -(d * ((-a) / d))) by (nonlinear_arith)
            requires
                tdiv(a, d) == -((-a) / d),
        ;
    }
}

/// Truncating division keeps the dividend's sign.
pub proof fn lemma_tdiv_sign(n: int, d: int)
    requires
        d >= 1,
    ensures
        n >= 0 ==> tdiv(n, d) >= 0,
        n <= 0 ==> tdiv(n, d) <= 0,
{
    if n >= 0 {
        lemma_div_pos_is_pos(n, d);
    } else {
        lemma_div_pos_is_pos(-n, d);
    }
}

/// The sign of a fixed-point product follows the signs of its factors.
pub proof fn lemma_fx_mul_sign(a: int, b: int)
    ensures
        a >= 0 && b >= 0 ==> fx_mul_spec(a, b) >= 0,
        a >= 0 && b <= 0 ==> fx_mul_spec(a, b) <= 0,
        a <= 0 && b >= 0 ==> fx_mul_spec(a, b) <= 0,
        a <= 0 && b <= 0 ==> fx_mul_spec(a, b) >= 0,
{
    assert(a >= 0 && b >= 0 ==> a * b >= 0) by (nonlinear_arith);
    assert(a >= 0 && b <= 0 ==> a * b <= 0) by (nonlinear_arith);
    assert(a <= 0 && b >= 0 ==> a * b <= 0) by (nonlinear_arith);
    assert(a <= 0 && b <= 0 ==> a * b >= 0) by (nonlinear_arith);
    lemma_tdiv_sign(a * b, 1000);
}

/// Truncating division by a positive divisor, exact per `tdiv`; the result
/// is also bounded: `d * |q| <= |n|`.
pub fn div_trunc(n: i64, d: i64) -> (q: i64)
    requires
        d > 0,
        n > i64::MIN,
    ensures
        q == tdiv(n as int, d as int),
        d * abs(q as int) <= abs(n as int),
{
    if n >= 0 {
        let un: u64 = n as u64;
        let ud: u64 = d as u64;
        let uq: u64 = un / ud;
        proof {
            lemma_fundamental_div_mod(un as int, ud as int);
            lemma_div_pos_is_pos(un as int, ud as int);
        }
        uq as i64
    } else {
        let un: u64 = (-n) as u64;
        let ud: u64 = d as u64;
        let uq: u64 = un / ud;
        proof {
            lemma_fundamental_div_mod(un as int, ud as int);
            lemma_div_pos_is_pos(un as int, ud as int);
        }
        -(uq as i64)
    }
}

/// Fixed-point multiplication: exact per `fx_mul_spec`, with the bound
/// `1000 * |r| <= |a * b|` for overflow reasoning in callers.
pub fn fx_mul(a: i64, b: i64) -> (r: i64)
    requires
        -(i64::MAX as int) <= (a as int) * (b as int) <= i64::MAX as int,
    ensures
        r == fx_mul_spec(a as int, b as int),
        1000 * abs(r as int) <= abs((a as int) * (b as int)),
{
    let p: i64 = a * b;
    div_trunc(p, 1000)
}

/// Fixed-point division by a positive divisor: exact per `fx_div_spec`,
/// with the bound `b * |r| <= 1000 * |a|` for overflow reasoning in callers.
pub fn fx_div(a: i64, b: i64) -> (r: i64)
    requires
        b > 0,
        -(i64::MAX as int) <= (a as int) * 1000 <= i64::MAX as int,
    ensures
        r == fx_div_spec(a as int, b as int),
        (b as int) * abs(r as int) <= 1000 * abs(a as int),
{
    let p: i64 = a * 1000;
    div_trunc(p, b)
}

/// Clamp a scalar into `[lo, hi]`.
pub fn clamp_i64(x: i64, lo: i64, hi: i64) -> (r: i64)
    requires
        lo <= hi,
    ensures
        r == clamp_spec(x as int, lo as int, hi as int),
{
    if x < lo {
        lo
    } else if x > hi {
        hi
    } else {
        x
    }
}

/// Integer square root, rounded down, by bisection.
pub fn isqrt_u64(n: u64) -> (r: u64)
    ensures
        r == sqrt_floor(n as int),
        is_sqrt_floor(n as int, r as int),
{
    if n == 0 {
        proof {
            lemma_sqrt_floor_unique(n as int, 0);
        }
        return 0;
    }
    let mut lo: u64 = 0;
    let mut hi: u64 = 4294967296;
    proof {
        assert((4294967296int) * (4294967296int) > u64::MAX as int) by (nonlinear_arith);
    }
    while hi - lo > 1
        invariant
            lo < hi,
            hi <= 4294967296,
            (lo as int) * (lo as int) <= n as int,
            (n as int) < (hi as int) * (hi as int),
        decreases hi - lo,
    {
        let mid: u64 = lo + (hi - lo) / 2;
        proof {
            assert((mid as int) * (mid as int) <= (4294967295int) * (4294967295int))
                by (nonlinear_arith)
                requires
                    0 <= mid as int <= 4294967295int,
            ;
            assert((4294967295int) * (4294967295int) <= u64::MAX as int) by (nonlinear_arith);
        }
        let sq: u64 = mid * mid;
        if sq <= n {
            lo = mid;
        } else {
            hi = mid;
        }
    }
    proof {
        assert(hi == lo + 1);
        lemma_sqrt_floor_unique(n as int, lo as int);
    }
    lo
}

} // verus!
