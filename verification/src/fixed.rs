//! Q16.16 fixed-point scalar arithmetic.
//!
//! A value models the real number `v / 65536`. Multiplication rounds
//! toward zero; the integer square root rounds down. Every operation
//! states its result exactly over the mathematical integers.

use vstd::arithmetic::div_mod::lemma_div_is_ordered;
use vstd::arithmetic::div_mod::lemma_div_multiples_vanish;
use vstd::arithmetic::div_mod::lemma_div_pos_is_pos;
use vstd::arithmetic::div_mod::lemma_fundamental_div_mod;
use vstd::arithmetic::mul::lemma_mul_inequality;
use vstd::prelude::*;

verus! {

/// The representation of 1.0: values are scaled by 2^16.
pub const FP_ONE: i64 = 65536;

/// Operand magnitude limit (2^31) under which a fixed-point product
/// cannot overflow its 64-bit unsigned intermediate.
pub const FP_OPERAND_LIMIT: i64 = 0x8000_0000;

/// Division rounding toward zero, the rounding a magnitude-and-sign
/// implementation produces. Coincides with Euclidean division on
/// non-negative dividends.
pub open spec fn tdiv(a: int, b: int) -> int {
    if a >= 0 {
        a / b
    } else {
        -((-a) / b)
    }
}

/// The fixed-point product of two Q16.16 values: `a * b / 2^16`,
/// rounded toward zero.
pub open spec fn fp_mul_spec(a: int, b: int) -> int {
    tdiv(a * b, FP_ONE as int)
}

/// Floor of the square root of a natural number.
pub open spec fn sqrt_floor(x: nat) -> nat
    decreases x,
{
    if x == 0 {
        0
    } else {
        let r: nat = sqrt_floor((x - 1) as nat);
        if (r + 1) * (r + 1) <= x {
            r + 1
        } else {
            r
        }
    }
}

/// `sqrt_floor(x)` is the unique `r` with `r^2 <= x < (r+1)^2`.
pub proof fn lemma_sqrt_floor_bounds(x: nat)
    ensures
        sqrt_floor(x) * sqrt_floor(x) <= x,
        x < (sqrt_floor(x) + 1) * (sqrt_floor(x) + 1),
    decreases x,
{
    if x > 0 {
        lemma_sqrt_floor_bounds((x - 1) as nat);
        let r: nat = sqrt_floor((x - 1) as nat);
        if (r + 1) * (r + 1) <= x {
            assert((r + 1) * (r + 1) < (r + 1 + 1) * (r + 1 + 1)) by (nonlinear_arith);
        }
    } else {
        assert(x < (sqrt_floor(x) + 1) * (sqrt_floor(x) + 1)) by (nonlinear_arith)
            requires
                x == 0,
                sqrt_floor(x) == 0,
        ;
    }
}

/// Any `r` with `r^2 <= x < (r+1)^2` is `sqrt_floor(x)`.
pub proof fn lemma_sqrt_floor_unique(x: nat, r: nat)
    requires
        r * r <= x,
        x < (r + 1) * (r + 1),
    ensures
        sqrt_floor(x) == r,
{
    lemma_sqrt_floor_bounds(x);
    let s: nat = sqrt_floor(x);
    if s < r {
        assert((s + 1) * (s + 1) <= r * r) by (nonlinear_arith)
            requires
                s + 1 <= r,
        ;
        assert(false);
    }
    if r < s {
        assert((r + 1) * (r + 1) <= s * s) by (nonlinear_arith)
            requires
                r + 1 <= s,
        ;
        assert(false);
    }
}

/// The square root is monotone: a bound on the square bounds the root.
pub proof fn lemma_sqrt_floor_at_least(x: nat, b: nat)
    requires
        b * b <= x,
    ensures
        sqrt_floor(x) >= b,
{
    lemma_sqrt_floor_bounds(x);
    let s: nat = sqrt_floor(x);
    if s < b {
        assert((s + 1) * (s + 1) <= b * b) by (nonlinear_arith)
            requires
                s + 1 <= b,
        ;
        assert(false);
    }
}

/// Integer square root by bisection.
pub fn isqrt_u64(x: u64) -> (r: u64)
    ensures
        r == sqrt_floor(x as nat),
        r * r <= x,
        (x as int) < (r + 1) * (r + 1),
{
    let mut lo: u64 = 0;
    let mut hi: u64 = 4294967296;
    while lo + 1 < hi
        invariant
            lo < hi <= 4294967296,
            lo * lo <= x,
            (x as int) < hi * hi,
        decreases hi - lo,
    {
        let mid: u64 = lo + (hi - lo) / 2;
        proof {
            assert(mid * mid <= 4294967295 * 4294967295) by (nonlinear_arith)
                requires
                    mid <= 4294967295,
            ;
        }
        if mid * mid <= x {
            lo = mid;
        } else {
            hi = mid;
        }
    }
    proof {
        lemma_sqrt_floor_unique(x as nat, lo as nat);
    }
    lo
}

/// Fixed-point multiply: exact scaled product, rounded toward zero.
pub fn fp_mul(a: i64, b: i64) -> (r: i64)
    requires
        -FP_OPERAND_LIMIT <= a <= FP_OPERAND_LIMIT,
        -FP_OPERAND_LIMIT <= b <= FP_OPERAND_LIMIT,
    ensures
        r == fp_mul_spec(a as int, b as int),
{
    let neg: bool = (a < 0) != (b < 0);
    let ua: u64 = if a < 0 {
        (-a) as u64
    } else {
        a as u64
    };
    let ub: u64 = if b < 0 {
        (-b) as u64
    } else {
        b as u64
    };
    proof {
        assert(ua * ub <= 0x8000_0000 * 0x8000_0000) by (nonlinear_arith)
            requires
                ua <= 0x8000_0000,
                ub <= 0x8000_0000,
        ;
    }
    let p: u64 = ua * ub;
    let q: u64 = p / 65536;
    proof {
        lemma_fundamental_div_mod(p as int, 65536);
        if a >= 0 && b >= 0 {
            assert(a * b >= 0) by (nonlinear_arith)
                requires
                    a >= 0,
                    b >= 0,
            ;
        } else if a < 0 && b < 0 {
            assert(ua * ub == a * b) by (nonlinear_arith)
                requires
                    ua == -a,
                    ub == -b,
            ;
            assert(a * b >= 0) by (nonlinear_arith)
                requires
                    a < 0,
                    b < 0,
            ;
        } else if a < 0 {
            assert(ua * ub == -(a * b)) by (nonlinear_arith)
                requires
                    ua == -a,
                    ub == b,
            ;
            assert(a * b <= 0) by (nonlinear_arith)
                requires
                    a < 0,
                    b >= 0,
            ;
        } else {
            assert(ua * ub == -(a * b)) by (nonlinear_arith)
                requires
                    ua == a,
                    ub == -b,
            ;
            assert(a * b <= 0) by (nonlinear_arith)
                requires
                    a >= 0,
                    b < 0,
            ;
        }
    }
    if neg {
        -(q as i64)
    } else {
        q as i64
    }
}

/// The scaled product stays within the scaled product of the operand
/// magnitudes.
pub proof fn lemma_fp_mul_mag(a: int, b: int, ma: int, mb: int)
    requires
        -ma <= a <= ma,
        -mb <= b <= mb,
        0 <= ma,
        0 <= mb,
    ensures
        -((ma * mb) / (FP_ONE as int)) <= fp_mul_spec(a, b) <= (ma * mb) / (FP_ONE as int),
{
    let p = a * b;
    let m = ma * mb;
    assert(-m <= p <= m) by (nonlinear_arith)
        requires
            -ma <= a <= ma,
            -mb <= b <= mb,
            0 <= ma,
            0 <= mb,
            p == a * b,
            m == ma * mb,
    ;
    if p >= 0 {
        lemma_div_is_ordered(p, m, FP_ONE as int);
        lemma_div_pos_is_pos(p, FP_ONE as int);
    } else {
        lemma_div_is_ordered(-p, m, FP_ONE as int);
        lemma_div_pos_is_pos(-p, FP_ONE as int);
    }
}

/// A product of bounded factors is bounded by the product of the
/// bounds.
pub proof fn lemma_mul_mag(a: int, b: int, ma: int, mb: int)
    by (nonlinear_arith)
    requires
        -ma <= a <= ma,
        -mb <= b <= mb,
        0 <= ma,
        0 <= mb,
    ensures
        -(ma * mb) <= a * b <= ma * mb,
{
}

/// Bounds on the square of a floored quotient: with `u = t / n`,
/// `u^2 n^2` sits within `2nt + n^2` below `t^2`.
pub proof fn lemma_div_square_bounds(t: int, n: int)
    requires
        0 <= t,
        1 <= n,
    ensures
        (t / n) * (t / n) * (n * n) <= t * t,
        t * t <= (t / n) * (t / n) * (n * n) + 2 * n * t + n * n,
{
    lemma_fundamental_div_mod(t, n);
    lemma_div_pos_is_pos(t, n);
    let u = t / n;
    assert((u * u * (n * n) <= t * t) && (t * t <= u * u * (n * n) + 2 * n * t + n * n))
        by (nonlinear_arith)
        requires
            n * u <= t,
            t <= n * u + n - 1,
            0 <= u,
            1 <= n,
    ;
}

/// Divide a scaled component by a norm: `v * 2^16 / n`, rounded toward
/// zero. When `n` dominates the component the result stays within one
/// fixed-point unit.
pub fn scaled_div(v: i64, n: u64) -> (c: i64)
    requires
        1 <= n,
        -0x400_0000 <= v <= 0x400_0000,
        -(n as int) <= v <= n as int,
    ensures
        c == tdiv(v * FP_ONE, n as int),
        -FP_ONE <= c <= FP_ONE,
{
    let uv: u64 = if v < 0 {
        (-v) as u64
    } else {
        v as u64
    };
    let t: u64 = uv * 65536;
    let q: u64 = t / n;
    proof {
        lemma_mul_inequality(uv as int, n as int, 65536);
        assert(uv * 65536 <= n * 65536);
        lemma_div_is_ordered(t as int, (n as int) * 65536, n as int);
        lemma_div_multiples_vanish(65536, n as int);
        assert(((n as int) * 65536) / (n as int) == 65536);
        assert(q <= 65536);
    }
    if v < 0 {
        -(q as i64)
    } else {
        q as i64
    }
}

/// Clamp `x` into `[lo, hi]`.
pub open spec fn clamp_spec(x: int, lo: int, hi: int) -> int {
    if x < lo {
        lo
    } else if x > hi {
        hi
    } else {
        x
    }
}

/// Clamp a value into a closed interval.
pub fn clamp_i64(x: i64, lo: i64, hi: i64) -> (r: i64)
    requires
        lo <= hi,
    ensures
        r == clamp_spec(x as int, lo as int, hi as int),
{
    if x < lo {
        lo
    } else if x > hi {
        hi
    } else {
        x
    }
}

} // verus!
