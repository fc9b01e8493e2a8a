//! Three-component fixed-point vectors.
//!
//! Used for angular rate (radians per second after unit conversion),
//! linear acceleration, and the filter's integral error accumulator.
//! No normalization invariant is attached to the type itself; the
//! filter normalizes where its algorithm calls for it.

use crate::fixed::FP_ONE;
use crate::fixed::fp_mul;
use crate::fixed::fp_mul_spec;
use crate::fixed::isqrt_u64;
use crate::fixed::lemma_sqrt_floor_at_least;
use crate::fixed::scaled_div;
use crate::fixed::sqrt_floor;
use crate::fixed::tdiv;
use vstd::prelude::*;

verus! {

/// Component magnitude accepted by the norm and normalization
/// routines: keeps sums of squares inside 64 bits.
pub const VEC_COMP_LIMIT: i64 = 0x400_0000;

/// A vector of three Q16.16 components.
#[derive(Clone, Copy, Debug, PartialEq, Eq, Structural)]
pub struct Vec3Fp {
    pub x: i64,
    pub y: i64,
    pub z: i64,
}

/// All three components within `[-m, m]`.
pub open spec fn v3_in_bounds(v: Vec3Fp, m: int) -> bool {
    &&& -m <= v.x <= m
    &&& -m <= v.y <= m
    &&& -m <= v.z <= m
}

/// Squared Euclidean norm, over the raw scaled integers.
pub open spec fn v3_norm_sq(v: Vec3Fp) -> int {
    v.x * v.x + v.y * v.y + v.z * v.z
}

/// The normalized direction of `v`: each component is scaled by 2^16
/// and divided by the floored norm, rounding toward zero.
pub open spec fn v3_unit_spec(v: Vec3Fp) -> (int, int, int) {
    let n = sqrt_floor(v3_norm_sq(v) as nat) as int;
    (tdiv(v.x * FP_ONE, n), tdiv(v.y * FP_ONE, n), tdiv(v.z * FP_ONE, n))
}

/// Each component scaled by the fixed-point factor `k`.
pub open spec fn v3_scale_spec(v: Vec3Fp, k: int) -> (int, int, int) {
    (fp_mul_spec(v.x as int, k), fp_mul_spec(v.y as int, k), fp_mul_spec(v.z as int, k))
}

/// The fixed-point cross product `a x b`, component by component.
pub open spec fn v3_cross_spec(a: Vec3Fp, b: Vec3Fp) -> (int, int, int) {
    (
        fp_mul_spec(a.y as int, b.z as int) - fp_mul_spec(a.z as int, b.y as int),
        fp_mul_spec(a.z as int, b.x as int) - fp_mul_spec(a.x as int, b.z as int),
        fp_mul_spec(a.x as int, b.y as int) - fp_mul_spec(a.y as int, b.x as int),
    )
}

/// Squared norm of a bounded vector.
pub fn v3_norm_sq_exec(v: &Vec3Fp) -> (r: u64)
    requires
        v3_in_bounds(*v, VEC_COMP_LIMIT as int),
    ensures
        r == v3_norm_sq(*v),
{
    proof {
        assert(0 <= v.x * v.x <= 0x400_0000 * 0x400_0000) by (nonlinear_arith)
            requires
                -0x400_0000 <= v.x <= 0x400_0000,
        ;
        assert(0 <= v.y * v.y <= 0x400_0000 * 0x400_0000) by (nonlinear_arith)
            requires
                -0x400_0000 <= v.y <= 0x400_0000,
        ;
        assert(0 <= v.z * v.z <= 0x400_0000 * 0x400_0000) by (nonlinear_arith)
            requires
                -0x400_0000 <= v.z <= 0x400_0000,
        ;
    }
    let xx: u64 = (v.x * v.x) as u64;
    let yy: u64 = (v.y * v.y) as u64;
    let zz: u64 = (v.z * v.z) as u64;
    xx + yy + zz
}

/// Normalize a non-degenerate vector to (fixed-point) unit length.
/// Matches `v3_unit_spec`; every component of the result lies within
/// one fixed-point unit.
pub fn v3_normalize(v: &Vec3Fp) -> (r: Vec3Fp)
    requires
        v3_in_bounds(*v, VEC_COMP_LIMIT as int),
        v3_norm_sq(*v) >= 1,
    ensures
        (r.x as int, r.y as int, r.z as int) == v3_unit_spec(*v),
        v3_in_bounds(r, FP_ONE as int),
{
    let n2: u64 = v3_norm_sq_exec(v);
    let n: u64 = isqrt_u64(n2);
    proof {
        lemma_sqrt_floor_at_least(n2 as nat, 1);
        lemma_comp_le_norm(*v);
        lemma_sqrt_floor_at_least(n2 as nat, vstd::math::abs(v.x as int));
        lemma_sqrt_floor_at_least(n2 as nat, vstd::math::abs(v.y as int));
        lemma_sqrt_floor_at_least(n2 as nat, vstd::math::abs(v.z as int));
    }
    Vec3Fp { x: scaled_div(v.x, n), y: scaled_div(v.y, n), z: scaled_div(v.z, n) }
}

/// Each squared component is at most the squared norm.
proof fn lemma_comp_le_norm(v: Vec3Fp)
    ensures
        vstd::math::abs(v.x as int) * vstd::math::abs(v.x as int) <= v3_norm_sq(v),
        vstd::math::abs(v.y as int) * vstd::math::abs(v.y as int) <= v3_norm_sq(v),
        vstd::math::abs(v.z as int) * vstd::math::abs(v.z as int) <= v3_norm_sq(v),
{
    assert(vstd::math::abs(v.x as int) * vstd::math::abs(v.x as int) == v.x * v.x
        && vstd::math::abs(v.y as int) * vstd::math::abs(v.y as int) == v.y * v.y
        && vstd::math::abs(v.z as int) * vstd::math::abs(v.z as int) == v.z * v.z
        && v.x * v.x >= 0 && v.y * v.y >= 0 && v.z * v.z >= 0) by (nonlinear_arith);
}

/// Scale each component by the fixed-point factor `k`.
pub fn v3_scale(v: &Vec3Fp, k: i64) -> (r: Vec3Fp)
    requires
        v3_in_bounds(*v, 0x8000_0000),
        -0x8000_0000 <= k <= 0x8000_0000,
    ensures
        (r.x as int, r.y as int, r.z as int) == v3_scale_spec(*v, k as int),
{
    Vec3Fp { x: fp_mul(v.x, k), y: fp_mul(v.y, k), z: fp_mul(v.z, k) }
}

/// Fixed-point cross product of two bounded vectors.
pub fn v3_cross(a: &Vec3Fp, b: &Vec3Fp) -> (r: Vec3Fp)
    requires
        v3_in_bounds(*a, 0x8000_0000),
        v3_in_bounds(*b, 0x8000_0000),
    ensures
        (r.x as int, r.y as int, r.z as int) == v3_cross_spec(*a, *b),
{
    proof {
        crate::fixed::lemma_fp_mul_mag(a.y as int, b.z as int, 0x8000_0000, 0x8000_0000);
        crate::fixed::lemma_fp_mul_mag(a.z as int, b.y as int, 0x8000_0000, 0x8000_0000);
        crate::fixed::lemma_fp_mul_mag(a.z as int, b.x as int, 0x8000_0000, 0x8000_0000);
        crate::fixed::lemma_fp_mul_mag(a.x as int, b.z as int, 0x8000_0000, 0x8000_0000);
        crate::fixed::lemma_fp_mul_mag(a.x as int, b.y as int, 0x8000_0000, 0x8000_0000);
        crate::fixed::lemma_fp_mul_mag(a.y as int, b.x as int, 0x8000_0000, 0x8000_0000);
    }
    Vec3Fp {
        x: fp_mul(a.y, b.z) - fp_mul(a.z, b.y),
        y: fp_mul(a.z, b.x) - fp_mul(a.x, b.z),
        z: fp_mul(a.x, b.y) - fp_mul(a.y, b.x),
    }
}

} // verus!
