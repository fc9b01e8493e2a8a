//! The posture classifier: from an orientation estimate to a bend
//! angle, and from the angle to a bent/straight decision.
//!
//! The bend angle is the angle between the body-frame image of the
//! world vertical axis and that axis itself: the arc cosine of their
//! dot product, clamped into the arc cosine's domain first. With the
//! sensor mounted so that an upright wearer holds the axis
//! perpendicular to vertical, "bent" means the angle deviates from a
//! right angle by more than the tolerance band, in either direction.

use crate::fixed::FP_ONE;
use crate::fixed::clamp_i64;
use crate::fixed::clamp_spec;
use crate::fixed::fp_mul;
use crate::fixed::fp_mul_spec;
use crate::fixed::isqrt_u64;
use crate::fixed::lemma_fp_mul_mag;
use crate::fixed::sqrt_floor;
use crate::quat::QuatFp;
use crate::quat::q_in_bounds;
use vstd::prelude::*;

verus! {

/// A half turn (pi radians) in Q16.16.
pub const PI_FP: i64 = 205887;

/// A quarter turn (pi/2 radians) in Q16.16: the upright bend angle.
pub const HALF_PI_FP: i64 = 102944;

/// The tolerance band around upright (pi/8 radians) beyond which the
/// posture counts as bent.
pub const BEND_THRESHOLD_FP: i64 = 25736;

/// Arc-cosine polynomial coefficients (Q16.16): the classic
/// `sqrt(1 - d) * (a0 + a1 d + a2 d^2 + a3 d^3)` approximation on
/// `[0, 1]`, accurate to about `7e-5` radians.
pub const ACOS_A0: i64 = 102940;

/// Degree-one arc-cosine coefficient.
pub const ACOS_A1: i64 = -13902;

/// Degree-two arc-cosine coefficient.
pub const ACOS_A2: i64 = 4867;

/// Degree-three arc-cosine coefficient.
pub const ACOS_A3: i64 = -1228;

/// The arc-cosine polynomial factor, by Horner's rule.
pub open spec fn acos_poly_spec(d: int) -> int {
    ACOS_A0 + fp_mul_spec(d, ACOS_A1 + fp_mul_spec(d, ACOS_A2 + fp_mul_spec(d, ACOS_A3 as int)))
}

/// Arc cosine on `[0, 1]`: `sqrt(1 - d)` times the polynomial.
pub open spec fn acos_core_spec(d: int) -> int {
    fp_mul_spec(sqrt_floor((((FP_ONE - d) as int) * (FP_ONE as int)) as nat) as int,
        acos_poly_spec(d))
}

/// Fixed-point arc cosine on `[-1, 1]`, in radians `[0, pi]`; the
/// negative half comes from `acos(-d) == pi - acos(d)`.
pub open spec fn acos_fp_spec(d: int) -> int {
    if d >= 0 {
        clamp_spec(acos_core_spec(d), 0, PI_FP as int)
    } else {
        clamp_spec(PI_FP - acos_core_spec(-d), 0, PI_FP as int)
    }
}

/// Arc cosine of a non-negative fixed-point value.
fn acos_core(d: i64) -> (r: i64)
    requires
        0 <= d <= FP_ONE,
    ensures
        r == acos_core_spec(d as int),
        0 <= r,
{
    let t: u64 = ((FP_ONE - d) as u64) * 65536;
    let rt: u64 = isqrt_u64(t);
    proof {
        assert(rt <= 65536) by (nonlinear_arith)
            requires
                rt * rt <= t,
                t <= 4294967296,
        ;
        lemma_fp_mul_mag(d as int, ACOS_A3 as int, 65536, 1228);
        lemma_fp_mul_mag(d as int, (ACOS_A2 + fp_mul_spec(d as int, ACOS_A3 as int)) as int,
            65536, 6095);
        lemma_fp_mul_mag(d as int,
            (ACOS_A1 + fp_mul_spec(d as int,
                ACOS_A2 + fp_mul_spec(d as int, ACOS_A3 as int))) as int, 65536, 20000);
    }
    let p: i64 = ACOS_A0 + fp_mul(d, ACOS_A1 + fp_mul(d, ACOS_A2 + fp_mul(d, ACOS_A3)));
    proof {
        lemma_fp_mul_mag(rt as int, p as int, 65536, 122940);
        assert(rt * p >= 0) by (nonlinear_arith)
            requires
                rt >= 0,
                p >= 0,
        ;
    }
    fp_mul(rt as i64, p)
}

/// Fixed-point arc cosine: exactly `acos_fp_spec`, always within
/// `[0, pi]`.
pub fn acos_fp(d: i64) -> (r: i64)
    requires
        -FP_ONE <= d <= FP_ONE,
    ensures
        r == acos_fp_spec(d as int),
        0 <= r <= PI_FP,
{
    if d >= 0 {
        clamp_i64(acos_core(d), 0, PI_FP)
    } else {
        clamp_i64(PI_FP - acos_core(-d), 0, PI_FP)
    }
}

/// The dot product of the rotated world vertical axis with itself
/// unrotated, implied by the estimate `q`: `w^2 + z^2 - x^2 - y^2` in
/// fixed point. For a unit estimate this is the cosine of the bend
/// angle.
pub open spec fn z_dot_spec(q: QuatFp) -> int {
    fp_mul_spec(q.w as int, q.w as int) + fp_mul_spec(q.z as int, q.z as int) - fp_mul_spec(
        q.x as int,
        q.x as int,
    ) - fp_mul_spec(q.y as int, q.y as int)
}

/// The bend angle implied by the estimate `q`: the arc cosine of the
/// clamped dot product.
pub open spec fn angle_spec(q: QuatFp) -> int {
    acos_fp_spec(clamp_spec(z_dot_spec(q), -FP_ONE as int, FP_ONE as int))
}

/// The angle between the rotated reference axis and the world
/// vertical, in Q16.16 radians. For every estimate with components
/// within one unit the result lies in `[0, pi]`.
pub fn angle_from_reference(q: &QuatFp) -> (r: i64)
    requires
        q_in_bounds(*q, FP_ONE as int),
    ensures
        r == angle_spec(*q),
        0 <= r <= PI_FP,
{
    proof {
        lemma_fp_mul_mag(q.w as int, q.w as int, 65536, 65536);
        lemma_fp_mul_mag(q.z as int, q.z as int, 65536, 65536);
        lemma_fp_mul_mag(q.x as int, q.x as int, 65536, 65536);
        lemma_fp_mul_mag(q.y as int, q.y as int, 65536, 65536);
    }
    let dot: i64 = fp_mul(q.w, q.w) + fp_mul(q.z, q.z) - fp_mul(q.x, q.x) - fp_mul(q.y, q.y);
    acos_fp(clamp_i64(dot, -FP_ONE, FP_ONE))
}

/// Whether an angle deviates from upright by more than `threshold`.
pub open spec fn bent_with_spec(angle: int, threshold: int) -> bool {
    vstd::math::abs(HALF_PI_FP - angle) > threshold
}

/// Whether an angle counts as bent for the default tolerance band.
pub open spec fn is_bent_spec(angle: int) -> bool {
    bent_with_spec(angle, BEND_THRESHOLD_FP as int)
}

/// Classify an angle against a configurable tolerance band around
/// upright. Both over-bending and over-straightening trip it.
pub fn bent_with(angle: i64, threshold: i64) -> (r: bool)
    requires
        -0x4000_0000_0000_0000 <= angle <= 0x4000_0000_0000_0000,
        0 <= threshold,
    ensures
        r == bent_with_spec(angle as int, threshold as int),
{
    let d: i64 = HALF_PI_FP - angle;
    if d < 0 {
        -d > threshold
    } else {
        d > threshold
    }
}

/// Classify an angle against the default tolerance band.
pub fn is_bent(angle: i64) -> (r: bool)
    requires
        -0x4000_0000_0000_0000 <= angle <= 0x4000_0000_0000_0000,
    ensures
        r == is_bent_spec(angle as int),
{
    bent_with(angle, BEND_THRESHOLD_FP)
}

/// The classification is symmetric about the upright angle: a
/// deviation of `x` above upright is classified exactly like a
/// deviation of `x` below it.
pub proof fn lemma_is_bent_symmetric(x: int)
    ensures
        is_bent_spec(HALF_PI_FP + x) == is_bent_spec(HALF_PI_FP - x),
{
}

} // verus!
