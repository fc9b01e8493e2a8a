//! Fixed-point unit quaternions.
//!
//! The orientation estimate is a quaternion whose squared norm must
//! stay within a small slack of exactly one after every filter update;
//! `q_normalize` restores that invariant and its contract bounds the
//! drift the integer rounding can leave behind.

use crate::fixed::FP_ONE;
use crate::fixed::isqrt_u64;
use crate::fixed::lemma_div_square_bounds;
use crate::fixed::lemma_sqrt_floor_at_least;
use crate::fixed::lemma_sqrt_floor_bounds;
use crate::fixed::scaled_div;
use crate::fixed::sqrt_floor;
use crate::fixed::tdiv;
use vstd::prelude::*;

verus! {

/// Component magnitude accepted by normalization.
pub const QUAT_COMP_LIMIT: i64 = 0x400_0000;

/// Squared norm below which an estimate counts as degenerate (the
/// square of half the unit length). Renormalizing from further down
/// would amplify rounding noise instead of an orientation.
pub const MIN_NORM_SQ: i64 = 1073741824;

/// The squared norm of an exactly unit quaternion, `(2^16)^2`.
pub const UNIT_NORM_SQ: i64 = 4294967296;

/// Slack that one renormalization may leave around the unit square:
/// about `6e-5` of it.
pub const UNIT_NORM_SLACK: i64 = 262156;

/// An orientation estimate: four Q16.16 components `(w, x, y, z)`.
#[derive(Clone, Copy, Debug, PartialEq, Eq, Structural)]
pub struct QuatFp {
    pub w: i64,
    pub x: i64,
    pub y: i64,
    pub z: i64,
}

/// All four components within `[-m, m]`.
pub open spec fn q_in_bounds(q: QuatFp, m: int) -> bool {
    &&& -m <= q.w <= m
    &&& -m <= q.x <= m
    &&& -m <= q.y <= m
    &&& -m <= q.z <= m
}

/// Squared norm over the raw scaled integers.
pub open spec fn q_norm_sq(q: QuatFp) -> int {
    q.w * q.w + q.x * q.x + q.y * q.y + q.z * q.z
}

/// A well-formed estimate: components within one fixed-point unit and
/// squared norm within the renormalization slack of exactly one.
pub open spec fn q_unit_band(q: QuatFp) -> bool {
    &&& q_in_bounds(q, FP_ONE as int)
    &&& UNIT_NORM_SQ - UNIT_NORM_SLACK <= q_norm_sq(q) <= UNIT_NORM_SQ + UNIT_NORM_SLACK
}

/// Squared norm of four components given as plain integers.
pub open spec fn norm_sq4(w: int, x: int, y: int, z: int) -> int {
    w * w + x * x + y * y + z * z
}

/// The renormalized value of four components: each scaled by 2^16 and
/// divided by the floored norm, rounding toward zero.
pub open spec fn unit4_spec(w: int, x: int, y: int, z: int) -> (int, int, int, int) {
    let n = sqrt_floor(norm_sq4(w, x, y, z) as nat) as int;
    (
        tdiv(w * (FP_ONE as int), n),
        tdiv(x * (FP_ONE as int), n),
        tdiv(y * (FP_ONE as int), n),
        tdiv(z * (FP_ONE as int), n),
    )
}

/// The renormalized value of `q`.
pub open spec fn q_unit_spec(q: QuatFp) -> (int, int, int, int) {
    unit4_spec(q.w as int, q.x as int, q.y as int, q.z as int)
}

impl QuatFp {
    /// The identity rotation, the startup orientation estimate.
    pub fn identity() -> (r: QuatFp)
        ensures
            r == (QuatFp { w: FP_ONE, x: 0, y: 0, z: 0 }),
            q_unit_band(r),
    {
        QuatFp { w: FP_ONE, x: 0, y: 0, z: 0 }
    }
}

/// Squared norm of a bounded quaternion.
pub fn q_norm_sq_exec(q: &QuatFp) -> (r: u64)
    requires
        q_in_bounds(*q, QUAT_COMP_LIMIT as int),
    ensures
        r == q_norm_sq(*q),
{
    proof {
        assert(0 <= q.w * q.w <= 0x400_0000 * 0x400_0000) by (nonlinear_arith)
            requires
                -0x400_0000 <= q.w <= 0x400_0000,
        ;
        assert(0 <= q.x * q.x <= 0x400_0000 * 0x400_0000) by (nonlinear_arith)
            requires
                -0x400_0000 <= q.x <= 0x400_0000,
        ;
        assert(0 <= q.y * q.y <= 0x400_0000 * 0x400_0000) by (nonlinear_arith)
            requires
                -0x400_0000 <= q.y <= 0x400_0000,
        ;
        assert(0 <= q.z * q.z <= 0x400_0000 * 0x400_0000) by (nonlinear_arith)
            requires
                -0x400_0000 <= q.z <= 0x400_0000,
        ;
    }
    let ww: u64 = (q.w * q.w) as u64;
    let xx: u64 = (q.x * q.x) as u64;
    let yy: u64 = (q.y * q.y) as u64;
    let zz: u64 = (q.z * q.z) as u64;
    ww + xx + yy + zz
}

/// Each squared component is at most the squared norm.
proof fn lemma_q_comp_le_norm(q: QuatFp)
    ensures
        vstd::math::abs(q.w as int) * vstd::math::abs(q.w as int) <= q_norm_sq(q),
        vstd::math::abs(q.x as int) * vstd::math::abs(q.x as int) <= q_norm_sq(q),
        vstd::math::abs(q.y as int) * vstd::math::abs(q.y as int) <= q_norm_sq(q),
        vstd::math::abs(q.z as int) * vstd::math::abs(q.z as int) <= q_norm_sq(q),
{
    assert(vstd::math::abs(q.w as int) * vstd::math::abs(q.w as int) == q.w * q.w
        && vstd::math::abs(q.x as int) * vstd::math::abs(q.x as int) == q.x * q.x
        && vstd::math::abs(q.y as int) * vstd::math::abs(q.y as int) == q.y * q.y
        && vstd::math::abs(q.z as int) * vstd::math::abs(q.z as int) == q.z * q.z
        && q.w * q.w >= 0 && q.x * q.x >= 0 && q.y * q.y >= 0 && q.z * q.z >= 0)
        by (nonlinear_arith);
}

/// Renormalize a non-degenerate estimate to (fixed-point) unit length.
/// The result is exactly `q_unit_spec` and lands in the unit band:
/// integer rounding cannot push the squared norm further than
/// `UNIT_NORM_SLACK` from one.
pub fn q_normalize(q: &QuatFp) -> (r: QuatFp)
    requires
        q_in_bounds(*q, QUAT_COMP_LIMIT as int),
        q_norm_sq(*q) >= MIN_NORM_SQ as int,
    ensures
        (r.w as int, r.x as int, r.y as int, r.z as int) == q_unit_spec(*q),
        q_unit_band(r),
{
    let n2: u64 = q_norm_sq_exec(q);
    let n: u64 = isqrt_u64(n2);
    proof {
        lemma_sqrt_floor_at_least(n2 as nat, 32768);
        lemma_q_comp_le_norm(*q);
        lemma_sqrt_floor_at_least(n2 as nat, vstd::math::abs(q.w as int));
        lemma_sqrt_floor_at_least(n2 as nat, vstd::math::abs(q.x as int));
        lemma_sqrt_floor_at_least(n2 as nat, vstd::math::abs(q.y as int));
        lemma_sqrt_floor_at_least(n2 as nat, vstd::math::abs(q.z as int));
    }
    let r = QuatFp {
        w: scaled_div(q.w, n),
        x: scaled_div(q.x, n),
        y: scaled_div(q.y, n),
        z: scaled_div(q.z, n),
    };
    proof {
        lemma_unit_band(*q, r);
    }
    r
}

/// Renormalization lands in the unit band: with `n` the floored norm
/// of `q` and each result component `q_i * 2^16 / n` rounded toward
/// zero, the squared norm of the result stays within `UNIT_NORM_SLACK`
/// of the unit square.
proof fn lemma_unit_band(q: QuatFp, r: QuatFp)
    requires
        q_norm_sq(q) >= MIN_NORM_SQ as int,
        (r.w as int, r.x as int, r.y as int, r.z as int) == q_unit_spec(q),
        q_in_bounds(r, FP_ONE as int),
    ensures
        q_unit_band(r),
{
    let n2 = q_norm_sq(q);
    let n = sqrt_floor(n2 as nat) as int;
    lemma_sqrt_floor_bounds(n2 as nat);
    lemma_sqrt_floor_at_least(n2 as nat, 32768);
    assert(n * n <= n2 < (n + 1) * (n + 1));
    assert(n2 <= n * n + 2 * n) by (nonlinear_arith)
        requires
            n2 < (n + 1) * (n + 1),
    ;

    let mw = vstd::math::abs(q.w as int) as int;
    let mx = vstd::math::abs(q.x as int) as int;
    let my = vstd::math::abs(q.y as int) as int;
    let mz = vstd::math::abs(q.z as int) as int;
    let tw = mw * 65536;
    let tx = mx * 65536;
    let ty = my * 65536;
    let tz = mz * 65536;
    lemma_div_square_bounds(tw, n);
    lemma_div_square_bounds(tx, n);
    lemma_div_square_bounds(ty, n);
    lemma_div_square_bounds(tz, n);
    let uw = tw / n;
    let ux = tx / n;
    let uy = ty / n;
    let uz = tz / n;

    // The result components carry the magnitudes of the quotients.
    assert(r.w == if q.w >= 0 { uw } else { -uw });
    assert(r.x == if q.x >= 0 { ux } else { -ux });
    assert(r.y == if q.y >= 0 { uy } else { -uy });
    assert(r.z == if q.z >= 0 { uz } else { -uz });
    assert(r.w * r.w == uw * uw && r.x * r.x == ux * ux && r.y * r.y == uy * uy
        && r.z * r.z == uz * uz) by (nonlinear_arith)
        requires
            r.w == uw || r.w == -uw,
            r.x == ux || r.x == -ux,
            r.y == uy || r.y == -uy,
            r.z == uz || r.z == -uz,
    ;

    // The scaled squares reproduce the squared components.
    assert(tw * tw == q.w * q.w * 4294967296 && tx * tx == q.x * q.x * 4294967296
        && ty * ty == q.y * q.y * 4294967296 && tz * tz == q.z * q.z * 4294967296)
        by (nonlinear_arith)
        requires
            tw == vstd::math::abs(q.w as int) * 65536,
            tx == vstd::math::abs(q.x as int) * 65536,
            ty == vstd::math::abs(q.y as int) * 65536,
            tz == vstd::math::abs(q.z as int) * 65536,
    ;

    let sum = q_norm_sq(r);

    // Distribute the common factor n^2 over the sum of squares.
    assert(sum * (n * n) == uw * uw * (n * n) + ux * ux * (n * n) + uy * uy * (n * n)
        + uz * uz * (n * n)) by (nonlinear_arith)
        requires
            sum == uw * uw + ux * ux + uy * uy + uz * uz,
    ;

    // Upper side: each u_i^2 n^2 <= t_i^2, and the t_i^2 sum to n2 * 2^32.
    assert(sum * (n * n) <= n2 * 4294967296);
    assert(sum * (n * n) <= (n * n) * 4294967296 + 2 * n * 4294967296) by (nonlinear_arith)
        requires
            sum * (n * n) <= n2 * 4294967296,
            n2 <= n * n + 2 * n,
    ;
    assert(sum <= 4295229440) by (nonlinear_arith)
        requires
            sum * (n * n) <= (n * n) * 4294967296 + 2 * n * 4294967296,
            n >= 32768,
    ;

    // Lower side: the t_i^2 are within 2 n t_i + n^2 of u_i^2 n^2, and
    // the sum of the t_i is below (2n + 2) * 2^16.
    assert(mw * mw == q.w * q.w && mx * mx == q.x * q.x && my * my == q.y * q.y
        && mz * mz == q.z * q.z) by (nonlinear_arith)
        requires
            mw == q.w || mw == -q.w,
            mx == q.x || mx == -q.x,
            my == q.y || my == -q.y,
            mz == q.z || mz == -q.z,
    ;
    let asum = mw + mx + my + mz;
    assert(asum * asum <= 4 * (mw * mw + mx * mx + my * my + mz * mz)) by (nonlinear_arith)
        requires
            asum == mw + mx + my + mz,
    ;
    assert(asum * asum <= 4 * n2);
    assert(asum <= 2 * n + 1) by (nonlinear_arith)
        requires
            asum * asum <= 4 * n2,
            n2 < (n + 1) * (n + 1),
            asum >= 0,
            n >= 0,
    ;
    assert(2 * n * tw + 2 * n * tx + 2 * n * ty + 2 * n * tz == 2 * n * 65536 * asum)
        by (nonlinear_arith)
        requires
            tw == mw * 65536,
            tx == mx * 65536,
            ty == my * 65536,
            tz == mz * 65536,
            asum == mw + mx + my + mz,
    ;
    assert(n2 * 4294967296 <= sum * (n * n) + 2 * n * 65536 * asum + 4 * (n * n));
    assert(sum >= 4294705140) by (nonlinear_arith)
        requires
            (n * n) * 4294967296 <= sum * (n * n) + 2 * n * 65536 * asum + 4 * (n * n),
            asum <= 2 * n + 1,
            n >= 32768,
    ;
}

} // verus!
