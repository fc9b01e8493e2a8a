//! The orientation filter: gyroscope/accelerometer fusion into a unit
//! quaternion, one discrete step per sample period.
//!
//! The algorithm is a complementary filter without magnetometer input:
//! the current estimate predicts the direction of gravity, the cross
//! product with the measured (normalized) acceleration gives an error
//! term, the error feeds proportional and (optional, saturated)
//! integral corrections into the angular rate, and the corrected rate
//! is integrated into the quaternion by the standard derivative rule
//! scaled by half the sample period. Renormalization closes every
//! step; a step whose raw integrated quaternion collapses below half
//! the unit length is reported as degenerate and leaves the state at
//! its last valid estimate.

use crate::fixed::FP_ONE;
use crate::fixed::clamp_i64;
use crate::fixed::clamp_spec;
use crate::fixed::fp_mul;
use crate::fixed::fp_mul_spec;
use crate::fixed::lemma_fp_mul_mag;
use crate::fixed::lemma_mul_mag;
use crate::quat::MIN_NORM_SQ;
use crate::quat::QuatFp;
use crate::quat::q_in_bounds;
use crate::quat::q_norm_sq_exec;
use crate::quat::q_normalize;
use crate::quat::q_unit_band;
use crate::quat::unit4_spec;
use crate::vecmath::Vec3Fp;
use crate::vecmath::v3_cross;
use crate::vecmath::v3_in_bounds;
use crate::vecmath::v3_norm_sq;
use crate::vecmath::v3_norm_sq_exec;
use crate::vecmath::v3_normalize;
use crate::vecmath::v3_unit_spec;
use vstd::prelude::*;

verus! {

/// Largest angular-rate component the filter accepts, in Q16.16
/// radians per second (64 rad/s, far beyond the sensor's range).
pub const GYRO_RAD_LIMIT: i64 = 4194304;

/// Largest acceleration component the filter accepts, in Q16.16
/// sensor units (256 units).
pub const ACCEL_COMP_LIMIT: i64 = 16777216;

/// Largest proportional or integral gain the filter accepts.
pub const GAIN_LIMIT: u32 = 64;

/// Saturation bound of the integral error accumulator (anti-windup).
pub const INTEGRAL_LIMIT: i64 = 4194304;

/// Magnitude bound of a half-gravity component.
pub const HALF_GRAVITY_LIMIT: i64 = 163840;

/// Magnitude bound of an error-term component.
pub const ERROR_TERM_LIMIT: i64 = 327680;

/// The fusion step failed to produce a usable quaternion.
#[derive(Clone, Copy, Debug, PartialEq, Eq, Structural)]
pub enum FilterError {
    /// The integrated quaternion collapsed below half the unit length.
    Degenerate,
}

/// The state of the orientation filter: the current estimate, the
/// integral error accumulator, the gains, and the fixed sample period
/// (`dt`, Q16.16 seconds) with its precomputed half.
pub struct FilterState {
    pub q: QuatFp,
    pub integral: Vec3Fp,
    pub kp: u32,
    pub ki: u32,
    pub dt: i64,
    pub dt_half: i64,
}

impl FilterState {
    /// Well-formedness: the estimate sits in the unit band, the
    /// accumulator is saturated, and gains and period are in range.
    pub open spec fn wf(self) -> bool {
        &&& q_unit_band(self.q)
        &&& v3_in_bounds(self.integral, INTEGRAL_LIMIT as int)
        &&& self.kp <= GAIN_LIMIT
        &&& self.ki <= GAIN_LIMIT
        &&& 1 <= self.dt <= FP_ONE
        &&& 0 <= self.dt_half <= 32768
    }

    /// A fresh filter: identity orientation, zero accumulated error.
    /// `dt` and `dt_half` are the poll interval in Q16.16 seconds and
    /// its half, rounded down.
    pub fn new(kp: u32, ki: u32, poll_interval_ms: u64) -> (r: FilterState)
        requires
            1 <= poll_interval_ms <= 1000,
            kp <= GAIN_LIMIT,
            ki <= GAIN_LIMIT,
        ensures
            r.wf(),
            r.q == (QuatFp { w: FP_ONE, x: 0, y: 0, z: 0 }),
            r.integral == (Vec3Fp { x: 0, y: 0, z: 0 }),
            r.kp == kp,
            r.ki == ki,
            r.dt == poll_interval_ms * 65536 / 1000,
            r.dt_half == poll_interval_ms * 65536 / 2000,
    {
        let scaled: u64 = poll_interval_ms * 65536;
        FilterState {
            q: QuatFp::identity(),
            integral: Vec3Fp { x: 0, y: 0, z: 0 },
            kp,
            ki,
            dt: (scaled / 1000) as i64,
            dt_half: (scaled / 2000) as i64,
        }
    }

    /// The current orientation estimate.
    pub fn current_orientation(&self) -> (r: QuatFp)
        ensures
            r == self.q,
    {
        self.q
    }
}

/// The direction of gravity (halved) implied by the estimate `q`:
/// the body-frame image of the world "up" axis under the inverse
/// rotation, at half magnitude.
pub open spec fn half_gravity_spec(q: QuatFp) -> (int, int, int) {
    (
        fp_mul_spec(q.x as int, q.z as int) - fp_mul_spec(q.w as int, q.y as int),
        fp_mul_spec(q.w as int, q.x as int) + fp_mul_spec(q.y as int, q.z as int),
        fp_mul_spec(q.w as int, q.w as int) - 32768 + fp_mul_spec(q.z as int, q.z as int),
    )
}

/// The error terms of one step: the cross product of the measured
/// (normalized) acceleration with the estimated gravity direction,
/// zero when the measured acceleration has zero norm.
pub open spec fn error_terms_spec(q: QuatFp, accel: Vec3Fp) -> (int, int, int) {
    if v3_norm_sq(accel) == 0 {
        (0, 0, 0)
    } else {
        let (ax, ay, az) = v3_unit_spec(accel);
        let (hx, hy, hz) = half_gravity_spec(q);
        (
            fp_mul_spec(ay, hz) - fp_mul_spec(az, hy),
            fp_mul_spec(az, hx) - fp_mul_spec(ax, hz),
            fp_mul_spec(ax, hy) - fp_mul_spec(ay, hx),
        )
    }
}

/// Whether a step feeds the integral path: integral gain enabled and
/// a usable acceleration sample present.
pub open spec fn integral_fed(s: FilterState, accel: Vec3Fp) -> bool {
    s.ki > 0 && v3_norm_sq(accel) != 0
}

/// The integral accumulator after one step: unchanged unless fed,
/// otherwise each component gains `ki * e_i * dt` and saturates.
pub open spec fn integral_after_spec(s: FilterState, accel: Vec3Fp) -> (int, int, int) {
    if !integral_fed(s, accel) {
        (s.integral.x as int, s.integral.y as int, s.integral.z as int)
    } else {
        let (ex, ey, ez) = error_terms_spec(s.q, accel);
        (
            clamp_spec(
                s.integral.x + fp_mul_spec(s.ki * ex, s.dt as int),
                -INTEGRAL_LIMIT as int,
                INTEGRAL_LIMIT as int,
            ),
            clamp_spec(
                s.integral.y + fp_mul_spec(s.ki * ey, s.dt as int),
                -INTEGRAL_LIMIT as int,
                INTEGRAL_LIMIT as int,
            ),
            clamp_spec(
                s.integral.z + fp_mul_spec(s.ki * ez, s.dt as int),
                -INTEGRAL_LIMIT as int,
                INTEGRAL_LIMIT as int,
            ),
        )
    }
}

/// The corrected angular rate of one step: the measured rate plus the
/// proportional feedback, plus the integral feedback when fed.
pub open spec fn rate_spec(s: FilterState, gyro: Vec3Fp, accel: Vec3Fp) -> (int, int, int) {
    let (ex, ey, ez) = error_terms_spec(s.q, accel);
    let (ix, iy, iz) = integral_after_spec(s, accel);
    (
        gyro.x + s.kp * ex + if integral_fed(s, accel) { ix } else { 0 },
        gyro.y + s.kp * ey + if integral_fed(s, accel) { iy } else { 0 },
        gyro.z + s.kp * ez + if integral_fed(s, accel) { iz } else { 0 },
    )
}

/// The raw integrated quaternion of one step, before renormalization:
/// `q + (dt/2) * q x (0, rate)`.
pub open spec fn candidate_spec(s: FilterState, gyro: Vec3Fp, accel: Vec3Fp) -> (
    int,
    int,
    int,
    int,
) {
    let (rx, ry, rz) = rate_spec(s, gyro, accel);
    let g0 = fp_mul_spec(rx, s.dt_half as int);
    let g1 = fp_mul_spec(ry, s.dt_half as int);
    let g2 = fp_mul_spec(rz, s.dt_half as int);
    let q = s.q;
    (
        q.w - fp_mul_spec(q.x as int, g0) - fp_mul_spec(q.y as int, g1) - fp_mul_spec(
            q.z as int,
            g2,
        ),
        q.x + fp_mul_spec(q.w as int, g0) + fp_mul_spec(q.y as int, g2) - fp_mul_spec(
            q.z as int,
            g1,
        ),
        q.y + fp_mul_spec(q.w as int, g1) - fp_mul_spec(q.x as int, g2) + fp_mul_spec(
            q.z as int,
            g0,
        ),
        q.z + fp_mul_spec(q.w as int, g2) + fp_mul_spec(q.x as int, g1) - fp_mul_spec(
            q.y as int,
            g0,
        ),
    )
}

/// Whether one step starting from `s` degenerates: the raw integrated
/// quaternion falls below half the unit length.
pub open spec fn step_degenerate(s: FilterState, gyro: Vec3Fp, accel: Vec3Fp) -> bool {
    let (cw, cx, cy, cz) = candidate_spec(s, gyro, accel);
    cw * cw + cx * cx + cy * cy + cz * cz < MIN_NORM_SQ
}

/// Estimated half gravity in the body frame, from the estimate alone.
fn half_gravity(q: &QuatFp) -> (r: Vec3Fp)
    requires
        q_in_bounds(*q, FP_ONE as int),
    ensures
        (r.x as int, r.y as int, r.z as int) == half_gravity_spec(*q),
        v3_in_bounds(r, HALF_GRAVITY_LIMIT as int),
{
    proof {
        lemma_fp_mul_mag(q.x as int, q.z as int, 65536, 65536);
        lemma_fp_mul_mag(q.w as int, q.y as int, 65536, 65536);
        lemma_fp_mul_mag(q.w as int, q.x as int, 65536, 65536);
        lemma_fp_mul_mag(q.y as int, q.z as int, 65536, 65536);
        lemma_fp_mul_mag(q.w as int, q.w as int, 65536, 65536);
        lemma_fp_mul_mag(q.z as int, q.z as int, 65536, 65536);
    }
    Vec3Fp {
        x: fp_mul(q.x, q.z) - fp_mul(q.w, q.y),
        y: fp_mul(q.w, q.x) + fp_mul(q.y, q.z),
        z: fp_mul(q.w, q.w) - 32768 + fp_mul(q.z, q.z),
    }
}

/// The error terms of one step, executable form.
fn error_terms(q: &QuatFp, accel: &Vec3Fp) -> (r: Vec3Fp)
    requires
        q_in_bounds(*q, FP_ONE as int),
        v3_in_bounds(*accel, ACCEL_COMP_LIMIT as int),
    ensures
        (r.x as int, r.y as int, r.z as int) == error_terms_spec(*q, *accel),
        v3_in_bounds(r, ERROR_TERM_LIMIT as int),
{
    let a_nsq: u64 = v3_norm_sq_exec(accel);
    if a_nsq > 0 {
        let ua: Vec3Fp = v3_normalize(accel);
        let hg: Vec3Fp = half_gravity(q);
        let r: Vec3Fp = v3_cross(&ua, &hg);
        proof {
            lemma_fp_mul_mag(ua.y as int, hg.z as int, 65536, 163840);
            lemma_fp_mul_mag(ua.z as int, hg.y as int, 65536, 163840);
            lemma_fp_mul_mag(ua.z as int, hg.x as int, 65536, 163840);
            lemma_fp_mul_mag(ua.x as int, hg.z as int, 65536, 163840);
            lemma_fp_mul_mag(ua.x as int, hg.y as int, 65536, 163840);
            lemma_fp_mul_mag(ua.y as int, hg.x as int, 65536, 163840);
        }
        r
    } else {
        Vec3Fp { x: 0, y: 0, z: 0 }
    }
}

impl FilterState {
    /// One fusion step. On success the estimate becomes the
    /// renormalized integrated quaternion — back in the unit band —
    /// and is also returned; the accumulator advances as
    /// `integral_after_spec`. A degenerate step changes nothing and
    /// reports `FilterError::Degenerate`; that happens exactly when
    /// `step_degenerate` holds.
    pub fn update(&mut self, gyro: &Vec3Fp, accel: &Vec3Fp) -> (r: Result<QuatFp, FilterError>)
        requires
            old(self).wf(),
            v3_in_bounds(*gyro, GYRO_RAD_LIMIT as int),
            v3_in_bounds(*accel, ACCEL_COMP_LIMIT as int),
        ensures
            final(self).wf(),
            final(self).kp == old(self).kp,
            final(self).ki == old(self).ki,
            final(self).dt == old(self).dt,
            final(self).dt_half == old(self).dt_half,
            ({
                let (cw, cx, cy, cz) = candidate_spec(*old(self), *gyro, *accel);
                if !step_degenerate(*old(self), *gyro, *accel) {
                    &&& (
                        final(self).q.w as int,
                        final(self).q.x as int,
                        final(self).q.y as int,
                        final(self).q.z as int,
                    ) == unit4_spec(cw, cx, cy, cz)
                    &&& (
                        final(self).integral.x as int,
                        final(self).integral.y as int,
                        final(self).integral.z as int,
                    ) == integral_after_spec(*old(self), *accel)
                    &&& r == Ok::<QuatFp, FilterError>(final(self).q)
                } else {
                    &&& *final(self) == *old(self)
                    &&& r == Err::<QuatFp, FilterError>(FilterError::Degenerate)
                }
            }),
    {
        let q0: QuatFp = self.q;
        let err: Vec3Fp = error_terms(&q0, accel);
        let a_nsq: u64 = v3_norm_sq_exec(accel);
        let fed: bool = self.ki > 0 && a_nsq > 0;

        let integ: Vec3Fp = if fed {
            proof {
                lemma_mul_mag(self.ki as int, err.x as int, 64, 327680);
                lemma_mul_mag(self.ki as int, err.y as int, 64, 327680);
                lemma_mul_mag(self.ki as int, err.z as int, 64, 327680);
                lemma_fp_mul_mag(self.ki * err.x, self.dt as int, 20971520, 65536);
                lemma_fp_mul_mag(self.ki * err.y, self.dt as int, 20971520, 65536);
                lemma_fp_mul_mag(self.ki * err.z, self.dt as int, 20971520, 65536);
            }
            Vec3Fp {
                x: clamp_i64(
                    self.integral.x + fp_mul((self.ki as i64) * err.x, self.dt),
                    -INTEGRAL_LIMIT,
                    INTEGRAL_LIMIT,
                ),
                y: clamp_i64(
                    self.integral.y + fp_mul((self.ki as i64) * err.y, self.dt),
                    -INTEGRAL_LIMIT,
                    INTEGRAL_LIMIT,
                ),
                z: clamp_i64(
                    self.integral.z + fp_mul((self.ki as i64) * err.z, self.dt),
                    -INTEGRAL_LIMIT,
                    INTEGRAL_LIMIT,
                ),
            }
        } else {
            self.integral
        };

        proof {
            lemma_mul_mag(self.kp as int, err.x as int, 64, 327680);
            lemma_mul_mag(self.kp as int, err.y as int, 64, 327680);
            lemma_mul_mag(self.kp as int, err.z as int, 64, 327680);
        }
        let rate_x: i64 = gyro.x + (self.kp as i64) * err.x + if fed {
            integ.x
        } else {
            0
        };
        let rate_y: i64 = gyro.y + (self.kp as i64) * err.y + if fed {
            integ.y
        } else {
            0
        };
        let rate_z: i64 = gyro.z + (self.kp as i64) * err.z + if fed {
            integ.z
        } else {
            0
        };

        proof {
            lemma_fp_mul_mag(rate_x as int, self.dt_half as int, 29360128, 32768);
            lemma_fp_mul_mag(rate_y as int, self.dt_half as int, 29360128, 32768);
            lemma_fp_mul_mag(rate_z as int, self.dt_half as int, 29360128, 32768);
        }
        let g0: i64 = fp_mul(rate_x, self.dt_half);
        let g1: i64 = fp_mul(rate_y, self.dt_half);
        let g2: i64 = fp_mul(rate_z, self.dt_half);

        proof {
            lemma_fp_mul_mag(q0.x as int, g0 as int, 65536, 14680064);
            lemma_fp_mul_mag(q0.y as int, g1 as int, 65536, 14680064);
            lemma_fp_mul_mag(q0.z as int, g2 as int, 65536, 14680064);
            lemma_fp_mul_mag(q0.w as int, g0 as int, 65536, 14680064);
            lemma_fp_mul_mag(q0.y as int, g2 as int, 65536, 14680064);
            lemma_fp_mul_mag(q0.z as int, g1 as int, 65536, 14680064);
            lemma_fp_mul_mag(q0.w as int, g1 as int, 65536, 14680064);
            lemma_fp_mul_mag(q0.x as int, g2 as int, 65536, 14680064);
            lemma_fp_mul_mag(q0.z as int, g0 as int, 65536, 14680064);
            lemma_fp_mul_mag(q0.w as int, g2 as int, 65536, 14680064);
            lemma_fp_mul_mag(q0.x as int, g1 as int, 65536, 14680064);
            lemma_fp_mul_mag(q0.y as int, g0 as int, 65536, 14680064);
        }
        let cand = QuatFp {
            w: q0.w - fp_mul(q0.x, g0) - fp_mul(q0.y, g1) - fp_mul(q0.z, g2),
            x: q0.x + fp_mul(q0.w, g0) + fp_mul(q0.y, g2) - fp_mul(q0.z, g1),
            y: q0.y + fp_mul(q0.w, g1) - fp_mul(q0.x, g2) + fp_mul(q0.z, g0),
            z: q0.z + fp_mul(q0.w, g2) + fp_mul(q0.x, g1) - fp_mul(q0.y, g0),
        };
        proof {
            assert((cand.w as int, cand.x as int, cand.y as int, cand.z as int)
                == candidate_spec(*old(self), *gyro, *accel));
        }

        let nsq: u64 = q_norm_sq_exec(&cand);
        if nsq >= MIN_NORM_SQ as u64 {
            let qn: QuatFp = q_normalize(&cand);
            self.q = qn;
            self.integral = integ;
            Ok(qn)
        } else {
            Err(FilterError::Degenerate)
        }
    }
}

} // verus!
