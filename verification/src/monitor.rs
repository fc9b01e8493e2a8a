//! Task orchestration: configuration, the sampling pipeline and the
//! alert driver's decision step.
//!
//! Two cooperative tasks share one signal slot. The poller runs once
//! per fixed interval: it takes whatever sample the sensor adapter
//! produced, converts the angular rate to radians, advances the
//! orientation filter, classifies the bend angle and feeds the
//! classification to the alert coordinator; a trigger raises the
//! slot. The alert driver consumes the slot and holds the alert
//! device for the fixed duration. The timer waits, the sensor bus and
//! the device pin live outside this crate; every decision between
//! them is made here.

use crate::alert::AlertCoordinator;
use crate::alert::AlertState;
use crate::alert::coord_step_emits;
use crate::alert::coord_step_state;
use crate::alert::SignalSlot;
use crate::filter::ACCEL_COMP_LIMIT;
use crate::filter::FilterState;
use crate::filter::GAIN_LIMIT;
use crate::filter::candidate_spec;
use crate::filter::integral_after_spec;
use crate::filter::step_degenerate;
use crate::fixed::FP_ONE;
use crate::fixed::fp_mul_spec;
use crate::fixed::lemma_fp_mul_mag;
use crate::posture::BEND_THRESHOLD_FP;
use crate::posture::angle_from_reference;
use crate::posture::angle_spec;
use crate::posture::bent_with;
use crate::posture::bent_with_spec;
use crate::quat::QuatFp;
use crate::quat::unit4_spec;
use crate::vecmath::Vec3Fp;
use crate::vecmath::v3_in_bounds;
use crate::vecmath::v3_scale;
use vstd::prelude::*;

verus! {

/// Default poll interval of the sampling task, milliseconds.
pub const DEFAULT_POLL_INTERVAL_MS: u64 = 20;

/// Default length of the alert window, milliseconds.
pub const DEFAULT_ALERT_DURATION_MS: u64 = 2000;

/// Degrees-to-radians factor, `pi / 180` in Q16.16.
pub const DEG_TO_RAD_FP: i64 = 1144;

/// Largest raw angular-rate component accepted, in Q16.16 degrees per
/// second (about 3050 deg/s, beyond the sensor's widest range).
pub const GYRO_RAW_LIMIT: i64 = 200000000;

/// One inertial sample: angular rate in Q16.16 degrees per second and
/// acceleration in Q16.16 sensor units.
#[derive(Clone, Copy, Debug, PartialEq, Eq, Structural)]
pub struct Sample {
    pub gyro: Vec3Fp,
    pub accel: Vec3Fp,
}

/// Startup configuration of the whole pipeline.
#[derive(Clone, Copy, Debug, PartialEq, Eq, Structural)]
pub struct Config {
    /// Sampling period, milliseconds.
    pub poll_interval_ms: u64,
    /// Proportional fusion gain.
    pub kp: u32,
    /// Integral fusion gain; zero disables the integral path.
    pub ki: u32,
    /// Tolerance band around upright, Q16.16 radians.
    pub bend_threshold: i64,
    /// Length of the alert window, milliseconds.
    pub alert_duration_ms: u64,
}

/// Why a configuration is rejected at startup.
#[derive(Clone, Copy, Debug, PartialEq, Eq, Structural)]
pub enum ConfigError {
    /// The poll interval is zero or above one second.
    InvalidInterval,
    /// A fusion gain exceeds `GAIN_LIMIT`.
    InvalidGain,
    /// The bend threshold is negative.
    InvalidThreshold,
    /// The alert duration is zero.
    InvalidDuration,
}

/// The first reason a configuration is rejected, or nothing.
pub open spec fn config_error_spec(c: Config) -> Option<ConfigError> {
    if !(1 <= c.poll_interval_ms <= 1000) {
        Some(ConfigError::InvalidInterval)
    } else if c.kp > GAIN_LIMIT || c.ki > GAIN_LIMIT {
        Some(ConfigError::InvalidGain)
    } else if c.bend_threshold < 0 {
        Some(ConfigError::InvalidThreshold)
    } else if c.alert_duration_ms < 1 {
        Some(ConfigError::InvalidDuration)
    } else {
        None
    }
}

impl Config {
    /// The reference configuration: 20 ms polling, both fusion gains
    /// off, a `pi / 8` tolerance band, a two-second alert window.
    pub fn default_config() -> (r: Config)
        ensures
            r == (Config {
                poll_interval_ms: DEFAULT_POLL_INTERVAL_MS,
                kp: 0,
                ki: 0,
                bend_threshold: BEND_THRESHOLD_FP,
                alert_duration_ms: DEFAULT_ALERT_DURATION_MS,
            }),
            config_error_spec(r) == Option::<ConfigError>::None,
    {
        Config {
            poll_interval_ms: DEFAULT_POLL_INTERVAL_MS,
            kp: 0,
            ki: 0,
            bend_threshold: BEND_THRESHOLD_FP,
            alert_duration_ms: DEFAULT_ALERT_DURATION_MS,
        }
    }
}

/// What one poll tick did.
#[derive(Clone, Copy, Debug, PartialEq, Eq, Structural)]
pub enum TickOutcome {
    /// The sensor produced nothing; the tick was skipped whole.
    NoSample,
    /// The fusion step degenerated; the estimate was left at its last
    /// valid value and no classification was made.
    FilterFailed,
    /// A classification was made and fed to the alert coordinator.
    Classified { bent: bool, alert_triggered: bool },
}

/// The sample's angular rate converted to radians per second.
pub open spec fn rad_gyro_spec(s: Sample) -> Vec3Fp {
    Vec3Fp {
        x: fp_mul_spec(s.gyro.x as int, DEG_TO_RAD_FP as int) as i64,
        y: fp_mul_spec(s.gyro.y as int, DEG_TO_RAD_FP as int) as i64,
        z: fp_mul_spec(s.gyro.z as int, DEG_TO_RAD_FP as int) as i64,
    }
}

/// The posture monitor: the poller's filter, the classifier's
/// tolerance band and the alert coordinator, wired together.
pub struct PostureMonitor {
    pub filter: FilterState,
    pub coordinator: AlertCoordinator,
    pub bend_threshold: i64,
}

impl PostureMonitor {
    /// Well-formedness of the whole pipeline state.
    pub open spec fn wf(self) -> bool {
        &&& self.filter.wf()
        &&& self.bend_threshold >= 0
        &&& self.coordinator.duration_ms >= 1
    }

    /// Build the pipeline from a configuration, or reject it: the
    /// result is the first configuration error exactly when there is
    /// one, and otherwise a monitor at the identity orientation with
    /// an idle coordinator and the configured parameters.
    pub fn new(c: Config) -> (r: Result<PostureMonitor, ConfigError>)
        ensures
            match r {
                Ok(m) => {
                    &&& config_error_spec(c) == Option::<ConfigError>::None
                    &&& m.wf()
                    &&& m.filter.q == (QuatFp { w: FP_ONE, x: 0, y: 0, z: 0 })
                    &&& m.filter.integral == (Vec3Fp { x: 0, y: 0, z: 0 })
                    &&& m.filter.kp == c.kp
                    &&& m.filter.ki == c.ki
                    &&& m.filter.dt == c.poll_interval_ms * 65536 / 1000
                    &&& m.filter.dt_half == c.poll_interval_ms * 65536 / 2000
                    &&& m.coordinator.state == AlertState::Idle
                    &&& m.coordinator.duration_ms == c.alert_duration_ms
                    &&& m.bend_threshold == c.bend_threshold
                },
                Err(e) => config_error_spec(c) == Some(e),
            },
    {
        if c.poll_interval_ms < 1 || c.poll_interval_ms > 1000 {
            Err(ConfigError::InvalidInterval)
        } else if c.kp > GAIN_LIMIT || c.ki > GAIN_LIMIT {
            Err(ConfigError::InvalidGain)
        } else if c.bend_threshold < 0 {
            Err(ConfigError::InvalidThreshold)
        } else if c.alert_duration_ms < 1 {
            Err(ConfigError::InvalidDuration)
        } else {
            Ok(PostureMonitor {
                filter: FilterState::new(c.kp, c.ki, c.poll_interval_ms),
                coordinator: AlertCoordinator::new(c.alert_duration_ms),
                bend_threshold: c.bend_threshold,
            })
        }
    }

    /// One tick of the sampling task, at time `now_ms`, with whatever
    /// the sensor adapter produced. A missing sample skips the tick
    /// whole; a degenerate fusion step is skipped the same way; a
    /// successful step classifies the new estimate's bend angle
    /// against the tolerance band, feeds the classification to the
    /// coordinator, and raises the slot exactly when the coordinator
    /// emits a trigger. The loop itself never fails.
    pub fn poll_step(
        &mut self,
        slot: &mut SignalSlot,
        now_ms: u64,
        sample: Option<Sample>,
    ) -> (r: TickOutcome)
        requires
            old(self).wf(),
            match sample {
                Some(s) => v3_in_bounds(s.gyro, GYRO_RAW_LIMIT as int) && v3_in_bounds(
                    s.accel,
                    ACCEL_COMP_LIMIT as int,
                ),
                None => true,
            },
        ensures
            final(self).wf(),
            final(self).bend_threshold == old(self).bend_threshold,
            final(self).coordinator.duration_ms == old(self).coordinator.duration_ms,
            final(self).filter.kp == old(self).filter.kp,
            final(self).filter.ki == old(self).filter.ki,
            final(self).filter.dt == old(self).filter.dt,
            final(self).filter.dt_half == old(self).filter.dt_half,
            match sample {
                None => {
                    &&& *final(self) == *old(self)
                    &&& *final(slot) == *old(slot)
                    &&& r == TickOutcome::NoSample
                },
                Some(s) => {
                    let grad = rad_gyro_spec(s);
                    if step_degenerate(old(self).filter, grad, s.accel) {
                        &&& *final(self) == *old(self)
                        &&& *final(slot) == *old(slot)
                        &&& r == TickOutcome::FilterFailed
                    } else {
                        let (cw, cx, cy, cz) = candidate_spec(old(self).filter, grad, s.accel);
                        let bent = bent_with_spec(
                            angle_spec(final(self).filter.q),
                            old(self).bend_threshold as int,
                        );
                        let trig = coord_step_emits(
                            old(self).coordinator.state,
                            old(self).coordinator.duration_ms,
                            now_ms,
                            bent,
                        );
                        &&& (
                            final(self).filter.q.w as int,
                            final(self).filter.q.x as int,
                            final(self).filter.q.y as int,
                            final(self).filter.q.z as int,
                        ) == unit4_spec(cw, cx, cy, cz)
                        &&& (
                            final(self).filter.integral.x as int,
                            final(self).filter.integral.y as int,
                            final(self).filter.integral.z as int,
                        ) == integral_after_spec(old(self).filter, s.accel)
                        &&& final(self).coordinator.state == coord_step_state(
                            old(self).coordinator.state,
                            old(self).coordinator.duration_ms,
                            now_ms,
                            bent,
                        )
                        &&& final(slot).set == (old(slot).set || trig)
                        &&& r == (TickOutcome::Classified { bent, alert_triggered: trig })
                    }
                },
            },
    {
        match sample {
            None => TickOutcome::NoSample,
            Some(s) => {
                proof {
                    lemma_fp_mul_mag(s.gyro.x as int, 1144, 200000000, 1144);
                    lemma_fp_mul_mag(s.gyro.y as int, 1144, 200000000, 1144);
                    lemma_fp_mul_mag(s.gyro.z as int, 1144, 200000000, 1144);
                }
                let grad: Vec3Fp = v3_scale(&s.gyro, DEG_TO_RAD_FP);
                proof {
                    assert(grad == rad_gyro_spec(s));
                }
                match self.filter.update(&grad, &s.accel) {
                    Err(_) => TickOutcome::FilterFailed,
                    Ok(qn) => {
                        let angle: i64 = angle_from_reference(&qn);
                        let bent: bool = bent_with(angle, self.bend_threshold);
                        let trig: bool = self.coordinator.on_classification(now_ms, bent);
                        if trig {
                            slot.signal();
                        }
                        TickOutcome::Classified { bent, alert_triggered: trig }
                    },
                }
            },
        }
    }
}

/// The alert driver's decision step: consume a pending trigger, if
/// any, and say for how long to hold the alert device on. The slot is
/// left empty either way; a trigger raised again while the device is
/// still held is cleared by `SignalSlot::reset` when the hold ends,
/// so a re-signal never restarts the hold.
pub fn alert_wait_step(slot: &mut SignalSlot, alert_duration_ms: u64) -> (r: Option<u64>)
    ensures
        r == if old(slot).set {
            Some(alert_duration_ms)
        } else {
            None::<u64>
        },
        !final(slot).set,
{
    if slot.take() {
        Some(alert_duration_ms)
    } else {
        None
    }
}

} // verus!
