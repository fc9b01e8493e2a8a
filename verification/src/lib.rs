//! Verified core of a wearable posture monitor.
//!
//! The device samples a 6-axis inertial sensor, fuses gyroscope and
//! accelerometer readings into a unit-quaternion orientation estimate,
//! classifies whether the wearer's back is bent past a tolerance band,
//! and gates an alert signal behind an edge-triggered cooldown window.
//!
//! All numeric state is kept in Q16.16 fixed point (`i64` scaled by
//! 2^16) so that every step of the pipeline has an exact integer
//! meaning that the verifier can reason about. The hardware adapters
//! (sensor bus, buzzer pin, executor) live outside this crate; they
//! exchange plain scaled integers with the functions here.

pub mod alert;
pub mod filter;
pub mod fixed;
pub mod monitor;
pub mod posture;
pub mod quat;
pub mod vecmath;
