use nerd_neck::filter::FilterState;
use nerd_neck::posture::angle_from_reference;
use nerd_neck::quat::QuatFp;
use nerd_neck::quat::UNIT_NORM_SLACK;
use nerd_neck::quat::UNIT_NORM_SQ;
use nerd_neck::vecmath::Vec3Fp;

fn fp(x: f64) -> i64 {
    (x * 65536.0).round() as i64
}

fn to_f(x: i64) -> f64 {
    x as f64 / 65536.0
}

fn norm_sq(q: &QuatFp) -> i64 {
    q.w * q.w + q.x * q.x + q.y * q.y + q.z * q.z
}

#[test]
fn steady_upright_state_keeps_the_identity() {
    // Pure gravity along z, no rotation: the estimate stays put and
    // the bend angle stays zero.
    let mut f = FilterState::new(0, 0, 20);
    let gyro = Vec3Fp { x: 0, y: 0, z: 0 };
    let accel = Vec3Fp { x: 0, y: 0, z: 65536 };
    for _ in 0..50 {
        let q = f.update(&gyro, &accel).unwrap();
        assert_eq!(q, QuatFp { w: 65536, x: 0, y: 0, z: 0 });
    }
    assert_eq!(angle_from_reference(&f.current_orientation()), 0);
}

#[test]
fn norm_stays_within_tolerance_of_one() {
    // Whatever the inputs, every successful step lands the squared
    // norm back within the renormalization slack of exactly one.
    let mut f = FilterState::new(2, 1, 20);
    let inputs = [
        (Vec3Fp { x: fp(0.5), y: fp(-1.0), z: fp(2.0) }, Vec3Fp { x: fp(0.2), y: 0, z: fp(0.9) }),
        (Vec3Fp { x: fp(-3.0), y: fp(1.5), z: 0 }, Vec3Fp { x: fp(1.0), y: fp(1.0), z: 0 }),
        (Vec3Fp { x: fp(10.0), y: fp(10.0), z: fp(10.0) }, Vec3Fp { x: 0, y: 0, z: 0 }),
        (Vec3Fp { x: 0, y: 0, z: 0 }, Vec3Fp { x: 0, y: 0, z: fp(-1.0) }),
    ];
    for _ in 0..25 {
        for (gyro, accel) in inputs.iter() {
            f.update(gyro, accel).unwrap();
            let q = f.current_orientation();
            assert!((norm_sq(&q) - UNIT_NORM_SQ).abs() <= UNIT_NORM_SLACK);
        }
    }
}

#[test]
fn constant_rate_integrates_to_a_quarter_turn() {
    // pi/2 rad/s about y for one second of 20 ms ticks turns the
    // estimate by a quarter turn; the bend angle lands near pi/2.
    let mut f = FilterState::new(0, 0, 20);
    let gyro = Vec3Fp { x: 0, y: fp(std::f64::consts::FRAC_PI_2), z: 0 };
    let accel = Vec3Fp { x: 0, y: 0, z: 0 };
    for _ in 0..50 {
        f.update(&gyro, &accel).unwrap();
    }
    let angle = angle_from_reference(&f.current_orientation());
    assert!((to_f(angle) - std::f64::consts::FRAC_PI_2).abs() < 0.02);
}

#[test]
fn zero_integral_gain_is_a_true_no_op() {
    // With ki == 0 the integral path must not move, however large the
    // error terms are.
    let mut f = FilterState::new(4, 0, 20);
    let gyro = Vec3Fp { x: 0, y: 0, z: 0 };
    let accel = Vec3Fp { x: 65536, y: 0, z: 0 };
    for _ in 0..20 {
        f.update(&gyro, &accel).unwrap();
        assert_eq!(f.integral, Vec3Fp { x: 0, y: 0, z: 0 });
    }
}

#[test]
fn integral_gain_accumulates_error() {
    let mut f = FilterState::new(0, 8, 20);
    let gyro = Vec3Fp { x: 0, y: 0, z: 0 };
    let accel = Vec3Fp { x: 65536, y: 0, z: 0 };
    for _ in 0..20 {
        f.update(&gyro, &accel).unwrap();
    }
    assert!(f.integral != Vec3Fp { x: 0, y: 0, z: 0 });
}

#[test]
fn proportional_gain_pulls_toward_measured_gravity() {
    // Gravity measured at a 45-degree tilt about y: with a
    // proportional gain the estimate converges until the bend angle
    // reads that tilt.
    let mut f = FilterState::new(2, 0, 20);
    let gyro = Vec3Fp { x: 0, y: 0, z: 0 };
    let accel = Vec3Fp { x: fp(0.7071), y: 0, z: fp(0.7071) };
    for _ in 0..600 {
        f.update(&gyro, &accel).unwrap();
    }
    let angle = angle_from_reference(&f.current_orientation());
    assert!(
        (to_f(angle) - std::f64::consts::FRAC_PI_4).abs() < 0.02,
        "angle was {}",
        to_f(angle)
    );
}

#[test]
fn accelerometer_dropout_leaves_the_estimate_alone() {
    // A zero-norm acceleration contributes no error terms: with no
    // rotation either, the estimate must not move at all.
    let mut f = FilterState::new(8, 8, 20);
    let gyro = Vec3Fp { x: 0, y: 0, z: 0 };
    let accel = Vec3Fp { x: 0, y: 0, z: 0 };
    for _ in 0..10 {
        let q = f.update(&gyro, &accel).unwrap();
        assert_eq!(q, QuatFp { w: 65536, x: 0, y: 0, z: 0 });
    }
}

#[test]
fn gains_and_period_survive_updates() {
    let mut f = FilterState::new(3, 5, 40);
    let gyro = Vec3Fp { x: fp(1.0), y: 0, z: 0 };
    let accel = Vec3Fp { x: 0, y: 0, z: fp(1.0) };
    f.update(&gyro, &accel).unwrap();
    assert_eq!(f.kp, 3);
    assert_eq!(f.ki, 5);
    assert_eq!(f.dt, 40 * 65536 / 1000);
    assert_eq!(f.dt_half, 40 * 65536 / 2000);
}
