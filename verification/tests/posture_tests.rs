use nerd_neck::posture::BEND_THRESHOLD_FP;
use nerd_neck::posture::HALF_PI_FP;
use nerd_neck::posture::PI_FP;
use nerd_neck::posture::acos_fp;
use nerd_neck::posture::angle_from_reference;
use nerd_neck::posture::bent_with;
use nerd_neck::posture::is_bent;
use nerd_neck::quat::QuatFp;

fn fp(x: f64) -> i64 {
    (x * 65536.0).round() as i64
}

fn to_f(x: i64) -> f64 {
    x as f64 / 65536.0
}

fn quat_about_y(half_angle_rad: f64) -> QuatFp {
    QuatFp { w: fp(half_angle_rad.cos()), x: 0, y: fp(half_angle_rad.sin()), z: 0 }
}

#[test]
fn angle_of_identity_is_zero() {
    let q = QuatFp { w: 65536, x: 0, y: 0, z: 0 };
    assert_eq!(angle_from_reference(&q), 0);
}

#[test]
fn angle_of_quarter_turn_is_half_pi() {
    // A 90-degree rotation about y: the upright mounting attitude.
    let q = quat_about_y(std::f64::consts::FRAC_PI_4);
    let angle = angle_from_reference(&q);
    assert!((to_f(angle) - std::f64::consts::FRAC_PI_2).abs() < 0.005);
    assert!(!is_bent(angle));
}

#[test]
fn angle_of_135_degree_attitude() {
    let q = quat_about_y(3.0 * std::f64::consts::PI / 8.0);
    let angle = angle_from_reference(&q);
    assert!((to_f(angle) - 3.0 * std::f64::consts::FRAC_PI_4).abs() < 0.005);
    assert!(is_bent(angle));
}

#[test]
fn angle_stays_within_zero_and_pi() {
    let samples = [
        QuatFp { w: 65536, x: 0, y: 0, z: 0 },
        QuatFp { w: -65536, x: 0, y: 0, z: 0 },
        QuatFp { w: 0, x: 65536, y: 0, z: 0 },
        QuatFp { w: 0, x: 0, y: 65536, z: 0 },
        QuatFp { w: 0, x: 0, y: 0, z: -65536 },
        QuatFp { w: 32768, x: 32768, y: -32768, z: 32768 },
        QuatFp { w: 46341, x: 0, y: 0, z: 46341 },
    ];
    for q in samples.iter() {
        let angle = angle_from_reference(q);
        assert!(0 <= angle && angle <= PI_FP);
    }
}

#[test]
fn acos_hits_the_domain_ends_exactly() {
    assert_eq!(acos_fp(65536), 0);
    assert_eq!(acos_fp(-65536), PI_FP);
    let mid = acos_fp(0);
    assert!((to_f(mid) - std::f64::consts::FRAC_PI_2).abs() < 0.001);
}

#[test]
fn acos_tracks_the_reference_curve() {
    let mut d: i64 = -65536;
    while d <= 65536 {
        let got = to_f(acos_fp(d));
        let want = to_f(d).acos();
        assert!((got - want).abs() < 0.002, "acos({}) = {} want {}", d, got, want);
        d += 4096;
    }
}

#[test]
fn bend_classification_is_symmetric_around_upright() {
    for x in [0i64, 1000, 25736, 25737, 60000, 102944, 205887] {
        assert_eq!(is_bent(HALF_PI_FP + x), is_bent(HALF_PI_FP - x));
    }
}

#[test]
fn bend_threshold_is_strict() {
    assert!(!is_bent(HALF_PI_FP));
    assert!(!is_bent(HALF_PI_FP + BEND_THRESHOLD_FP));
    assert!(!is_bent(HALF_PI_FP - BEND_THRESHOLD_FP));
    assert!(is_bent(HALF_PI_FP + BEND_THRESHOLD_FP + 1));
    assert!(is_bent(HALF_PI_FP - BEND_THRESHOLD_FP - 1));
}

#[test]
fn forty_five_degree_tilt_counts_as_bent() {
    // A quarter-pi deviation from upright is twice the tolerance band.
    let angle = fp(std::f64::consts::FRAC_PI_4);
    assert!(is_bent(angle));
    assert!(is_bent(fp(3.0 * std::f64::consts::FRAC_PI_4)));
}

#[test]
fn custom_threshold_widens_the_band() {
    let angle = fp(std::f64::consts::FRAC_PI_4);
    assert!(bent_with(angle, BEND_THRESHOLD_FP));
    assert!(!bent_with(angle, fp(std::f64::consts::FRAC_PI_2)));
}
