use nerd_neck::alert::AlertState;
use nerd_neck::alert::SignalSlot;
use nerd_neck::monitor::Config;
use nerd_neck::monitor::ConfigError;
use nerd_neck::monitor::PostureMonitor;
use nerd_neck::monitor::Sample;
use nerd_neck::monitor::TickOutcome;
use nerd_neck::monitor::alert_wait_step;
use nerd_neck::vecmath::Vec3Fp;

fn fp(x: f64) -> i64 {
    (x * 65536.0).round() as i64
}

fn upright_sample() -> Sample {
    // The attitude in which this mounting reads gravity along x: the
    // wearer sits straight, the bend angle reads a quarter turn.
    Sample { gyro: Vec3Fp { x: 0, y: 0, z: 0 }, accel: Vec3Fp { x: 65536, y: 0, z: 0 } }
}

fn flat_sample() -> Sample {
    // Gravity along z: the sensor's reference axis points straight
    // up, a right angle away from the upright attitude.
    Sample { gyro: Vec3Fp { x: 0, y: 0, z: 0 }, accel: Vec3Fp { x: 0, y: 0, z: 65536 } }
}

#[test]
fn default_configuration_is_accepted() {
    let c = Config::default_config();
    assert!(PostureMonitor::new(c).is_ok());
    assert_eq!(c.poll_interval_ms, 20);
    assert_eq!(c.alert_duration_ms, 2000);
}

#[test]
fn zero_poll_interval_is_rejected() {
    let mut c = Config::default_config();
    c.poll_interval_ms = 0;
    assert_eq!(PostureMonitor::new(c).err(), Some(ConfigError::InvalidInterval));
    c.poll_interval_ms = 1001;
    assert_eq!(PostureMonitor::new(c).err(), Some(ConfigError::InvalidInterval));
}

#[test]
fn oversized_gains_are_rejected() {
    let mut c = Config::default_config();
    c.kp = 65;
    assert_eq!(PostureMonitor::new(c).err(), Some(ConfigError::InvalidGain));
    c.kp = 0;
    c.ki = 1000;
    assert_eq!(PostureMonitor::new(c).err(), Some(ConfigError::InvalidGain));
}

#[test]
fn negative_threshold_is_rejected() {
    let mut c = Config::default_config();
    c.bend_threshold = -1;
    assert_eq!(PostureMonitor::new(c).err(), Some(ConfigError::InvalidThreshold));
}

#[test]
fn zero_alert_duration_is_rejected() {
    let mut c = Config::default_config();
    c.alert_duration_ms = 0;
    assert_eq!(PostureMonitor::new(c).err(), Some(ConfigError::InvalidDuration));
}

#[test]
fn a_missed_sample_skips_the_tick() {
    let mut m = PostureMonitor::new(Config::default_config()).unwrap();
    let mut slot = SignalSlot::new();
    let q_before = m.filter.current_orientation();
    assert_eq!(m.poll_step(&mut slot, 0, None), TickOutcome::NoSample);
    assert_eq!(m.filter.current_orientation(), q_before);
    assert!(!slot.is_signaled());
}

#[test]
fn upright_posture_raises_no_alert() {
    // Converge onto the upright attitude first, then watch it hold:
    // never bent, never triggered.
    let mut c = Config::default_config();
    c.kp = 4;
    let mut m = PostureMonitor::new(c).unwrap();
    let mut slot = SignalSlot::new();
    let mut now: u64 = 0;
    for _ in 0..800 {
        m.poll_step(&mut slot, now, Some(upright_sample()));
        now += 20;
    }
    slot.reset();
    for _ in 0..100 {
        let out = m.poll_step(&mut slot, now, Some(upright_sample()));
        assert_eq!(out, TickOutcome::Classified { bent: false, alert_triggered: false });
        now += 20;
    }
    assert!(!slot.is_signaled());
}

#[test]
fn a_bend_triggers_once_and_cools_down() {
    // The flat attitude is a right angle away from upright: bent from
    // the first classification. One trigger opens the window; bends
    // 500 ms later are swallowed; the window expires after 2 s and
    // the sustained bend retriggers.
    let mut m = PostureMonitor::new(Config::default_config()).unwrap();
    let mut slot = SignalSlot::new();

    let out = m.poll_step(&mut slot, 0, Some(flat_sample()));
    assert_eq!(out, TickOutcome::Classified { bent: true, alert_triggered: true });
    assert!(matches!(m.coordinator.state, AlertState::Active { started_at: 0 }));
    assert_eq!(alert_wait_step(&mut slot, 2000), Some(2000));

    let out = m.poll_step(&mut slot, 500, Some(flat_sample()));
    assert_eq!(out, TickOutcome::Classified { bent: true, alert_triggered: false });
    assert!(!slot.is_signaled());
    assert!(matches!(m.coordinator.state, AlertState::Active { started_at: 0 }));

    let out = m.poll_step(&mut slot, 1000, Some(flat_sample()));
    assert_eq!(out, TickOutcome::Classified { bent: true, alert_triggered: false });

    let out = m.poll_step(&mut slot, 2000, Some(flat_sample()));
    assert_eq!(out, TickOutcome::Classified { bent: true, alert_triggered: true });
    assert!(matches!(m.coordinator.state, AlertState::Active { started_at: 2000 }));
}

#[test]
fn alert_driver_consumes_one_trigger() {
    let mut slot = SignalSlot::new();
    assert_eq!(alert_wait_step(&mut slot, 2000), None);
    slot.signal();
    assert_eq!(alert_wait_step(&mut slot, 2000), Some(2000));
    assert_eq!(alert_wait_step(&mut slot, 2000), None);
}

#[test]
fn forty_five_degree_tilt_raises_the_alert() {
    // Sustained gravity at 45 degrees off the mounting-neutral axis:
    // the estimate converges, the deviation exceeds the tolerance
    // band, and the coordinator goes active.
    let mut c = Config::default_config();
    c.kp = 4;
    let mut m = PostureMonitor::new(c).unwrap();
    let mut slot = SignalSlot::new();
    let mut now: u64 = 0;
    // Converge onto upright first, then tilt.
    for _ in 0..800 {
        m.poll_step(&mut slot, now, Some(upright_sample()));
        now += 20;
    }
    slot.reset();
    m.coordinator.state = AlertState::Idle;
    let tilted = Sample {
        gyro: Vec3Fp { x: 0, y: 0, z: 0 },
        accel: Vec3Fp { x: fp(0.7071), y: 0, z: fp(0.7071) },
    };
    let mut bent_seen = false;
    for _ in 0..800 {
        if let TickOutcome::Classified { bent, .. } = m.poll_step(&mut slot, now, Some(tilted)) {
            if bent {
                bent_seen = true;
            }
        }
        now += 20;
    }
    assert!(bent_seen);
    assert!(slot.is_signaled());
    assert!(matches!(m.coordinator.state, AlertState::Active { .. }));
}
