use nerd_neck::alert::AlertCoordinator;
use nerd_neck::alert::AlertState;
use nerd_neck::alert::SignalSlot;

#[test]
fn first_bend_triggers_and_opens_a_window() {
    let mut c = AlertCoordinator::new(2000);
    assert!(matches!(c.state, AlertState::Idle));
    assert!(c.on_classification(100, true));
    assert!(matches!(c.state, AlertState::Active { started_at: 100 }));
}

#[test]
fn straight_posture_never_triggers() {
    let mut c = AlertCoordinator::new(2000);
    for t in 0..200u64 {
        assert!(!c.on_classification(t * 20, false));
    }
    assert!(matches!(c.state, AlertState::Idle));
}

#[test]
fn sustained_bend_emits_exactly_once_per_window() {
    // Hold-state idempotence: one trigger, however many consecutive
    // bent classifications arrive while the window is open.
    let mut c = AlertCoordinator::new(2000);
    let mut triggers = 0u32;
    for t in 0..100u64 {
        if c.on_classification(t * 20, true) {
            triggers += 1;
        }
    }
    assert_eq!(triggers, 1);
    assert!(matches!(c.state, AlertState::Active { started_at: 0 }));
}

#[test]
fn second_bend_inside_the_window_is_swallowed() {
    // Two bend events 500 ms apart: the second falls inside the
    // window of the first and produces no new activation.
    let mut c = AlertCoordinator::new(2000);
    assert!(c.on_classification(0, true));
    assert!(!c.on_classification(500, true));
    assert!(matches!(c.state, AlertState::Active { started_at: 0 }));
}

#[test]
fn window_expires_back_to_idle() {
    let mut c = AlertCoordinator::new(2000);
    assert!(c.on_classification(0, true));
    assert!(!c.on_classification(2100, false));
    assert!(matches!(c.state, AlertState::Idle));
}

#[test]
fn a_new_bend_after_expiry_retriggers() {
    let mut c = AlertCoordinator::new(2000);
    assert!(c.on_classification(0, true));
    assert!(!c.on_classification(1999, true));
    assert!(c.on_classification(2000, true));
    assert!(matches!(c.state, AlertState::Active { started_at: 2000 }));
}

#[test]
fn slot_coalesces_and_empties_on_take() {
    let mut s = SignalSlot::new();
    assert!(!s.is_signaled());
    assert!(!s.take());
    s.signal();
    s.signal();
    assert!(s.is_signaled());
    assert!(s.take());
    assert!(!s.take());
}

#[test]
fn slot_reset_clears_a_pending_trigger() {
    let mut s = SignalSlot::new();
    s.signal();
    s.reset();
    assert!(!s.is_signaled());
}
