use wheeldash::state::EventKind;
use wheeldash::state::State;

fn fresh_state() -> State {
    State {
        device: String::from("/dev/input/event7"),
        shift_up_code: 293,
        shift_up: false,
        shift_down_code: 294,
        shift_down: false,
        steering_code: 0,
        steering_min: 0,
        steering_max: 65535,
        steering: 32768,
        invert_steering: false,
        throttle_code: 2,
        throttle_min: 0,
        throttle_max: 255,
        throttle: 0,
        invert_throttle: true,
        brake_code: 5,
        brake_min: 0,
        brake_max: 255,
        brake: 0,
        invert_brake: true,
        clutch_code: 1,
        clutch_min: 0,
        clutch_max: 255,
        clutch: 0,
        invert_clutch: true,
        handbrake_code: 6,
        handbrake_min: 0,
        handbrake_max: 255,
        handbrake: 0,
        invert_handbrake: false,
    }
}

#[test]
fn last_event_wins_for_one_channel() {
    let mut s = fresh_state();
    s.apply(EventKind::AbsoluteAxis, 2, 10);
    s.apply(EventKind::AbsoluteAxis, 2, 200);
    s.apply(EventKind::AbsoluteAxis, 2, 37);
    assert_eq!(s.throttle, 37);
}

#[test]
fn synchronization_changes_nothing() {
    let mut s = fresh_state();
    s.apply(EventKind::AbsoluteAxis, 0, 11111);
    s.apply(EventKind::Synchronization, 0, 22222);
    assert_eq!(s.steering, 11111);
    s.apply(EventKind::Synchronization, 293, 1);
    assert!(!s.shift_up);
}

#[test]
fn unknown_code_is_ignored() {
    let mut s = fresh_state();
    s.apply(EventKind::AbsoluteAxis, 99, 12345);
    assert_eq!(s.steering, 32768);
    assert_eq!(s.throttle, 0);
    assert_eq!(s.brake, 0);
    assert_eq!(s.clutch, 0);
    assert_eq!(s.handbrake, 0);
    assert!(!s.shift_up);
    assert!(!s.shift_down);
}

#[test]
fn button_events_store_pressed_flag() {
    let mut s = fresh_state();
    s.apply(EventKind::Key, 293, 5);
    assert!(s.shift_up);
    s.apply(EventKind::Key, 293, 0);
    assert!(!s.shift_up);
    s.apply(EventKind::Key, 294, 1);
    assert!(s.shift_down);
}

#[test]
fn value_may_leave_calibrated_range() {
    let mut s = fresh_state();
    s.apply(EventKind::AbsoluteAxis, 5, 999);
    assert_eq!(s.brake, 999);
    s.apply(EventKind::AbsoluteAxis, 5, -3);
    assert_eq!(s.brake, -3);
}
