use wheeldash::calibrate::calibrate;
use wheeldash::calibrate::get_info_by_code;
use wheeldash::calibrate::AbsInfo;
use wheeldash::calibrate::ChannelConfig;
use wheeldash::calibrate::ControlError;
use wheeldash::calibrate::DeviceCaps;
use wheeldash::state::EventKind;

fn abs(minimum: i32, maximum: i32, value: i32) -> AbsInfo {
    AbsInfo { minimum, maximum, value, fuzz: 0, flat: 0, resolution: 0 }
}

fn wheel_caps() -> DeviceCaps {
    DeviceCaps {
        supported_keys: Some(vec![293, 294]),
        pressed_keys: vec![294],
        supported_axes: Some(vec![0, 1, 2, 5, 6]),
        abs_state: vec![
            abs(0, 65535, 32768),
            abs(0, 255, 3),
            abs(0, 255, 0),
            abs(0, 0, 0),
            abs(0, 0, 0),
            abs(0, 255, 255),
            abs(-128, 127, -5),
        ],
    }
}

fn wheel_config() -> ChannelConfig {
    ChannelConfig {
        device: String::from("/dev/input/event7"),
        shift_up_code: 293,
        shift_down_code: 294,
        steering_code: 0,
        throttle_code: 2,
        brake_code: 5,
        clutch_code: 1,
        handbrake_code: 6,
        invert_steering: false,
        invert_throttle: true,
        invert_brake: true,
        invert_clutch: true,
        invert_handbrake: false,
    }
}

#[test]
fn button_resolves_to_unit_range() {
    let caps = wheel_caps();
    let released = get_info_by_code(293, &caps);
    assert_eq!(released, Some((EventKind::Key, 0, 1, 0)));
    let pressed = get_info_by_code(294, &caps);
    assert_eq!(pressed, Some((EventKind::Key, 0, 1, 1)));
}

#[test]
fn axis_resolves_to_descriptor_range() {
    let caps = wheel_caps();
    let steering = get_info_by_code(0, &caps);
    assert_eq!(steering, Some((EventKind::AbsoluteAxis, 0, 65535, 32768)));
    let handbrake = get_info_by_code(6, &caps);
    assert_eq!(handbrake, Some((EventKind::AbsoluteAxis, -128, 127, -5)));
}

#[test]
fn unsupported_code_resolves_to_nothing() {
    let caps = wheel_caps();
    assert_eq!(get_info_by_code(77, &caps), None);
}

#[test]
fn button_wins_over_axis_for_shared_code() {
    let caps = DeviceCaps {
        supported_keys: Some(vec![1]),
        pressed_keys: vec![],
        supported_axes: Some(vec![1]),
        abs_state: vec![abs(0, 0, 0), abs(0, 255, 9)],
    };
    assert_eq!(get_info_by_code(1, &caps), Some((EventKind::Key, 0, 1, 0)));
}

#[test]
fn device_without_keys_still_resolves_axes() {
    let caps = DeviceCaps {
        supported_keys: None,
        pressed_keys: vec![],
        supported_axes: Some(vec![2]),
        abs_state: vec![abs(0, 0, 0), abs(0, 0, 0), abs(0, 255, 17)],
    };
    assert_eq!(get_info_by_code(2, &caps), Some((EventKind::AbsoluteAxis, 0, 255, 17)));
}

#[test]
fn calibrate_fills_every_channel() {
    let state = calibrate(wheel_config(), &wheel_caps()).unwrap();
    assert_eq!(state.device, "/dev/input/event7");
    assert!(!state.shift_up);
    assert!(state.shift_down);
    assert_eq!(state.steering_min, 0);
    assert_eq!(state.steering_max, 65535);
    assert_eq!(state.steering, 32768);
    assert_eq!(state.throttle_min, 0);
    assert_eq!(state.throttle_max, 255);
    assert_eq!(state.throttle, 0);
    assert_eq!(state.brake_max, 255);
    assert_eq!(state.brake, 255);
    assert_eq!(state.clutch, 3);
    assert_eq!(state.handbrake_min, -128);
    assert_eq!(state.handbrake_max, 127);
    assert_eq!(state.handbrake, -5);
    assert!(!state.invert_steering);
    assert!(state.invert_throttle);
    assert!(state.invert_brake);
    assert!(state.invert_clutch);
    assert!(!state.invert_handbrake);
    assert_eq!(state.shift_up_code, 293);
    assert_eq!(state.shift_down_code, 294);
}

#[test]
fn calibrate_fails_on_first_unresolved_code() {
    let mut config = wheel_config();
    config.throttle_code = 40;
    config.handbrake_code = 41;
    let err = calibrate(config, &wheel_caps()).unwrap_err();
    assert_eq!(err, ControlError::ChannelNotFoundError { code: 40 });
}

#[test]
fn calibrate_fails_when_both_capability_sets_are_absent() {
    let caps = DeviceCaps {
        supported_keys: None,
        pressed_keys: vec![],
        supported_axes: None,
        abs_state: vec![],
    };
    let err = calibrate(wheel_config(), &caps).unwrap_err();
    assert_eq!(err, ControlError::ChannelNotFoundError { code: 293 });
}
