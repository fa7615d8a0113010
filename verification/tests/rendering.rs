use wheeldash::bars::draw_bar;
use wheeldash::bars::draw_left_right_bar;
use wheeldash::codes::fmt_i32;
use wheeldash::codes::fmt_u64;
use wheeldash::codes::format_codes;
use wheeldash::calibrate::AbsInfo;
use wheeldash::calibrate::DeviceCaps;
use wheeldash::frame::frame_width;
use wheeldash::frame::render_frame;
use wheeldash::state::State;
use wheeldash::term::blue_text_terminal_string;
use wheeldash::term::clear_terminal_string;
use wheeldash::term::cyan_text_terminal_string;
use wheeldash::term::end_color_terminal_string;
use wheeldash::term::green_text_terminal_string;
use wheeldash::term::purple_text_terminal_string;
use wheeldash::term::red_text_terminal_string;
use wheeldash::term::yellow_text_terminal_string;

#[test]
fn escape_sequences_are_fixed() {
    assert_eq!(clear_terminal_string(), "\x1b[2J\x1b[H");
    assert_eq!(red_text_terminal_string(), "\x1b[91m");
    assert_eq!(green_text_terminal_string(), "\x1b[92m");
    assert_eq!(yellow_text_terminal_string(), "\x1b[93m");
    assert_eq!(blue_text_terminal_string(), "\x1b[94m");
    assert_eq!(purple_text_terminal_string(), "\x1b[95m");
    assert_eq!(cyan_text_terminal_string(), "\x1b[96m");
    assert_eq!(end_color_terminal_string(), "\x1b[m");
}

#[test]
fn decimal_rendering_is_exact() {
    assert_eq!(fmt_u64(0), "0");
    assert_eq!(fmt_u64(7), "7");
    assert_eq!(fmt_u64(10), "10");
    assert_eq!(fmt_u64(65535), "65535");
    assert_eq!(fmt_u64(18446744073709551615), "18446744073709551615");
    assert_eq!(fmt_i32(0), "0");
    assert_eq!(fmt_i32(-1), "-1");
    assert_eq!(fmt_i32(-32768), "-32768");
    assert_eq!(fmt_i32(2147483647), "2147483647");
    assert_eq!(fmt_i32(-2147483648), "-2147483648");
}

#[test]
fn capability_listing_matches_line_by_line() {
    let caps = DeviceCaps {
        supported_keys: Some(vec![1, 293]),
        pressed_keys: vec![293],
        supported_axes: Some(vec![0]),
        abs_state: vec![AbsInfo {
            minimum: -32768,
            maximum: 32767,
            value: 12,
            fuzz: 16,
            flat: 128,
            resolution: 0,
        }],
    };
    let listing = format_codes(&caps);
    assert_eq!(
        listing,
        "KEY 1\nKEY 293\nABS 0: min -32768, max 32767, current 12, fuzz 16, flat 128, resolution 0\n"
    );
}

#[test]
fn capability_listing_reports_missing_event_kinds() {
    let caps = DeviceCaps {
        supported_keys: None,
        pressed_keys: vec![],
        supported_axes: None,
        abs_state: vec![],
    };
    let listing = format_codes(&caps);
    assert_eq!(listing, "device has no KEY events\ndevice has no ABS events\n");
}

#[test]
fn frame_width_prefers_the_terminal() {
    assert_eq!(frame_width(Some(80)), 80);
    assert_eq!(frame_width(Some(1)), 1);
    assert_eq!(frame_width(None), 50);
}

#[test]
fn frame_composes_all_bars_in_order() {
    let state = State {
        device: String::from("/dev/input/event7"),
        shift_up_code: 293,
        shift_up: true,
        shift_down_code: 294,
        shift_down: false,
        steering_code: 0,
        steering_min: 0,
        steering_max: 100,
        steering: 25,
        invert_steering: false,
        throttle_code: 2,
        throttle_min: 0,
        throttle_max: 255,
        throttle: 255,
        invert_throttle: false,
        brake_code: 5,
        brake_min: 0,
        brake_max: 255,
        brake: 0,
        invert_brake: false,
        clutch_code: 1,
        clutch_min: 0,
        clutch_max: 255,
        clutch: 100,
        invert_clutch: false,
        handbrake_code: 6,
        handbrake_min: 0,
        handbrake_max: 1,
        handbrake: 1,
        invert_handbrake: false,
    };
    let width = 20;
    let frame = render_frame(&state, width);

    let mut expected = clear_terminal_string();
    expected.push_str(&draw_left_right_bar("L/R:", false, width, 0, 100, 25));
    expected.push_str("\n\n");
    expected.push_str(&blue_text_terminal_string());
    expected.push_str(&draw_bar("T:  ", true, false, width, 0, 255, 255));
    expected.push_str(&end_color_terminal_string());
    expected.push('\n');
    expected.push_str(&red_text_terminal_string());
    expected.push_str(&draw_bar("B:  ", true, false, width, 0, 255, 0));
    expected.push_str(&end_color_terminal_string());
    expected.push('\n');
    expected.push_str(&red_text_terminal_string());
    expected.push_str(&draw_bar("HB: ", true, false, width, 0, 1, 1));
    expected.push_str(&end_color_terminal_string());
    expected.push_str("\n\n");
    expected.push_str(&yellow_text_terminal_string());
    expected.push_str(&draw_bar("C:  ", true, false, width, 0, 255, 100));
    expected.push_str(&end_color_terminal_string());
    expected.push('\n');
    expected.push_str(&draw_bar("SU: ", true, false, width, 0, 1, 1));
    expected.push('\n');
    expected.push_str(&draw_bar("SD: ", true, false, width, 0, 1, 0));
    expected.push('\n');

    assert_eq!(frame, expected);
}

#[test]
fn frame_at_exact_values() {
    let state = State {
        device: String::new(),
        shift_up_code: 293,
        shift_up: false,
        shift_down_code: 294,
        shift_down: false,
        steering_code: 0,
        steering_min: 0,
        steering_max: 100,
        steering: 50,
        invert_steering: false,
        throttle_code: 2,
        throttle_min: 0,
        throttle_max: 100,
        throttle: 100,
        invert_throttle: false,
        brake_code: 5,
        brake_min: 0,
        brake_max: 100,
        brake: 0,
        invert_brake: false,
        clutch_code: 1,
        clutch_min: 0,
        clutch_max: 100,
        clutch: 0,
        invert_clutch: false,
        handbrake_code: 6,
        handbrake_min: 0,
        handbrake_max: 100,
        handbrake: 0,
        invert_handbrake: false,
    };
    let frame = render_frame(&state, 12);
    let expected = "\x1b[2J\x1b[H\
                    L/R:|  ||  |\n\n\
                    \x1b[94mT:  |██████|\x1b[m\n\
                    \x1b[91mB:  |      |\x1b[m\n\
                    \x1b[91mHB: |      |\x1b[m\n\n\
                    \x1b[93mC:  |      |\x1b[m\n\
                    SU: |      |\n\
                    SD: |      |\n";
    assert_eq!(frame, expected);
}
