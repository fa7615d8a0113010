//! One dashboard frame: the clear-and-home sequence, the bidirectional
//! steering bar, and one unidirectional bar per pedal and shift button,
//! with a fixed color per channel kind.

use crate::bars::bar_text;
use crate::bars::draw_bar;
use crate::bars::draw_left_right_bar;
use crate::bars::lemma_ascii_label_len;
use crate::bars::lr_bar_text;
use crate::state::State;
use crate::term::blue_seq;
use crate::term::blue_text_terminal_string;
use crate::term::clear_seq;
use crate::term::clear_terminal_string;
use crate::term::end_color_seq;
use crate::term::end_color_terminal_string;
use crate::term::red_seq;
use crate::term::red_text_terminal_string;
use crate::term::yellow_seq;
use crate::term::yellow_text_terminal_string;
use vstd::prelude::*;
use vstd::string::StringExecFns;
use vstd::utf8::is_ascii_chars;

verus! {

/// The column count a frame falls back to when the terminal's width is
/// unavailable.
pub const FALLBACK_WIDTH: i32 = 50;

/// The width every bar of a frame uses: the terminal's column count when
/// it is available, the fixed fallback otherwise.
pub open spec fn frame_width_spec(cols: Option<u16>) -> int {
    match cols {
        Some(c) => c as int,
        None => FALLBACK_WIDTH as int,
    }
}

/// Picks the bar width for one frame from the terminal's reported column
/// count, if any.
pub fn frame_width(cols: Option<u16>) -> (w: i32)
    ensures
        w as int == frame_width_spec(cols),
{
    match cols {
        Some(c) => c as i32,
        None => FALLBACK_WIDTH,
    }
}

/// The button reading drawn over the `[0, 1]` bar domain.
pub open spec fn button_bar_value(pressed: bool) -> i32 {
    if pressed {
        1i32
    } else {
        0i32
    }
}

/// The characters of one whole frame, in fixed order: clear-and-home,
/// the steering bar, a blank line, the throttle bar in blue, the brake
/// and handbrake bars in red, a blank line, the clutch bar in yellow,
/// and the two uncolored shift bars; every colored bar is closed by the
/// reset sequence and every bar line ends in a newline.
pub open spec fn frame_text(s: State, width: int) -> Seq<char> {
    clear_seq() + lr_bar_text(
        "L/R:"@,
        "L/R:".len() as int,
        s.invert_steering,
        width,
        s.steering_min as int,
        s.steering_max as int,
        s.steering as int,
    ) + "\n\n"@ + blue_seq() + bar_text(
        "T:  "@,
        "T:  ".len() as int,
        true,
        s.invert_throttle,
        width,
        s.throttle_min as int,
        s.throttle_max as int,
        s.throttle as int,
    ) + end_color_seq() + "\n"@ + red_seq() + bar_text(
        "B:  "@,
        "B:  ".len() as int,
        true,
        s.invert_brake,
        width,
        s.brake_min as int,
        s.brake_max as int,
        s.brake as int,
    ) + end_color_seq() + "\n"@ + red_seq() + bar_text(
        "HB: "@,
        "HB: ".len() as int,
        true,
        s.invert_handbrake,
        width,
        s.handbrake_min as int,
        s.handbrake_max as int,
        s.handbrake as int,
    ) + end_color_seq() + "\n\n"@ + yellow_seq() + bar_text(
        "C:  "@,
        "C:  ".len() as int,
        true,
        s.invert_clutch,
        width,
        s.clutch_min as int,
        s.clutch_max as int,
        s.clutch as int,
    ) + end_color_seq() + "\n"@ + bar_text(
        "SU: "@,
        "SU: ".len() as int,
        true,
        false,
        width,
        0,
        1,
        button_bar_value(s.shift_up) as int,
    ) + "\n"@ + bar_text(
        "SD: "@,
        "SD: ".len() as int,
        true,
        false,
        width,
        0,
        1,
        button_bar_value(s.shift_down) as int,
    ) + "\n"@
}

/// Renders the whole frame for one snapshot at the given bar width.
pub fn render_frame(state: &State, width: i32) -> (r: String)
    ensures
        r@ == frame_text(*state, width as int),
{
    proof {
        reveal_strlit("L/R:");
        reveal_strlit("T:  ");
        reveal_strlit("B:  ");
        reveal_strlit("HB: ");
        reveal_strlit("C:  ");
        reveal_strlit("SU: ");
        reveal_strlit("SD: ");
        assert(is_ascii_chars("L/R:"@));
        assert(is_ascii_chars("T:  "@));
        assert(is_ascii_chars("B:  "@));
        assert(is_ascii_chars("HB: "@));
        assert(is_ascii_chars("C:  "@));
        assert(is_ascii_chars("SU: "@));
        assert(is_ascii_chars("SD: "@));
        lemma_ascii_label_len("L/R:"@);
        lemma_ascii_label_len("T:  "@);
        lemma_ascii_label_len("B:  "@);
        lemma_ascii_label_len("HB: "@);
        lemma_ascii_label_len("C:  "@);
        lemma_ascii_label_len("SU: "@);
        lemma_ascii_label_len("SD: "@);
    }
    let mut out = clear_terminal_string();

    let steering_bar = draw_left_right_bar(
        "L/R:",
        state.invert_steering,
        width,
        state.steering_min,
        state.steering_max,
        state.steering,
    );
    out.append(steering_bar.as_str());
    out.append("\n\n");

    let color = blue_text_terminal_string();
    out.append(color.as_str());
    let throttle_bar = draw_bar(
        "T:  ",
        true,
        state.invert_throttle,
        width,
        state.throttle_min,
        state.throttle_max,
        state.throttle,
    );
    out.append(throttle_bar.as_str());
    let reset = end_color_terminal_string();
    out.append(reset.as_str());
    out.append("\n");

    let color = red_text_terminal_string();
    out.append(color.as_str());
    let brake_bar = draw_bar(
        "B:  ",
        true,
        state.invert_brake,
        width,
        state.brake_min,
        state.brake_max,
        state.brake,
    );
    out.append(brake_bar.as_str());
    let reset = end_color_terminal_string();
    out.append(reset.as_str());
    out.append("\n");

    let color = red_text_terminal_string();
    out.append(color.as_str());
    let handbrake_bar = draw_bar(
        "HB: ",
        true,
        state.invert_handbrake,
        width,
        state.handbrake_min,
        state.handbrake_max,
        state.handbrake,
    );
    out.append(handbrake_bar.as_str());
    let reset = end_color_terminal_string();
    out.append(reset.as_str());
    out.append("\n\n");

    let color = yellow_text_terminal_string();
    out.append(color.as_str());
    let clutch_bar = draw_bar(
        "C:  ",
        true,
        state.invert_clutch,
        width,
        state.clutch_min,
        state.clutch_max,
        state.clutch,
    );
    out.append(clutch_bar.as_str());
    let reset = end_color_terminal_string();
    out.append(reset.as_str());
    out.append("\n");

    let shift_up_bar = draw_bar(
        "SU: ",
        true,
        false,
        width,
        0,
        1,
        if state.shift_up {
            1
        } else {
            0
        },
    );
    out.append(shift_up_bar.as_str());
    out.append("\n");

    let shift_down_bar = draw_bar(
        "SD: ",
        true,
        false,
        width,
        0,
        1,
        if state.shift_down {
            1
        } else {
            0
        },
    );
    out.append(shift_down_bar.as_str());
    out.append("\n");

    proof {
        assert(out@ =~= frame_text(*state, width as int));
    }
    out
}

} // verus!
