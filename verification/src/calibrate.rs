//! Startup calibration: resolving each configured event code against the
//! device's reported capabilities into a channel kind, a range and an
//! initial value, and building the initial control snapshot from all
//! seven channels.

use crate::state::EventKind;
use crate::state::State;
use vstd::prelude::*;

verus! {

/// One axis descriptor as the device reports it.
#[derive(Clone, Copy, Debug, PartialEq, Eq, Structural)]
pub struct AbsInfo {
    pub minimum: i32,
    pub maximum: i32,
    pub value: i32,
    pub fuzz: i32,
    pub flat: i32,
    pub resolution: i32,
}

/// A snapshot of the device's capabilities, queried once at startup:
/// the supported button codes (absent when the device reports no key
/// events at all), the currently pressed buttons, the supported axis
/// codes (absent likewise), and the axis descriptor table indexed by
/// axis code.
#[derive(Debug)]
pub struct DeviceCaps {
    pub supported_keys: Option<Vec<u16>>,
    pub pressed_keys: Vec<u16>,
    pub supported_axes: Option<Vec<u16>>,
    pub abs_state: Vec<AbsInfo>,
}

/// The failures of the calibration-and-polling pipeline. Opening the
/// device, querying its capabilities and fetching events fail in the
/// surrounding program; an unresolved channel code fails here.
#[derive(Clone, Copy, Debug, PartialEq, Eq, Structural)]
pub enum ControlError {
    DeviceOpenError,
    CapabilityQueryError,
    ChannelNotFoundError { code: u16 },
    EventFetchError,
}

/// The configured inputs: the device identifier, one event code per
/// channel, and the inversion flags (shift buttons never invert).
#[derive(Debug, Clone)]
pub struct ChannelConfig {
    pub device: String,
    pub shift_up_code: u16,
    pub shift_down_code: u16,
    pub steering_code: u16,
    pub throttle_code: u16,
    pub brake_code: u16,
    pub clutch_code: u16,
    pub handbrake_code: u16,
    pub invert_steering: bool,
    pub invert_throttle: bool,
    pub invert_brake: bool,
    pub invert_clutch: bool,
    pub invert_handbrake: bool,
}

impl DeviceCaps {
    /// Every supported axis code has a descriptor at its index, as the
    /// kernel's fixed-size axis table guarantees.
    pub open spec fn wf(self) -> bool {
        self.supported_axes matches Some(axes) ==> forall|i: int|
            0 <= i < axes@.len() ==> (#[trigger] axes@[i]) < self.abs_state@.len()
    }
}

/// `code` is among the device's supported button codes.
pub open spec fn key_supported(caps: DeviceCaps, code: u16) -> bool {
    caps.supported_keys matches Some(keys) && keys@.contains(code)
}

/// `code` is among the device's supported axis codes.
pub open spec fn axis_supported(caps: DeviceCaps, code: u16) -> bool {
    caps.supported_axes matches Some(axes) && axes@.contains(code)
}

/// `code` resolves to a channel: the device supports it as a button or
/// as an axis.
pub open spec fn resolves(caps: DeviceCaps, code: u16) -> bool {
    key_supported(caps, code) || axis_supported(caps, code)
}

/// What calibration resolves for `code`: a supported button becomes a
/// key channel over `[0, 1]` whose initial value says whether the button
/// is pressed now; otherwise a supported axis becomes an axis channel
/// with the descriptor's range and current value; otherwise nothing.
pub open spec fn resolved_info(caps: DeviceCaps, code: u16) -> Option<(EventKind, i32, i32, i32)> {
    if key_supported(caps, code) {
        Some(
            (
                EventKind::Key,
                0i32,
                1i32,
                if caps.pressed_keys@.contains(code) {
                    1i32
                } else {
                    0i32
                },
            ),
        )
    } else if axis_supported(caps, code) {
        let a = caps.abs_state@[code as int];
        Some((EventKind::AbsoluteAxis, a.minimum, a.maximum, a.value))
    } else {
        None
    }
}

/// Whether `codes` holds `code`.
fn codes_contain(codes: &Vec<u16>, code: u16) -> (b: bool)
    ensures
        b == codes@.contains(code),
{
    let mut i: usize = 0;
    while i < codes.len()
        invariant
            0 <= i <= codes@.len(),
            forall|j: int| 0 <= j < i ==> codes@[j] != code,
        decreases codes@.len() - i,
    {
        if codes[i] == code {
            return true;
        }
        i = i + 1;
    }
    false
}

/// Resolves one configured code against the capability snapshot, as a
/// button first and as an axis second: the channel kind, the range ends
/// and the initial value, or nothing when the device supports the code
/// neither way.
pub fn get_info_by_code(code: u16, caps: &DeviceCaps) -> (r: Option<(EventKind, i32, i32, i32)>)
    requires
        caps.wf(),
    ensures
        r == resolved_info(*caps, code),
        r is Some <==> resolves(*caps, code),
{
    match &caps.supported_keys {
        Some(keys) => {
            if codes_contain(keys, code) {
                let pressed = codes_contain(&caps.pressed_keys, code);
                return Some(
                    (
                        EventKind::Key,
                        0,
                        1,
                        if pressed {
                            1
                        } else {
                            0
                        },
                    ),
                );
            }
        },
        None => {},
    }
    match &caps.supported_axes {
        Some(axes) => {
            if codes_contain(axes, code) {
                proof {
                    let j = choose|j: int| 0 <= j < axes@.len() && axes@[j] == code;
                    assert(axes@[j] < caps.abs_state@.len());
                }
                let index: usize = code as usize;
                let info = caps.abs_state[index];
                return Some((EventKind::AbsoluteAxis, info.minimum, info.maximum, info.value));
            }
        },
        None => {},
    }
    None
}

/// The snapshot that calibration leaves behind when every configured
/// code resolves: each axis channel carries its descriptor's range and
/// current value, each button channel its pressed flag, and the ranges
/// of channels resolved as buttons keep their configured defaults as the
/// shift channels do.
pub open spec fn calibrated_state(config: ChannelConfig, caps: DeviceCaps) -> State {
    let su = resolved_info(caps, config.shift_up_code)->Some_0;
    let sd = resolved_info(caps, config.shift_down_code)->Some_0;
    let st = resolved_info(caps, config.steering_code)->Some_0;
    let th = resolved_info(caps, config.throttle_code)->Some_0;
    let br = resolved_info(caps, config.brake_code)->Some_0;
    let cl = resolved_info(caps, config.clutch_code)->Some_0;
    let hb = resolved_info(caps, config.handbrake_code)->Some_0;
    State {
        device: config.device,
        shift_up_code: config.shift_up_code,
        shift_up: su.3 != 0,
        shift_down_code: config.shift_down_code,
        shift_down: sd.3 != 0,
        steering_code: config.steering_code,
        steering_min: st.1,
        steering_max: st.2,
        steering: st.3,
        invert_steering: config.invert_steering,
        throttle_code: config.throttle_code,
        throttle_min: th.1,
        throttle_max: th.2,
        throttle: th.3,
        invert_throttle: config.invert_throttle,
        brake_code: config.brake_code,
        brake_min: br.1,
        brake_max: br.2,
        brake: br.3,
        invert_brake: config.invert_brake,
        clutch_code: config.clutch_code,
        clutch_min: cl.1,
        clutch_max: cl.2,
        clutch: cl.3,
        invert_clutch: config.invert_clutch,
        handbrake_code: config.handbrake_code,
        handbrake_min: hb.1,
        handbrake_max: hb.2,
        handbrake: hb.3,
        invert_handbrake: config.invert_handbrake,
    }
}

/// The first configured code, in calibration order, that resolves
/// neither as a button nor as an axis.
pub open spec fn first_unresolved(config: ChannelConfig, caps: DeviceCaps) -> u16 {
    if !resolves(caps, config.shift_up_code) {
        config.shift_up_code
    } else if !resolves(caps, config.shift_down_code) {
        config.shift_down_code
    } else if !resolves(caps, config.steering_code) {
        config.steering_code
    } else if !resolves(caps, config.throttle_code) {
        config.throttle_code
    } else if !resolves(caps, config.brake_code) {
        config.brake_code
    } else if !resolves(caps, config.clutch_code) {
        config.clutch_code
    } else {
        config.handbrake_code
    }
}

/// All seven configured codes resolve.
pub open spec fn all_resolve(config: ChannelConfig, caps: DeviceCaps) -> bool {
    resolves(caps, config.shift_up_code) && resolves(caps, config.shift_down_code) && resolves(
        caps,
        config.steering_code,
    ) && resolves(caps, config.throttle_code) && resolves(caps, config.brake_code) && resolves(
        caps,
        config.clutch_code,
    ) && resolves(caps, config.handbrake_code)
}

/// Calibrates all seven channels in a fixed order (shift up, shift down,
/// steering, throttle, brake, clutch, handbrake): succeeds with the
/// initial snapshot exactly when every configured code resolves, and
/// otherwise fails naming the first code that resolves neither as a
/// button nor as an axis.
pub fn calibrate(config: ChannelConfig, caps: &DeviceCaps) -> (r: Result<State, ControlError>)
    requires
        caps.wf(),
    ensures
        r is Ok <==> all_resolve(config, *caps),
        r is Ok ==> r->Ok_0 == calibrated_state(config, *caps),
        r is Err ==> r->Err_0 == (ControlError::ChannelNotFoundError {
            code: first_unresolved(config, *caps),
        }),
{
    let su = match get_info_by_code(config.shift_up_code, caps) {
        Some(info) => info,
        None => {
            return Err(ControlError::ChannelNotFoundError { code: config.shift_up_code });
        },
    };
    let sd = match get_info_by_code(config.shift_down_code, caps) {
        Some(info) => info,
        None => {
            return Err(ControlError::ChannelNotFoundError { code: config.shift_down_code });
        },
    };
    let st = match get_info_by_code(config.steering_code, caps) {
        Some(info) => info,
        None => {
            return Err(ControlError::ChannelNotFoundError { code: config.steering_code });
        },
    };
    let th = match get_info_by_code(config.throttle_code, caps) {
        Some(info) => info,
        None => {
            return Err(ControlError::ChannelNotFoundError { code: config.throttle_code });
        },
    };
    let br = match get_info_by_code(config.brake_code, caps) {
        Some(info) => info,
        None => {
            return Err(ControlError::ChannelNotFoundError { code: config.brake_code });
        },
    };
    let cl = match get_info_by_code(config.clutch_code, caps) {
        Some(info) => info,
        None => {
            return Err(ControlError::ChannelNotFoundError { code: config.clutch_code });
        },
    };
    let hb = match get_info_by_code(config.handbrake_code, caps) {
        Some(info) => info,
        None => {
            return Err(ControlError::ChannelNotFoundError { code: config.handbrake_code });
        },
    };
    Ok(
        State {
            device: config.device,
            shift_up_code: config.shift_up_code,
            shift_up: su.3 != 0,
            shift_down_code: config.shift_down_code,
            shift_down: sd.3 != 0,
            steering_code: config.steering_code,
            steering_min: st.1,
            steering_max: st.2,
            steering: st.3,
            invert_steering: config.invert_steering,
            throttle_code: config.throttle_code,
            throttle_min: th.1,
            throttle_max: th.2,
            throttle: th.3,
            invert_throttle: config.invert_throttle,
            brake_code: config.brake_code,
            brake_min: br.1,
            brake_max: br.2,
            brake: br.3,
            invert_brake: config.invert_brake,
            clutch_code: config.clutch_code,
            clutch_min: cl.1,
            clutch_max: cl.2,
            clutch: cl.3,
            invert_clutch: config.invert_clutch,
            handbrake_code: config.handbrake_code,
            handbrake_min: hb.1,
            handbrake_max: hb.2,
            handbrake: hb.3,
            invert_handbrake: config.invert_handbrake,
        },
    )
}

} // verus!
