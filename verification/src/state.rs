//! The live snapshot of all seven control channels and the single
//! mutation entry point that folds device events into it.

use vstd::prelude::*;

verus! {

/// Kind of a device event, as far as the dashboard cares: key (button)
/// events, absolute-axis events, and the synchronization markers that
/// separate event batches and never carry a control position.
#[derive(Clone, Copy, Debug, PartialEq, Eq, Structural)]
pub enum EventKind {
    Key,
    AbsoluteAxis,
    Synchronization,
}

/// The canonical snapshot: the device identifier, and per channel the
/// configured event code, the calibrated range, the current reading and
/// the configured inversion flag. Shift buttons hold a pressed flag over
/// the fixed range `[0, 1]` and never invert.
#[derive(Debug)]
pub struct State {
    pub device: String,
    pub shift_up_code: u16,
    pub shift_up: bool,
    pub shift_down_code: u16,
    pub shift_down: bool,
    pub steering_code: u16,
    pub steering_min: i32,
    pub steering_max: i32,
    pub steering: i32,
    pub invert_steering: bool,
    pub throttle_code: u16,
    pub throttle_min: i32,
    pub throttle_max: i32,
    pub throttle: i32,
    pub invert_throttle: bool,
    pub brake_code: u16,
    pub brake_min: i32,
    pub brake_max: i32,
    pub brake: i32,
    pub invert_brake: bool,
    pub clutch_code: u16,
    pub clutch_min: i32,
    pub clutch_max: i32,
    pub clutch: i32,
    pub invert_clutch: bool,
    pub handbrake_code: u16,
    pub handbrake_min: i32,
    pub handbrake_max: i32,
    pub handbrake: i32,
    pub invert_handbrake: bool,
}

/// What one event does to the snapshot: a synchronization event changes
/// nothing; any other event overwrites the value of the first channel
/// whose code matches, and an event matching no channel is ignored.
pub open spec fn apply_spec(s: State, kind: EventKind, code: u16, value: i32) -> State {
    if kind == EventKind::Synchronization {
        s
    } else if code == s.shift_up_code {
        State { shift_up: value != 0, ..s }
    } else if code == s.shift_down_code {
        State { shift_down: value != 0, ..s }
    } else if code == s.steering_code {
        State { steering: value, ..s }
    } else if code == s.throttle_code {
        State { throttle: value, ..s }
    } else if code == s.brake_code {
        State { brake: value, ..s }
    } else if code == s.clutch_code {
        State { clutch: value, ..s }
    } else if code == s.handbrake_code {
        State { handbrake: value, ..s }
    } else {
        s
    }
}

/// The snapshot after a whole sequence of events, applied in order.
pub open spec fn replay(s: State, events: Seq<(EventKind, u16, i32)>) -> State
    decreases events.len(),
{
    if events.len() == 0 {
        s
    } else {
        replay(apply_spec(s, events[0].0, events[0].1, events[0].2), events.drop_first())
    }
}

/// True when `code` is the code of one of the seven channels.
pub open spec fn hits_channel(s: State, code: u16) -> bool {
    code == s.shift_up_code || code == s.shift_down_code || code == s.steering_code || code
        == s.throttle_code || code == s.brake_code || code == s.clutch_code || code
        == s.handbrake_code
}

/// The reading stored for the first channel whose code is `code`, with a
/// button's pressed flag read as `1` or `0`.
pub open spec fn stored_value(s: State, code: u16) -> i32 {
    if code == s.shift_up_code {
        if s.shift_up {
            1i32
        } else {
            0i32
        }
    } else if code == s.shift_down_code {
        if s.shift_down {
            1i32
        } else {
            0i32
        }
    } else if code == s.steering_code {
        s.steering
    } else if code == s.throttle_code {
        s.throttle
    } else if code == s.brake_code {
        s.brake
    } else if code == s.clutch_code {
        s.clutch
    } else {
        s.handbrake
    }
}

/// The reading that storing `value` into the channel of `code` leaves
/// behind: `1` or `0` for a shift button, the value itself elsewhere.
pub open spec fn normalized_value(s: State, code: u16, value: i32) -> i32 {
    if code == s.shift_up_code || code == s.shift_down_code {
        if value != 0 {
            1i32
        } else {
            0i32
        }
    } else {
        value
    }
}

impl State {
    /// Folds one event into the snapshot: a no-op for synchronization
    /// events, an overwrite of the first matching channel's value
    /// otherwise, and a no-op when no channel listens for the code.
    pub fn apply(&mut self, kind: EventKind, code: u16, value: i32)
        ensures
            *final(self) == apply_spec(*old(self), kind, code, value),
            kind == EventKind::Synchronization ==> *final(self) == *old(self),
    {
        match kind {
            EventKind::Synchronization => {},
            _ => {
                if code == self.shift_up_code {
                    self.shift_up = value != 0;
                } else if code == self.shift_down_code {
                    self.shift_down = value != 0;
                } else if code == self.steering_code {
                    self.steering = value;
                } else if code == self.throttle_code {
                    self.throttle = value;
                } else if code == self.brake_code {
                    self.brake = value;
                } else if code == self.clutch_code {
                    self.clutch = value;
                } else if code == self.handbrake_code {
                    self.handbrake = value;
                }
            },
        }
    }
}

/// A synchronization event never changes the snapshot, wherever it
/// stands in the stream.
pub proof fn lemma_sync_event_no_change(s: State, code: u16, value: i32)
    ensures
        apply_spec(s, EventKind::Synchronization, code, value) == s,
{
}

/// Replaying a non-empty sequence of non-synchronization events that all
/// carry the code of one channel leaves that channel's stored reading
/// equal to the last event's value (read as pressed/released for a shift
/// button).
pub proof fn lemma_replay_last_event(s: State, events: Seq<(EventKind, u16, i32)>, code: u16)
    requires
        events.len() > 0,
        forall|i: int|
            0 <= i < events.len() ==> (#[trigger] events[i]).0 != EventKind::Synchronization
                && events[i].1 == code,
        hits_channel(s, code),
    ensures
        stored_value(replay(s, events), code) == normalized_value(s, code, events.last().2),
    decreases events.len(),
{
    let s1 = apply_spec(s, events[0].0, events[0].1, events[0].2);
    if events.len() == 1 {
        assert(events.drop_first().len() == 0);
        assert(replay(s1, events.drop_first()) == s1);
        assert(replay(s, events) == s1);
    } else {
        assert(forall|i: int|
            0 <= i < events.drop_first().len() ==> (#[trigger] events.drop_first()[i]).0
                != EventKind::Synchronization && events.drop_first()[i].1 == code);
        lemma_replay_last_event(s1, events.drop_first(), code);
        assert(events.drop_first().last() == events.last());
    }
}

} // verus!
