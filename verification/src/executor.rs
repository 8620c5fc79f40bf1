//! Device commands: from a key and a value to the action that is sent to a
//! device, and from the device's answer to the mirrored state.
//!
//! A change is carried out in two parts, with the transmission between them:
//! the action and its frame are chosen first; the mirrored state follows the
//! action only once the device has confirmed it.

use crate::device::{DeviceState, EqualizerType};
use crate::frames::{
    build_equalizer_frame, build_noise_reduction_frame, build_touchpad_lock_frame, code_of_preset,
    decode_equalizer, equalizer_frame, noise_reduction_frame, preset_of_code, touchpad_lock_frame,
    EQUALIZER, LOCK_TOUCHPAD, SET_NOISE_REDUCTION,
};
use crate::text::{boolean, parse_bool, parse_small_number, same_text, small_number};
use vstd::prelude::*;

verus! {

/// What a device is told to do.
#[derive(Clone, Copy, Debug, PartialEq, Eq, Structural)]
pub enum DeviceAction {
    SetNoiseReduction(bool),
    LockTouchpad(bool),
    SetEqualizer(EqualizerType),
}

impl DeviceAction {
    /// The frame that carries the action to the device.
    pub open spec fn frame(self) -> Seq<u8> {
        match self {
            DeviceAction::SetNoiseReduction(enabled) => noise_reduction_frame(enabled),
            DeviceAction::LockTouchpad(locked) => touchpad_lock_frame(locked),
            DeviceAction::SetEqualizer(preset) => equalizer_frame(preset),
        }
    }

    /// The identifier of the message that carries the action.
    pub open spec fn identifier(self) -> u8 {
        match self {
            DeviceAction::SetNoiseReduction(_) => SET_NOISE_REDUCTION,
            DeviceAction::LockTouchpad(_) => LOCK_TOUCHPAD,
            DeviceAction::SetEqualizer(_) => EQUALIZER,
        }
    }

    /// The byte that carries the action's value: 1 for on and 0 for off, or
    /// the code of the preset.
    pub open spec fn argument(self) -> u8 {
        match self {
            DeviceAction::SetNoiseReduction(enabled) => if enabled { 1 } else { 0 },
            DeviceAction::LockTouchpad(locked) => if locked { 1 } else { 0 },
            DeviceAction::SetEqualizer(preset) => code_of_preset(preset),
        }
    }

    /// Whether a frame is laid out as the message of this action: eight
    /// bytes, the identifier fourth, the value fifth.
    pub open spec fn is_carried_by(self, frame: Seq<u8>) -> bool {
        &&& frame.len() == 8
        &&& frame[3] == self.identifier()
        &&& frame[4] == self.argument()
    }

    /// The mirrored state once the device has confirmed the action.
    pub open spec fn confirmed(self, state: DeviceState) -> DeviceState {
        match self {
            DeviceAction::SetNoiseReduction(enabled) => DeviceState {
                noise_reduction: enabled,
                ..state
            },
            DeviceAction::LockTouchpad(locked) => DeviceState { touchpads_blocked: locked, ..state },
            DeviceAction::SetEqualizer(preset) => DeviceState { equalizer_type: preset, ..state },
        }
    }

    /// Builds the frame that carries the action to the device.
    pub fn to_frame(&self) -> (frame: Vec<u8>)
        ensures
            frame@ == self.frame(),
            self.is_carried_by(frame@),
    {
        match self {
            DeviceAction::SetNoiseReduction(enabled) => build_noise_reduction_frame(*enabled),
            DeviceAction::LockTouchpad(locked) => build_touchpad_lock_frame(*locked),
            DeviceAction::SetEqualizer(preset) => build_equalizer_frame(*preset),
        }
    }

    /// Writes a confirmed action into the mirrored state.
    pub fn confirm(&self, state: DeviceState) -> (next: DeviceState)
        ensures
            next == self.confirmed(state),
    {
        match self {
            DeviceAction::SetNoiseReduction(enabled) => DeviceState {
                noise_reduction: *enabled,
                touchpads_blocked: state.touchpads_blocked,
                equalizer_type: state.equalizer_type,
            },
            DeviceAction::LockTouchpad(locked) => DeviceState {
                noise_reduction: state.noise_reduction,
                touchpads_blocked: *locked,
                equalizer_type: state.equalizer_type,
            },
            DeviceAction::SetEqualizer(preset) => DeviceState {
                noise_reduction: state.noise_reduction,
                touchpads_blocked: state.touchpads_blocked,
                equalizer_type: *preset,
            },
        }
    }
}

/// Whether a result of the executor is the expected one: the same action, or
/// a failure with the same reason.
pub open spec fn is_outcome<T>(got: Result<T, String>, expected: Result<T, Seq<char>>) -> bool {
    match (got, expected) {
        (Ok(a), Ok(b)) => a == b,
        (Err(reason), Err(text)) => reason@ == text,
        _ => false,
    }
}

/// The action that a key and a value ask for.
///
/// `noise_reduction` and `lock_touchpad` take a boolean, read by the strict
/// rule; `equalizer` takes the code of a preset, a number from 0 to 255. A
/// value that does not read so is refused with "could not parse value", and
/// nothing is sent. Any other key is refused with "Invalid key".
pub open spec fn action_for(key: Seq<char>, value: Seq<char>) -> Result<DeviceAction, Seq<char>> {
    if key == "noise_reduction"@ {
        match boolean(value) {
            Some(enabled) => Ok(DeviceAction::SetNoiseReduction(enabled)),
            None => Err("could not parse value"@),
        }
    } else if key == "lock_touchpad"@ {
        match boolean(value) {
            Some(locked) => Ok(DeviceAction::LockTouchpad(locked)),
            None => Err("could not parse value"@),
        }
    } else if key == "equalizer"@ {
        match small_number(value) {
            Some(code) => Ok(DeviceAction::SetEqualizer(preset_of_code(code))),
            None => Err("could not parse value"@),
        }
    } else {
        Err("Invalid key"@)
    }
}

/// The action that toggles the setting under a key: the opposite of what is
/// mirrored. Only `noise_reduction` and `lock_touchpad` can be toggled.
pub open spec fn toggle_for(key: Seq<char>, state: DeviceState) -> Result<DeviceAction, Seq<char>> {
    if key == "noise_reduction"@ {
        Ok(DeviceAction::SetNoiseReduction(!state.noise_reduction))
    } else if key == "lock_touchpad"@ {
        Ok(DeviceAction::LockTouchpad(!state.touchpads_blocked))
    } else {
        Err("Invalid key"@)
    }
}

/// What a transmission leaves behind: the confirmed action in the mirrored
/// state, or, after a failed transmission, the state as it was.
pub open spec fn settled(state: DeviceState, action: DeviceAction, sent: bool) -> DeviceState {
    if sent {
        action.confirmed(state)
    } else {
        state
    }
}

/// Chooses the action for a key and a value.
pub fn set_buds_option(key: &str, value: &str) -> (action: Result<DeviceAction, String>)
    ensures
        is_outcome(action, action_for(key@, value@)),
{
    if same_text(key, "noise_reduction") {
        match parse_bool(value) {
            Some(enabled) => Ok(DeviceAction::SetNoiseReduction(enabled)),
            None => Err("could not parse value".to_owned()),
        }
    } else if same_text(key, "lock_touchpad") {
        match parse_bool(value) {
            Some(locked) => Ok(DeviceAction::LockTouchpad(locked)),
            None => Err("could not parse value".to_owned()),
        }
    } else if same_text(key, "equalizer") {
        match parse_small_number(value) {
            Some(code) => Ok(DeviceAction::SetEqualizer(decode_equalizer(code))),
            None => Err("could not parse value".to_owned()),
        }
    } else {
        Err("Invalid key".to_owned())
    }
}

/// Chooses the action that toggles the setting under a key.
pub fn toggle_buds_option(key: &str, state: DeviceState) -> (action: Result<DeviceAction, String>)
    ensures
        is_outcome(action, toggle_for(key@, state)),
{
    if same_text(key, "noise_reduction") {
        Ok(DeviceAction::SetNoiseReduction(!state.noise_reduction))
    } else if same_text(key, "lock_touchpad") {
        Ok(DeviceAction::LockTouchpad(!state.touchpads_blocked))
    } else {
        Err("Invalid key".to_owned())
    }
}

/// Closes a transmission: a confirmed action is written into the mirrored
/// state, a failed one leaves the state untouched. The answer of the device is
/// handed on as it came.
pub fn settle(state: &mut DeviceState, action: DeviceAction, sent: Result<(), String>) -> (result:
    Result<(), String>)
    ensures
        *final(state) == settled(*old(state), action, sent is Ok),
        result == sent,
{
    if sent.is_ok() {
        *state = action.confirm(*state);
    }
    sent
}

} // verus!
