//! The dispatcher: from one decoded request to exactly one response, or to
//! the decision to close the connection without one.
//!
//! The dispatcher neither talks to a device nor saves anything. Where a
//! request needs one of the two, it returns the step that the connection
//! handler has to carry out, and takes the outcome back to form the response:
//!
//! * [`Step::Send`]: transmit the frame to the device, then call
//!   [`device_answered`] with the device's answer;
//! * [`Step::Configure`]: call [`set_config_value`] on the preference store;
//! * [`ConfigStep::Save`]: save the preference store, then call
//!   [`config_saved`] with the result.
//!
//! The handler keeps the registry to itself from [`handle_client`] until the
//! response is formed, and the preference store from [`set_config_value`]
//! until [`config_saved`].

use crate::config::{apply, changed, Config};
use crate::device::{get_device, resolve, BudsInfoInner, BudsInfoView, DeviceState, Registry};
use crate::executor::{
    action_for, is_outcome, set_buds_option, settle, toggle_buds_option, toggle_for, DeviceAction,
};
use crate::text::same_text;
use crate::wire::{Request, RequestView, Response, ResponseView};
use vstd::prelude::*;
use vstd::string::StringExecFns;

verus! {

/// The operations of the control socket.
#[derive(Clone, Copy, Debug, PartialEq, Eq, Structural)]
pub enum Command {
    GetStatus,
    SetValue,
    ToggleValue,
    SetConfig,
}

/// The operation that a command word selects, if it is one of the four.
pub open spec fn command_of(cmd: Seq<char>) -> Option<Command> {
    if cmd == "get_status"@ {
        Some(Command::GetStatus)
    } else if cmd == "set_value"@ {
        Some(Command::SetValue)
    } else if cmd == "toggle_value"@ {
        Some(Command::ToggleValue)
    } else if cmd == "set_config"@ {
        Some(Command::SetConfig)
    } else {
        None
    }
}

/// The response to a request of the control socket.
pub type Reply = Response<BudsInfoInner>;

pub type ReplyView = ResponseView<BudsInfoView>;

/// What the connection handler does next.
#[derive(Clone, Debug, PartialEq, Eq)]
pub enum Step {
    /// Close the connection without a response.
    Close,
    /// Write the response and close the connection.
    Reply(Reply),
    /// Transmit `frame` to the device at `address`.
    Send { address: String, action: DeviceAction, frame: Vec<u8> },
    /// Change the preferences of the device at `address`.
    Configure { address: String },
}

pub enum StepView {
    Close,
    Reply(ReplyView),
    Send { address: Seq<char>, action: DeviceAction, frame: Seq<u8> },
    Configure { address: Seq<char> },
}

/// What the connection handler does after a change of preferences.
#[derive(Clone, Debug, PartialEq, Eq)]
pub enum ConfigStep {
    /// The change was refused: write the response and close the connection.
    Reply(Reply),
    /// The store has changed for `address`: save it.
    Save { address: String },
}

pub enum ConfigStepView {
    Reply(ReplyView),
    Save { address: Seq<char> },
}

impl View for ConfigStep {
    type V = ConfigStepView;

    open spec fn view(&self) -> ConfigStepView {
        match *self {
            ConfigStep::Reply(reply) => ConfigStepView::Reply(reply@),
            ConfigStep::Save { address } => ConfigStepView::Save { address: address@ },
        }
    }
}

impl View for Step {
    type V = StepView;

    open spec fn view(&self) -> StepView {
        match *self {
            Step::Close => StepView::Close,
            Step::Reply(reply) => StepView::Reply(reply@),
            Step::Send { address, action, frame } => StepView::Send {
                address: address@,
                action,
                frame: frame@,
            },
            Step::Configure { address } => StepView::Configure { address: address@ },
        }
    }
}

/// The step for an action that the executor chose or refused: the
/// transmission of its frame, or the error response with the reason.
pub open spec fn step_for(address: Seq<char>, action: Result<DeviceAction, Seq<char>>) -> StepView {
    match action {
        Ok(action) => StepView::Send { address, action, frame: action.frame() },
        Err(reason) => StepView::Reply(ReplyView::error(address, reason)),
    }
}

/// The step for `set_value`: key and value must both be there.
pub open spec fn set_value_step(request: RequestView, address: Seq<char>) -> StepView {
    if request.opt_param1 is None || request.opt_param2 is None {
        StepView::Reply(ReplyView::error(address, "Missing parameter"@))
    } else {
        step_for(address, action_for(request.opt_param1->0, request.opt_param2->0))
    }
}

/// The step for `toggle_value`: the key must be there; a value plays no part.
pub open spec fn toggle_value_step(
    request: RequestView,
    address: Seq<char>,
    state: DeviceState,
) -> StepView {
    if request.opt_param1 is None {
        StepView::Reply(ReplyView::error(address, "Missing parameter"@))
    } else {
        step_for(address, toggle_for(request.opt_param1->0, state))
    }
}

/// The step that a request leads to, given the connected devices.
///
/// A command word that is none of the four closes the connection, whatever
/// else the request holds. For the four, the target device is resolved first:
/// with no device connected, and with a target that resolves to none, the
/// request is answered with an error that names no device.
pub open spec fn dispatch(request: RequestView, registry: Map<Seq<char>, DeviceState>) -> StepView {
    match command_of(request.cmd) {
        None => StepView::Close,
        Some(command) => {
            if registry.dom().len() == 0 {
                StepView::Reply(ReplyView::error(Seq::empty(), "No connected device found"@))
            } else {
                match resolve(registry, request.target()) {
                    None => StepView::Reply(ReplyView::error(Seq::empty(), "Device not found"@)),
                    Some(address) => match command {
                        Command::GetStatus => StepView::Reply(
                            ReplyView::success(
                                address,
                                Some(BudsInfoView { address, state: registry[address] }),
                            ),
                        ),
                        Command::SetValue => set_value_step(request, address),
                        Command::ToggleValue => toggle_value_step(
                            request,
                            address,
                            registry[address],
                        ),
                        Command::SetConfig => StepView::Configure { address },
                    },
                }
            }
        },
    }
}

/// The registry and the response after a device has answered a transmission.
///
/// A confirmed action is written into the mirrored state of the device and
/// the response is a success without payload. A failed transmission leaves
/// the registry as it was, and the response carries the failure's message. So
/// does the answer for a device that is no longer connected.
pub open spec fn answered(
    registry: Map<Seq<char>, DeviceState>,
    address: Seq<char>,
    action: DeviceAction,
    sent: Result<(), Seq<char>>,
) -> (Map<Seq<char>, DeviceState>, ReplyView) {
    if !registry.contains_key(address) {
        (registry, ReplyView::error(address, "Device not found"@))
    } else {
        match sent {
            Ok(_) => (
                registry.insert(address, action.confirmed(registry[address])),
                ReplyView::success(address, None),
            ),
            Err(message) => (registry, ReplyView::error(address, message)),
        }
    }
}

/// The response after the preference store was saved, or could not be.
pub open spec fn saved_reply(address: Seq<char>, saved: Result<(), Seq<char>>) -> ReplyView {
    match saved {
        Ok(_) => ReplyView::success(address, None),
        Err(message) => ReplyView::error(address, "Err saving config: "@ + message),
    }
}

/// The characters of an outcome's message.
pub open spec fn outcome_view(outcome: Result<(), String>) -> Result<(), Seq<char>> {
    match outcome {
        Ok(_) => Ok(()),
        Err(message) => Err(message@),
    }
}

/// Reads the command word of a request.
pub fn parse_command(cmd: &str) -> (command: Option<Command>)
    ensures
        command == command_of(cmd@),
{
    if same_text(cmd, "get_status") {
        Some(Command::GetStatus)
    } else if same_text(cmd, "set_value") {
        Some(Command::SetValue)
    } else if same_text(cmd, "toggle_value") {
        Some(Command::ToggleValue)
    } else if same_text(cmd, "set_config") {
        Some(Command::SetConfig)
    } else {
        None
    }
}

impl Step {
    /// A step that asks for a transmission holds the frame of its action.
    pub open spec fn well_framed(&self) -> bool {
        match *self {
            Step::Send { action, frame, .. } => action.is_carried_by(frame@),
            _ => true,
        }
    }
}

/// Turns the executor's choice into the next step.
fn step_from(address: String, action: Result<DeviceAction, String>) -> (step: Step)
    ensures
        forall|expected: Result<DeviceAction, Seq<char>>|
            is_outcome(action, expected) ==> step@ == step_for(address@, expected),
        step.well_framed(),
{
    match action {
        Ok(action) => {
            let frame = action.to_frame();
            Step::Send { address, action, frame }
        },
        Err(reason) => Step::Reply(Response::new_error(address, reason.as_str())),
    }
}

/// Handles `set_value` for a resolved device.
pub fn set_buds_value(request: &Request, address: String) -> (step: Step)
    ensures
        step@ == set_value_step(request@, address@),
        step.well_framed(),
{
    match (&request.opt_param1, &request.opt_param2) {
        (Some(key), Some(value)) => step_from(
            address,
            set_buds_option(key.as_str(), value.as_str()),
        ),
        _ => Step::Reply(Response::new_error(address, "Missing parameter")),
    }
}

/// Handles `toggle_value` for a resolved device and its mirrored state.
pub fn toggle_buds_value(request: &Request, address: String, state: DeviceState) -> (step: Step)
    ensures
        step@ == toggle_value_step(request@, address@, state),
        step.well_framed(),
{
    match &request.opt_param1 {
        Some(key) => step_from(address, toggle_buds_option(key.as_str(), state)),
        None => Step::Reply(Response::new_error(address, "Missing parameter")),
    }
}

/// Handles one request of a client against the connected devices.
pub fn handle_client(request: &Request, registry: &Registry) -> (step: Step)
    requires
        registry.wf(),
    ensures
        step@ == dispatch(request@, registry@),
        step.well_framed(),
{
    let command = match parse_command(request.cmd.as_str()) {
        Some(command) => command,
        None => {
            return Step::Close;
        },
    };
    if registry.len() == 0 {
        return Step::Reply(Response::new_error(String::new(), "No connected device found"));
    }
    let requested = match &request.device {
        Some(device) => device.as_str(),
        None => "",
    };
    proof {
        reveal_strlit("");
        assert(""@ =~= Seq::<char>::empty());
    }
    let device = match get_device(registry, requested) {
        Some(device) => device,
        None => {
            return Step::Reply(Response::new_error(String::new(), "Device not found"));
        },
    };
    match command {
        Command::GetStatus => Step::Reply(Response::new_success(device.address.clone(), Some(device))),
        Command::SetValue => set_buds_value(request, device.address),
        Command::ToggleValue => {
            let state = device.state();
            toggle_buds_value(request, device.address, state)
        },
        Command::SetConfig => Step::Configure { address: device.address },
    }
}

/// Handles `set_config` for a resolved device: changes the preference in the
/// store and asks for the store to be saved, or refuses with the reason and
/// leaves the store as it was.
pub fn set_config_value(request: &Request, address: String, config: &mut Config) -> (step:
    ConfigStep)
    requires
        old(config).wf(),
    ensures
        final(config).wf(),
        match changed(old(config)@, address@, request@.opt_param1, request@.opt_param2) {
            Ok(next) => final(config)@ == next && step@ == (ConfigStepView::Save {
                address: address@,
            }),
            Err(reason) => final(config)@ == old(config)@ && step@ == ConfigStepView::Reply(
                ReplyView::error(address@, reason),
            ),
        },
{
    let key = match &request.opt_param1 {
        Some(key) => Some(key.as_str()),
        None => None,
    };
    let value = match &request.opt_param2 {
        Some(value) => Some(value.as_str()),
        None => None,
    };
    match apply(config, address.as_str(), key, value) {
        Ok(_) => ConfigStep::Save { address },
        Err(reason) => ConfigStep::Reply(Response::new_error(address, reason.as_str())),
    }
}

/// Forms the response after a transmission, and commits the action to the
/// mirrored state if the device confirmed it.
pub fn device_answered(
    registry: &mut Registry,
    address: String,
    action: DeviceAction,
    sent: Result<(), String>,
) -> (reply: Reply)
    requires
        old(registry).wf(),
    ensures
        final(registry).wf(),
        (final(registry)@, reply@) == answered(old(registry)@, address@, action, outcome_view(sent)),
{
    let mut state = match registry.get(address.as_str()) {
        Some(state) => *state,
        None => {
            return Response::new_error(address, "Device not found");
        },
    };
    match settle(&mut state, action, sent) {
        Ok(_) => {
            registry.set(address.as_str(), state);
            Response::new_success(address, None)
        },
        Err(message) => Response::new_error(address, message.as_str()),
    }
}

/// Forms the response after the preference store was saved, or could not be.
pub fn config_saved(address: String, saved: Result<(), String>) -> (reply: Reply)
    ensures
        reply@ == saved_reply(address@, outcome_view(saved)),
{
    match saved {
        Ok(_) => Response::new_success(address, None),
        Err(message) => {
            let mut text = "Err saving config: ".to_owned();
            text.append(message.as_str());
            Response::new_error(address, text.as_str())
        },
    }
}

} // verus!
