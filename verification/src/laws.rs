//! What holds of the dispatcher for every request and every state of the two
//! stores.

use crate::config::{changed, BudsConfig};
use crate::device::{resolve, DeviceState};
use crate::dispatch::{
    answered, command_of, dispatch, saved_reply, set_value_step, ReplyView, StepView,
};
use crate::executor::{action_for, toggle_for, DeviceAction};
use crate::text::boolean;
use crate::wire::{RequestView, Status};
use vstd::prelude::*;

verus! {

/// A request whose command word is none of the four gets no response: the
/// connection is closed, whatever the request holds besides and whatever is
/// connected. No other request is closed without a response.
pub proof fn lemma_unknown_command_closes(
    request: RequestView,
    registry: Map<Seq<char>, DeviceState>,
)
    ensures
        command_of(request.cmd) is None <==> dispatch(request, registry) == StepView::Close,
{
}

/// With no device connected, each of the four commands is answered with the
/// error "No connected device found", which names no device.
pub proof fn lemma_no_device_connected(request: RequestView, registry: Map<Seq<char>, DeviceState>)
    requires
        command_of(request.cmd) is Some,
        registry.dom().len() == 0,
    ensures
        dispatch(request, registry) == StepView::Reply(
            ReplyView::error(Seq::empty(), "No connected device found"@),
        ),
{
}

/// With a device connected, each of the four commands whose target address is
/// not in the registry is answered with the error "Device not found". The one
/// target that is not in the registry and still resolves is the empty address
/// while exactly one device is connected: it stands for that device.
pub proof fn lemma_unknown_device(request: RequestView, registry: Map<Seq<char>, DeviceState>)
    requires
        command_of(request.cmd) is Some,
        registry.dom().len() != 0,
        !registry.contains_key(request.target()),
        !(request.target().len() == 0 && registry.dom().len() == 1),
    ensures
        dispatch(request, registry) == StepView::Reply(
            ReplyView::error(Seq::empty(), "Device not found"@),
        ),
{
}

/// A target that resolves, resolves to a connected device; an address that is
/// connected resolves to itself.
pub proof fn lemma_resolve_connected(registry: Map<Seq<char>, DeviceState>, requested: Seq<char>)
    requires
        registry.dom().finite(),
    ensures
        resolve(registry, requested) matches Some(address) ==> registry.contains_key(address),
        registry.contains_key(requested) ==> resolve(registry, requested) == Some(requested),
{
    if !registry.contains_key(requested) && requested.len() == 0 && registry.dom().len() == 1 {
        let a = registry.dom().choose();
        if !registry.dom().contains(a) {
            assert(registry.dom() =~= Set::<Seq<char>>::empty());
        }
    }
}

/// Mirrored state follows the device, never the request: after a failed
/// transmission every mirrored state is as it was, and the response is an
/// error that carries the failure's message. After a confirmed one the state
/// of the device is the action's, every other device is as it was, no device
/// has come or gone, and the response is a success without payload.
pub proof fn lemma_commit_on_confirmation(
    registry: Map<Seq<char>, DeviceState>,
    address: Seq<char>,
    action: DeviceAction,
    message: Seq<char>,
)
    requires
        registry.contains_key(address),
    ensures
        answered(registry, address, action, Err(message)) == (
            registry,
            ReplyView::error(address, message),
        ),
        answered(registry, address, action, Ok(())).0 == registry.insert(
            address,
            action.confirmed(registry[address]),
        ),
        answered(registry, address, action, Ok(())).1 == ReplyView::success(address, None),
        forall|other: Seq<char>|
            other != address && registry.contains_key(other) ==> #[trigger] answered(
                registry,
                address,
                action,
                Ok(()),
            ).0[other] == registry[other],
        answered(registry, address, action, Ok(())).0.dom() == registry.dom(),
{
    assert(registry.insert(address, action.confirmed(registry[address])).dom() =~= registry.dom());
}

/// A toggle sends the opposite of the mirrored value, whatever value the
/// request carries: once confirmed, exactly the setting under the key has
/// changed. It is the action that setting the key to the text of the opposite
/// value gives.
pub proof fn lemma_toggle_inverts(key: Seq<char>, state: DeviceState)
    ensures
        toggle_for(key, state) matches Ok(action) ==> {
            let next = action.confirmed(state);
            &&& next.equalizer_type == state.equalizer_type
            &&& (next.noise_reduction != state.noise_reduction) != (next.touchpads_blocked
                != state.touchpads_blocked)
        },
        key == "noise_reduction"@ ==> toggle_for(key, state) == action_for(
            key,
            if state.noise_reduction {
                "false"@
            } else {
                "true"@
            },
        ),
        key == "lock_touchpad"@ ==> toggle_for(key, state) == action_for(
            key,
            if state.touchpads_blocked {
                "false"@
            } else {
                "true"@
            },
        ),
{
    reveal_strlit("true");
    reveal_strlit("false");
    reveal_strlit("noise_reduction");
    reveal_strlit("lock_touchpad");
    assert("true"@.len() == 4 && "false"@.len() == 5);
    assert("noise_reduction"@.len() == 15);
    assert("lock_touchpad"@.len() == 13);
}

/// A value that is no boolean changes nothing: for the two boolean settings
/// the executor refuses it with "could not parse value" and chooses no action,
/// so nothing is sent and no mirrored state can follow.
pub proof fn lemma_unreadable_boolean_is_refused(
    request: RequestView,
    address: Seq<char>,
    key: Seq<char>,
    value: Seq<char>,
)
    requires
        key == "noise_reduction"@ || key == "lock_touchpad"@,
        boolean(value) is None,
        request.opt_param1 == Some(key),
        request.opt_param2 == Some(value),
    ensures
        action_for(key, value) == Err::<DeviceAction, Seq<char>>("could not parse value"@),
        set_value_step(request, address) == StepView::Reply(
            ReplyView::error(address, "could not parse value"@),
        ),
{
}

/// A frame carries one action only: from its identifier and its value the
/// action can be told. The frame that locks the touchpads is not the frame
/// that unlocks them.
pub proof fn lemma_frame_tells_action(frame: Seq<u8>, a: DeviceAction, b: DeviceAction)
    requires
        a.is_carried_by(frame),
        b.is_carried_by(frame),
    ensures
        a == b,
{
}

/// A change of preferences never creates or removes an entry: a device
/// without one is refused with "Device has no config!", and a change that is
/// carried out touches the entry of its device alone.
pub proof fn lemma_config_entries_stay(
    config: Map<Seq<char>, BudsConfig>,
    address: Seq<char>,
    key: Option<Seq<char>>,
    value: Option<Seq<char>>,
)
    ensures
        !config.contains_key(address) ==> changed(config, address, key, value) == Err::<
            Map<Seq<char>, BudsConfig>,
            Seq<char>,
        >("Device has no config!"@),
        changed(config, address, key, value) matches Ok(next) ==> {
            &&& next.dom() == config.dom()
            &&& forall|other: Seq<char>|
                other != address && config.contains_key(other) ==> #[trigger] next[other]
                    == config[other]
        },
{
    if let Ok(next) = changed(config, address, key, value) {
        assert(next.dom() =~= config.dom());
    }
}

/// Every response is a success without a message or an error with a message
/// and without payload: the one that answers a request at once, the one that
/// follows a transmission, the one that refuses a change of preferences and
/// the one that follows saving them.
pub proof fn lemma_response_shape(
    request: RequestView,
    registry: Map<Seq<char>, DeviceState>,
    address: Seq<char>,
    action: DeviceAction,
    outcome: Result<(), Seq<char>>,
    reason: Seq<char>,
)
    ensures
        dispatch(request, registry) matches StepView::Reply(reply) ==> well_shaped(reply),
        well_shaped(answered(registry, address, action, outcome).1),
        well_shaped(ReplyView::error(address, reason)),
        well_shaped(saved_reply(address, outcome)),
{
}

/// The shape of a response: a message exactly on error, a payload only on success.
pub open spec fn well_shaped(reply: ReplyView) -> bool {
    match reply.status {
        Status::Success => reply.message is None,
        Status::Error => reply.message is Some && reply.payload is None,
    }
}

} // verus!
