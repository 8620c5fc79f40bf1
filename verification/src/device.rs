//! Connected devices and the state the daemon mirrors for each of them.

use crate::directory::Directory;
use vstd::prelude::*;

verus! {

/// The equalizer presets of the earbuds. `Undetected` stands for a code that
/// names no preset.
#[derive(Clone, Copy, Debug, PartialEq, Eq, Structural)]
pub enum EqualizerType {
    Normal,
    BassBoost,
    Soft,
    Dynamic,
    Clear,
    TrebleBoost,
    Undetected,
}

/// The settings of one device as the device last confirmed them.
#[derive(Clone, Copy, Debug, PartialEq, Eq, Structural)]
pub struct DeviceState {
    pub noise_reduction: bool,
    pub touchpads_blocked: bool,
    pub equalizer_type: EqualizerType,
}

/// The connected devices by address, each with its mirrored state.
pub type Registry = Directory<DeviceState>;

/// A snapshot of one device: its address and its mirrored state.
#[derive(Clone, Debug, PartialEq, Eq)]
pub struct BudsInfoInner {
    pub address: String,
    pub noise_reduction: bool,
    pub touchpads_blocked: bool,
    pub equalizer_type: EqualizerType,
}

pub struct BudsInfoView {
    pub address: Seq<char>,
    pub state: DeviceState,
}

impl View for BudsInfoInner {
    type V = BudsInfoView;

    open spec fn view(&self) -> BudsInfoView {
        BudsInfoView {
            address: self.address@,
            state: DeviceState {
                noise_reduction: self.noise_reduction,
                touchpads_blocked: self.touchpads_blocked,
                equalizer_type: self.equalizer_type,
            },
        }
    }
}

impl BudsInfoInner {
    /// The snapshot of a device at an address.
    pub fn new(address: String, state: DeviceState) -> (info: BudsInfoInner)
        ensures
            info@ == (BudsInfoView { address: address@, state }),
    {
        BudsInfoInner {
            address,
            noise_reduction: state.noise_reduction,
            touchpads_blocked: state.touchpads_blocked,
            equalizer_type: state.equalizer_type,
        }
    }

    /// The mirrored state in the snapshot.
    pub fn state(&self) -> (state: DeviceState)
        ensures
            state == self@.state,
    {
        DeviceState {
            noise_reduction: self.noise_reduction,
            touchpads_blocked: self.touchpads_blocked,
            equalizer_type: self.equalizer_type,
        }
    }
}

/// The device that a requested address stands for: the address itself where a
/// device is connected under it; the only connected device where the address
/// is empty and exactly one device is connected; otherwise none.
pub open spec fn resolve(registry: Map<Seq<char>, DeviceState>, requested: Seq<char>) -> Option<
    Seq<char>,
> {
    if registry.contains_key(requested) {
        Some(requested)
    } else if requested.len() == 0 && registry.dom().len() == 1 {
        Some(registry.dom().choose())
    } else {
        None
    }
}

/// The snapshot of the device that a requested address stands for.
pub fn get_device(registry: &Registry, requested: &str) -> (device: Option<BudsInfoInner>)
    requires
        registry.wf(),
    ensures
        match resolve(registry@, requested@) {
            Some(address) => device matches Some(info) && info@ == (BudsInfoView {
                address,
                state: registry@[address],
            }),
            None => device is None,
        },
{
    if let Some(state) = registry.get(requested) {
        return Some(BudsInfoInner::new(requested.to_owned(), *state));
    }
    if !requested.is_empty() {
        return None;
    }
    match registry.sole_entry() {
        Some((only, state)) => {
            proof {
                registry.lemma_finite();
                assert(registry@.dom().contains(only@));
                assert(registry@.dom().len() == 1);
            }
            Some(BudsInfoInner::new(only.clone(), *state))
        },
        None => None,
    }
}

} // verus!
