//! The protocol messages of the earbuds, as the `galaxy_buds_live_rs` crate
//! builds them.
//!
//! Nothing in this file is proved: each contract states what the crate's
//! source shows of the function that the body calls.

use crate::device::EqualizerType;
use galaxy_buds_live_rs::message::bud_property::BudProperty;
use galaxy_buds_live_rs::message::Payload;
use vstd::prelude::*;

verus! {

/// The message identifier of "set noise reduction".
pub const SET_NOISE_REDUCTION: u8 = 152;

/// The message identifier of "lock touchpad".
pub const LOCK_TOUCHPAD: u8 = 144;

/// The message identifier of "set equalizer".
pub const EQUALIZER: u8 = 134;

/// The preset that a code selects; a code above 5 selects none.
pub open spec fn preset_of_code(code: u8) -> EqualizerType {
    match code {
        0 => EqualizerType::Normal,
        1 => EqualizerType::BassBoost,
        2 => EqualizerType::Soft,
        3 => EqualizerType::Dynamic,
        4 => EqualizerType::Clear,
        5 => EqualizerType::TrebleBoost,
        _ => EqualizerType::Undetected,
    }
}

/// The code under which a preset travels in a message.
pub open spec fn code_of_preset(preset: EqualizerType) -> u8 {
    match preset {
        EqualizerType::Normal => 0,
        EqualizerType::BassBoost => 1,
        EqualizerType::Soft => 2,
        EqualizerType::Dynamic => 3,
        EqualizerType::Clear => 4,
        EqualizerType::TrebleBoost => 5,
        EqualizerType::Undetected => 10,
    }
}

/// The bytes of the message that switches noise reduction on or off.
pub uninterp spec fn noise_reduction_frame(enabled: bool) -> Seq<u8>;

/// The bytes of the message that locks or unlocks the touchpads.
pub uninterp spec fn touchpad_lock_frame(locked: bool) -> Seq<u8>;

/// The bytes of the message that selects an equalizer preset.
pub uninterp spec fn equalizer_frame(preset: EqualizerType) -> Seq<u8>;

/// `EqualizerType::decode` of `galaxy_buds_live_rs`: the codes 0 to 5 name the
/// six presets in the order of the enum, every other code gives `Undetected`.
#[verifier::external_body]
pub(crate) fn decode_equalizer(code: u8) -> (preset: EqualizerType)
    ensures
        preset == preset_of_code(code),
{
    match galaxy_buds_live_rs::message::bud_property::EqualizerType::decode(code) {
        galaxy_buds_live_rs::message::bud_property::EqualizerType::Normal => EqualizerType::Normal,
        galaxy_buds_live_rs::message::bud_property::EqualizerType::BassBoost => EqualizerType::BassBoost,
        galaxy_buds_live_rs::message::bud_property::EqualizerType::Soft => EqualizerType::Soft,
        galaxy_buds_live_rs::message::bud_property::EqualizerType::Dynamic => EqualizerType::Dynamic,
        galaxy_buds_live_rs::message::bud_property::EqualizerType::Clear => EqualizerType::Clear,
        galaxy_buds_live_rs::message::bud_property::EqualizerType::TrebleBoost => EqualizerType::TrebleBoost,
        galaxy_buds_live_rs::message::bud_property::EqualizerType::Undetected => EqualizerType::Undetected,
    }
}

/// `set_noise_reduction::new` of `galaxy_buds_live_rs`, encoded by
/// `Payload::to_byte_array`: a frame of eight bytes whose fourth byte is the
/// message identifier and whose fifth is 1 for on and 0 for off. The bytes are
/// a function of the argument alone.
#[verifier::external_body]
pub(crate) fn build_noise_reduction_frame(enabled: bool) -> (frame: Vec<u8>)
    ensures
        frame@ == noise_reduction_frame(enabled),
        frame@.len() == 8,
        frame@[3] == SET_NOISE_REDUCTION,
        frame@[4] == if enabled { 1u8 } else { 0u8 },
{
    galaxy_buds_live_rs::message::set_noise_reduction::new(enabled).to_byte_array()
}

/// `lock_touchpad::new` of `galaxy_buds_live_rs`, encoded by
/// `Payload::to_byte_array`: a frame of eight bytes whose fourth byte is the
/// message identifier and whose fifth is 1 for locked and 0 for unlocked. The
/// bytes are a function of the argument alone.
#[verifier::external_body]
pub(crate) fn build_touchpad_lock_frame(locked: bool) -> (frame: Vec<u8>)
    ensures
        frame@ == touchpad_lock_frame(locked),
        frame@.len() == 8,
        frame@[3] == LOCK_TOUCHPAD,
        frame@[4] == if locked { 1u8 } else { 0u8 },
{
    galaxy_buds_live_rs::message::lock_touchpad::new(locked).to_byte_array()
}

/// `simple::new_equalizer` of `galaxy_buds_live_rs`, encoded by
/// `Payload::to_byte_array`: a frame of eight bytes whose fourth byte is the
/// message identifier and whose fifth is the code of the preset. The bytes are
/// a function of the argument alone.
#[verifier::external_body]
pub(crate) fn build_equalizer_frame(preset: EqualizerType) -> (frame: Vec<u8>)
    ensures
        frame@ == equalizer_frame(preset),
        frame@.len() == 8,
        frame@[3] == EQUALIZER,
        frame@[4] == code_of_preset(preset),
{
    galaxy_buds_live_rs::message::simple::new_equalizer(
        match preset {
            EqualizerType::Normal => galaxy_buds_live_rs::message::bud_property::EqualizerType::Normal,
            EqualizerType::BassBoost => galaxy_buds_live_rs::message::bud_property::EqualizerType::BassBoost,
            EqualizerType::Soft => galaxy_buds_live_rs::message::bud_property::EqualizerType::Soft,
            EqualizerType::Dynamic => galaxy_buds_live_rs::message::bud_property::EqualizerType::Dynamic,
            EqualizerType::Clear => galaxy_buds_live_rs::message::bud_property::EqualizerType::Clear,
            EqualizerType::TrebleBoost => galaxy_buds_live_rs::message::bud_property::EqualizerType::TrebleBoost,
            EqualizerType::Undetected => galaxy_buds_live_rs::message::bud_property::EqualizerType::Undetected,
        },
    ).to_byte_array()
}

} // verus!
