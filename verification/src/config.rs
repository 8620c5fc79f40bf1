//! Per-device preferences and the rule by which a request changes them.

use crate::directory::Directory;
use crate::text::{same_text, str_to_bool, truthy};
use vstd::prelude::*;

verus! {

/// The preferences kept for one device. The three are independent of each other.
#[derive(Clone, Copy, Debug, PartialEq, Eq, Structural)]
pub struct BudsConfig {
    pub auto_pause_music: bool,
    pub auto_resume_music: bool,
    pub low_battery_notification: bool,
}

/// The preferences of every known device, by address. A device has an entry
/// whether or not it is connected.
pub type Config = Directory<BudsConfig>;

/// The preference that a key names.
#[derive(Clone, Copy, Debug, PartialEq, Eq, Structural)]
pub enum ConfigOption {
    AutoPause,
    AutoPlay,
    LowBatteryNotification,
}

/// The preference behind a key of the control socket, if the key names one.
pub open spec fn option_of(key: Seq<char>) -> Option<ConfigOption> {
    if key == "auto_pause"@ {
        Some(ConfigOption::AutoPause)
    } else if key == "auto_play"@ {
        Some(ConfigOption::AutoPlay)
    } else if key == "low_battery_notification"@ {
        Some(ConfigOption::LowBatteryNotification)
    } else {
        None
    }
}

impl BudsConfig {
    /// The preferences with one of them set to a value.
    pub open spec fn with(self, option: ConfigOption, value: bool) -> BudsConfig {
        match option {
            ConfigOption::AutoPause => BudsConfig { auto_pause_music: value, ..self },
            ConfigOption::AutoPlay => BudsConfig { auto_resume_music: value, ..self },
            ConfigOption::LowBatteryNotification => BudsConfig {
                low_battery_notification: value,
                ..self
            },
        }
    }

    /// Sets one preference and leaves the others as they are.
    pub fn set(&self, option: ConfigOption, value: bool) -> (next: BudsConfig)
        ensures
            next == self.with(option, value),
    {
        match option {
            ConfigOption::AutoPause => BudsConfig {
                auto_pause_music: value,
                auto_resume_music: self.auto_resume_music,
                low_battery_notification: self.low_battery_notification,
            },
            ConfigOption::AutoPlay => BudsConfig {
                auto_pause_music: self.auto_pause_music,
                auto_resume_music: value,
                low_battery_notification: self.low_battery_notification,
            },
            ConfigOption::LowBatteryNotification => BudsConfig {
                auto_pause_music: self.auto_pause_music,
                auto_resume_music: self.auto_resume_music,
                low_battery_notification: value,
            },
        }
    }
}

/// Finds the preference that a key names.
pub fn parse_option(key: &str) -> (option: Option<ConfigOption>)
    ensures
        option == option_of(key@),
{
    if same_text(key, "auto_pause") {
        Some(ConfigOption::AutoPause)
    } else if same_text(key, "auto_play") {
        Some(ConfigOption::AutoPlay)
    } else if same_text(key, "low_battery_notification") {
        Some(ConfigOption::LowBatteryNotification)
    } else {
        None
    }
}

/// What a change of preferences comes to: the store after it, or the reason
/// for which it is refused. The checks come in this order: the device must
/// have an entry; key and value must both be there; the key must name a
/// preference. The value is read by the permissive rule, so none is refused.
/// An entry is never created.
pub open spec fn changed(
    config: Map<Seq<char>, BudsConfig>,
    address: Seq<char>,
    key: Option<Seq<char>>,
    value: Option<Seq<char>>,
) -> Result<Map<Seq<char>, BudsConfig>, Seq<char>> {
    if !config.contains_key(address) {
        Err("Device has no config!"@)
    } else if key is None || value is None {
        Err("Missing parameter"@)
    } else {
        match option_of(key->0) {
            Some(option) => Ok(
                config.insert(address, config[address].with(option, truthy(value->0))),
            ),
            None => Err("Invalid key"@),
        }
    }
}

/// Applies one change of preferences to the store. A refused change leaves
/// the store as it was.
pub fn apply(config: &mut Config, address: &str, key: Option<&str>, value: Option<&str>) -> (result:
    Result<(), String>)
    requires
        old(config).wf(),
    ensures
        final(config).wf(),
        match changed(old(config)@, address@, text_view(key), text_view(value)) {
            Ok(next) => result is Ok && final(config)@ == next,
            Err(reason) => result is Err && result->Err_0@ == reason && final(config)@ == old(
                config,
            )@,
        },
{
    let current = match config.get(address) {
        Some(entry) => *entry,
        None => {
            return Err("Device has no config!".to_owned());
        },
    };
    let (key, value) = match (key, value) {
        (Some(key), Some(value)) => (key, value),
        _ => {
            return Err("Missing parameter".to_owned());
        },
    };
    let value = str_to_bool(value);
    match parse_option(key) {
        Some(option) => {
            config.set(address, current.set(option, value));
            Ok(())
        },
        None => Err("Invalid key".to_owned()),
    }
}

/// The characters of an optional text.
pub open spec fn text_view(text: Option<&str>) -> Option<Seq<char>> {
    match text {
        Some(t) => Some(t@),
        None => None,
    }
}

} // verus!
