use earbuds::config::{apply, parse_option, BudsConfig, Config, ConfigOption};
use earbuds::device::{get_device, BudsInfoInner, DeviceState, EqualizerType, Registry};
use earbuds::directory::Directory;
use earbuds::executor::{set_buds_option, settle, toggle_buds_option, DeviceAction};
use galaxy_buds_live_rs::message::bud_property::{BudProperty, EqualizerType as Preset};
use galaxy_buds_live_rs::message::{lock_touchpad, set_noise_reduction, simple, Payload};

fn state(noise_reduction: bool, touchpads_blocked: bool, equalizer_type: EqualizerType) -> DeviceState {
    DeviceState { noise_reduction, touchpads_blocked, equalizer_type }
}

#[test]
fn set_buds_option_chooses_the_action() {
    assert_eq!(
        set_buds_option("noise_reduction", "true"),
        Ok(DeviceAction::SetNoiseReduction(true))
    );
    assert_eq!(
        set_buds_option("noise_reduction", "false"),
        Ok(DeviceAction::SetNoiseReduction(false))
    );
    assert_eq!(set_buds_option("lock_touchpad", "true"), Ok(DeviceAction::LockTouchpad(true)));
    assert_eq!(set_buds_option("lock_touchpad", "false"), Ok(DeviceAction::LockTouchpad(false)));
    assert_eq!(
        set_buds_option("equalizer", "3"),
        Ok(DeviceAction::SetEqualizer(EqualizerType::Dynamic))
    );
}

#[test]
fn set_buds_option_names_its_errors() {
    assert_eq!(set_buds_option("volume", "3"), Err("Invalid key".to_string()));
    assert_eq!(set_buds_option("", ""), Err("Invalid key".to_string()));
    assert_eq!(set_buds_option("equalizer", "loud"), Err("could not parse value".to_string()));
    assert_eq!(set_buds_option("equalizer", "256"), Err("could not parse value".to_string()));
    assert_eq!(set_buds_option("equalizer", ""), Err("could not parse value".to_string()));
}

#[test]
fn set_buds_option_refuses_a_value_that_is_no_boolean() {
    for key in ["noise_reduction", "lock_touchpad"] {
        for value in ["maybe", "", "nope", "Y", "yes", "1", "0", "TRUE", "False", " true", "true ", "off"] {
            assert_eq!(
                set_buds_option(key, value),
                Err("could not parse value".to_string()),
                "for {:?} = {:?}",
                key,
                value
            );
        }
    }
}

#[test]
fn equalizer_codes_decode_as_the_protocol_does() {
    let ours = |preset: Preset| match preset {
        Preset::Normal => EqualizerType::Normal,
        Preset::BassBoost => EqualizerType::BassBoost,
        Preset::Soft => EqualizerType::Soft,
        Preset::Dynamic => EqualizerType::Dynamic,
        Preset::Clear => EqualizerType::Clear,
        Preset::TrebleBoost => EqualizerType::TrebleBoost,
        Preset::Undetected => EqualizerType::Undetected,
    };
    for code in 0u8..=255 {
        let text = format!("{}", code);
        assert_eq!(
            set_buds_option("equalizer", &text),
            Ok(DeviceAction::SetEqualizer(ours(Preset::decode(code))))
        );
    }
    assert_eq!(
        set_buds_option("equalizer", "1"),
        Ok(DeviceAction::SetEqualizer(EqualizerType::BassBoost))
    );
    assert_eq!(
        set_buds_option("equalizer", "6"),
        Ok(DeviceAction::SetEqualizer(EqualizerType::Undetected))
    );
}

#[test]
fn toggle_buds_option_inverts_the_mirrored_value() {
    let s = state(false, true, EqualizerType::Soft);
    assert_eq!(
        toggle_buds_option("noise_reduction", s),
        Ok(DeviceAction::SetNoiseReduction(true))
    );
    assert_eq!(toggle_buds_option("lock_touchpad", s), Ok(DeviceAction::LockTouchpad(false)));
    assert_eq!(toggle_buds_option("equalizer", s), Err("Invalid key".to_string()));
    assert_eq!(toggle_buds_option("anything", s), Err("Invalid key".to_string()));
}

#[test]
fn toggle_is_set_with_the_opposite_value() {
    for current in [false, true] {
        let s = state(current, current, EqualizerType::Normal);
        let text = (!current).to_string();
        for key in ["noise_reduction", "lock_touchpad"] {
            assert_eq!(toggle_buds_option(key, s), set_buds_option(key, &text));
        }
    }
}

#[test]
fn settle_commits_only_a_confirmed_action() {
    let before = state(false, false, EqualizerType::Normal);
    let mut s = before;
    let result = settle(&mut s, DeviceAction::SetNoiseReduction(true), Err("timeout".to_string()));
    assert_eq!(result, Err("timeout".to_string()));
    assert_eq!(s, before);
    let result = settle(&mut s, DeviceAction::SetNoiseReduction(true), Ok(()));
    assert_eq!(result, Ok(()));
    assert_eq!(s, state(true, false, EqualizerType::Normal));
    settle(&mut s, DeviceAction::LockTouchpad(true), Ok(())).unwrap();
    assert_eq!(s, state(true, true, EqualizerType::Normal));
    settle(&mut s, DeviceAction::SetEqualizer(EqualizerType::Clear), Ok(())).unwrap();
    assert_eq!(s, state(true, true, EqualizerType::Clear));
    assert_eq!(DeviceAction::LockTouchpad(false).confirm(s), state(true, false, EqualizerType::Clear));
}

#[test]
fn noise_reduction_frame_is_the_protocol_message() {
    for enabled in [false, true] {
        let frame = DeviceAction::SetNoiseReduction(enabled).to_frame();
        assert_eq!(frame, set_noise_reduction::new(enabled).to_byte_array());
        assert_eq!(frame.len(), 8);
        assert_eq!(frame[3], 152);
        assert_eq!(frame[4], enabled as u8);
    }
    assert_eq!(
        DeviceAction::SetNoiseReduction(true).to_frame(),
        vec![253, 4, 0, 152, 1, 99, 129, 221]
    );
}

#[test]
fn touchpad_lock_frame_is_the_protocol_message() {
    for locked in [false, true] {
        let frame = DeviceAction::LockTouchpad(locked).to_frame();
        assert_eq!(frame, lock_touchpad::new(locked).to_byte_array());
        assert_eq!(frame.len(), 8);
        assert_eq!(frame[3], 144);
        assert_eq!(frame[4], locked as u8);
    }
    assert_ne!(
        DeviceAction::LockTouchpad(true).to_frame(),
        DeviceAction::SetNoiseReduction(true).to_frame()
    );
}

#[test]
fn equalizer_frame_is_the_protocol_message() {
    let presets = [
        (EqualizerType::Normal, Preset::Normal, 0u8),
        (EqualizerType::BassBoost, Preset::BassBoost, 1),
        (EqualizerType::Soft, Preset::Soft, 2),
        (EqualizerType::Dynamic, Preset::Dynamic, 3),
        (EqualizerType::Clear, Preset::Clear, 4),
        (EqualizerType::TrebleBoost, Preset::TrebleBoost, 5),
        (EqualizerType::Undetected, Preset::Undetected, 10),
    ];
    for (ours, theirs, code) in presets {
        let frame = DeviceAction::SetEqualizer(ours).to_frame();
        assert_eq!(frame, simple::new_equalizer(theirs).to_byte_array());
        assert_eq!(frame.len(), 8);
        assert_eq!(frame[3], 134);
        assert_eq!(frame[4], code);
    }
}

#[test]
fn frames_tell_the_actions_apart() {
    let actions = [
        DeviceAction::SetNoiseReduction(false),
        DeviceAction::SetNoiseReduction(true),
        DeviceAction::LockTouchpad(false),
        DeviceAction::LockTouchpad(true),
        DeviceAction::SetEqualizer(EqualizerType::Normal),
        DeviceAction::SetEqualizer(EqualizerType::BassBoost),
        DeviceAction::SetEqualizer(EqualizerType::Soft),
        DeviceAction::SetEqualizer(EqualizerType::Dynamic),
        DeviceAction::SetEqualizer(EqualizerType::Clear),
        DeviceAction::SetEqualizer(EqualizerType::TrebleBoost),
        DeviceAction::SetEqualizer(EqualizerType::Undetected),
    ];
    for a in actions {
        for b in actions {
            assert_eq!(a == b, a.to_frame() == b.to_frame());
        }
    }
}

#[test]
fn get_device_resolves_exact_and_empty_addresses() {
    let quiet = state(false, false, EqualizerType::Normal);
    let loud = state(true, true, EqualizerType::BassBoost);
    let mut registry: Registry = Directory::new();
    assert_eq!(get_device(&registry, ""), None);
    assert_eq!(get_device(&registry, "AA"), None);
    registry.insert("AA".to_string(), quiet);
    let first = Some(BudsInfoInner::new("AA".to_string(), quiet));
    assert_eq!(get_device(&registry, "AA"), first);
    assert_eq!(get_device(&registry, ""), first);
    assert_eq!(get_device(&registry, "BB"), None);
    assert_eq!(get_device(&registry, "aa"), None);
    registry.insert("BB".to_string(), loud);
    assert_eq!(get_device(&registry, "AA"), first);
    assert_eq!(get_device(&registry, "BB"), Some(BudsInfoInner::new("BB".to_string(), loud)));
    assert_eq!(get_device(&registry, ""), None);
    registry.remove("AA");
    assert_eq!(get_device(&registry, ""), Some(BudsInfoInner::new("BB".to_string(), loud)));
}

#[test]
fn snapshot_keeps_address_and_state() {
    let s = state(true, false, EqualizerType::TrebleBoost);
    let info = BudsInfoInner::new("AA".to_string(), s);
    assert_eq!(info.address, "AA");
    assert!(info.noise_reduction);
    assert!(!info.touchpads_blocked);
    assert_eq!(info.equalizer_type, EqualizerType::TrebleBoost);
    assert_eq!(info.state(), s);
}

#[test]
fn parse_option_knows_the_three_keys() {
    assert_eq!(parse_option("auto_pause"), Some(ConfigOption::AutoPause));
    assert_eq!(parse_option("auto_play"), Some(ConfigOption::AutoPlay));
    assert_eq!(
        parse_option("low_battery_notification"),
        Some(ConfigOption::LowBatteryNotification)
    );
    assert_eq!(parse_option("auto_resume"), None);
    assert_eq!(parse_option(""), None);
}

#[test]
fn apply_checks_entry_then_parameters_then_key() {
    let defaults =
        BudsConfig { auto_pause_music: false, auto_resume_music: false, low_battery_notification: false };
    let mut config: Config = Directory::new();
    assert_eq!(
        apply(&mut config, "AA", None, None),
        Err("Device has no config!".to_string())
    );
    assert_eq!(
        apply(&mut config, "AA", Some("bogus"), Some("1")),
        Err("Device has no config!".to_string())
    );
    config.insert("AA".to_string(), defaults);
    assert_eq!(apply(&mut config, "AA", Some("bogus"), None), Err("Missing parameter".to_string()));
    assert_eq!(apply(&mut config, "AA", None, Some("1")), Err("Missing parameter".to_string()));
    assert_eq!(apply(&mut config, "AA", Some("bogus"), Some("1")), Err("Invalid key".to_string()));
    assert_eq!(config.get("AA"), Some(&defaults));
    assert_eq!(apply(&mut config, "AA", Some("auto_play"), Some("1")), Ok(()));
    assert_eq!(
        config.get("AA"),
        Some(&BudsConfig { auto_resume_music: true, ..defaults })
    );
    assert_eq!(defaults.set(ConfigOption::AutoPause, true).auto_pause_music, true);
}
