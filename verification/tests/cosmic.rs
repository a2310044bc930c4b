use regolith_inputd::cosmic::{
    apply_commands,
    config_with_sway_values, has_key, mouse_commands_for_config, mouse_watch_callback,
    should_apply_mouse_watch, should_apply_touchpad_watch, sway_values_present,
    touchpad_commands_for_apply, touchpad_commands_for_config, touchpad_commands_for_override,
    touchpad_watch_action, touchpad_watch_applies, touchpad_watch_applies_override,
    touchpad_watch_callback, touchpad_watch_triggers, watch_action, xkb_commands_for_config,
    xkb_watch_callback, CommandSink, CosmicAccelConfig, CosmicAccelProfile, CosmicClickMethod,
    CosmicInputConfig, CosmicScrollConfig, CosmicScrollMethod, CosmicTapConfig,
    CosmicTouchpadOverride, CosmicXkbConfig, TouchpadWatchAction, WatchAction,
    COSMIC_MOUSE_CONFIG_KEY, COSMIC_TOUCHPAD_CONFIG_KEY, COSMIC_TOUCHPAD_OVERRIDE_KEY,
    COSMIC_XKB_CONFIG_KEY,
};

/// The decimal text COSMIC's floating point setting is written as.
fn text(value: f64) -> String {
    value.to_string()
}

fn collect_mouse(config: CosmicInputConfig, keys: &[String]) -> Vec<String> {
    let mut commands = Vec::new();
    let result: Result<(), ()> = mouse_watch_callback(
        config,
        keys,
        &mut CommandSink::new(|command| {
            commands.push(command);
            Ok(())
        }),
    );
    assert!(result.is_ok());
    commands
}

#[test]
fn watcher_filters_match_supported_keys_only() {
    assert!(has_key(&["xkb_config".into()], COSMIC_XKB_CONFIG_KEY));
    assert!(has_key(&["input_default".into()], COSMIC_MOUSE_CONFIG_KEY));
    assert!(!has_key(&["other".into()], COSMIC_XKB_CONFIG_KEY));
}

#[test]
fn watcher_routes_default_touchpad_and_xkb_keys() {
    assert_eq!(
        watch_action(&["input_default".into()], COSMIC_MOUSE_CONFIG_KEY),
        WatchAction::Apply
    );
    assert_eq!(
        watch_action(&["input_touchpad".into()], COSMIC_TOUCHPAD_CONFIG_KEY),
        WatchAction::Apply
    );
    assert_eq!(
        watch_action(&["xkb_config".into()], COSMIC_XKB_CONFIG_KEY),
        WatchAction::Apply
    );
    assert_eq!(
        watch_action(&["input_default".into()], COSMIC_XKB_CONFIG_KEY),
        WatchAction::Ignore
    );
}

#[test]
fn mouse_watcher_requires_settings_apply_gate_and_default_key() {
    assert!(!should_apply_mouse_watch(false, &[COSMIC_MOUSE_CONFIG_KEY.into()]));
    assert!(!should_apply_mouse_watch(true, &[COSMIC_TOUCHPAD_CONFIG_KEY.into()]));
    assert!(should_apply_mouse_watch(true, &[COSMIC_MOUSE_CONFIG_KEY.into()]));
}

#[test]
fn mouse_commands_emit_default_input_settings() {
    let config = CosmicInputConfig {
        acceleration: Some(CosmicAccelConfig { profile: None, speed: text(0.25) }),
        left_handed: Some(true),
        scroll_config: Some(CosmicScrollConfig {
            natural_scroll: Some(false),
            ..Default::default()
        }),
        ..Default::default()
    };
    assert_eq!(
        mouse_commands_for_config(config),
        vec![
            "input type:pointer pointer_accel 0.25",
            "input type:pointer left_handed enabled",
            "input type:pointer natural_scroll disabled",
        ]
    );
}

#[test]
fn config_watch_callback_routes_default_input_and_emits_mouse_commands() {
    let stored = CosmicInputConfig {
        acceleration: Some(CosmicAccelConfig { profile: None, speed: text(0.25) }),
        left_handed: Some(true),
        scroll_config: Some(CosmicScrollConfig {
            natural_scroll: Some(false),
            ..Default::default()
        }),
        ..Default::default()
    };
    assert_eq!(
        collect_mouse(stored, &[COSMIC_MOUSE_CONFIG_KEY.to_string()]),
        vec![
            "input type:pointer pointer_accel 0.25",
            "input type:pointer left_handed enabled",
            "input type:pointer natural_scroll disabled",
        ]
    );
}

#[test]
fn config_watch_callback_routes_touchpad_config_and_override_callbacks() {
    let stored = || CosmicInputConfig {
        tap_config: Some(CosmicTapConfig { enabled: true, drag: false, drag_lock: true }),
        ..Default::default()
    };
    let mut callback_results = Vec::new();
    for key in [COSMIC_TOUCHPAD_CONFIG_KEY, COSMIC_TOUCHPAD_OVERRIDE_KEY] {
        let mut commands = Vec::new();
        let result: Result<(), ()> = touchpad_watch_callback(
            stored(),
            Some(CosmicTouchpadOverride::ForceDisable),
            &[key.to_string()],
            &mut CommandSink::new(|command| {
                commands.push(command);
                Ok(())
            }),
        );
        if result.is_ok() && !commands.is_empty() {
            callback_results.push(commands);
        }
    }
    assert!(callback_results.contains(&vec![
        "input type:touchpad tap enabled".to_string(),
        "input type:touchpad drag disabled".to_string(),
        "input type:touchpad drag_lock enabled".to_string(),
    ]));
    assert!(callback_results.contains(&vec!["input type:touchpad events disabled".to_string()]));
}

#[test]
fn config_watch_callback_routes_xkb_to_keyboard_and_input_sources() {
    let stored = || CosmicXkbConfig {
        layout: "us".into(),
        variant: "altgr-intl".into(),
        repeat_delay: 450,
        repeat_rate: 35,
    };
    let mut results = Vec::new();
    for name in ["keyboard", "input-sources"] {
        let mut commands = Vec::new();
        let result: Result<(), ()> = xkb_watch_callback(
            stored(),
            &[COSMIC_XKB_CONFIG_KEY.to_string()],
            name,
            &mut CommandSink::new(|command| {
                commands.push(command);
                Ok(())
            }),
        );
        if result.is_ok() && !commands.is_empty() {
            results.push((name, commands));
        }
    }
    results.sort_by_key(|(name, _)| *name);
    assert_eq!(
        results,
        [
            (
                "input-sources",
                vec![
                    String::from("input type:keyboard xkb_variant 'altgr-intl'"),
                    String::from("input type:keyboard xkb_layout 'us'"),
                ],
            ),
            (
                "keyboard",
                vec![
                    String::from("input type:keyboard repeat_delay 450"),
                    String::from("input type:keyboard repeat_rate 35"),
                ],
            ),
        ]
    );
}

#[test]
fn touchpad_watcher_triggers_for_config_or_override() {
    assert!(touchpad_watch_triggers(&["input_touchpad".into()]));
    assert!(touchpad_watch_triggers(&["input_touchpad_override".into()]));
    assert!(!touchpad_watch_triggers(&["other".into()]));
}

#[test]
fn touchpad_watcher_applies_only_when_input_config_changes() {
    assert!(touchpad_watch_applies(&["input_touchpad".into()]));
    assert!(!touchpad_watch_applies(&["input_touchpad_override".into()]));
    assert!(touchpad_watch_applies(&[
        "input_touchpad_override".into(),
        "input_touchpad".into(),
    ]));
    assert!(!touchpad_watch_applies(&["other".into()]));
}

#[test]
fn touchpad_watcher_decides_config_and_override_side_effects() {
    assert_eq!(
        touchpad_watch_action(&["input_touchpad".into()]),
        TouchpadWatchAction::ApplyConfig
    );
    assert_eq!(
        touchpad_watch_action(&["input_touchpad_override".into()]),
        TouchpadWatchAction::ApplyOverride
    );
    assert_eq!(
        touchpad_watch_action(&["input_touchpad_override".into(), "input_touchpad".into()]),
        TouchpadWatchAction::ApplyConfigAndOverride
    );
    assert_eq!(touchpad_watch_action(&["other".into()]), TouchpadWatchAction::Ignore);
}

#[test]
fn touchpad_watcher_skips_reverse_sync_writes() {
    let keys = ["input_touchpad".into()];

    assert!(should_apply_touchpad_watch(true, &keys));
    assert!(!should_apply_touchpad_watch(false, &keys));
}

#[test]
fn touchpad_watcher_applies_override_changes_without_config_changes() {
    assert!(touchpad_watch_applies_override(&["input_touchpad_override".into()]));
    assert!(touchpad_watch_applies_override(&[
        "input_touchpad_override".into(),
        "input_touchpad".into(),
    ]));
    assert!(!touchpad_watch_applies_override(&["input_touchpad".into()]));
}

#[test]
fn touchpad_override_commands_map_force_disable_and_clear() {
    assert_eq!(
        touchpad_commands_for_override(Some(CosmicTouchpadOverride::ForceDisable)),
        vec!["input type:touchpad events disabled"]
    );
    assert_eq!(
        touchpad_commands_for_override(Some(CosmicTouchpadOverride::NoOverride)),
        vec!["input type:touchpad events enabled"]
    );
    assert_eq!(
        touchpad_commands_for_override(None),
        vec!["input type:touchpad events enabled"]
    );
}

#[test]
fn touchpad_full_apply_orders_override_after_normal_config() {
    assert_eq!(
        touchpad_commands_for_apply(
            CosmicInputConfig {
                tap_config: Some(CosmicTapConfig { enabled: true, drag: false, drag_lock: true }),
                ..Default::default()
            },
            Some(CosmicTouchpadOverride::ForceDisable),
        ),
        vec![
            "input type:touchpad tap enabled",
            "input type:touchpad drag disabled",
            "input type:touchpad drag_lock enabled",
            "input type:touchpad events disabled",
        ]
    );
}

#[test]
fn touchpad_reverse_sync_updates_only_acceleration_speed_and_natural_scroll() {
    let config = CosmicInputConfig {
        acceleration: Some(CosmicAccelConfig {
            profile: Some(CosmicAccelProfile::Adaptive),
            speed: text(0.4),
        }),
        click_method: Some(CosmicClickMethod::Clickfinger),
        disable_while_typing: Some(true),
        left_handed: Some(false),
        middle_button_emulation: Some(true),
        scroll_config: Some(CosmicScrollConfig {
            method: Some(CosmicScrollMethod::TwoFinger),
            natural_scroll: Some(false),
            scroll_factor: Some(text(1.25)),
        }),
        tap_config: Some(CosmicTapConfig { enabled: true, drag: true, drag_lock: false }),
    };

    let synced = config_with_sway_values(config, Some(text(-0.2)), Some(true), None);

    let acceleration = synced.acceleration.unwrap();
    assert!(matches!(acceleration.profile, Some(CosmicAccelProfile::Adaptive)));
    assert_eq!(acceleration.speed, text(-0.2));
    assert!(matches!(synced.click_method, Some(CosmicClickMethod::Clickfinger)));
    assert_eq!(synced.disable_while_typing, Some(true));
    assert_eq!(synced.left_handed, Some(false));
    assert_eq!(synced.middle_button_emulation, Some(true));
    let scroll = synced.scroll_config.unwrap();
    assert!(matches!(scroll.method, Some(CosmicScrollMethod::TwoFinger)));
    assert_eq!(scroll.natural_scroll, Some(true));
    assert_eq!(scroll.scroll_factor, Some(text(1.25)));
    let tap = synced.tap_config.unwrap();
    assert!(tap.enabled);
    assert!(tap.drag);
    assert!(!tap.drag_lock);
}

#[test]
fn touchpad_reverse_sync_leaves_missing_sway_values_and_override_independent() {
    let config = CosmicInputConfig {
        acceleration: Some(CosmicAccelConfig {
            profile: Some(CosmicAccelProfile::Flat),
            speed: text(0.3),
        }),
        scroll_config: Some(CosmicScrollConfig {
            method: Some(CosmicScrollMethod::Edge),
            natural_scroll: Some(false),
            scroll_factor: Some(text(2.0)),
        }),
        ..Default::default()
    };

    let synced = config_with_sway_values(config, None, None, None);

    let acceleration = synced.acceleration.unwrap();
    assert!(matches!(acceleration.profile, Some(CosmicAccelProfile::Flat)));
    assert_eq!(acceleration.speed, text(0.3));
    let scroll = synced.scroll_config.unwrap();
    assert!(matches!(scroll.method, Some(CosmicScrollMethod::Edge)));
    assert_eq!(scroll.natural_scroll, Some(false));
    assert_eq!(scroll.scroll_factor, Some(text(2.0)));
    assert_eq!(
        touchpad_commands_for_override(Some(CosmicTouchpadOverride::ForceDisable)),
        vec!["input type:touchpad events disabled"]
    );
}

#[test]
fn touchpad_reverse_sync_persists_sway_values_without_overwriting_other_config() {
    let original = CosmicInputConfig {
        acceleration: Some(CosmicAccelConfig {
            profile: Some(CosmicAccelProfile::Flat),
            speed: text(0.3),
        }),
        click_method: Some(CosmicClickMethod::Clickfinger),
        disable_while_typing: Some(true),
        left_handed: Some(false),
        middle_button_emulation: Some(true),
        scroll_config: Some(CosmicScrollConfig {
            method: Some(CosmicScrollMethod::Edge),
            natural_scroll: Some(false),
            scroll_factor: Some(text(2.0)),
        }),
        tap_config: Some(CosmicTapConfig { enabled: true, drag: true, drag_lock: false }),
    };
    let accel_speed = Some(text(-0.4));
    let natural_scroll = Some(true);
    assert!(sway_values_present(&accel_speed, natural_scroll, None));

    let synced = config_with_sway_values(original, accel_speed, natural_scroll, None);

    let acceleration = synced.acceleration.unwrap();
    let scroll_config = synced.scroll_config.unwrap();
    let tap_config = synced.tap_config.unwrap();
    assert!(matches!(acceleration.profile, Some(CosmicAccelProfile::Flat)));
    assert_eq!(acceleration.speed, text(-0.4));
    assert_eq!(scroll_config.natural_scroll, Some(true));
    assert!(matches!(synced.click_method, Some(CosmicClickMethod::Clickfinger)));
    assert_eq!(synced.disable_while_typing, Some(true));
    assert_eq!(synced.left_handed, Some(false));
    assert_eq!(synced.middle_button_emulation, Some(true));
    assert!(matches!(scroll_config.method, Some(CosmicScrollMethod::Edge)));
    assert_eq!(scroll_config.scroll_factor, Some(text(2.0)));
    assert!(tap_config.enabled);
    assert!(tap_config.drag);
    assert!(!tap_config.drag_lock);
}

#[test]
fn mouse_reverse_sync_persists_sway_values_without_overwriting_other_config() {
    let original = CosmicInputConfig {
        acceleration: Some(CosmicAccelConfig {
            profile: Some(CosmicAccelProfile::Adaptive),
            speed: text(0.3),
        }),
        click_method: Some(CosmicClickMethod::Clickfinger),
        disable_while_typing: Some(true),
        left_handed: Some(false),
        middle_button_emulation: Some(true),
        scroll_config: Some(CosmicScrollConfig {
            method: Some(CosmicScrollMethod::Edge),
            natural_scroll: Some(false),
            scroll_factor: Some(text(2.0)),
        }),
        tap_config: Some(CosmicTapConfig { enabled: true, drag: true, drag_lock: false }),
    };
    let accel_speed = Some(text(-0.4));
    assert!(sway_values_present(&accel_speed, Some(true), Some(true)));

    let synced = config_with_sway_values(original, accel_speed, Some(true), Some(true));

    let acceleration = synced.acceleration.unwrap();
    let scroll_config = synced.scroll_config.unwrap();
    let tap_config = synced.tap_config.unwrap();
    assert!(matches!(acceleration.profile, Some(CosmicAccelProfile::Adaptive)));
    assert_eq!(acceleration.speed, text(-0.4));
    assert_eq!(scroll_config.natural_scroll, Some(true));
    assert!(matches!(synced.click_method, Some(CosmicClickMethod::Clickfinger)));
    assert_eq!(synced.disable_while_typing, Some(true));
    assert_eq!(synced.left_handed, Some(true));
    assert_eq!(synced.middle_button_emulation, Some(true));
    assert!(matches!(scroll_config.method, Some(CosmicScrollMethod::Edge)));
    assert_eq!(scroll_config.scroll_factor, Some(text(2.0)));
    assert!(tap_config.enabled);
    assert!(tap_config.drag);
    assert!(!tap_config.drag_lock);
}

#[test]
fn reverse_sync_without_sway_values_writes_nothing() {
    assert!(!sway_values_present(&None, None, None));
    assert!(sway_values_present(&None, None, Some(false)));
}

#[test]
fn reverse_sync_creates_missing_sections() {
    let synced = config_with_sway_values(
        CosmicInputConfig::default(),
        Some(text(0.5)),
        Some(false),
        Some(true),
    );
    assert_eq!(
        synced.acceleration,
        Some(CosmicAccelConfig { profile: None, speed: "0.5".to_string() })
    );
    assert_eq!(
        synced.scroll_config,
        Some(CosmicScrollConfig { method: None, natural_scroll: Some(false), scroll_factor: None })
    );
    assert_eq!(synced.left_handed, Some(true));
    assert_eq!(synced.tap_config, None);
}

#[test]
fn touchpad_commands_map_all_supported_boolean_and_numeric_options() {
    let config = CosmicInputConfig {
        acceleration: Some(CosmicAccelConfig {
            profile: Some(CosmicAccelProfile::Flat),
            speed: text(0.0),
        }),
        disable_while_typing: Some(false),
        left_handed: Some(true),
        middle_button_emulation: Some(false),
        scroll_config: Some(CosmicScrollConfig {
            method: Some(CosmicScrollMethod::OnButtonDown),
            natural_scroll: Some(false),
            scroll_factor: Some(text(2.0)),
        }),
        tap_config: Some(CosmicTapConfig { enabled: false, drag: true, drag_lock: false }),
        ..Default::default()
    };

    assert_eq!(
        touchpad_commands_for_config(config),
        vec![
            "input type:touchpad pointer_accel 0",
            "input type:touchpad accel_profile flat",
            "input type:touchpad dwt disabled",
            "input type:touchpad left_handed enabled",
            "input type:touchpad middle_emulation disabled",
            "input type:touchpad scroll_method on_button_down",
            "input type:touchpad natural_scroll disabled",
            "input type:touchpad scroll_factor 2",
            "input type:touchpad tap disabled",
            "input type:touchpad drag enabled",
            "input type:touchpad drag_lock disabled",
        ]
    );
}

#[test]
fn keyboard_and_input_source_mapping_stays_split() {
    let config = CosmicXkbConfig {
        layout: "us".into(),
        variant: String::new(),
        repeat_delay: 500,
        repeat_rate: 30,
    };
    assert_eq!(xkb_commands_for_config("keyboard", &config).len(), 2);
    assert_eq!(
        xkb_commands_for_config("input-sources", &config),
        vec![String::from("input type:keyboard xkb_layout 'us'").to_string()]
    );
}

#[test]
fn touchpad_commands_map_acceleration_profile_click_and_scroll() {
    let config = CosmicInputConfig {
        acceleration: Some(CosmicAccelConfig {
            profile: Some(CosmicAccelProfile::Adaptive),
            speed: text(0.4),
        }),
        click_method: Some(CosmicClickMethod::Clickfinger),
        scroll_config: Some(CosmicScrollConfig {
            method: Some(CosmicScrollMethod::TwoFinger),
            natural_scroll: Some(true),
            scroll_factor: Some(text(1.25)),
        }),
        ..Default::default()
    };
    assert_eq!(
        touchpad_commands_for_config(config),
        vec![
            "input type:touchpad pointer_accel 0.4",
            "input type:touchpad accel_profile adaptive",
            "input type:touchpad click_method clickfinger",
            "input type:touchpad scroll_method two_finger",
            "input type:touchpad natural_scroll enabled",
            "input type:touchpad scroll_factor 1.25"
        ]
    );
}

#[test]
fn touchpad_commands_map_tap_drag_and_drag_lock() {
    let config = CosmicInputConfig {
        tap_config: Some(CosmicTapConfig { enabled: true, drag: false, drag_lock: true }),
        ..Default::default()
    };
    assert_eq!(
        touchpad_commands_for_config(config),
        vec![
            "input type:touchpad tap enabled",
            "input type:touchpad drag disabled",
            "input type:touchpad drag_lock enabled"
        ]
    );
}

#[test]
fn touchpad_commands_skip_partial_optional_configs() {
    let config = CosmicInputConfig {
        acceleration: Some(CosmicAccelConfig { profile: None, speed: text(-0.2) }),
        scroll_config: Some(CosmicScrollConfig {
            method: Some(CosmicScrollMethod::NoScroll),
            natural_scroll: None,
            scroll_factor: None,
        }),
        ..Default::default()
    };
    assert_eq!(
        touchpad_commands_for_config(config),
        vec![
            "input type:touchpad pointer_accel -0.2",
            "input type:touchpad scroll_method none"
        ]
    );
}

#[test]
fn touchpad_click_method_button_areas_and_edge_scroll() {
    let config = CosmicInputConfig {
        click_method: Some(CosmicClickMethod::ButtonAreas),
        scroll_config: Some(CosmicScrollConfig {
            method: Some(CosmicScrollMethod::Edge),
            ..Default::default()
        }),
        ..Default::default()
    };
    assert_eq!(
        touchpad_commands_for_config(config),
        vec![
            "input type:touchpad click_method button_areas",
            "input type:touchpad scroll_method edge"
        ]
    );
    assert!(touchpad_commands_for_config(CosmicInputConfig::default()).is_empty());
}

#[test]
fn keyboard_commands_ignore_layout_variant_and_only_emit_repeat() {
    let config = CosmicXkbConfig {
        layout: "us,ara".to_string(),
        variant: ",azerty".to_string(),
        repeat_delay: 450,
        repeat_rate: 35,
    };

    assert_eq!(
        xkb_commands_for_config("keyboard", &config),
        vec![
            String::from("input type:keyboard repeat_delay 450").to_string(),
            String::from("input type:keyboard repeat_rate 35").to_string(),
        ]
    );
}

#[test]
fn input_sources_layout_without_variant_emits_only_layout() {
    let config = CosmicXkbConfig {
        layout: "us,ara".to_string(),
        variant: String::new(),
        ..Default::default()
    };

    assert_eq!(
        xkb_commands_for_config("input-sources", &config),
        vec!["input type:keyboard xkb_layout 'us,ara'".to_string()]
    );
}

#[test]
fn default_xkb_config_maps_keyboard_repeat_and_skips_input_sources() {
    let config = CosmicXkbConfig::default();

    assert_eq!(
        xkb_commands_for_config("keyboard", &config),
        vec![
            "input type:keyboard repeat_delay 600".to_string(),
            "input type:keyboard repeat_rate 25".to_string(),
        ]
    );
    assert!(xkb_commands_for_config("input-sources", &config).is_empty());
}

#[test]
fn maps_cosmic_keyboard_repeat_to_sway_commands() {
    let config = CosmicXkbConfig { repeat_delay: 450, repeat_rate: 35, ..Default::default() };

    assert_eq!(
        xkb_commands_for_config("keyboard", &config),
        vec![
            String::from("input type:keyboard repeat_delay 450").to_string(),
            String::from("input type:keyboard repeat_rate 35").to_string(),
        ]
    );
}

#[test]
fn maps_cosmic_xkb_layout_and_variant_to_sway_commands() {
    let config = CosmicXkbConfig {
        layout: "us,ara".to_string(),
        variant: ",azerty".to_string(),
        ..Default::default()
    };

    assert_eq!(
        xkb_commands_for_config("input-sources", &config),
        vec![
            "input type:keyboard xkb_variant ',azerty'".to_string(),
            "input type:keyboard xkb_layout 'us,ara'".to_string(),
        ]
    );
}

#[test]
fn skips_input_sources_commands_when_layout_is_empty() {
    let config = CosmicXkbConfig { variant: "azerty".to_string(), ..Default::default() };

    assert!(xkb_commands_for_config("input-sources", &config).is_empty());
}

#[test]
fn leaves_unknown_cosmic_input_handler_without_commands() {
    let config = CosmicXkbConfig::default();

    assert!(xkb_commands_for_config("unknown", &config).is_empty());
}

#[test]
fn repeat_values_print_in_decimal() {
    let config = CosmicXkbConfig { repeat_delay: 0, repeat_rate: 4294967295, ..Default::default() };
    assert_eq!(
        xkb_commands_for_config("keyboard", &config),
        vec![
            "input type:keyboard repeat_delay 0".to_string(),
            "input type:keyboard repeat_rate 4294967295".to_string(),
        ]
    );
}

#[test]
fn watchers_ignore_unrelated_keys_and_stop_at_first_refusal() {
    let stored = || CosmicInputConfig {
        left_handed: Some(true),
        disable_while_typing: Some(false),
        ..Default::default()
    };
    assert!(collect_mouse(stored(), &["xkb_config".to_string()]).is_empty());

    let mut seen = Vec::new();
    let result: Result<(), String> = touchpad_watch_callback(
        stored(),
        None,
        &[COSMIC_TOUCHPAD_CONFIG_KEY.to_string(), COSMIC_TOUCHPAD_OVERRIDE_KEY.to_string()],
        &mut CommandSink::new(|command: String| {
            seen.push(command.clone());
            if command.contains("left_handed") {
                Err(command)
            } else {
                Ok(())
            }
        }),
    );
    assert_eq!(result, Err("input type:touchpad left_handed enabled".to_string()));
    assert_eq!(
        seen,
        vec![
            "input type:touchpad dwt disabled".to_string(),
            "input type:touchpad left_handed enabled".to_string(),
        ]
    );
}

#[test]
fn writing_back_twice_equals_writing_back_once() {
    let stored = || CosmicInputConfig {
        acceleration: Some(CosmicAccelConfig {
            profile: Some(CosmicAccelProfile::Flat),
            speed: text(0.3),
        }),
        left_handed: Some(false),
        ..Default::default()
    };
    let once = config_with_sway_values(stored(), Some(text(-0.4)), Some(true), Some(true));
    let twice = config_with_sway_values(
        config_with_sway_values(stored(), Some(text(-0.4)), Some(true), Some(true)),
        Some(text(-0.4)),
        Some(true),
        Some(true),
    );
    assert_eq!(once, twice);
    assert_eq!(config_with_sway_values(stored(), None, None, None), stored());
}

#[test]
fn applying_after_write_back_reproduces_sway_values() {
    let stored = CosmicInputConfig {
        acceleration: Some(CosmicAccelConfig {
            profile: Some(CosmicAccelProfile::Adaptive),
            speed: text(0.3),
        }),
        left_handed: Some(false),
        scroll_config: Some(CosmicScrollConfig {
            natural_scroll: Some(false),
            ..Default::default()
        }),
        ..Default::default()
    };
    let synced = config_with_sway_values(stored, Some(text(-0.4)), Some(true), Some(true));
    assert_eq!(
        mouse_commands_for_config(synced),
        vec![
            "input type:pointer pointer_accel -0.4",
            "input type:pointer left_handed enabled",
            "input type:pointer natural_scroll enabled",
        ]
    );
}

#[test]
fn handing_over_commands_stops_at_the_first_refusal() {
    let mut seen = Vec::new();
    let result = apply_commands(
        vec!["a".to_string(), "b".to_string(), "c".to_string()],
        &mut CommandSink::new(|command: String| {
            seen.push(command.clone());
            if command == "b" {
                Err(command)
            } else {
                Ok(())
            }
        }),
    );
    assert_eq!(result, Err("b".to_string()));
    assert_eq!(seen, vec!["a".to_string(), "b".to_string()]);

    let mut calls = 0;
    let result: Result<(), ()> = apply_commands(
        Vec::new(),
        &mut CommandSink::new(|_| {
            calls += 1;
            Ok(())
        }),
    );
    assert_eq!(result, Ok(()));
    assert_eq!(calls, 0);
}
