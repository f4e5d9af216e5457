use jeha::automation::remote::{classify_remote_action, RemoteActionType};

// --- IKEA STYRBAR (E2001/E2002/E2313) ---
#[test]
fn test_styrbar() {
    assert_eq!(classify_remote_action("on"), Some(RemoteActionType::On));
    assert_eq!(classify_remote_action("off"), Some(RemoteActionType::Off));
    assert_eq!(
        classify_remote_action("brightness_move_up"),
        Some(RemoteActionType::BrightnessUpHold)
    );
    assert_eq!(
        classify_remote_action("brightness_move_down"),
        Some(RemoteActionType::BrightnessDownHold)
    );
    assert_eq!(
        classify_remote_action("brightness_stop"),
        Some(RemoteActionType::BrightnessStop)
    );
    assert_eq!(
        classify_remote_action("arrow_right_click"),
        Some(RemoteActionType::NightMode)
    );
    assert_eq!(
        classify_remote_action("arrow_left_click"),
        Some(RemoteActionType::DayMode)
    );
    assert_eq!(classify_remote_action("arrow_right_hold"), None);
    assert_eq!(classify_remote_action("arrow_left_hold"), None);
    assert_eq!(classify_remote_action("arrow_right_release"), None);
    assert_eq!(classify_remote_action("arrow_left_release"), None);
}

// --- IKEA TRADFRI remote (E1524/E1810) ---
#[test]
fn test_tradfri_remote() {
    assert_eq!(
        classify_remote_action("toggle"),
        Some(RemoteActionType::Toggle)
    );
    assert_eq!(classify_remote_action("toggle_hold"), None);
    assert_eq!(
        classify_remote_action("brightness_up_click"),
        Some(RemoteActionType::BrightnessUpStep)
    );
    assert_eq!(
        classify_remote_action("brightness_down_click"),
        Some(RemoteActionType::BrightnessDownStep)
    );
    assert_eq!(
        classify_remote_action("brightness_up_hold"),
        Some(RemoteActionType::BrightnessUpHold)
    );
    assert_eq!(
        classify_remote_action("brightness_down_hold"),
        Some(RemoteActionType::BrightnessDownHold)
    );
    assert_eq!(
        classify_remote_action("brightness_up_release"),
        Some(RemoteActionType::BrightnessStop)
    );
    assert_eq!(
        classify_remote_action("brightness_down_release"),
        Some(RemoteActionType::BrightnessStop)
    );
    assert_eq!(
        classify_remote_action("arrow_right_click"),
        Some(RemoteActionType::NightMode)
    );
    assert_eq!(
        classify_remote_action("arrow_left_click"),
        Some(RemoteActionType::DayMode)
    );
}

// --- IKEA RODRET dimmer (E2201) ---
#[test]
fn test_rodret() {
    assert_eq!(classify_remote_action("on"), Some(RemoteActionType::On));
    assert_eq!(classify_remote_action("off"), Some(RemoteActionType::Off));
    assert_eq!(
        classify_remote_action("brightness_move_up"),
        Some(RemoteActionType::BrightnessUpHold)
    );
    assert_eq!(
        classify_remote_action("brightness_move_down"),
        Some(RemoteActionType::BrightnessDownHold)
    );
    assert_eq!(
        classify_remote_action("brightness_stop"),
        Some(RemoteActionType::BrightnessStop)
    );
}

// --- IKEA ON/OFF switch (E1743) ---
#[test]
fn test_ikea_onoff_switch() {
    assert_eq!(classify_remote_action("on"), Some(RemoteActionType::On));
    assert_eq!(classify_remote_action("off"), Some(RemoteActionType::Off));
    assert_eq!(
        classify_remote_action("brightness_move_up"),
        Some(RemoteActionType::BrightnessUpHold)
    );
    assert_eq!(
        classify_remote_action("brightness_move_down"),
        Some(RemoteActionType::BrightnessDownHold)
    );
    assert_eq!(
        classify_remote_action("brightness_stop"),
        Some(RemoteActionType::BrightnessStop)
    );
}

// --- Philips Hue dimmer switch v1/v2 ---
#[test]
fn test_hue_dimmer() {
    assert_eq!(
        classify_remote_action("on_press"),
        Some(RemoteActionType::On)
    );
    assert_eq!(
        classify_remote_action("off_press"),
        Some(RemoteActionType::Off)
    );
    assert_eq!(
        classify_remote_action("up_press"),
        Some(RemoteActionType::BrightnessUpStep)
    );
    assert_eq!(
        classify_remote_action("down_press"),
        Some(RemoteActionType::BrightnessDownStep)
    );
    assert_eq!(
        classify_remote_action("up_hold"),
        Some(RemoteActionType::BrightnessUpHold)
    );
    assert_eq!(
        classify_remote_action("down_hold"),
        Some(RemoteActionType::BrightnessDownHold)
    );
    assert_eq!(
        classify_remote_action("up_press_release"),
        Some(RemoteActionType::BrightnessStop)
    );
    assert_eq!(
        classify_remote_action("up_hold_release"),
        Some(RemoteActionType::BrightnessStop)
    );
    assert_eq!(
        classify_remote_action("down_press_release"),
        Some(RemoteActionType::BrightnessStop)
    );
    assert_eq!(
        classify_remote_action("down_hold_release"),
        Some(RemoteActionType::BrightnessStop)
    );
    // Long-press on/off = night/day mode
    assert_eq!(
        classify_remote_action("on_hold"),
        Some(RemoteActionType::NightMode)
    );
    assert_eq!(
        classify_remote_action("off_hold"),
        Some(RemoteActionType::DayMode)
    );
    // Release events for on/off are no-ops
    assert_eq!(classify_remote_action("on_press_release"), None);
    assert_eq!(classify_remote_action("on_hold_release"), None);
    assert_eq!(classify_remote_action("off_press_release"), None);
    assert_eq!(classify_remote_action("off_hold_release"), None);
}

// --- Aqara mini switch (WXKG11LM) ---
#[test]
fn test_aqara_mini() {
    assert_eq!(
        classify_remote_action("single"),
        Some(RemoteActionType::Toggle)
    );
    assert_eq!(
        classify_remote_action("hold"),
        Some(RemoteActionType::NightMode)
    );
    assert_eq!(classify_remote_action("release"), None);
    assert_eq!(classify_remote_action("double"), None);
}

// --- Sonoff SNZB-01 ---
#[test]
fn test_sonoff_button() {
    assert_eq!(
        classify_remote_action("single"),
        Some(RemoteActionType::Toggle)
    );
    assert_eq!(
        classify_remote_action("long"),
        Some(RemoteActionType::NightMode)
    );
    assert_eq!(classify_remote_action("double"), None);
}

// --- Tuya knobs (TS004F) ---
#[test]
fn test_tuya_knob() {
    assert_eq!(
        classify_remote_action("toggle"),
        Some(RemoteActionType::Toggle)
    );
    assert_eq!(
        classify_remote_action("brightness_step_up"),
        Some(RemoteActionType::BrightnessUpStep)
    );
    assert_eq!(
        classify_remote_action("brightness_step_down"),
        Some(RemoteActionType::BrightnessDownStep)
    );
    assert_eq!(
        classify_remote_action("brightness_move_up"),
        Some(RemoteActionType::BrightnessUpHold)
    );
    assert_eq!(
        classify_remote_action("brightness_move_down"),
        Some(RemoteActionType::BrightnessDownHold)
    );
    assert_eq!(
        classify_remote_action("brightness_stop"),
        Some(RemoteActionType::BrightnessStop)
    );
}

// --- Multi-button devices should not match (user automations) ---
#[test]
fn test_multi_button_ignored() {
    // SOMRIG
    assert_eq!(classify_remote_action("1_short_release"), None);
    assert_eq!(classify_remote_action("2_long_press"), None);
    // Aqara Opple
    assert_eq!(classify_remote_action("button_1_single"), None);
    assert_eq!(classify_remote_action("button_3_hold"), None);
    // Tuya multi-button
    assert_eq!(classify_remote_action("1_single"), None);
    assert_eq!(classify_remote_action("2_double"), None);
}

#[test]
fn test_classify_unknown() {
    assert_eq!(classify_remote_action("color_temperature_move"), None);
    assert_eq!(classify_remote_action("recall_scene_1"), None);
    assert_eq!(classify_remote_action("recall_0"), None);
}

#[test]
fn releases_never_press() {
    for action in ["toggle_release", "on_release", "arrow_left_release", "x_release"] {
        assert_eq!(classify_remote_action(action), None);
    }
    for action in ["up_release", "down_anything_release", "brightness_release"] {
        assert_eq!(classify_remote_action(action), Some(RemoteActionType::BrightnessStop));
    }
}

#[test]
fn brightness_words_decide() {
    assert_eq!(
        classify_remote_action("brightness_increase"),
        Some(RemoteActionType::BrightnessUpHold)
    );
    assert_eq!(
        classify_remote_action("brightness_decrease_step"),
        Some(RemoteActionType::BrightnessDownStep)
    );
    assert_eq!(classify_remote_action("brightness"), None);
    assert_eq!(classify_remote_action("power_on"), Some(RemoteActionType::On));
    assert_eq!(classify_remote_action("power_off"), Some(RemoteActionType::Off));
    assert_eq!(classify_remote_action(""), None);
}
