use jeha::calibration::{
    group_has_mixed_capabilities, group_needs_fanout, resolve, ResolvedCalibration,
};
use jeha::config::types::{LightCalibrationConfig, LightCalibrationOverride};
use jeha::names::NameMap;
use jeha::state::{LightType, Z2mDeviceInfo, Z2mGroupInfo, Z2mGroupMember};

fn make_device(
    supports_color_temp: bool,
    supports_color_xy: bool,
    min: Option<u16>,
    max: Option<u16>,
) -> Z2mDeviceInfo {
    Z2mDeviceInfo {
        ieee_address: "0x0011223344556677".to_string(),
        friendly_name: "test".to_string(),
        supported: true,
        supports_brightness: true,
        supports_color_temp,
        color_temp_min: min,
        color_temp_max: max,
        supports_color_xy,
        supports_color_hs: false,
    }
}

fn default_config() -> LightCalibrationConfig {
    LightCalibrationConfig::default()
}

#[test]
fn test_neutral_is_passthrough() {
    let cal = ResolvedCalibration::neutral();
    assert!(cal.is_neutral());
    assert_eq!(cal.apply_brightness(128), 128);
    assert_eq!(cal.apply_color_temp(300, None), 300);
}

#[test]
fn test_color_temp_offset_positive() {
    let cal = ResolvedCalibration {
        color_temp_offset: 15,
        brightness_offset: 0,
    };
    assert_eq!(cal.apply_color_temp(300, None), 315);
}

#[test]
fn test_color_temp_offset_negative() {
    let cal = ResolvedCalibration {
        color_temp_offset: -20,
        brightness_offset: 0,
    };
    assert_eq!(cal.apply_color_temp(300, None), 280);
}

#[test]
fn test_color_temp_clamped_to_device_range() {
    let device = make_device(true, false, Some(150), Some(500));
    let cal = ResolvedCalibration {
        color_temp_offset: 50,
        brightness_offset: 0,
    };
    // 490 + 50 = 540, clamped to 500
    assert_eq!(cal.apply_color_temp(490, Some(&device)), 500);
}

#[test]
fn test_brightness_offset_with_clamping() {
    let cal = ResolvedCalibration {
        color_temp_offset: 0,
        brightness_offset: -20,
    };
    assert_eq!(cal.apply_brightness(128), 108);
    // Clamp to minimum 1
    assert_eq!(cal.apply_brightness(5), 1);

    let cal_up = ResolvedCalibration {
        color_temp_offset: 0,
        brightness_offset: 50,
    };
    // Clamp to maximum 254
    assert_eq!(cal_up.apply_brightness(230), 254);
}

#[test]
fn test_rgbw_auto_default() {
    let config = default_config(); // auto_defaults=true, rgbw_color_temp_offset=15
    let rgbw = make_device(true, true, None, None);
    let cal = resolve("0x0011223344556677", &config, Some(&rgbw));
    assert_eq!(cal.color_temp_offset, 15);
    assert_eq!(cal.brightness_offset, 0);
    assert!(!cal.is_neutral());
}

#[test]
fn test_ct_only_no_auto_default() {
    let config = default_config();
    let ct = make_device(true, false, None, None);
    let cal = resolve("0x0011223344556677", &config, Some(&ct));
    assert!(cal.is_neutral());
}

#[test]
fn test_explicit_override_beats_auto_default() {
    let mut config = default_config();
    config.overrides.insert(
        "0x0011223344556677".to_string(),
        LightCalibrationOverride {
            color_temp_offset: Some(30),
            brightness_offset: Some(-10),
        },
    );
    let rgbw = make_device(true, true, None, None);
    let cal = resolve("0x0011223344556677", &config, Some(&rgbw));
    assert_eq!(cal.color_temp_offset, 30);
    assert_eq!(cal.brightness_offset, -10);
}

#[test]
fn test_partial_override_inherits_auto_default() {
    let mut config = default_config();
    config.overrides.insert(
        "0x0011223344556677".to_string(),
        LightCalibrationOverride {
            color_temp_offset: Some(30),
            brightness_offset: None, // inherits auto-default (0 for RGBW)
        },
    );
    let rgbw = make_device(true, true, None, None);
    let cal = resolve("0x0011223344556677", &config, Some(&rgbw));
    assert_eq!(cal.color_temp_offset, 30);
    assert_eq!(cal.brightness_offset, 0); // from rgbw_brightness_offset default
}

#[test]
fn test_group_needs_fanout_mixed() {
    let config = default_config();
    let mut device_map = NameMap::new();

    // One RGBW, one CT-only
    let rgbw = make_device(true, true, None, None);
    let ct = Z2mDeviceInfo {
        ieee_address: "0xAABBCCDDEEFF0011".to_string(),
        ..make_device(true, false, None, None)
    };
    device_map.insert("0x0011223344556677".to_string(), rgbw);
    device_map.insert("0xAABBCCDDEEFF0011".to_string(), ct);

    let group = Z2mGroupInfo {
        id: 1,
        friendly_name: "test_group".to_string(),
        members: vec![
            Z2mGroupMember {
                ieee_address: "0x0011223344556677".to_string(),
                endpoint: 1,
            },
            Z2mGroupMember {
                ieee_address: "0xAABBCCDDEEFF0011".to_string(),
                endpoint: 1,
            },
        ],
        scenes: vec![],
    };

    assert!(group_needs_fanout(&group, &config, &device_map));
}

#[test]
fn test_group_no_fanout_uniform_ct() {
    let config = default_config();
    let mut device_map = NameMap::new();

    // Two CT-only lights — both neutral
    let ct1 = Z2mDeviceInfo {
        ieee_address: "0x0011223344556677".to_string(),
        ..make_device(true, false, None, None)
    };
    let ct2 = Z2mDeviceInfo {
        ieee_address: "0xAABBCCDDEEFF0011".to_string(),
        ..make_device(true, false, None, None)
    };
    device_map.insert("0x0011223344556677".to_string(), ct1);
    device_map.insert("0xAABBCCDDEEFF0011".to_string(), ct2);

    let group = Z2mGroupInfo {
        id: 1,
        friendly_name: "test_group".to_string(),
        members: vec![
            Z2mGroupMember {
                ieee_address: "0x0011223344556677".to_string(),
                endpoint: 1,
            },
            Z2mGroupMember {
                ieee_address: "0xAABBCCDDEEFF0011".to_string(),
                endpoint: 1,
            },
        ],
        scenes: vec![],
    };

    assert!(!group_needs_fanout(&group, &config, &device_map));
}

#[test]
fn neutral_clamps_only_the_ends() {
    let cal = ResolvedCalibration::neutral();
    for brightness in 1..=254u8 {
        assert_eq!(cal.apply_brightness(brightness), brightness);
    }
    assert_eq!(cal.apply_brightness(0), 1);
    assert_eq!(cal.apply_brightness(255), 254);
    assert_eq!(cal.apply_color_temp(0, None), 1);
}

#[test]
fn light_types_follow_capabilities() {
    let mut device = make_device(true, true, None, None);
    assert_eq!(device.light_type(), LightType::Rgbw);
    device.supports_color_xy = false;
    device.supports_color_hs = true;
    assert_eq!(device.light_type(), LightType::Rgbw);
    device.supports_color_hs = false;
    assert_eq!(device.light_type(), LightType::CtOnly);
    device.supports_color_temp = false;
    assert_eq!(device.light_type(), LightType::BrightnessOnly);
    device.supports_brightness = false;
    assert_eq!(device.light_type(), LightType::OnOff);
}

fn group_of(members: &[&str]) -> Z2mGroupInfo {
    Z2mGroupInfo {
        id: 1,
        friendly_name: "g".to_string(),
        members: members
            .iter()
            .map(|ieee| Z2mGroupMember { ieee_address: ieee.to_string(), endpoint: 1 })
            .collect(),
        scenes: vec![],
    }
}

#[test]
fn capabilities_differ_by_type_or_range() {
    let mut devices = NameMap::new();
    devices.insert("a".to_string(), make_device(true, false, Some(153), Some(454)));
    devices.insert("b".to_string(), make_device(true, false, Some(153), Some(454)));
    devices.insert("c".to_string(), make_device(true, false, Some(150), Some(500)));
    devices.insert("d".to_string(), make_device(true, true, Some(153), Some(454)));
    assert!(!group_has_mixed_capabilities(&group_of(&["a", "b"]), &devices));
    assert!(group_has_mixed_capabilities(&group_of(&["a", "c"]), &devices));
    assert!(group_has_mixed_capabilities(&group_of(&["a", "b", "d"]), &devices));
    // Unknown members say nothing.
    assert!(!group_has_mixed_capabilities(&group_of(&["x", "a", "y"]), &devices));
    assert!(!group_has_mixed_capabilities(&group_of(&[]), &devices));
}
