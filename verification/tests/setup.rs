use jeha::config::types::{
    AppConfig, CircadianSection, GeneralConfig, LightCalibrationConfig, LightsOutConfig,
    McpConfig, MqttConfig, NightModeSection, RoomConfig,
};
use jeha::config_sync::{sync_new_groups, updated_file, wants_sync};
use jeha::event::Event;
use jeha::init::{
    build_device_map, find_motion_sensor_for_group, generate_config, has_feature, InitEvent,
    InitProgress, InitStep,
};
use jeha::mqtt::z2m::{Expose, TextField, Z2mDevice, Z2mGroup};
use jeha::names::NameMap;
use jeha::naming::{make_room_id, trim_end};
use jeha::state::{SystemState, Z2mDeviceInfo, Z2mGroupInfo, Z2mGroupMember};
use jeha::text::{
    contains, decimal_string, ends_with, is_before, join, parse_unsigned, signed_decimal_string,
    split_in_two, starts_with, strip_prefix, strip_suffix,
};

fn expose(name: &str, features: Vec<Expose>) -> Expose {
    Expose {
        features,
        name: TextField::Text(name.to_string()),
        property: TextField::Absent,
        value_min: None,
        value_max: None,
    }
}

fn device(ieee: &str, name: &str, features: &[&str]) -> Z2mDevice {
    Z2mDevice {
        ieee_address: ieee.to_string(),
        friendly_name: name.to_string(),
        supported: None,
        exposes: Some(vec![expose("light", features.iter().map(|f| expose(f, vec![])).collect())]),
        device_type: None,
    }
}

fn group(name: &str, members: &[&str]) -> Z2mGroup {
    Z2mGroup {
        id: 1,
        friendly_name: name.to_string(),
        members: members
            .iter()
            .map(|m| Z2mGroupMember { ieee_address: m.to_string(), endpoint: 1 })
            .collect(),
        scenes: vec![],
    }
}

#[test]
fn features_are_found_at_any_depth() {
    let nested = vec![expose("a", vec![expose("b", vec![expose("c", vec![])])]), expose("d", vec![])];
    for name in ["a", "b", "c", "d"] {
        assert!(has_feature(&nested, name));
    }
    assert!(!has_feature(&nested, "e"));
}

#[test]
fn a_first_configuration_has_a_room_per_lit_group() {
    let mut coordinator = device("0xc", "Coordinator", &["brightness"]);
    coordinator.device_type = Some("Coordinator".to_string());
    let mut unsupported = device("0xu", "Old lamp", &["brightness"]);
    unsupported.supported = Some(false);
    let devices = vec![
        device("0x1", "Lamp 1", &["brightness", "color_temp"]),
        device("0x2", "Plug", &["state"]),
        device("0x3", "kitchen motion", &["occupancy"]),
        coordinator,
        unsupported,
    ];
    let map = build_device_map(&devices);
    assert_eq!(map.len(), 4);
    assert!(map.get("0x1").unwrap().is_light);
    assert!(!map.get("0xc").unwrap().is_light);
    assert!(map.get("0x3").unwrap().is_motion_sensor);
    assert!(map.get("0xu").is_none());
    let groups = vec![
        group("Kitchen", &["0x1", "0x2"]),
        group("Plugs", &["0x2", "0xc", "0xu"]),
        group("Living-Room (West)", &["0x1"]),
    ];
    assert_eq!(
        generate_config(&groups, &map, "zigbee2mqtt"),
        "schema_version = 1\n\
         \n[rooms.kitchen]\ndisplay_name = \"Kitchen\"\nz2m_group = \"Kitchen\"\nmotion_sensor = \"0x3\"\n\
         \n[rooms.living_room_west]\ndisplay_name = \"Living-Room (West)\"\nz2m_group = \"Living-Room (West)\"\n"
    );
    assert_eq!(
        generate_config(&vec![], &map, "home"),
        "schema_version = 1\n\n[mqtt]\nbase_topic = \"home\"\n"
    );
    assert_eq!(find_motion_sensor_for_group("KITCHEN", &map).as_deref(), Some("0x3"));
    assert_eq!(
        find_motion_sensor_for_group("My Kitchen Motion Group", &map).as_deref(),
        Some("0x3")
    );
    assert_eq!(find_motion_sensor_for_group("Hall", &map), None);
}

#[test]
fn both_lists_are_waited_for() {
    let mut progress = InitProgress::new();
    assert_eq!(
        progress.timeout_error(),
        Some("Timed out waiting for bridge/devices from Z2M. Is Zigbee2MQTT running?")
    );
    assert_eq!(progress.advance(InitEvent::Connected), InitStep::Subscribe);
    assert_eq!(progress.advance(InitEvent::Connected), InitStep::Nothing);
    assert_eq!(progress.advance(InitEvent::Other), InitStep::Nothing);
    assert_eq!(
        progress.advance(InitEvent::Message { topic: "z/bridge/devices" }),
        InitStep::KeepDevices
    );
    assert_eq!(
        progress.timeout_error(),
        Some("Timed out waiting for bridge/groups from Z2M.")
    );
    assert_eq!(
        progress.advance(InitEvent::Message { topic: "z/bridge/info" }),
        InitStep::Nothing
    );
    assert!(!progress.is_complete());
    assert_eq!(
        progress.advance(InitEvent::Message { topic: "z/bridge/groups" }),
        InitStep::KeepGroups
    );
    assert!(progress.is_complete());
    assert_eq!(progress.timeout_error(), None);
}

fn config_of(rooms: Vec<(&str, Option<&str>)>) -> AppConfig {
    let mut map = NameMap::new();
    for (id, group) in rooms {
        let mut room = RoomConfig::default();
        room.z2m_group = group.map(|g| g.to_string());
        map.insert(id.to_string(), room);
    }
    AppConfig {
        schema_version: 1,
        mqtt: MqttConfig::default(),
        general: GeneralConfig::default(),
        circadian: CircadianSection::default(),
        night_mode: NightModeSection::default(),
        lights_out: LightsOutConfig::default(),
        mcp: McpConfig::default(),
        light_calibration: LightCalibrationConfig::default(),
        rooms: map,
        automations: vec![],
    }
}

fn network() -> SystemState {
    let mut state = SystemState::default();
    for (ieee, dimmable) in [("lamp", true), ("plug", false)] {
        state.device_map.insert(
            ieee.to_string(),
            Z2mDeviceInfo {
                ieee_address: ieee.to_string(),
                friendly_name: ieee.to_string(),
                supported: true,
                supports_brightness: dimmable,
                supports_color_temp: false,
                color_temp_min: None,
                color_temp_max: None,
                supports_color_xy: false,
                supports_color_hs: false,
            },
        );
    }
    for (name, member) in
        [("Kitchen", Some("lamp")), ("Plugs", Some("plug")), ("Empty", None), ("Guest Bath", Some("lamp"))]
    {
        state.group_map.insert(
            name.to_string(),
            Z2mGroupInfo {
                id: 1,
                friendly_name: name.to_string(),
                members: member
                    .iter()
                    .map(|m| Z2mGroupMember { ieee_address: m.to_string(), endpoint: 1 })
                    .collect(),
                scenes: vec![],
            },
        );
    }
    state
}

#[test]
fn new_groups_get_rooms() {
    let config = config_of(vec![("cooking", Some("Kitchen"))]);
    assert_eq!(
        sync_new_groups(&config, &network()).unwrap(),
        "\n[rooms.guest_bath]\ndisplay_name = \"Guest Bath\"\nz2m_group = \"Guest Bath\"\n"
    );
    // A room of that id is there already.
    let config = config_of(vec![("cooking", Some("Kitchen")), ("guest_bath", Some("Other"))]);
    assert!(sync_new_groups(&config, &network()).is_none());
    let config = config_of(vec![]);
    let both = sync_new_groups(&config, &network()).unwrap();
    assert!(both.contains("[rooms.kitchen]") && both.contains("[rooms.guest_bath]"));
    assert!(wants_sync(&Event::GroupsUpdated));
    assert!(!wants_sync(&Event::DevicesUpdated));
}

#[test]
fn additions_go_behind_the_last_line() {
    assert_eq!(updated_file("a = 1\n\n  \n", "\n[b]\n"), "a = 1\n[b]\n");
    assert_eq!(updated_file("", "\n[b]\n"), "\n[b]\n");
    assert_eq!(trim_end("x y \t\u{3000}"), "x y");
    assert_eq!(trim_end(" \n"), "");
}

#[test]
fn room_ids_are_plain() {
    assert_eq!(make_room_id("Living Room"), "living_room");
    assert_eq!(make_room_id("Büro-2 (West)!"), "büro_2_west");
    assert_eq!(make_room_id("ÄÖ_x"), "äö_x");
    assert_eq!(make_room_id("¿?"), "");
    for c in make_room_id("A-b C.d/e\\f\"g'h").chars() {
        assert!(c.is_alphanumeric() || c == '_');
    }
}

#[test]
fn texts_are_taken_apart() {
    assert!(starts_with("zigbee2mqtt/x", "zigbee2mqtt"));
    assert!(!starts_with("zig", "zigbee"));
    assert!(ends_with("a/availability", "/availability"));
    assert!(!ends_with("y", "ty"));
    assert!(contains("brightness_up", "ness_"));
    assert!(contains("abc", ""));
    assert!(contains("", ""));
    assert!(!contains("abc", "abcd"));
    assert_eq!(strip_prefix("a/b", "a").as_deref(), Some("/b"));
    assert_eq!(strip_prefix("a/b", "b"), None);
    assert_eq!(strip_suffix("a/b", "/b").as_deref(), Some("a"));
    assert_eq!(strip_suffix("b", "ab"), None);
    assert_eq!(split_in_two("12:30", ':'), Some(("12".to_string(), "30".to_string())));
    assert_eq!(split_in_two(":", ':'), Some((String::new(), String::new())));
    assert_eq!(split_in_two("1:2:3", ':'), None);
    assert_eq!(split_in_two("123", ':'), None);
}

#[test]
fn numbers_are_written_and_read_back() {
    for n in [0u64, 7, 10, 99, 100, 65_535, u64::MAX] {
        assert_eq!(decimal_string(n), n.to_string());
        assert_eq!(parse_unsigned(&decimal_string(n), u64::MAX), Some(n));
    }
    for n in [0i64, -1, 5, i64::MIN, i64::MAX] {
        assert_eq!(signed_decimal_string(n), n.to_string());
    }
    assert_eq!(parse_unsigned("+5", 10), Some(5));
    assert_eq!(parse_unsigned("007", 10), Some(7));
    assert_eq!(parse_unsigned("11", 10), None);
    assert_eq!(parse_unsigned("18446744073709551616", u64::MAX), None);
    for bad in ["", "+", "-1", "1 ", "1a", "++1"] {
        assert_eq!(parse_unsigned(bad, 1000), None);
    }
}

#[test]
fn texts_are_ordered_and_joined() {
    assert!(is_before("a", "b") && is_before("", "a") && is_before("a", "ab"));
    assert!(is_before("Z", "a") && is_before("z", "ä"));
    assert!(!is_before("a", "a") && !is_before("b", "a") && !is_before("", ""));
    let texts = vec!["a".to_string(), "b".to_string(), "c".to_string()];
    assert_eq!(join(&texts, ", "), "a, b, c");
    assert_eq!(join(&vec![], ", "), "");
}
