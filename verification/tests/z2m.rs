use jeha::config::types::{
    AppConfig, CircadianSection, GeneralConfig, LightCalibrationConfig, LightsOutConfig,
    McpConfig, MqttConfig, NightModeSection, RoomConfig,
};
use jeha::effect::{Effect, Plan};
use jeha::event::{Event, Illuminance};
use jeha::mqtt::device_state::{handle_device_state, handle_report, read_report, DeviceReport};
use jeha::mqtt::lookup::{find_room_for_device, RoomLookup};
use jeha::mqtt::session::{subscriptions, PollOutcome, Session, SessionStep};
use jeha::mqtt::z2m::{
    handle_availability, handle_bridge_devices, handle_bridge_groups, handle_bridge_state,
    record_occupancy, record_remote_action, route_message, Expose, Route, TextField, Z2mDevice,
    Z2mGroup, Z2mMemory, REMOTE_ACTION_DEDUP_NANOS,
};
use jeha::names::NameMap;
use jeha::state::{
    RoomState, RoomStateUpdate, StateCommand, SystemState, UpdateSource, Z2mGroupMember, Z2mScene,
};
use jeha::time::{Duration, Instant};

const SECOND: u128 = 1_000_000_000;

fn at(secs: u128) -> Instant {
    Instant { nanos: secs * SECOND }
}

fn later(start: Instant, by: Duration) -> Instant {
    Instant { nanos: start.nanos + by.nanos }
}

fn config_of(rooms: Vec<(&str, RoomConfig)>) -> AppConfig {
    let mut map = NameMap::new();
    for (id, room) in rooms {
        map.insert(id.to_string(), room);
    }
    AppConfig {
        schema_version: 1,
        mqtt: MqttConfig::default(),
        general: GeneralConfig::default(),
        circadian: CircadianSection::default(),
        night_mode: NightModeSection::default(),
        lights_out: LightsOutConfig::default(),
        mcp: McpConfig::default(),
        light_calibration: LightCalibrationConfig::default(),
        rooms: map,
        automations: vec![],
    }
}

fn two_rooms() -> AppConfig {
    let mut kitchen = RoomConfig::default();
    kitchen.z2m_group = Some("Kitchen".to_string());
    kitchen.motion_sensor = Some("0x00158d000aaaaaaa".to_string());
    let mut office = RoomConfig::default();
    office.lights = vec!["0x001788010aaaaaa1".to_string(), "0x001788010aaaaaa2".to_string()];
    office.motion_sensor = Some("0x00158d000aaaaaaa".to_string());
    config_of(vec![("kitchen", kitchen), ("office", office)])
}

#[test]
fn test_room_lookup_from_config() {
    let config = two_rooms();
    let lookup = RoomLookup::from_config(&config);

    // Group-based room matches by group name only, not by member IEEE
    assert_eq!(lookup.group_to_room.get("Kitchen").unwrap(), "kitchen");
    assert!(!lookup.group_to_room.contains_key("Office"));

    // Light-based room matches by IEEE
    assert_eq!(lookup.ieee_to_room.get("0x001788010aaaaaa1").unwrap(), "office");
    assert_eq!(lookup.ieee_to_room.get("0x001788010aaaaaa2").unwrap(), "office");

    // A sensor shared by two rooms maps to both
    let mut rooms = lookup.sensor_rooms.get("0x00158d000aaaaaaa").unwrap().clone();
    rooms.sort();
    assert_eq!(rooms, vec!["kitchen", "office"]);
}

#[test]
fn test_record_occupancy_only_reports_transitions() {
    let mut cache = NameMap::new();
    let sensor = "0x00158d000aaaaaaa";

    // First report after startup has nothing to compare against
    assert!(record_occupancy(&mut cache, sensor, false));

    // Retained-state republishes (battery/illuminance/linkquality reports
    // re-emitting the same occupancy) must not look like motion events
    assert!(!record_occupancy(&mut cache, sensor, false));
    assert!(!record_occupancy(&mut cache, sensor, false));

    // Real motion
    assert!(record_occupancy(&mut cache, sensor, true));
    assert!(!record_occupancy(&mut cache, sensor, true));

    // Real clear
    assert!(record_occupancy(&mut cache, sensor, false));
}

#[test]
fn test_record_occupancy_tracks_sensors_independently() {
    let mut cache = NameMap::new();
    let hallway = "0x00158d000aaaaaaa";
    let office = "0x00158d000bbbbbbb";

    assert!(record_occupancy(&mut cache, hallway, true));
    // A different sensor's first report is its own transition, and does
    // not consume the hallway's cached value
    assert!(record_occupancy(&mut cache, office, true));
    assert!(!record_occupancy(&mut cache, hallway, true));
    assert!(record_occupancy(&mut cache, office, false));
    assert!(!record_occupancy(&mut cache, hallway, true));
}

#[test]
fn test_record_remote_action_suppresses_republished_action() {
    let mut cache = NameMap::new();
    let remote = "0x00158d000ccccccc";
    let start = at(1000);

    // First press is always an event.
    assert!(record_remote_action(&mut cache, remote, "on_hold", start));

    // Republishing the device state (battery, linkquality, ...) repeats
    // the same action; those must not replay the press.
    assert!(!record_remote_action(
        &mut cache,
        remote,
        "on_hold",
        later(start, Duration::from_micros(130))
    ));
    assert!(!record_remote_action(
        &mut cache,
        remote,
        "on_hold",
        later(start, Duration::from_millis(52))
    ));

    // A genuine repeat press outside the window still counts.
    assert!(record_remote_action(
        &mut cache,
        remote,
        "on_hold",
        later(start, Duration { nanos: REMOTE_ACTION_DEDUP_NANOS })
    ));
}

#[test]
fn test_record_remote_action_allows_distinct_actions_back_to_back() {
    let mut cache = NameMap::new();
    let remote = "0x00158d000ccccccc";
    let start = at(1000);

    // Real remotes emit sequences like on_press -> on_hold within a few
    // milliseconds; only exact repeats are republishes.
    assert!(record_remote_action(&mut cache, remote, "on_press", start));
    assert!(record_remote_action(
        &mut cache,
        remote,
        "on_hold",
        later(start, Duration::from_millis(5))
    ));
    assert!(record_remote_action(
        &mut cache,
        remote,
        "on_press_release",
        later(start, Duration::from_millis(10))
    ));
}

#[test]
fn test_record_remote_action_tracks_remotes_independently() {
    let mut cache = NameMap::new();
    let bedroom = "0x00158d000ccccccc";
    let kitchen = "0x00158d000ddddddd";
    let start = at(1000);

    assert!(record_remote_action(&mut cache, bedroom, "toggle", start));
    // Same action from a different remote is its own press.
    assert!(record_remote_action(&mut cache, kitchen, "toggle", start));
    assert!(!record_remote_action(
        &mut cache,
        bedroom,
        "toggle",
        later(start, Duration::from_millis(1))
    ));
}

#[test]
fn messages_are_routed_by_their_topic() {
    assert!(matches!(route_message("other/x", "zigbee2mqtt"), Route::Elsewhere));
    assert!(matches!(route_message("zigbee2mqttx", "zigbee2mqtt"), Route::Elsewhere));
    assert!(matches!(
        route_message("zigbee2mqtt/bridge/devices", "zigbee2mqtt"),
        Route::BridgeDevices
    ));
    assert!(matches!(
        route_message("zigbee2mqtt/bridge/groups", "zigbee2mqtt"),
        Route::BridgeGroups
    ));
    assert!(matches!(
        route_message("zigbee2mqtt/bridge/state", "zigbee2mqtt"),
        Route::BridgeState
    ));
    match route_message("zigbee2mqtt/Desk Lamp/availability", "zigbee2mqtt") {
        Route::Availability { device_name } => assert_eq!(device_name, "Desk Lamp"),
        other => panic!("unexpected route: {:?}", other),
    }
    match route_message("a/b/Kitchen", "a/b") {
        Route::DeviceState { device_name } => assert_eq!(device_name, "Kitchen"),
        other => panic!("unexpected route: {:?}", other),
    }
}

#[test]
fn online_is_looked_for_in_the_text() {
    assert!(matches!(
        handle_bridge_state(b"{\"state\":\"online\"}"),
        Some(StateCommand::SetZ2mOnline(true))
    ));
    assert!(matches!(handle_bridge_state(b"offline"), Some(StateCommand::SetZ2mOnline(false))));
    assert!(handle_bridge_state(&[0xff, 0xfe]).is_none());
    match handle_availability("lamp", b"online") {
        Some(StateCommand::SetDeviceAvailability { friendly_name, available }) => {
            assert_eq!(friendly_name, "lamp");
            assert!(available);
        }
        other => panic!("unexpected: {:?}", other),
    }
    assert!(handle_availability("lamp", &[0xc3]).is_none());
}

fn expose(name: &str) -> Expose {
    Expose {
        features: vec![],
        name: TextField::Text(name.to_string()),
        property: TextField::Absent,
        value_min: None,
        value_max: None,
    }
}

fn device(ieee: &str, name: &str, exposes: Option<Vec<Expose>>) -> Z2mDevice {
    Z2mDevice {
        ieee_address: ieee.to_string(),
        friendly_name: name.to_string(),
        supported: None,
        exposes,
        device_type: None,
    }
}

#[test]
fn capabilities_are_read_off_the_features() {
    let mut temp = expose("color_temp");
    temp.value_min = Some(153);
    temp.value_max = Some(65_536 + 500);
    let light = Expose {
        features: vec![expose("brightness"), temp, expose("color_xy")],
        name: TextField::Absent,
        property: TextField::Absent,
        value_min: None,
        value_max: None,
    };
    let by_property = Expose {
        features: vec![],
        name: TextField::Absent,
        property: TextField::Text("color_hs".to_string()),
        value_min: None,
        value_max: None,
    };
    let odd_name = Expose {
        features: vec![],
        name: TextField::Other,
        property: TextField::Text("brightness".to_string()),
        value_min: None,
        value_max: None,
    };
    let devices = vec![
        device("0x1", "lamp", Some(vec![light, by_property])),
        device("0x2", "odd", Some(vec![odd_name])),
        device("0x3", "bare", None),
        device("0x1x", "twice", None),
        device("0x1x", "later", None),
    ];
    let map = match handle_bridge_devices(&devices) {
        StateCommand::UpdateDevices(map) => map,
        other => panic!("unexpected: {:?}", other),
    };
    let lamp = map.get("0x1").unwrap();
    assert!(lamp.supports_brightness && lamp.supports_color_temp);
    assert!(lamp.supports_color_xy && lamp.supports_color_hs);
    assert_eq!((lamp.color_temp_min, lamp.color_temp_max), (Some(153), Some(500)));
    assert!(lamp.supported);
    assert!(!map.get("0x2").unwrap().supports_brightness);
    assert!(!map.get("0x3").unwrap().supports_color_temp);
    assert_eq!(map.get("0x1x").unwrap().friendly_name, "later");
    assert_eq!(map.len(), 4);
}

#[test]
fn groups_are_held_by_name() {
    let group = |id: u16, name: &str| Z2mGroup {
        id,
        friendly_name: name.to_string(),
        members: vec![Z2mGroupMember { ieee_address: "0x1".to_string(), endpoint: 11 }],
        scenes: vec![Z2mScene { id: 7, name: "Evening".to_string() }],
    };
    let map = match handle_bridge_groups(vec![group(1, "A"), group(2, "B"), group(3, "A")]) {
        StateCommand::UpdateGroups(map) => map,
        other => panic!("unexpected: {:?}", other),
    };
    assert_eq!(map.len(), 2);
    assert_eq!(map.get("A").unwrap().id, 3);
    assert_eq!(map.get("B").unwrap().members[0].endpoint, 11);
    assert_eq!(map.get("B").unwrap().scenes[0].name, "Evening");
}

fn known(state: &mut SystemState, name: &str, ieee: &str) {
    state.friendly_to_ieee.insert(name.to_string(), ieee.to_string());
}

fn empty_report() -> DeviceReport {
    DeviceReport {
        action: None,
        occupancy: None,
        illuminance: None,
        illuminance_above_threshold: None,
        state: None,
        brightness: None,
        color_temp: None,
    }
}

#[test]
fn reports_are_read_out_of_json() {
    let report = read_report(
        br#"{"action":"on","occupancy":true,"illuminance":12,"illuminance_above_threshold":false,
            "state":"ON","brightness":200,"color_temp":300,"battery":5}"#,
    )
    .unwrap();
    assert_eq!(report.action.as_deref(), Some("on"));
    assert_eq!(report.occupancy, Some(true));
    assert_eq!(report.illuminance, Some(12));
    assert_eq!(report.illuminance_above_threshold, Some(false));
    assert_eq!(report.state.as_deref(), Some("ON"));
    assert_eq!(report.brightness, Some(200));
    assert_eq!(report.color_temp, Some(300));
    let odd = read_report(br#"{"action":5,"occupancy":"yes","brightness":-1}"#).unwrap();
    assert!(odd.action.is_none() && odd.occupancy.is_none() && odd.brightness.is_none());
    assert!(read_report(b"[1,2]").unwrap().state.is_none());
    assert!(read_report(b"not json").is_none());
}

fn effects_of(
    name: &str,
    report: &DeviceReport,
    state: &SystemState,
    config: &AppConfig,
    memory: &mut Z2mMemory,
    now: Instant,
) -> Plan {
    let lookup = RoomLookup::from_config(config);
    handle_report(name, report, state, config, &lookup, memory, now)
}

#[test]
fn a_button_press_is_announced_once() {
    let config = two_rooms();
    let mut state = SystemState::default();
    known(&mut state, "remote", "0xR");
    let mut memory = Z2mMemory::new();
    let mut report = empty_report();
    report.action = Some("toggle".to_string());
    let plan = effects_of("remote", &report, &state, &config, &mut memory, at(1));
    assert!(matches!(
        &plan.effects[..],
        [Effect::Emit { event: Event::RemoteAction { remote_ieee, action } }]
            if remote_ieee == "0xR" && action == "toggle"
    ));
    let plan = effects_of("remote", &report, &state, &config, &mut memory, at(1));
    assert!(plan.effects.is_empty());
    report.action = Some(String::new());
    assert!(effects_of("remote", &report, &state, &config, &mut memory, at(9)).effects.is_empty());
    report.action = Some("off".to_string());
    assert!(effects_of("other", &report, &state, &config, &mut memory, at(9)).effects.is_empty());
}

#[test]
fn motion_is_announced_on_changes_only() {
    let config = two_rooms();
    let mut state = SystemState::default();
    known(&mut state, "sensor", "0x00158d000aaaaaaa");
    let mut memory = Z2mMemory::new();
    let mut report = empty_report();
    report.occupancy = Some(true);
    report.illuminance = Some(65_536 + 40);
    report.illuminance_above_threshold = Some(true);
    let plan = effects_of("sensor", &report, &state, &config, &mut memory, at(1));
    assert_eq!(plan.effects.len(), 3);
    for (i, room) in ["kitchen", "office"].iter().enumerate() {
        assert!(matches!(
            &plan.effects[i],
            Effect::Update { room_id, update: RoomStateUpdate::Illuminance(Illuminance::Lux(40)) }
                if room_id == room
        ));
    }
    assert!(matches!(
        &plan.effects[2],
        Effect::Emit { event: Event::MotionDetected { room_id, sensor_ieee, illuminance } }
            if room_id.is_empty() && sensor_ieee == "0x00158d000aaaaaaa"
                && *illuminance == Some(Illuminance::Lux(40))
    ));
    // The same again: the reading is written down, nothing is announced.
    let plan = effects_of("sensor", &report, &state, &config, &mut memory, at(2));
    assert_eq!(plan.effects.len(), 2);
    let mut cleared = empty_report();
    cleared.occupancy = Some(false);
    cleared.illuminance_above_threshold = Some(false);
    let plan = effects_of("sensor", &cleared, &state, &config, &mut memory, at(3));
    assert!(matches!(
        &plan.effects[0],
        Effect::Update {
            update: RoomStateUpdate::Illuminance(Illuminance::AboveThreshold(false)),
            ..
        }
    ));
    assert!(matches!(
        &plan.effects[2],
        Effect::Emit { event: Event::MotionCleared { .. } }
    ));
}

fn followed(now: Instant) -> RoomState {
    let mut rs = RoomState::default();
    rs.lights_on = true;
    rs.intended_brightness = Some(200);
    rs.intended_color_temp_mired = Some(300);
    rs.last_jeha_push = Some(now);
    rs
}

fn on_report(brightness: Option<u64>, color_temp: Option<u64>) -> DeviceReport {
    let mut report = empty_report();
    report.state = Some("ON".to_string());
    report.brightness = brightness;
    report.color_temp = color_temp;
    report
}

#[test]
fn lights_are_followed_by_group_or_by_lamp() {
    let config = two_rooms();
    let lookup = RoomLookup::from_config(&config);
    let mut state = SystemState::default();
    known(&mut state, "Desk", "0x001788010aaaaaa2");
    known(&mut state, "Stranger", "0x9");
    assert_eq!(find_room_for_device("Kitchen", &state, &lookup).as_deref(), Some("kitchen"));
    assert_eq!(find_room_for_device("Desk", &state, &lookup).as_deref(), Some("office"));
    assert_eq!(find_room_for_device("Stranger", &state, &lookup), None);
    assert_eq!(find_room_for_device("Nobody", &state, &lookup), None);

    let mut memory = Z2mMemory::new();
    let report = on_report(Some(256 + 7), Some(65_536 + 9));
    let plan = effects_of("Desk", &report, &state, &config, &mut memory, at(1));
    assert!(matches!(
        &plan.effects[..],
        [Effect::Update {
            room_id,
            update: RoomStateUpdate::LightsOn {
                brightness: Some(7),
                color_temp_mired: Some(9),
                source: UpdateSource::Circadian,
            },
        }] if room_id == "office"
    ));
    let mut off = empty_report();
    off.state = Some("OFF".to_string());
    let plan = effects_of("Kitchen", &off, &state, &config, &mut memory, at(1));
    assert!(matches!(
        &plan.effects[..],
        [Effect::Update { room_id, update: RoomStateUpdate::LightsOff }] if room_id == "kitchen"
    ));
    let mut other = empty_report();
    other.state = Some("BLINK".to_string());
    assert!(effects_of("Kitchen", &other, &state, &config, &mut memory, at(1)).effects.is_empty());
}

fn is_external(plan: &Plan) -> bool {
    plan.effects.len() == 3
        && matches!(
            &plan.effects[1],
            Effect::Update {
                room_id,
                update: RoomStateUpdate::ExternalChange { ttl_secs: 1800 },
            } if room_id == "kitchen"
        )
        && matches!(
            &plan.effects[2],
            Effect::Emit { event: Event::ExternalLightChange { room_id, device_name } }
                if room_id == "kitchen" && device_name == "Kitchen"
        )
}

#[test]
fn changes_by_others_are_found_beyond_the_tolerance() {
    let config = two_rooms();
    let mut state = SystemState::default();
    state.rooms.insert("kitchen".to_string(), followed(at(100)));
    let now = at(200);
    for (brightness, color_temp, found) in [
        (Some(215), None, false),
        (Some(216), None, true),
        (Some(184), None, true),
        (None, Some(325), false),
        (None, Some(326), true),
        (Some(200), Some(274), true),
        (None, None, false),
        (Some(u64::MAX), None, true),
    ] {
        let mut memory = Z2mMemory::new();
        let report = on_report(brightness, color_temp);
        let plan = effects_of("Kitchen", &report, &state, &config, &mut memory, now);
        assert_eq!(is_external(&plan), found, "{:?} {:?}", brightness, color_temp);
    }
}

#[test]
fn echoes_are_no_changes() {
    let config = two_rooms();
    let mut state = SystemState::default();
    state.rooms.insert("kitchen".to_string(), followed(at(100)));
    let report = on_report(Some(1), None);
    // Thirty seconds of transition and five more.
    let mut memory = Z2mMemory::new();
    let plan = effects_of("Kitchen", &report, &state, &config, &mut memory, at(135));
    assert!(!is_external(&plan));
    let after = Instant { nanos: at(135).nanos + 1 };
    let plan = effects_of("Kitchen", &report, &state, &config, &mut memory, after);
    assert!(is_external(&plan));
}

#[test]
fn only_rooms_on_the_curve_can_be_changed_by_others() {
    let config = two_rooms();
    let report = on_report(Some(1), None);
    let mut paused = followed(at(1));
    paused.circadian_paused = true;
    let mut manual = followed(at(1));
    manual.update_source = UpdateSource::Manual;
    let mut dark = followed(at(1));
    dark.lights_on = false;
    for rs in [paused, manual, dark] {
        let mut state = SystemState::default();
        state.rooms.insert("kitchen".to_string(), rs);
        let mut memory = Z2mMemory::new();
        let plan = effects_of("Kitchen", &report, &state, &config, &mut memory, at(999));
        assert_eq!(plan.effects.len(), 1);
    }
    // A room that was never pushed to can be.
    let mut fresh = followed(at(1));
    fresh.last_jeha_push = None;
    let mut state = SystemState::default();
    state.rooms.insert("kitchen".to_string(), fresh);
    let mut memory = Z2mMemory::new();
    assert!(is_external(&effects_of("Kitchen", &report, &state, &config, &mut memory, at(2))));
}

#[test]
fn a_change_is_announced_once_per_window() {
    let config = two_rooms();
    let mut state = SystemState::default();
    state.rooms.insert("kitchen".to_string(), followed(at(100)));
    let report = on_report(Some(1), None);
    let mut memory = Z2mMemory::new();
    assert!(is_external(&effects_of("Kitchen", &report, &state, &config, &mut memory, at(200))));
    assert!(!is_external(&effects_of("Kitchen", &report, &state, &config, &mut memory, at(201))));
    assert!(is_external(&effects_of("Kitchen", &report, &state, &config, &mut memory, at(202))));
}

#[test]
fn payloads_lead_to_the_same_effects() {
    let config = two_rooms();
    let lookup = RoomLookup::from_config(&config);
    let mut state = SystemState::default();
    state.rooms.insert("kitchen".to_string(), followed(at(100)));
    let mut memory = Z2mMemory::new();
    let payload = br#"{"state":"ON","brightness":1,"color_temp":300}"#;
    let plan =
        handle_device_state("Kitchen", payload, &state, &config, &lookup, &mut memory, at(200));
    assert!(is_external(&plan));
    let plan =
        handle_device_state("Kitchen", b"{", &state, &config, &lookup, &mut memory, at(300));
    assert!(plan.effects.is_empty());
}

#[test]
fn waits_double_up_to_a_minute() {
    let mut session = Session::new();
    let waits: Vec<SessionStep> =
        (0..8).map(|_| session.advance(PollOutcome::Failed)).collect();
    let secs = [1u64, 2, 4, 8, 16, 32, 60, 60];
    for (step, secs) in waits.iter().zip(secs) {
        assert_eq!(*step, SessionStep::Wait { secs });
    }
    assert_eq!(session.advance(PollOutcome::Connected), SessionStep::Announce);
    assert_eq!(session.advance(PollOutcome::Failed), SessionStep::Wait { secs: 1 });
    assert_eq!(session.advance(PollOutcome::Message), SessionStep::HandleMessage);
    assert_eq!(session.advance(PollOutcome::Other), SessionStep::Nothing);
}

#[test]
fn subscriptions_cover_bridge_and_devices() {
    assert_eq!(
        subscriptions("z"),
        vec!["z/bridge/devices", "z/bridge/groups", "z/bridge/state", "z/+", "z/+/availability"]
    );
}
