use jeha::circadian::curve::{CircadianTarget, Eased};
use jeha::circadian::engine::{
    check_clamp, check_room, clamp_color_temp_for_device, clamp_color_temp_for_group, find_target,
    lights_for_room, params_for_room, react, CircadianEngine, CurveNow, Reaction,
};
use jeha::config::types::{
    AppConfig, CircadianSection, GeneralConfig, LightCalibrationConfig, LightCalibrationOverride,
    LightsOutConfig, McpConfig, MqttConfig, NightModeSection, RoomConfig,
};
use jeha::effect::{Effect, LightCommand};
use jeha::event::Event;
use jeha::mqtt::publish::{LightPayload, Publisher};
use jeha::names::NameMap;
use jeha::state::{
    RoomState, RoomStateUpdate, SystemState, UpdateSource, Z2mDeviceInfo, Z2mGroupInfo,
    Z2mGroupMember,
};
use jeha::time::Instant;

const SECOND: u128 = 1_000_000_000;
const NOON: u32 = 720;

fn at(secs: u128) -> Instant {
    Instant { nanos: secs * SECOND }
}

fn config_of(rooms: Vec<(&str, RoomConfig)>) -> AppConfig {
    let mut map = NameMap::new();
    for (id, room) in rooms {
        map.insert(id.to_string(), room);
    }
    AppConfig {
        schema_version: 1,
        mqtt: MqttConfig::default(),
        general: GeneralConfig::default(),
        circadian: CircadianSection::default(),
        night_mode: NightModeSection::default(),
        lights_out: LightsOutConfig::default(),
        mcp: McpConfig::default(),
        light_calibration: LightCalibrationConfig::default(),
        rooms: map,
        automations: vec![],
    }
}

fn group_room(group: &str) -> RoomConfig {
    let mut room = RoomConfig::default();
    room.z2m_group = Some(group.to_string());
    room
}

fn lamp(ieee: &str, rgb: bool, range: Option<(u16, u16)>) -> Z2mDeviceInfo {
    Z2mDeviceInfo {
        ieee_address: ieee.to_string(),
        friendly_name: format!("lamp {}", ieee),
        supported: true,
        supports_brightness: true,
        supports_color_temp: true,
        color_temp_min: range.map(|r| r.0),
        color_temp_max: range.map(|r| r.1),
        supports_color_xy: rgb,
        supports_color_hs: false,
    }
}

fn add_lamp(state: &mut SystemState, device: Z2mDeviceInfo) {
    state.device_map.insert(device.ieee_address.clone(), device);
}

fn add_group(state: &mut SystemState, name: &str, members: &[&str]) {
    state.group_map.insert(
        name.to_string(),
        Z2mGroupInfo {
            id: 1,
            friendly_name: name.to_string(),
            members: members
                .iter()
                .map(|m| Z2mGroupMember { ieee_address: m.to_string(), endpoint: 1 })
                .collect(),
            scenes: vec![],
        },
    );
}

fn light_up(state: &mut SystemState, room: &str) {
    let mut rs = RoomState::default();
    rs.lights_on = true;
    state.rooms.insert(room.to_string(), rs);
}

fn round(config: &AppConfig, state: &SystemState, now: Instant) -> Vec<Effect> {
    let eased = NameMap::new();
    let engine = CircadianEngine::new(config, state);
    let mut one_by_one = 0;
    for i in 0..config.rooms.len() {
        let (id, room) = (config.rooms.key_at(i), config.rooms.value_at(i));
        assert!(engine.check_room_round(now, NOON, &eased, id, room));
        one_by_one += engine.update_room(now, NOON, &eased, id, room).effects.len();
    }
    let effects = engine.update_all_rooms(now, NOON, &eased).effects;
    assert_eq!(effects.len(), one_by_one);
    effects
}

#[test]
fn a_uniform_group_takes_one_command() {
    let config = config_of(vec![("kitchen", group_room("Kitchen"))]);
    let mut state = SystemState::default();
    add_lamp(&mut state, lamp("a", false, Some((300, 400))));
    add_lamp(&mut state, lamp("b", false, Some((300, 400))));
    add_group(&mut state, "Kitchen", &["a", "b"]);
    light_up(&mut state, "kitchen");
    let effects = round(&config, &state, at(1));
    assert_eq!(effects.len(), 3);
    // Noon is 4000K, 250 mired, below what the lamps can show.
    assert!(matches!(
        &effects[0],
        Effect::Publish {
            command: LightCommand::PushCircadianGroup {
                group,
                brightness: 254,
                color_temp_mired: 300,
                transition: 30,
            },
            required: true,
        } if group == "Kitchen"
    ));
    assert!(matches!(
        &effects[1],
        Effect::Update {
            room_id,
            update: RoomStateUpdate::LightsOn {
                brightness: Some(254),
                color_temp_mired: Some(300),
                source: UpdateSource::Circadian,
            },
        } if room_id == "kitchen"
    ));
    assert!(matches!(
        &effects[2],
        Effect::Update {
            update: RoomStateUpdate::JehaPush {
                brightness: Some(254),
                color_temp_mired: Some(300),
            },
            ..
        }
    ));
}

#[test]
fn a_mixed_group_gets_corrections_where_needed() {
    let config = config_of(vec![("kitchen", group_room("Kitchen"))]);
    let mut state = SystemState::default();
    add_lamp(&mut state, lamp("ceiling", false, Some((200, 400))));
    add_lamp(&mut state, lamp("table", true, Some((200, 400))));
    add_lamp(&mut state, lamp("spot", false, Some((280, 400))));
    add_group(&mut state, "Kitchen", &["ceiling", "table", "spot", "unknown"]);
    light_up(&mut state, "kitchen");
    let effects = round(&config, &state, at(1));
    let commands: Vec<&LightCommand> = effects
        .iter()
        .filter_map(|e| match e {
            Effect::Publish { command, .. } => Some(command),
            _ => None,
        })
        .collect();
    assert_eq!(commands.len(), 3);
    // The narrowest range wins for the group.
    assert!(matches!(
        commands[0],
        LightCommand::PushCircadianGroup { color_temp_mired: 280, .. }
    ));
    // The ceiling lamp would ideally show 250, the table lamp 250 + 15.
    assert!(matches!(
        commands[1],
        LightCommand::PushCircadianIeee { ieee, color_temp_mired: Some(250), transition: 30, .. }
            if ieee == "ceiling"
    ));
    assert!(matches!(
        commands[2],
        LightCommand::PushCircadianIeee { ieee, color_temp_mired: Some(250), .. } if ieee == "table"
    ));
}

#[test]
fn without_a_group_each_lamp_is_told() {
    let mut room = RoomConfig::default();
    room.lights = vec!["a".to_string(), "dim".to_string(), "unknown".to_string()];
    let config = config_of(vec![("office", room)]);
    let mut state = SystemState::default();
    add_lamp(&mut state, lamp("a", false, Some((260, 400))));
    let mut dim = lamp("dim", false, None);
    dim.supports_color_temp = false;
    add_lamp(&mut state, dim);
    light_up(&mut state, "office");
    let effects = round(&config, &state, at(1));
    assert_eq!(effects.len(), 5);
    for (i, (name, ct)) in
        [("a", Some(260u16)), ("dim", None), ("unknown", None)].iter().enumerate()
    {
        assert!(matches!(
            &effects[i],
            Effect::Publish {
                command: LightCommand::PushCircadianIeee {
                    ieee, brightness: 254, color_temp_mired, transition: 30,
                },
                required: true,
            } if ieee == name && color_temp_mired == ct
        ));
    }
    assert!(matches!(
        &effects[3],
        Effect::Update {
            update: RoomStateUpdate::LightsOn { color_temp_mired: Some(250), .. },
            ..
        }
    ));
}

#[test]
fn lights_that_are_off_are_never_updated() {
    let mut off = group_room("C");
    off.circadian_enabled = false;
    let config = config_of(vec![
        ("dark", group_room("A")),
        ("unknown", group_room("B")),
        ("disabled", off),
        ("night", group_room("D")),
        ("paused", group_room("E")),
    ]);
    let mut state = SystemState::default();
    state.rooms.insert("dark".to_string(), RoomState::default());
    light_up(&mut state, "disabled");
    let mut night = RoomState::default();
    night.lights_on = true;
    night.night_mode_active = true;
    state.rooms.insert("night".to_string(), night);
    let mut paused = RoomState::default();
    paused.lights_on = true;
    paused.circadian_paused = true;
    state.rooms.insert("paused".to_string(), paused);
    assert!(round(&config, &state, at(1)).is_empty());
}

#[test]
fn snoozes_and_overrides_run_out() {
    let config = config_of(vec![("a", group_room("A"))]);
    let mut rs = RoomState::default();
    rs.lights_on = true;
    rs.circadian_paused = true;
    rs.circadian_paused_until = Some(at(10));
    rs.update_source = UpdateSource::Manual;
    rs.manual_override_until = Some(at(20));
    let mut state = SystemState::default();
    state.rooms.insert("a".to_string(), rs);
    assert!(round(&config, &state, at(9)).is_empty());
    // The snooze is over, the override is not.
    let effects = round(&config, &state, at(10));
    assert!(matches!(
        &effects[..],
        [Effect::Update {
            update: RoomStateUpdate::CircadianPause { paused: false, until: None },
            ..
        }]
    ));
    // Both are over.
    let effects = round(&config, &state, at(20));
    assert_eq!(effects.len(), 6);
    for effect in &effects {
        if let Effect::Update { update, .. } = effect {
            rs.apply(update, at(20));
        }
    }
    assert_eq!(rs.update_source, UpdateSource::Circadian);
    assert!(!rs.circadian_paused);
    assert_eq!(rs.intended_color_temp_mired, Some(250));
    assert_eq!(rs.last_jeha_push, Some(at(20)));
}

#[test]
fn a_change_by_others_holds_the_curve_back() {
    let config = config_of(vec![("a", group_room("A"))]);
    let mut rs = RoomState::default();
    rs.lights_on = true;
    rs.apply(&RoomStateUpdate::ExternalChange { ttl_secs: 100 }, at(50));
    let mut state = SystemState::default();
    state.rooms.insert("a".to_string(), rs);
    assert!(round(&config, &state, at(149)).is_empty());
    assert!(!round(&config, &state, at(150)).is_empty());
}

#[test]
fn newcomers_are_brought_up_to_date() {
    let config = config_of(vec![("dark", group_room("Dark")), ("lit", group_room("Lit"))]);
    let mut state = SystemState::default();
    add_lamp(&mut state, lamp("a", false, Some((260, 400))));
    add_group(&mut state, "Dark", &["a"]);
    add_group(&mut state, "Lit", &["a"]);
    state.rooms.insert("dark".to_string(), RoomState::default());
    light_up(&mut state, "lit");
    let engine = CircadianEngine::new(&config, &state);
    let effects = engine.push_for_device(at(1), NOON, &NameMap::new(), &"a".to_string()).effects;
    assert_eq!(effects.len(), 2);
    assert!(matches!(
        &effects[0],
        Effect::Publish {
            command: LightCommand::PushCircadianIeee {
                ieee,
                brightness: 254,
                color_temp_mired: Some(260),
                transition: 3,
            },
            ..
        } if ieee == "a"
    ));
    assert!(matches!(
        &effects[1],
        Effect::Update {
            room_id,
            update: RoomStateUpdate::JehaPush {
                brightness: Some(254),
                color_temp_mired: Some(260),
            },
        } if room_id == "lit"
    ));
    let stranger = "b".to_string();
    assert!(engine.push_for_device(at(1), NOON, &NameMap::new(), &stranger).effects.is_empty());
}

#[test]
fn newcomers_off_the_curve_are_left_alone() {
    let newcomer = "a".to_string();
    let pushes = |config: &AppConfig, state: &SystemState| {
        let engine = CircadianEngine::new(config, state);
        assert!(engine.check_newcomer(at(10), NOON, &NameMap::new(), &newcomer));
        engine.push_for_device(at(10), NOON, &NameMap::new(), &newcomer).effects.len()
    };
    let mut state = SystemState::default();
    add_lamp(&mut state, lamp("a", false, None));
    add_group(&mut state, "G", &["a"]);
    light_up(&mut state, "r");
    assert_eq!(pushes(&config_of(vec![("r", group_room("G"))]), &state), 2);

    let mut disabled = group_room("G");
    disabled.circadian_enabled = false;
    assert_eq!(pushes(&config_of(vec![("r", disabled)]), &state), 0);

    let mut rs = RoomState::default();
    rs.lights_on = true;
    rs.apply(&RoomStateUpdate::ExternalChange { ttl_secs: 5 }, at(6));
    state.rooms.insert("r".to_string(), rs);
    assert_eq!(pushes(&config_of(vec![("r", group_room("G"))]), &state), 0);
    rs.apply(&RoomStateUpdate::ExternalChange { ttl_secs: 5 }, at(5));
    state.rooms.insert("r".to_string(), rs);
    assert_eq!(pushes(&config_of(vec![("r", group_room("G"))]), &state), 2);
}

#[test]
fn one_bad_lamp_or_room_stops_no_other() {
    let mut config = config_of(vec![("good", group_room("Good")), ("bad", group_room("Bad"))]);
    let mut state = SystemState::default();
    add_lamp(&mut state, lamp("a", false, Some((150, 500))));
    add_lamp(&mut state, lamp("spare", false, Some((500, 150))));
    add_group(&mut state, "Good", &["a"]);
    add_group(&mut state, "Bad", &["a", "spare"]);
    light_up(&mut state, "good");
    // The lamp with the empty range is in a dark room: nothing is asked of it.
    assert_eq!(round(&config, &state, at(1)).len(), 3);
    assert!(!check_clamp(&state, "spare") && check_clamp(&state, "a"));

    light_up(&mut state, "bad");
    let eased = NameMap::new();
    let engine = CircadianEngine::new(&config, &state);
    let ready = |i: usize| {
        let (id, room) = (config.rooms.key_at(i), config.rooms.value_at(i));
        engine.check_room_round(at(1), NOON, &eased, id, room)
    };
    assert!(ready(0) && !ready(1));

    // A zero that is not converted at noon is no obstacle.
    state.rooms.remove("bad");
    config.circadian.defaults.end_temp_k = 0;
    assert_eq!(round(&config, &state, at(1)).len(), 3);
    config.circadian.defaults.peak_temp_k = 0;
    assert!(!check_room(&config, config.rooms.get("good").unwrap(), "good", NOON, &eased));
}

#[test]
fn the_engine_reacts_to_devices_and_connections() {
    let mut state = SystemState::default();
    add_lamp(&mut state, lamp("a", false, None));
    let mut plug = lamp("plug", false, None);
    plug.supports_brightness = false;
    add_lamp(&mut state, plug);
    let online = |ieee: &str, available: bool| Event::DeviceAvailabilityChanged {
        ieee: ieee.to_string(),
        available,
    };
    assert!(matches!(
        react(&online("a", true), &state),
        Reaction::PushDevice { ieee } if ieee == "a"
    ));
    assert!(matches!(react(&online("a", false), &state), Reaction::Ignore));
    assert!(matches!(react(&online("plug", true), &state), Reaction::Ignore));
    assert!(matches!(react(&online("x", true), &state), Reaction::Ignore));
    assert!(matches!(react(&Event::MqttConnected, &state), Reaction::UpdateAll));
    assert!(matches!(react(&Event::MqttDisconnected, &state), Reaction::Ignore));
}

#[test]
fn ramps_take_the_values_at_hand() {
    let config = config_of(vec![("a", group_room("A"))]);
    let state = SystemState::default();
    let mut eased = NameMap::new();
    let room = config.rooms.get("a").unwrap();
    assert!(!check_room(&config, room, "a", 400, &eased));
    assert_eq!(find_target(&config, "a", CurveNow { minutes: 400, eased: &eased }), None);
    eased.insert("a".to_string(), Eased { temp_k: 3000, brightness: 99 });
    assert!(check_room(&config, room, "a", 400, &eased));
    let engine = CircadianEngine::new(&config, &state);
    assert_eq!(
        engine.compute_room_target("a", 400, &eased),
        Some(CircadianTarget { brightness: 99, color_temp_mired: 333, color_temp_k: 3000 })
    );
    assert_eq!(
        engine.compute_room_target("a", 100, &eased),
        Some(CircadianTarget { brightness: 120, color_temp_mired: 454, color_temp_k: 2200 })
    );
    assert_eq!(engine.compute_room_target("b", 100, &eased), None);
    assert_eq!(
        find_target(&config, "a", CurveNow { minutes: 400, eased: &eased }),
        engine.compute_room_target("a", 400, &eased)
    );
    let params = params_for_room(&config, config.rooms.get("a").unwrap());
    assert_eq!((params.wake_minutes, params.sleep_minutes), (360, 1380));
}

#[test]
fn color_temperatures_are_clamped() {
    let mut state = SystemState::default();
    add_lamp(&mut state, lamp("a", false, Some((200, 300))));
    add_lamp(&mut state, lamp("b", false, Some((250, 400))));
    add_lamp(&mut state, lamp("c", false, Some((350, 500))));
    add_group(&mut state, "ab", &["a", "b"]);
    add_group(&mut state, "ac", &["a", "c"]);
    assert_eq!(clamp_color_temp_for_group(&state, "ab", 100), 250);
    assert_eq!(clamp_color_temp_for_group(&state, "ab", 999), 300);
    assert_eq!(clamp_color_temp_for_group(&state, "ab", 270), 270);
    // No common range: unchanged.
    assert_eq!(clamp_color_temp_for_group(&state, "ac", 999), 999);
    assert_eq!(clamp_color_temp_for_group(&state, "none", 999), 999);
    assert_eq!(clamp_color_temp_for_device(&state, "a", 100), 200);
    assert_eq!(clamp_color_temp_for_device(&state, "a", 999), 300);
    assert_eq!(clamp_color_temp_for_device(&state, "x", 999), 999);
}

#[test]
fn a_room_has_its_lights_or_its_groups() {
    let mut state = SystemState::default();
    add_group(&mut state, "G", &["a", "b"]);
    let mut room = group_room("G");
    assert_eq!(lights_for_room(&room, &state), vec!["a", "b"]);
    room.lights = vec!["x".to_string()];
    assert_eq!(lights_for_room(&room, &state), vec!["x"]);
    assert!(lights_for_room(&group_room("H"), &state).is_empty());
    assert!(lights_for_room(&RoomConfig::default(), &state).is_empty());
}

fn payload(
    state: Option<bool>,
    brightness: Option<u8>,
    color_temp: Option<u16>,
    transition: Option<u32>,
    scene_recall: Option<u16>,
) -> LightPayload {
    LightPayload { state, brightness, color_temp, transition, scene_recall }
}

#[test]
fn messages_carry_commands() {
    let config = config_of(vec![]);
    let mut state = SystemState::default();
    add_lamp(&mut state, lamp("rgb", true, Some((150, 310))));
    let publisher = Publisher::new("z2m", &state, &config);

    let m = publisher.turn_on_group("Kitchen", Some(9), None, Some(1));
    assert_eq!(m.topic, "z2m/Kitchen/set");
    assert_eq!(m.payload, payload(Some(true), Some(9), None, Some(1), None));
    let m = publisher.turn_off_group("Kitchen", None);
    assert_eq!(m.payload, payload(Some(false), None, None, None, None));
    let m = publisher.push_circadian_group("Kitchen", 5, 300, 30);
    assert_eq!(m.payload, payload(None, Some(5), Some(300), Some(30), None));
    let m = publisher.recall_scene_group("Kitchen", 4);
    assert_eq!(m.payload, payload(None, None, None, None, Some(4)));
    let m = publisher.push_circadian_brightness_only_group("Kitchen", 5, 30);
    assert_eq!(m.payload, payload(None, Some(5), None, Some(30), None));

    // Single lamps get corrected values: 300 + 15, at most 310.
    let m = publisher.turn_on_ieee("rgb", Some(0), Some(300), None).unwrap();
    assert_eq!(m.topic, "z2m/lamp rgb/set");
    assert_eq!(m.payload, payload(Some(true), Some(1), Some(310), None, None));
    let m = publisher.push_circadian_ieee("rgb", 100, Some(200), 3).unwrap();
    assert_eq!(m.payload, payload(None, Some(100), Some(215), Some(3), None));
    let m = publisher.turn_off_ieee("rgb", Some(5)).unwrap();
    assert_eq!(m.payload, payload(Some(false), None, None, Some(5), None));
    assert!(publisher.turn_on_ieee("x", None, None, None).is_none());
    assert!(publisher.turn_off_ieee("x", None).is_none());
    assert!(publisher.push_circadian_ieee("x", 1, None, 1).is_none());

    let command = LightCommand::TurnOnIeee {
        ieee: "rgb".to_string(),
        brightness: None,
        color_temp_mired: Some(100),
        transition: None,
    };
    let m = publisher.message_for(&command).unwrap();
    assert_eq!(m.payload, payload(Some(true), None, Some(150), None, None));
}

#[test]
fn only_what_a_command_carries_is_asked_for() {
    let mut config = config_of(vec![]);
    config.light_calibration.overrides.insert(
        "far".to_string(),
        LightCalibrationOverride { color_temp_offset: None, brightness_offset: Some(32_513) },
    );
    config.light_calibration.overrides.insert(
        "near".to_string(),
        LightCalibrationOverride { color_temp_offset: None, brightness_offset: Some(32_512) },
    );
    let mut state = SystemState::default();
    add_lamp(&mut state, lamp("empty", false, Some((500, 150))));
    let publisher = Publisher::new("z2m", &state, &config);
    let on = |ieee: &str, brightness: Option<u8>, color_temp_mired: Option<u16>| {
        publisher.check_command(&LightCommand::TurnOnIeee {
            ieee: ieee.to_string(),
            brightness,
            color_temp_mired,
            transition: None,
        })
    };
    assert!(on("near", Some(1), Some(1)) && !on("far", Some(1), None) && on("far", None, Some(1)));
    assert!(on("empty", Some(1), None) && !on("empty", None, Some(300)));
    let push = |ieee: &str, color_temp_mired: Option<u16>| {
        publisher.check_command(&LightCommand::PushCircadianIeee {
            ieee: ieee.to_string(),
            brightness: 1,
            color_temp_mired,
            transition: 1,
        })
    };
    assert!(!push("far", None) && push("empty", None) && !push("empty", Some(300)));
    let off = LightCommand::TurnOffIeee { ieee: "empty".to_string(), transition: None };
    assert!(publisher.check_command(&off) && publisher.message_for(&off).is_some());
}
