use jeha::api::{
    get_room, light_off, light_on, list_z2m_scenes, pause_circadian, recall_z2m_scene,
    resume_circadian, set_night_mode, set_scene, snooze_circadian, ApiError, LightOffRequest,
    LightOnRequest, RecallZ2mSceneRequest, SetNightModeRequest, SetSceneRequest, SnoozeRequest,
};
use jeha::circadian::curve::{CircadianTarget, Eased};
use jeha::circadian::engine::CurveNow;
use jeha::config::types::{
    AppConfig, CircadianSection, GeneralConfig, LightCalibrationConfig, LightsOutConfig,
    McpConfig, MqttConfig, NightModeSection, RoomConfig,
};
use jeha::control::{
    describe_circadian_status, find_scene, format_duration, scene_names, Granted, OverrideTtl,
    Snooze,
};
use jeha::effect::{Effect, LightCommand, Plan};
use jeha::mcp::server::{handle_request, RpcReply};
use jeha::mcp::tools::{HoursArg, McpToolHandler, ParamKind, ToolArgs, ToolReply};
use jeha::names::NameMap;
use jeha::report::{get_circadian_status, get_rooms, get_system_status};
use jeha::state::{
    RoomState, RoomStateUpdate, SystemState, UpdateSource, Z2mDeviceInfo, Z2mGroupInfo,
    Z2mGroupMember, Z2mScene,
};
use jeha::time::{Duration, Instant};

const SECOND: u128 = 1_000_000_000;

fn at(secs: u128) -> Instant {
    Instant { nanos: secs * SECOND }
}

fn config() -> AppConfig {
    let mut rooms = NameMap::new();
    let mut kitchen = RoomConfig::default();
    kitchen.z2m_group = Some("Kitchen".to_string());
    kitchen.display_name = Some("The Kitchen".to_string());
    kitchen.motion_sensor = Some("m".to_string());
    kitchen.remotes = vec!["r".to_string()];
    rooms.insert("kitchen".to_string(), kitchen);
    let mut office = RoomConfig::default();
    office.lights = vec!["a".to_string(), "b".to_string()];
    office.circadian_enabled = false;
    rooms.insert("office".to_string(), office);
    AppConfig {
        schema_version: 1,
        mqtt: MqttConfig::default(),
        general: GeneralConfig::default(),
        circadian: CircadianSection::default(),
        night_mode: NightModeSection::default(),
        lights_out: LightsOutConfig::default(),
        mcp: McpConfig::default(),
        light_calibration: LightCalibrationConfig::default(),
        rooms,
        automations: vec![],
    }
}

fn rgb_lamp(ieee: &str) -> Z2mDeviceInfo {
    Z2mDeviceInfo {
        ieee_address: ieee.to_string(),
        friendly_name: ieee.to_string(),
        supported: true,
        supports_brightness: true,
        supports_color_temp: true,
        color_temp_min: None,
        color_temp_max: None,
        supports_color_xy: true,
        supports_color_hs: false,
    }
}

fn state(with_rgb: bool) -> SystemState {
    let mut state = SystemState::default();
    if with_rgb {
        state.device_map.insert("x".to_string(), rgb_lamp("x"));
    }
    state.group_map.insert(
        "Kitchen".to_string(),
        Z2mGroupInfo {
            id: 1,
            friendly_name: "Kitchen".to_string(),
            members: vec![Z2mGroupMember { ieee_address: "x".to_string(), endpoint: 1 }],
            scenes: vec![
                Z2mScene { id: 3, name: "Dinner".to_string() },
                Z2mScene { id: 4, name: "Party".to_string() },
            ],
        },
    );
    state
}

fn on_request() -> LightOnRequest {
    LightOnRequest { brightness: None, color_temp_k: None, transition: None, override_ttl: None }
}

fn ttl(mins: u64) -> OverrideTtl {
    OverrideTtl { after: Duration::from_secs(mins * 60), rounded_mins: mins as u32 }
}

fn updates(plan: &Plan) -> Vec<&RoomStateUpdate> {
    plan.effects
        .iter()
        .filter_map(|e| match e {
            Effect::Update { update, .. } => Some(update),
            _ => None,
        })
        .collect()
}

fn commands(plan: &Plan) -> Vec<&LightCommand> {
    plan.effects
        .iter()
        .filter_map(|e| match e {
            Effect::Publish { command, .. } => Some(command),
            _ => None,
        })
        .collect()
}

fn text(reply: &Granted) -> &str {
    reply.description.as_deref().unwrap()
}

const NOON: u32 = 720;

/// Where the kitchen's curve is at noon.
const TARGET: CircadianTarget =
    CircadianTarget { brightness: 254, color_temp_mired: 250, color_temp_k: 4000 };

const UNKNOWN: &str = "Room 'attic' not found. Available rooms: kitchen, office";

#[test]
fn lights_on_without_values_are_the_curves() {
    let (plan, reply) = light_on(&config(), &state(false), at(1), "kitchen", &on_request()).unwrap();
    assert!(matches!(
        commands(&plan)[..],
        [LightCommand::TurnOnGroup { brightness: None, color_temp_mired: None, .. }]
    ));
    assert!(matches!(
        updates(&plan)[..],
        [
            RoomStateUpdate::LightsOn { source: UpdateSource::Circadian, .. },
            RoomStateUpdate::JehaPush { brightness: None, color_temp_mired: None },
        ]
    ));
    assert_eq!(reply.room, "kitchen");
    assert_eq!(text(&reply), "The Kitchen lights turned on");
}

#[test]
fn lights_on_with_values_override_the_curve() {
    let mut request = on_request();
    request.brightness = Some(100);
    request.color_temp_k = Some(4000);
    request.override_ttl = Some(ttl(30));
    let (plan, reply) = light_on(&config(), &state(false), at(10), "kitchen", &request).unwrap();
    assert!(matches!(
        updates(&plan)[..],
        [
            RoomStateUpdate::LightsOn {
                brightness: Some(100),
                color_temp_mired: Some(250),
                source: UpdateSource::Manual,
            },
            RoomStateUpdate::JehaPush { .. },
            RoomStateUpdate::ManualOverrideTtl { until: Some(until) },
        ] if *until == at(1810)
    ));
    assert_eq!(
        text(&reply),
        "The Kitchen lights turned on, brightness=100, color_temp=4000K (manual override — circadian auto-resumes in 30m)"
    );
    request.override_ttl = None;
    request.color_temp_k = None;
    let (plan, reply) = light_on(&config(), &state(false), at(10), "kitchen", &request).unwrap();
    assert_eq!(
        text(&reply),
        "The Kitchen lights turned on, brightness=100 (manual override — use resume_circadian to re-enable auto)"
    );
    let mut rs = RoomState::default();
    for update in updates(&plan) {
        rs.apply(update, at(10));
    }
    assert!(rs.is_manual_override_active(at(1_000_000)));
}

#[test]
fn a_calibrated_group_is_told_lamp_by_lamp() {
    let (plan, _) = light_on(&config(), &state(true), at(1), "kitchen", &on_request()).unwrap();
    assert!(matches!(
        commands(&plan)[..],
        [LightCommand::TurnOnIeee { ieee, .. }] if ieee == "x"
    ));
    // An unknown group has no lamps to tell.
    let nothing = SystemState::default();
    let (plan, _) = light_on(&config(), &nothing, at(1), "kitchen", &on_request()).unwrap();
    assert!(commands(&plan).is_empty());
    let (plan, _) = light_on(&config(), &nothing, at(1), "office", &on_request()).unwrap();
    assert_eq!(commands(&plan).len(), 2);
}

#[test]
fn unknown_rooms_are_not_found() {
    let config = config();
    let state = state(false);
    let not_found = |e: ApiError| match e {
        ApiError::NotFound(message) => assert_eq!(message, UNKNOWN),
        other => panic!("unexpected: {:?}", other),
    };
    not_found(light_on(&config, &state, at(1), "attic", &on_request()).unwrap_err());
    not_found(light_off(&config, "attic", &LightOffRequest { transition: None }).unwrap_err());
    not_found(pause_circadian(&config, "attic").unwrap_err());
    not_found(resume_circadian(&config, "attic").unwrap_err());
    let body = SnoozeRequest { snooze: None };
    not_found(snooze_circadian(&config, at(1), "attic", &body).unwrap_err());
    let body = SetSceneRequest { scene: "none".to_string(), override_ttl: None };
    not_found(set_scene(&config, &state, at(1), "attic", &body).unwrap_err());
    not_found(list_z2m_scenes(&config, &state, "attic").unwrap_err());
    let body = RecallZ2mSceneRequest { scene_id: 3, override_ttl: None };
    not_found(recall_z2m_scene(&config, &state, at(1), "attic", &body).unwrap_err());
    let body = SetNightModeRequest { active: true };
    not_found(set_night_mode(&config, &state, None, "attic", &body).unwrap_err());
    assert_eq!(ApiError::NotFound(String::new()).status(), 404);
    assert_eq!(ApiError::BadRequest(String::new()).status(), 400);
    assert_eq!(ApiError::Internal(String::new()).status(), 500);
}

#[test]
fn lights_go_off() {
    let body = LightOffRequest { transition: Some(4) };
    let (plan, reply) = light_off(&config(), "kitchen", &body).unwrap();
    assert!(matches!(
        commands(&plan)[..],
        [LightCommand::TurnOffGroup { transition: Some(4), .. }]
    ));
    assert!(matches!(updates(&plan)[..], [RoomStateUpdate::LightsOff]));
    assert_eq!(text(&reply), "The Kitchen lights turned off");
    let (plan, reply) = light_off(&config(), "office", &body).unwrap();
    assert_eq!(commands(&plan).len(), 2);
    assert_eq!(text(&reply), "office lights turned off");
}

#[test]
fn pauses_hold_and_resumption_frees() {
    let mut rs = RoomState::default();
    rs.update_source = UpdateSource::Manual;
    let (plan, reply) = pause_circadian(&config(), "kitchen").unwrap();
    for update in updates(&plan) {
        rs.apply(update, at(1));
    }
    assert!(rs.is_circadian_paused(at(1_000_000)));
    assert_eq!(reply.circadian.as_deref(), Some("paused"));
    assert_eq!(
        text(&reply),
        "Circadian rhythm paused for The Kitchen. Lights will stay at their current state — jeha won't adjust them. Use resume_circadian when done."
    );
    let (plan, reply) = resume_circadian(&config(), "kitchen").unwrap();
    for update in updates(&plan) {
        rs.apply(update, at(2));
    }
    assert!(!rs.is_circadian_paused(at(2)) && !rs.is_manual_override_active(at(2)));
    assert_eq!(reply.circadian.as_deref(), Some("active"));
    assert_eq!(
        text(&reply),
        "Circadian rhythm resumed for The Kitchen. Lights will smoothly transition to the appropriate setting for the current time of day."
    );
}

fn ninety_minutes() -> Snooze {
    Snooze {
        after: Duration::from_secs(5400),
        at_least_one_hour: true,
        whole_hours: 1,
        mins_beyond: 30,
        total_mins: 90,
    }
}

#[test]
fn snoozes_end_by_themselves() {
    let body = SnoozeRequest { snooze: Some(ninety_minutes()) };
    let (plan, reply) = snooze_circadian(&config(), at(100), "kitchen", &body).unwrap();
    let mut rs = RoomState::default();
    for update in updates(&plan) {
        rs.apply(update, at(100));
    }
    assert!(rs.is_circadian_paused(at(5499)));
    assert!(!rs.is_circadian_paused(at(5500)));
    assert_eq!(reply.duration.as_deref(), Some("1h 30m"));
    assert_eq!(
        text(&reply),
        "Circadian rhythm snoozed for The Kitchen in 1h 30m. Lights stay as-is. Auto-resumes in 1h 30m."
    );
    let mut short = ninety_minutes();
    short.mins_beyond = 0;
    let body = SnoozeRequest { snooze: Some(short) };
    let (_, reply) = snooze_circadian(&config(), at(100), "kitchen", &body).unwrap();
    assert_eq!(reply.duration.as_deref(), Some("1h"));
    short.at_least_one_hour = false;
    short.total_mins = 20;
    let body = SnoozeRequest { snooze: Some(short) };
    let (_, reply) = snooze_circadian(&config(), at(100), "kitchen", &body).unwrap();
    assert_eq!(reply.duration.as_deref(), Some("20m"));
    match snooze_circadian(&config(), at(1), "kitchen", &SnoozeRequest { snooze: None }) {
        Err(ApiError::BadRequest(message)) => assert_eq!(message, "Hours must be between 0 and 24"),
        other => panic!("unexpected: {:?}", other),
    }
}

#[test]
fn scenes_pause_the_curve() {
    for (name, brightness, k, mired) in [
        ("bright", 254u8, 4000u16, 250u16),
        ("relax", 150, 2700, 370),
        ("movie", 80, 2200, 454),
        ("energize", 254, 5500, 181),
        ("nightlight", 10, 2200, 454),
    ] {
        let body = SetSceneRequest { scene: name.to_string(), override_ttl: None };
        let (plan, reply) = set_scene(&config(), &state(false), at(1), "kitchen", &body).unwrap();
        assert!(matches!(
            updates(&plan)[..],
            [
                RoomStateUpdate::CircadianPause { paused: true, until: None },
                RoomStateUpdate::LightsOn { source: UpdateSource::Manual, .. },
                RoomStateUpdate::JehaPush { .. },
                RoomStateUpdate::ManualOverrideTtl { until: None },
            ]
        ));
        assert!(matches!(
            commands(&plan)[..],
            [LightCommand::TurnOnGroup {
                brightness: Some(b),
                color_temp_mired: Some(ct),
                transition: Some(3),
                ..
            }] if *b == brightness && *ct == mired
        ));
        assert_eq!(reply.scene.as_deref(), Some(name));
        assert_eq!((reply.brightness, reply.color_temp_k), (Some(brightness), Some(k)));
    }
    let body = SetSceneRequest { scene: "movie".to_string(), override_ttl: Some(ttl(45)) };
    let (plan, reply) = set_scene(&config(), &state(false), at(1), "kitchen", &body).unwrap();
    let mut rs = RoomState::default();
    for update in updates(&plan) {
        rs.apply(update, at(1));
    }
    assert!(rs.is_circadian_paused(at(2700)) && rs.is_manual_override_active(at(2700)));
    assert!(!rs.is_circadian_paused(at(2701)) && !rs.is_manual_override_active(at(2701)));
    assert_eq!(
        text(&reply),
        "The Kitchen: movie — Movie mode — very dim, warm amber. Circadian paused. Auto-resumes in 45m."
    );
    let body = SetSceneRequest { scene: "disco".to_string(), override_ttl: None };
    match set_scene(&config(), &state(false), at(1), "kitchen", &body) {
        Err(ApiError::BadRequest(message)) => assert_eq!(
            message,
            "Unknown scene 'disco'. Available: bright, relax, movie, energize, nightlight"
        ),
        other => panic!("unexpected: {:?}", other),
    }
}

#[test]
fn stored_scenes_are_listed_and_recalled() {
    let list = list_z2m_scenes(&config(), &state(false), "kitchen").unwrap();
    assert_eq!(list.z2m_group.as_deref(), Some("Kitchen"));
    assert_eq!(list.scenes.len(), 2);
    assert_eq!(list.description, "The Kitchen has 2 Z2M scene(s) in group 'Kitchen'");
    let list = list_z2m_scenes(&config(), &SystemState::default(), "kitchen").unwrap();
    assert_eq!(
        list.description,
        "No Z2M scenes found for The Kitchen (group 'Kitchen'). Create scenes in the Z2M frontend first."
    );
    let list = list_z2m_scenes(&config(), &state(false), "office").unwrap();
    assert_eq!(list.description, "This room has no Z2M group — Z2M scenes require a group.");

    let body = RecallZ2mSceneRequest { scene_id: 4, override_ttl: Some(ttl(2)) };
    let (plan, reply) = recall_z2m_scene(&config(), &state(false), at(7), "kitchen", &body).unwrap();
    assert_eq!(plan.effects.len(), 5);
    assert!(matches!(
        &plan.effects[3],
        Effect::Publish {
            command: LightCommand::RecallSceneGroup { group, scene_id: 4 },
            required: true,
        } if group == "Kitchen"
    ));
    let mut rs = RoomState::default();
    for update in updates(&plan) {
        rs.apply(update, at(7));
    }
    assert!(rs.is_circadian_paused(at(126)) && rs.is_manual_override_active(at(126)));
    assert!(!rs.is_circadian_paused(at(127)) && !rs.is_manual_override_active(at(127)));
    assert_eq!(reply.z2m_scene.as_deref(), Some("Party"));
    assert_eq!(
        text(&reply),
        "The Kitchen: recalled Z2M scene 'Party'. Circadian paused. Auto-resumes circadian in 2m."
    );
    let body = RecallZ2mSceneRequest { scene_id: 9, override_ttl: None };
    match recall_z2m_scene(&config(), &state(false), at(7), "kitchen", &body) {
        Err(ApiError::NotFound(message)) => assert_eq!(
            message,
            "Scene ID 9 not found in group 'Kitchen'. Available: Dinner (id=3), Party (id=4)"
        ),
        other => panic!("unexpected: {:?}", other),
    }
    match recall_z2m_scene(&config(), &SystemState::default(), at(7), "kitchen", &body) {
        Err(ApiError::NotFound(message)) => assert_eq!(
            message,
            "Scene ID 9 not found in group 'Kitchen'. Available: none"
        ),
        other => panic!("unexpected: {:?}", other),
    }
    match recall_z2m_scene(&config(), &state(false), at(7), "office", &body) {
        Err(ApiError::BadRequest(message)) => {
            assert_eq!(message, "Room 'office' has no Z2M group — cannot recall scene")
        }
        other => panic!("unexpected: {:?}", other),
    }
}

#[test]
fn night_mode_is_switched_by_request() {
    let body = SetNightModeRequest { active: true };
    let (plan, reply) = set_night_mode(&config(), &state(false), None, "kitchen", &body).unwrap();
    assert_eq!(plan.effects.len(), 3);
    assert_eq!(reply.night_mode, Some(true));
    assert_eq!(
        text(&reply),
        "The Kitchen: night mode on (brightness 20, 2200K). Circadian paused."
    );
    let body = SetNightModeRequest { active: false };
    let (_, reply) = set_night_mode(&config(), &state(false), None, "kitchen", &body).unwrap();
    assert_eq!(text(&reply), "The Kitchen: night mode off. Circadian resumed.");
    // Night mode can be switched off whatever its color temperature.
    let mut config = config();
    config.night_mode.defaults.color_temp_k = 0;
    let (_, reply) = set_night_mode(&config, &state(false), None, "kitchen", &body).unwrap();
    assert_eq!(reply.night_mode, Some(false));
}

#[test]
fn status_tells_who_is_in_charge() {
    let mut rs = RoomState::default();
    let status = describe_circadian_status(&rs, at(0));
    assert_eq!(status.status, "active");
    assert_eq!(status.description, "Circadian rhythm is active — lights adjust automatically");
    rs.circadian_paused = true;
    assert_eq!(describe_circadian_status(&rs, at(0)).status, "paused");
    rs.circadian_paused_until = Some(at(7290));
    let status = describe_circadian_status(&rs, at(60));
    assert_eq!(status.status, "snoozed");
    assert_eq!(status.remaining.as_deref(), Some("2h 0m"));
    assert_eq!(status.remaining_secs, Some(7230));
    assert_eq!(status.description, "Circadian snoozed — auto-resumes in 2h 0m");
    let status = describe_circadian_status(&rs, at(7290));
    assert_eq!(status.status, "active");
    assert_eq!(status.description, "Circadian snooze has expired — will resume on next cycle");
    // An override with a time limit comes first.
    rs.update_source = UpdateSource::Manual;
    rs.manual_override_until = Some(at(200));
    let status = describe_circadian_status(&rs, at(20));
    assert_eq!(status.status, "manual_override");
    assert_eq!(status.remaining_mins, Some(3));
    assert_eq!(status.description, "Manual override active — circadian auto-resumes in 3m");
    assert_eq!(describe_circadian_status(&rs, at(200)).status, "snoozed");
    rs.manual_override_until = None;
    assert_eq!(describe_circadian_status(&rs, at(200)).status, "snoozed");
    rs.circadian_paused = false;
    let status = describe_circadian_status(&rs, at(200));
    assert_eq!(status.status, "manual_override");
    assert_eq!(status.remaining_mins, None);
}

#[test]
fn durations_are_in_hours_and_minutes() {
    assert_eq!(format_duration(59), "0m");
    assert_eq!(format_duration(3599), "59m");
    assert_eq!(format_duration(3600), "1h 0m");
    assert_eq!(format_duration(90_061), "25h 1m");
}

#[test]
fn rooms_come_by_name() {
    let mut state = state(false);
    for id in ["zoo", "kitchen", "attic", "office"] {
        state.rooms.insert(id.to_string(), RoomState::default());
    }
    let names: Vec<String> =
        get_rooms(&config(), &state, at(1)).into_iter().map(|r| r.display_name).collect();
    assert_eq!(names, vec!["The Kitchen", "attic", "office", "zoo"]);
    let eased = NameMap::new();
    let curve = CurveNow { minutes: NOON, eased: &eased };
    let list = get_circadian_status(&config(), &state, at(1), curve);
    assert_eq!(list.len(), 4);
    // The kitchen follows the curve, the office does not, and the others are not configured.
    assert_eq!(list[0].target, Some(TARGET));
    assert!(list[1..].iter().all(|r| r.target.is_none()));
    assert!(list[0].occupancy.is_none() && list[0].night_mode.is_none());
    assert_eq!(get_rooms(&config(), &state, at(1))[0].occupancy, Some(false));
    assert!(get_rooms(&config(), &state, at(1))[0].target.is_none());
}

#[test]
fn targets_on_a_ramp_are_those_handed_in() {
    let mut state = state(false);
    state.rooms.insert("kitchen".to_string(), RoomState::default());
    let mut eased = NameMap::new();
    let list =
        get_circadian_status(&config(), &state, at(1), CurveNow { minutes: 400, eased: &eased });
    assert_eq!(list[0].target, None);
    eased.insert("kitchen".to_string(), Eased { temp_k: 3000, brightness: 99 });
    let list =
        get_circadian_status(&config(), &state, at(1), CurveNow { minutes: 400, eased: &eased });
    assert_eq!(
        list[0].target,
        Some(CircadianTarget { brightness: 99, color_temp_mired: 333, color_temp_k: 3000 })
    );
}

#[test]
fn one_room_is_told_in_full() {
    let mut state = state(false);
    let mut rs = RoomState::default();
    rs.current_brightness = Some(5);
    state.rooms.insert("kitchen".to_string(), rs);
    state.rooms.insert("office".to_string(), rs);
    let detail = get_room(&config(), &state, at(1), "kitchen").unwrap();
    assert_eq!(detail.summary.display_name, "The Kitchen");
    assert_eq!(detail.summary.brightness, Some(5));
    assert_eq!(detail.z2m_group.as_deref(), Some("Kitchen"));
    assert!(detail.has_motion_sensor);
    let settings = detail.settings.unwrap();
    assert_eq!(settings.motion_timeout_secs, Some(300));
    assert_eq!(settings.remotes, vec!["r"]);
    let detail = get_room(&config(), &state, at(1), "office").unwrap();
    assert_eq!(detail.summary.circadian.status, "disabled");
    assert!(!detail.settings.unwrap().circadian_enabled);
    match get_room(&config(), &state, at(1), "attic") {
        Err(ApiError::NotFound(message)) => assert_eq!(
            message,
            "Room 'attic' not found. Use GET /api/rooms to see available room IDs."
        ),
        other => panic!("unexpected: {:?}", other),
    }
}

#[test]
fn the_system_is_told() {
    let mut state = state(true);
    state.started_at = Some(at(100));
    state.mqtt_connected = true;
    let status = get_system_status(&state, at(100 + 3725));
    assert_eq!(status.uptime_secs, 3725);
    assert_eq!(status.uptime, "1h 2m");
    assert_eq!((status.device_count, status.group_count, status.room_count), (1, 1, 0));
    assert!(status.mqtt_connected && !status.z2m_online);
    assert_eq!(
        status.description,
        "MQTT connected, Zigbee2MQTT offline, up for 1h 2m with 1 devices, 1 groups and 0 rooms"
    );
    assert_eq!(get_system_status(&SystemState::default(), at(9)).uptime_secs, 0);
}

fn no_args() -> ToolArgs {
    ToolArgs {
        room_id: None,
        brightness: None,
        color_temp_k: None,
        transition: None,
        active: None,
        scene: None,
        scene_id: None,
        override_ttl: None,
        hours: HoursArg::Missing,
    }
}

fn in_room(id: &str) -> ToolArgs {
    let mut args = no_args();
    args.room_id = Some(id.to_string());
    args
}

fn call(name: &str, args: &ToolArgs) -> (Plan, Result<ToolReply, String>) {
    let config = config();
    let state = state(true);
    let eased = NameMap::new();
    let curve = CurveNow { minutes: NOON, eased: &eased };
    let outcome = McpToolHandler::new(&config, &state).call_tool(at(1), curve, name, args);
    (outcome.plan, outcome.result)
}

#[test]
fn every_tool_is_answered() {
    let config = config();
    let state = state(false);
    let handler = McpToolHandler::new(&config, &state);
    let tools = handler.tool_definitions();
    assert_eq!(tools.len(), 14);
    for tool in &tools {
        if let Err(message) = call(tool.name, &no_args()).1 {
            assert_eq!(message, "room_id is required");
            assert_eq!(tool.params[0].name, "room_id");
            assert!(tool.params[0].required);
        }
    }
    assert_eq!(call("dance", &no_args()).1.unwrap_err(), "Unknown tool: dance");
}

#[test]
fn tools_are_described() {
    let config = config();
    let state = state(false);
    let tools = McpToolHandler::new(&config, &state).tool_definitions();
    let light_on = tools.iter().find(|t| t.name == "light_on").unwrap();
    assert!(light_on.description.starts_with("Turn on lights in a room."));
    let names: Vec<&str> = light_on.params.iter().map(|p| p.name).collect();
    assert_eq!(
        names,
        vec!["room_id", "brightness", "color_temp_k", "transition", "override_ttl_mins"]
    );
    assert_eq!((light_on.params[1].minimum, light_on.params[1].maximum), (Some(1), Some(254)));
    let scene = tools.iter().find(|t| t.name == "set_scene").unwrap();
    assert_eq!(scene.params[1].kind, ParamKind::Scene);
    let recall = tools.iter().find(|t| t.name == "recall_z2m_scene").unwrap();
    assert!(recall.params[1].required && !recall.params[2].required);
}

#[test]
fn tools_ask_for_what_they_need() {
    let mut args = in_room("kitchen");
    assert_eq!(call("snooze_circadian", &args).1.unwrap_err(), "hours is required (number)");
    assert_eq!(call("set_night_mode", &args).1.unwrap_err(), "active is required");
    assert_eq!(call("set_scene", &args).1.unwrap_err(), "scene is required");
    assert_eq!(
        call("recall_z2m_scene", &args).1.unwrap_err(),
        "scene_id is required (integer)"
    );
    args.hours = HoursArg::OutOfRange;
    assert_eq!(
        call("snooze_circadian", &args).1.unwrap_err(),
        "Hours must be between 0 and 24"
    );
    for name in ["light_on", "light_off", "pause_circadian", "resume_circadian", "list_z2m_scenes"] {
        let (plan, result) = call(name, &in_room("attic"));
        assert_eq!(result.unwrap_err(), UNKNOWN);
        assert!(plan.effects.is_empty());
    }
}

#[test]
fn the_light_tool_tells_the_group() {
    let mut args = in_room("kitchen");
    args.brightness = Some(256 + 9);
    args.transition = Some(2);
    let (plan, result) = call("light_on", &args);
    assert!(matches!(
        commands(&plan)[..],
        [LightCommand::TurnOnGroup {
            brightness: Some(9),
            color_temp_mired: None,
            transition: Some(2),
            ..
        }]
    ));
    match result.unwrap() {
        ToolReply::Done(reply) => assert_eq!(
            text(&reply),
            "The Kitchen lights turned on, brightness=9 (manual override — use resume_circadian to re-enable auto)"
        ),
        other => panic!("unexpected: {:?}", other),
    }
}

#[test]
fn the_light_tool_without_values_follows_the_curve() {
    let (plan, result) = call("light_on", &in_room("kitchen"));
    assert!(result.is_ok());
    assert!(matches!(
        commands(&plan)[..],
        [LightCommand::TurnOnGroup {
            brightness: Some(254),
            color_temp_mired: Some(250),
            transition: Some(3),
            ..
        }]
    ));
    assert!(matches!(
        updates(&plan)[..],
        [
            RoomStateUpdate::LightsOn { source: UpdateSource::Circadian, .. },
            RoomStateUpdate::JehaPush { .. },
        ]
    ));
    let (plan, _) = call("light_off", &in_room("kitchen"));
    assert!(matches!(
        commands(&plan)[..],
        [LightCommand::TurnOffGroup { transition: Some(3), .. }]
    ));
    assert!(matches!(updates(&plan)[..], [RoomStateUpdate::LightsOffByRequest]));
    // A pause stays for when the lights come back on.
    let mut rs = RoomState::default();
    rs.lights_on = true;
    rs.circadian_paused = true;
    rs.circadian_paused_until = Some(at(99));
    for update in updates(&plan) {
        rs.apply(update, at(10));
    }
    assert!(!rs.lights_on && rs.circadian_paused);
    assert_eq!(rs.circadian_paused_until, Some(at(99)));
}

#[test]
fn every_scene_has_a_name() {
    let names = scene_names();
    assert_eq!(names, vec!["bright", "relax", "movie", "energize", "nightlight"]);
    assert!(names.iter().all(|name| find_scene(name).is_some()));
    assert!(find_scene("disco").is_none() && find_scene("").is_none());
}

#[test]
fn scenes_of_agents_end() {
    let mut args = in_room("kitchen");
    args.scene = Some("movie".to_string());
    args.override_ttl = Some(ttl(1));
    let (plan, result) = call("set_scene", &args);
    match result.unwrap() {
        ToolReply::Done(reply) => {
            assert_eq!((reply.brightness, reply.color_temp_k), (Some(80), Some(2200)))
        }
        other => panic!("unexpected: {:?}", other),
    }
    let mut rs = RoomState::default();
    for update in updates(&plan) {
        rs.apply(update, at(1));
    }
    assert!(rs.is_circadian_paused(at(60)) && rs.is_manual_override_active(at(60)));
    assert!(!rs.is_circadian_paused(at(61)) && !rs.is_manual_override_active(at(61)));
}

#[test]
fn the_scene_tool_pauses_before_it_looks() {
    let mut args = in_room("attic");
    args.scene = Some("movie".to_string());
    let (plan, result) = call("set_scene", &args);
    assert_eq!(result.unwrap_err(), UNKNOWN);
    assert!(matches!(
        updates(&plan)[..],
        [RoomStateUpdate::CircadianPause { paused: true, until: None }]
    ));
    args.scene = Some("disco".to_string());
    assert!(call("set_scene", &args).0.effects.is_empty());
    args.room_id = Some("kitchen".to_string());
    args.scene = Some("relax".to_string());
    let (plan, result) = call("set_scene", &args);
    assert_eq!(plan.effects.len(), 5);
    assert!(result.is_ok());
}

#[test]
fn other_tools_do_their_work() {
    let mut args = in_room("kitchen");
    args.active = Some(true);
    let (plan, result) = call("set_night_mode", &args);
    assert!(matches!(updates(&plan)[..], [RoomStateUpdate::NightMode(true)]));
    match result.unwrap() {
        ToolReply::Done(reply) => {
            assert_eq!(reply.night_mode, Some(true));
            assert_eq!(text(&reply), "The Kitchen: night mode on");
        }
        other => panic!("unexpected: {:?}", other),
    }
    args.scene_id = Some(65_536 + 3);
    let (plan, _) = call("recall_z2m_scene", &args);
    assert!(matches!(
        commands(&plan)[..],
        [LightCommand::RecallSceneGroup { scene_id: 3, .. }]
    ));
    args.hours = HoursArg::Given(ninety_minutes());
    let (plan, _) = call("snooze_circadian", &args);
    assert!(matches!(
        updates(&plan)[..],
        [RoomStateUpdate::CircadianPause { paused: true, until: Some(until) }]
            if *until == at(5401)
    ));
    match call("get_room", &in_room("attic")).1.unwrap() {
        ToolReply::UnseenRoom { error } => assert_eq!(
            error,
            "Room 'attic' not found. Use get_rooms to see available room IDs."
        ),
        other => panic!("unexpected: {:?}", other),
    }
    match call("reload_config", &no_args()).1.unwrap() {
        ToolReply::Status { status, description } => {
            assert_eq!(status, "reload not yet implemented at runtime");
            assert_eq!(description, "The config is read at startup. Restart jeha to apply changes.");
        }
        other => panic!("unexpected: {:?}", other),
    }
}

fn request(body: &[u8]) -> Option<RpcReply> {
    let config = config();
    let state = state(false);
    let eased = NameMap::new();
    let curve = CurveNow { minutes: NOON, eased: &eased };
    handle_request(true, Some(body), &config, &state, at(1), curve, None, HoursArg::Missing)
}

#[test]
fn requests_are_answered_by_method() {
    let config = config();
    let state = state(false);
    let eased = NameMap::new();
    let curve = CurveNow { minutes: NOON, eased: &eased };
    let reply =
        handle_request(false, None, &config, &state, at(1), curve, None, HoursArg::Missing).unwrap();
    assert_eq!(reply.http_status(), 405);
    let reply =
        handle_request(true, None, &config, &state, at(1), curve, None, HoursArg::Missing).unwrap();
    assert_eq!(reply.http_status(), 400);
    let reply = request(b"{nope").unwrap();
    assert!(matches!(reply, RpcReply::ParseError));
    assert_eq!((reply.http_status(), reply.error_code()), (400, Some(-32700)));
    assert!(matches!(request(br#"{"method":"initialize"}"#), Some(RpcReply::Initialize)));
    assert!(matches!(
        request(br#"{"method":"notifications/initialized"}"#),
        Some(RpcReply::Initialized)
    ));
    assert!(matches!(request(br#"{"method":"ping"}"#), Some(RpcReply::Pong)));
    match request(br#"{"method":"tools/list"}"#) {
        Some(RpcReply::Tools(list)) => assert_eq!(list.len(), 14),
        other => panic!("unexpected: {:?}", other),
    }
    match request(br#"{"method":"dance"}"#) {
        Some(reply) => {
            assert_eq!((reply.http_status(), reply.error_code()), (200, Some(-32601)));
            match reply {
                RpcReply::MethodNotFound { message } => {
                    assert_eq!(message, "Method not found: dance")
                }
                other => panic!("unexpected: {:?}", other),
            }
        }
        None => panic!("no reply"),
    }
    assert!(matches!(request(b"[]"), Some(RpcReply::MethodNotFound { .. })));
}

#[test]
fn tool_calls_are_read_out_of_the_body() {
    let body = br#"{"method":"tools/call","params":{"name":"light_on","arguments":
        {"room_id":"kitchen","brightness":12,"color_temp_k":2000,"transition":7}}}"#;
    match request(body) {
        Some(RpcReply::Tool(outcome)) => {
            assert!(matches!(
                commands(&outcome.plan)[..],
                [LightCommand::TurnOnGroup {
                    brightness: Some(12),
                    color_temp_mired: Some(500),
                    transition: Some(7),
                    ..
                }]
            ));
        }
        other => panic!("unexpected: {:?}", other),
    }
    let body = br#"{"method":"tools/call","params":{"name":"set_night_mode","arguments":
        {"room_id":"kitchen","active":false}}}"#;
    match request(body) {
        Some(RpcReply::Tool(outcome)) => {
            assert!(matches!(updates(&outcome.plan)[..], [RoomStateUpdate::NightMode(false)]))
        }
        other => panic!("unexpected: {:?}", other),
    }
    let body = br#"{"method":"tools/call","params":{"name":"set_scene","arguments":
        {"room_id":"office","scene":"bright"}}}"#;
    match request(body) {
        Some(RpcReply::Tool(outcome)) => assert_eq!(commands(&outcome.plan).len(), 2),
        other => panic!("unexpected: {:?}", other),
    }
    match request(br#"{"method":"tools/call"}"#) {
        Some(RpcReply::Tool(outcome)) => {
            assert_eq!(outcome.result.unwrap_err(), "Unknown tool: ")
        }
        other => panic!("unexpected: {:?}", other),
    }
}

#[test]
fn zero_kelvin_has_no_answer_in_a_known_room() {
    let body = br#"{"method":"tools/call","params":{"name":"light_on","arguments":
        {"room_id":"kitchen","color_temp_k":65536}}}"#;
    assert!(request(body).is_none());
    let body = br#"{"method":"tools/call","params":{"name":"light_on","arguments":
        {"room_id":"attic","color_temp_k":0}}}"#;
    match request(body) {
        Some(RpcReply::Tool(outcome)) => assert_eq!(outcome.result.unwrap_err(), UNKNOWN),
        other => panic!("unexpected: {:?}", other),
    }
}
