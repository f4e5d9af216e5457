use jeha::automation::action::{action_delay, check_action, execute_action};
use jeha::automation::condition::evaluate_condition;
use jeha::automation::engine::{
    dim_once, handle_event, load_automations, motion_off_action, set_manual_brightness,
    start_continuous_dimming, AutomationState, Task,
};
use jeha::circadian::curve::CircadianTarget;
use jeha::config::types::{
    ActionConfig, AppConfig, AutomationConfig, CircadianSection, ConditionConfig, GeneralConfig,
    LightCalibrationConfig, LightsOutConfig, McpConfig, MqttConfig, NightModeSection, RoomConfig,
    TriggerConfig,
};
use jeha::effect::{Effect, LightCommand, Plan};
use jeha::event::{Event, Illuminance};
use jeha::lights_out::{
    current_minutes, parse_time_to_minutes, try_parse_time_to_minutes, turn_off_all_rooms,
    LightsOutTask,
};
use jeha::names::NameMap;
use jeha::schedule::{DayOfWeek, LocalNow, Month, Schedule, TimeOfDay, TimeWindow};
use jeha::state::{RoomState, RoomStateUpdate, SystemState, UpdateSource};

fn config_of(rooms: Vec<(&str, RoomConfig)>) -> AppConfig {
    let mut map = NameMap::new();
    for (id, room) in rooms {
        map.insert(id.to_string(), room);
    }
    AppConfig {
        schema_version: 1,
        mqtt: MqttConfig::default(),
        general: GeneralConfig::default(),
        circadian: CircadianSection::default(),
        night_mode: NightModeSection::default(),
        lights_out: LightsOutConfig::default(),
        mcp: McpConfig::default(),
        light_calibration: LightCalibrationConfig::default(),
        rooms: map,
        automations: vec![],
    }
}

fn sensor_room() -> RoomConfig {
    let mut room = RoomConfig::default();
    room.z2m_group = Some("Hall".to_string());
    room.motion_sensor = Some("m".to_string());
    room.remotes = vec!["r".to_string()];
    room
}

fn local(minutes: u16) -> LocalNow {
    LocalNow { minutes, weekday: DayOfWeek::Mon, month: Month::Jan }
}

fn motion(illuminance: Option<Illuminance>) -> Event {
    Event::MotionDetected {
        room_id: String::new(),
        sensor_ieee: "m".to_string(),
        illuminance,
    }
}

fn cleared() -> Event {
    Event::MotionCleared { room_id: String::new(), sensor_ieee: "m".to_string() }
}

fn tasks(config: &AppConfig, state: &SystemState, event: &Event) -> Vec<Task> {
    handle_event(&load_automations(config), config, state, &local(720), event)
}

fn state_with(rs: RoomState) -> SystemState {
    let mut state = SystemState::default();
    state.rooms.insert("hall".to_string(), rs);
    state
}

fn lit() -> RoomState {
    let mut rs = RoomState::default();
    rs.lights_on = true;
    rs.current_brightness = Some(100);
    rs
}

#[test]
fn motion_lights_a_dark_room() {
    let config = config_of(vec![("hall", sensor_room())]);
    let list = tasks(&config, &SystemState::default(), &motion(None));
    assert_eq!(list.len(), 2);
    assert!(matches!(&list[0], Task::CancelMotionOff { room_id } if room_id == "hall"));
    assert!(matches!(
        &list[1],
        Task::Run {
            room_id,
            action: ActionConfig::LightsOn {
                use_circadian: true,
                brightness: None,
                color_temp_k: None,
                transition: None,
            },
            off_action: None,
        } if room_id == "hall"
    ));
    // A lit room only has its timer called off.
    assert_eq!(tasks(&config, &state_with(lit()), &motion(None)).len(), 1);
    // Another sensor is none of its business.
    let other = Event::MotionDetected {
        room_id: String::new(),
        sensor_ieee: "x".to_string(),
        illuminance: None,
    };
    assert!(tasks(&config, &SystemState::default(), &other).is_empty());
}

#[test]
fn motion_at_night_uses_the_night_values() {
    let config = config_of(vec![("hall", sensor_room())]);
    let mut rs = RoomState::default();
    rs.night_mode_active = true;
    let state = state_with(rs);
    let list = tasks(&config, &state, &motion(None));
    assert!(matches!(
        &list[1],
        Task::Run {
            action: ActionConfig::LightsOn {
                use_circadian: false,
                brightness: Some(20),
                color_temp_k: Some(2200),
                transition: Some(1),
            },
            ..
        }
    ));
    let list = tasks(&config, &state, &cleared());
    assert!(matches!(&list[1], Task::ScheduleMotionOff { after_secs: 120, .. }));
}

#[test]
fn the_end_of_motion_starts_the_timer() {
    let mut room = sensor_room();
    let config = config_of(vec![("hall", sensor_room())]);
    let list = tasks(&config, &SystemState::default(), &cleared());
    assert_eq!(list.len(), 2);
    assert!(matches!(&list[0], Task::CancelMotionOff { .. }));
    assert!(matches!(&list[1], Task::ScheduleMotionOff { after_secs: 300, .. }));
    room.motion_timeout_secs = Some(45);
    let config = config_of(vec![("hall", room)]);
    let list = tasks(&config, &SystemState::default(), &cleared());
    assert!(matches!(&list[1], Task::ScheduleMotionOff { after_secs: 45, .. }));
}

#[test]
fn gates_hold_motion_back() {
    let mut room = sensor_room();
    room.motion_schedule = Some(Schedule::Window(TimeWindow {
        after: Some(TimeOfDay::from_hm_str("20:00").unwrap()),
        before: None,
        days: vec![],
        months: vec![],
    }));
    let config = config_of(vec![("hall", room)]);
    assert!(tasks(&config, &SystemState::default(), &motion(None)).is_empty());
    assert!(tasks(&config, &SystemState::default(), &cleared()).is_empty());
    let evening = handle_event(
        &load_automations(&config),
        &config,
        &SystemState::default(),
        &local(1200),
        &motion(None),
    );
    assert_eq!(evening.len(), 2);

    let mut room = sensor_room();
    room.illuminance_gate = true;
    room.illuminance_threshold = Some(30);
    let config = config_of(vec![("hall", room)]);
    let dark = SystemState::default();
    assert!(tasks(&config, &dark, &motion(Some(Illuminance::Lux(30)))).is_empty());
    assert_eq!(tasks(&config, &dark, &motion(Some(Illuminance::Lux(29)))).len(), 2);
    assert!(tasks(&config, &dark, &motion(Some(Illuminance::AboveThreshold(true)))).is_empty());
    assert_eq!(
        tasks(&config, &dark, &motion(Some(Illuminance::AboveThreshold(false)))).len(),
        2
    );
    assert_eq!(tasks(&config, &dark, &motion(None)).len(), 2);

    let mut room = sensor_room();
    room.illuminance_gate = true;
    room.illuminance_log_only = true;
    let config = config_of(vec![("hall", room)]);
    assert_eq!(tasks(&config, &dark, &motion(Some(Illuminance::Lux(9999)))).len(), 2);
}

fn press(action: &str) -> Event {
    Event::RemoteAction { remote_ieee: "r".to_string(), action: action.to_string() }
}

#[test]
fn buttons_switch_lights() {
    let config = config_of(vec![("hall", sensor_room())]);
    let dark = state_with(RoomState::default());
    let bright = state_with(lit());
    let is_on = |list: &[Task]| {
        matches!(
            list,
            [Task::Run {
                action: ActionConfig::LightsOn { use_circadian: true, transition: Some(1), .. },
                ..
            }]
        )
    };
    let is_off = |list: &[Task]| {
        matches!(
            list,
            [Task::Run {
                action: ActionConfig::LightsOff { delay_secs: 0, transition: Some(1) },
                ..
            }]
        )
    };
    assert!(is_on(&tasks(&config, &dark, &press("toggle"))));
    assert!(is_off(&tasks(&config, &bright, &press("toggle"))));
    assert!(is_on(&tasks(&config, &dark, &press("ON"))));
    assert!(tasks(&config, &bright, &press("on")).is_empty());
    assert!(is_off(&tasks(&config, &dark, &press("Off_Press"))));
    assert!(tasks(&config, &dark, &press("double")).is_empty());
    let stranger = Event::RemoteAction { remote_ieee: "x".to_string(), action: "on".to_string() };
    assert!(tasks(&config, &dark, &stranger).is_empty());
}

#[test]
fn buttons_dim_lit_rooms_only() {
    let config = config_of(vec![("hall", sensor_room())]);
    let bright = state_with(lit());
    let dark = state_with(RoomState::default());
    assert!(matches!(
        &tasks(&config, &bright, &press("brightness_up_click"))[..],
        [Task::SetBrightness { brightness: 125, .. }]
    ));
    assert!(matches!(
        &tasks(&config, &bright, &press("brightness_down_click"))[..],
        [Task::SetBrightness { brightness: 75, .. }]
    ));
    assert!(matches!(
        &tasks(&config, &bright, &press("brightness_move_up"))[..],
        [Task::StartDimming { up: true, .. }]
    ));
    assert!(matches!(
        &tasks(&config, &bright, &press("down_hold"))[..],
        [Task::StartDimming { up: false, .. }]
    ));
    for action in ["up_press", "down_press", "up_hold", "down_hold"] {
        assert!(tasks(&config, &dark, &press(action)).is_empty());
    }
    assert!(matches!(
        &tasks(&config, &dark, &press("brightness_stop"))[..],
        [Task::StopDimming { .. }]
    ));
    assert!(matches!(
        &tasks(&config, &dark, &press("arrow_right_click"))[..],
        [Task::ActivateNightMode { .. }]
    ));
    assert!(matches!(
        &tasks(&config, &dark, &press("off_hold"))[..],
        [Task::DeactivateNightMode { .. }]
    ));
}

fn automation(id: &str, trigger: TriggerConfig) -> AutomationConfig {
    AutomationConfig {
        id: id.to_string(),
        rooms: vec!["attic".to_string(), "hall".to_string(), "nowhere".to_string()],
        trigger,
        action: ActionConfig::SetBrightness { brightness: 7, transition: None },
        off_action: Some(ActionConfig::LightsOff { delay_secs: 60, transition: None }),
        schedule: None,
        conditions: vec![],
    }
}

#[test]
fn automations_fire_where_nothing_else_did() {
    let mut attic = RoomConfig::default();
    attic.motion_sensor = Some("m".to_string());
    // The attic's own handling is gated off.
    attic.motion_schedule = Some(Schedule::Any { any: vec![] });
    let mut config = config_of(vec![("hall", sensor_room()), ("attic", attic)]);
    config.automations = vec![
        automation("one", TriggerConfig::MotionCleared),
        automation("one", TriggerConfig::Motion),
    ];
    let loaded = load_automations(&config);
    // The later of two with one id counts.
    assert_eq!(loaded.len(), 1);
    assert_eq!(loaded.get("one").unwrap().state, AutomationState::Running);
    let list = tasks(&config, &state_with(lit()), &motion(None));
    assert_eq!(list.len(), 2);
    assert!(matches!(&list[0], Task::CancelMotionOff { room_id } if room_id == "hall"));
    assert!(matches!(
        &list[1],
        Task::Run {
            room_id,
            action: ActionConfig::SetBrightness { brightness: 7, transition: None },
            off_action: Some(ActionConfig::LightsOff { delay_secs: 60, .. }),
        } if room_id == "attic"
    ));
}

#[test]
fn automations_wait_for_schedules_and_conditions() {
    let mut room = RoomConfig::default();
    room.motion_sensor = Some("m".to_string());
    room.motion_schedule = Some(Schedule::Any { any: vec![] });
    let mut config = config_of(vec![("attic", room)]);
    let mut rule = automation("x", TriggerConfig::Motion);
    rule.conditions = vec![
        ConditionConfig::LightState { room: "hall".to_string(), is_on: true },
        ConditionConfig::NightMode { room: "hall".to_string(), active: false },
    ];
    config.automations = vec![rule];
    assert_eq!(tasks(&config, &state_with(lit()), &motion(None)).len(), 1);
    assert!(tasks(&config, &SystemState::default(), &motion(None)).is_empty());
    let mut night = lit();
    night.night_mode_active = true;
    assert!(tasks(&config, &state_with(night), &motion(None)).is_empty());
    config.automations[0].schedule = Some(Schedule::Any { any: vec![] });
    assert!(tasks(&config, &state_with(lit()), &motion(None)).is_empty());
}

#[test]
fn conditions_about_unknown_rooms_do_not_hold() {
    let condition = ConditionConfig::LightState { room: "x".to_string(), is_on: false };
    assert!(!evaluate_condition(&condition, &SystemState::default()));
}

fn run(action: ActionConfig, room: &RoomConfig, target: Option<CircadianTarget>) -> Plan {
    assert!(check_action(&action));
    execute_action(&action, "hall", room, target)
}

#[test]
fn actions_change_the_state_first() {
    let room = sensor_room();
    let target = CircadianTarget { brightness: 200, color_temp_mired: 300, color_temp_k: 3333 };
    let on = ActionConfig::LightsOn {
        use_circadian: true,
        brightness: None,
        color_temp_k: Some(0),
        transition: None,
    };
    let plan = run(on, &room, Some(target));
    assert!(matches!(
        &plan.effects[..],
        [
            Effect::Update {
                room_id,
                update: RoomStateUpdate::LightsOnWithPush {
                    brightness: Some(200),
                    color_temp_mired: Some(300),
                    source: UpdateSource::Automation,
                },
            },
            Effect::Publish {
                command: LightCommand::TurnOnGroup {
                    group,
                    brightness: Some(200),
                    color_temp_mired: Some(300),
                    transition: Some(3),
                },
                required: true,
            },
        ] if room_id == "hall" && group == "Hall"
    ));
    // Without a curve: full brightness, no color temperature.
    let plan = run(on, &room, None);
    assert!(matches!(
        &plan.effects[0],
        Effect::Update {
            update: RoomStateUpdate::LightsOnWithPush {
                brightness: Some(254),
                color_temp_mired: None,
                ..
            },
            ..
        }
    ));
    let warm = ActionConfig::SetColorTemp { color_temp_k: 4000, transition: Some(9) };
    assert!(matches!(
        &run(warm, &room, None).effects[..],
        [
            Effect::Update {
                update: RoomStateUpdate::LightsOnWithPush {
                    brightness: None,
                    color_temp_mired: Some(250),
                    source: UpdateSource::Manual,
                },
                ..
            },
            Effect::Publish {
                command: LightCommand::TurnOnGroup { transition: Some(9), .. },
                ..
            },
        ]
    ));
    let off = ActionConfig::LightsOff { delay_secs: 5, transition: None };
    assert_eq!(action_delay(&off), 5);
    assert_eq!(action_delay(&warm), 0);
    let mut lamps = RoomConfig::default();
    lamps.lights = vec!["a".to_string(), "b".to_string()];
    let plan = run(off, &lamps, None);
    assert_eq!(plan.effects.len(), 3);
    assert!(matches!(&plan.effects[0], Effect::Update { update: RoomStateUpdate::LightsOff, .. }));
    assert!(matches!(
        &plan.effects[2],
        Effect::Publish {
            command: LightCommand::TurnOffIeee { ieee, transition: Some(3) },
            required: true,
        } if ieee == "b"
    ));
}

#[test]
fn zero_kelvin_is_found() {
    assert!(!check_action(&ActionConfig::SetColorTemp { color_temp_k: 0, transition: None }));
    assert!(!check_action(&ActionConfig::LightsOn {
        use_circadian: false,
        brightness: None,
        color_temp_k: Some(0),
        transition: None,
    }));
}

#[test]
fn brightness_by_hand_pauses_the_curve() {
    let room = sensor_room();
    let plan = set_manual_brightness(&state_with(lit()), "hall", &room, 42);
    assert_eq!(plan.effects.len(), 3);
    assert!(matches!(
        &plan.effects[0],
        Effect::Update {
            update: RoomStateUpdate::CircadianPause { paused: true, until: None },
            ..
        }
    ));
    assert!(matches!(
        &plan.effects[2],
        Effect::Publish {
            command: LightCommand::TurnOnGroup {
                brightness: Some(42),
                color_temp_mired: None,
                transition: Some(1),
                ..
            },
            ..
        }
    ));
    let dark = SystemState::default();
    assert!(set_manual_brightness(&dark, "hall", &room, 42).effects.is_empty());
    assert_eq!(start_continuous_dimming("hall").effects.len(), 1);
}

#[test]
fn dimming_goes_to_the_end_and_stops() {
    let config = config_of(vec![("hall", sensor_room())]);
    let room = config.rooms.get("hall").unwrap();
    let mut state = state_with(lit());
    let mut seen = vec![];
    for _ in 0..20 {
        match dim_once(&config, &state, "hall", room, true) {
            None => break,
            Some(plan) => {
                let mut rs = *state.rooms.get("hall").unwrap();
                for effect in &plan.effects {
                    if let Effect::Update { update, .. } = effect {
                        rs.apply(update, jeha::time::Instant { nanos: 0 });
                    }
                }
                seen.push(rs.current_brightness.unwrap());
                state.rooms.insert("hall".to_string(), rs);
            }
        }
    }
    assert_eq!(seen, vec![125, 150, 175, 200, 225, 250, 254]);
    // From an unknown brightness, downwards.
    let empty = SystemState::default();
    let plan = dim_once(&config, &empty, "hall", room, false).unwrap();
    assert!(matches!(
        &plan.effects[1],
        Effect::Publish {
            command: LightCommand::TurnOnGroup {
                brightness: Some(103),
                transition: Some(0),
                ..
            },
            ..
        }
    ));
}

#[test]
fn lights_out_spares_excluded_and_dark_rooms() {
    let mut lamps = RoomConfig::default();
    lamps.lights = vec!["a".to_string(), "b".to_string()];
    let mut excluded = sensor_room();
    excluded.lights_out = false;
    let config = config_of(vec![
        ("hall", sensor_room()),
        ("excluded", excluded),
        ("dark", sensor_room()),
        ("lamps", lamps),
    ]);
    let mut state = state_with(lit());
    state.rooms.insert("excluded".to_string(), lit());
    state.rooms.insert("dark".to_string(), RoomState::default());
    state.rooms.insert("lamps".to_string(), lit());
    let plan = turn_off_all_rooms(&config, &state);
    assert_eq!(plan.effects.len(), 5);
    assert!(matches!(
        &plan.effects[0],
        Effect::Publish {
            command: LightCommand::TurnOffGroup { group, transition: Some(5) },
            required: true,
        } if group == "Hall"
    ));
    assert!(matches!(
        &plan.effects[1],
        Effect::Update { room_id, update: RoomStateUpdate::LightsOff } if room_id == "hall"
    ));
    assert!(matches!(
        &plan.effects[3],
        Effect::Publish {
            command: LightCommand::TurnOffIeee { ieee, transition: Some(5) },
            required: false,
        } if ieee == "b"
    ));
    assert!(matches!(&plan.effects[4], Effect::Update { room_id, .. } if room_id == "lamps"));
}

#[test]
fn lights_out_fires_once_per_window() {
    let mut task = LightsOutTask::new();
    assert!(!task.tick(60, 59));
    assert!(task.tick(60, 60));
    assert!(!task.tick(60, 60));
    assert!(!task.tick(60, 62));
    assert!(!task.tick(60, 60));
    assert!(!task.tick(60, 63));
    assert!(task.tick(60, 60));
}

#[test]
fn lights_out_times_are_read_leniently() {
    assert_eq!(parse_time_to_minutes("01:00"), 60);
    assert_eq!(parse_time_to_minutes("23:45"), 1425);
    assert_eq!(parse_time_to_minutes("x:30"), 90);
    assert_eq!(parse_time_to_minutes("2:y"), 120);
    assert_eq!(parse_time_to_minutes("noon"), 60);
    assert_eq!(parse_time_to_minutes("1:2:3"), 60);
    assert_eq!(parse_time_to_minutes("30:00"), 1800);
    assert_eq!(try_parse_time_to_minutes("4294967295:0"), None);
    assert!(current_minutes("UTC") < 1440);
}

#[test]
fn motion_that_ended_fades_the_lights_out() {
    assert!(matches!(
        motion_off_action(),
        ActionConfig::LightsOff { delay_secs: 0, transition: Some(3) }
    ));
    let mut room = RoomConfig::default();
    room.z2m_group = Some("G".to_string());
    let plan = execute_action(&motion_off_action(), "r", &room, None);
    assert!(matches!(
        &plan.effects[..],
        [
            Effect::Update { update: RoomStateUpdate::LightsOff, .. },
            Effect::Publish {
                command: LightCommand::TurnOffGroup { transition: Some(3), .. },
                required: true,
            },
        ]
    ));
}
