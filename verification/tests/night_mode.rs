use jeha::config::types::{
    AppConfig, CircadianSection, GeneralConfig, LightCalibrationConfig, LightsOutConfig,
    McpConfig, MqttConfig, NightModeOverride, NightModeSection, RoomConfig,
};
use jeha::circadian::curve::CircadianTarget;
use jeha::effect::{Effect, LightCommand, Plan};
use jeha::event::Event;
use jeha::names::{NameMap, NameSet};
use jeha::night_mode::{
    activate_night_mode, deactivate_night_mode, should_run, should_wake_deactivate,
    NightModeScheduler, NightSwitch,
};
use jeha::schedule::{DayOfWeek, LocalNow, Month, Schedule, TimeOfDay, TimeWindow};
use jeha::state::{RoomState, RoomStateUpdate, SystemState, UpdateSource};
use jeha::time::Instant;

const SECOND: u128 = 1_000_000_000;

fn at(secs: u128) -> Instant {
    Instant { nanos: secs * SECOND }
}

fn config_with(room: RoomConfig) -> AppConfig {
    let mut rooms = NameMap::new();
    rooms.insert("bedroom".to_string(), room);
    AppConfig {
        schema_version: 1,
        mqtt: MqttConfig::default(),
        general: GeneralConfig::default(),
        circadian: CircadianSection::default(),
        night_mode: NightModeSection::default(),
        lights_out: LightsOutConfig::default(),
        mcp: McpConfig::default(),
        light_calibration: LightCalibrationConfig::default(),
        rooms,
        automations: vec![],
    }
}

fn scheduled_room() -> RoomConfig {
    let mut room = RoomConfig::default();
    room.z2m_group = Some("Bedroom".to_string());
    room.night_mode = Some(NightModeOverride {
        schedule: Some(Schedule::Window(TimeWindow {
            after: Some(TimeOfDay::from_hm_str("22:00").unwrap()),
            before: Some(TimeOfDay::from_hm_str("05:00").unwrap()),
            days: vec![],
            months: vec![],
        })),
        color_temp_k: None,
        brightness: Some(15),
        motion_timeout_secs: None,
    });
    room
}

fn state_with(rs: RoomState) -> SystemState {
    let mut state = SystemState::default();
    state.rooms.insert("bedroom".to_string(), rs);
    state
}

fn local(minutes: u16) -> LocalNow {
    LocalNow { minutes, weekday: DayOfWeek::Mon, month: Month::Jan }
}

fn switches(list: &[NightSwitch]) -> Vec<(String, bool)> {
    list.iter().map(|s| (s.room_id.clone(), s.active)).collect()
}

fn lit_room() -> RoomState {
    let mut rs = RoomState::default();
    rs.lights_on = true;
    rs
}

fn carry_out(plan: &Plan, rs: &mut RoomState, now: Instant) {
    for effect in &plan.effects {
        if let Effect::Update { update, .. } = effect {
            rs.apply(update, now);
        }
    }
}

#[test]
fn test_wake_deactivate_before_wake_time() {
    let mut pre_wake = NameSet::new();
    let result = should_wake_deactivate(&mut pre_wake, "bedroom", 360, 300, true);
    assert!(!result);
    assert!(pre_wake.contains("bedroom"));
}

#[test]
fn test_wake_deactivate_at_wake_time_with_night_mode() {
    let mut pre_wake = NameSet::new();
    pre_wake.insert("bedroom".to_string());
    let result = should_wake_deactivate(&mut pre_wake, "bedroom", 360, 360, true);
    assert!(result);
    assert!(!pre_wake.contains("bedroom"));
}

#[test]
fn test_wake_deactivate_at_wake_time_without_night_mode() {
    let mut pre_wake = NameSet::new();
    pre_wake.insert("bedroom".to_string());
    let result = should_wake_deactivate(&mut pre_wake, "bedroom", 360, 360, false);
    assert!(!result);
    assert!(!pre_wake.contains("bedroom"));
}

#[test]
fn test_wake_deactivate_after_wake_without_pre_wake() {
    let mut pre_wake = NameSet::new();
    // Night mode activated during the day — no pre_wake entry
    let result = should_wake_deactivate(&mut pre_wake, "bedroom", 360, 400, true);
    assert!(!result);
}

#[test]
fn wake_time_is_crossed_once() {
    let mut pre_wake = NameSet::new();
    should_wake_deactivate(&mut pre_wake, "bedroom", 360, 359, true);
    should_wake_deactivate(&mut pre_wake, "attic", 360, 300, true);
    assert!(should_wake_deactivate(&mut pre_wake, "bedroom", 360, 360, true));
    assert!(!should_wake_deactivate(&mut pre_wake, "bedroom", 360, 361, true));
    assert!(pre_wake.contains("attic"));
}

#[test]
fn activation_tells_a_lit_room() {
    let config = config_with(scheduled_room());
    let state = state_with(lit_room());
    let room = config.rooms.get("bedroom").unwrap();
    let plan = activate_night_mode("bedroom", room, &config, &state);
    assert_eq!(plan.effects.len(), 6);
    assert!(matches!(
        &plan.effects[0],
        Effect::Update { room_id, update: RoomStateUpdate::NightMode(true) } if room_id == "bedroom"
    ));
    assert!(matches!(
        &plan.effects[1],
        Effect::Update { update: RoomStateUpdate::CircadianPause { paused: true, until: None }, .. }
    ));
    assert!(matches!(
        &plan.effects[2],
        Effect::Publish {
            command: LightCommand::TurnOnGroup {
                group,
                brightness: Some(15),
                color_temp_mired: Some(454),
                transition: Some(3),
            },
            required: true,
        } if group == "Bedroom"
    ));
    assert!(matches!(
        &plan.effects[3],
        Effect::Update {
            update: RoomStateUpdate::LightsOn {
                brightness: Some(15),
                color_temp_mired: Some(454),
                source: UpdateSource::Automation,
            },
            ..
        }
    ));
    assert!(matches!(
        &plan.effects[5],
        Effect::Emit { event: Event::NightModeChanged { room_id, active: true } }
            if room_id == "bedroom"
    ));
    let mut rs = lit_room();
    carry_out(&plan, &mut rs, at(1));
    assert!(rs.night_mode_active && rs.is_circadian_paused(at(99)));
}

#[test]
fn a_dark_room_only_changes_its_flags() {
    let config = config_with(scheduled_room());
    let state = SystemState::default();
    let room = config.rooms.get("bedroom").unwrap();
    assert_eq!(activate_night_mode("bedroom", room, &config, &state).effects.len(), 3);
    let target = CircadianTarget { brightness: 9, color_temp_mired: 300, color_temp_k: 3333 };
    let plan = deactivate_night_mode("bedroom", room, &state, Some(target));
    assert_eq!(plan.effects.len(), 3);
    assert!(plan.effects.iter().all(|e| !matches!(e, Effect::Publish { .. })));
}

#[test]
fn deactivation_goes_back_to_the_curve() {
    let mut room = RoomConfig::default();
    room.lights = vec!["a".to_string(), "b".to_string()];
    let config = config_with(room);
    let mut rs = lit_room();
    rs.night_mode_active = true;
    rs.circadian_paused = true;
    rs.update_source = UpdateSource::Manual;
    let state = state_with(rs);
    let room = config.rooms.get("bedroom").unwrap();
    let target = CircadianTarget { brightness: 200, color_temp_mired: 300, color_temp_k: 3333 };
    let plan = deactivate_night_mode("bedroom", room, &state, Some(target));
    assert_eq!(plan.effects.len(), 8);
    assert!(matches!(
        &plan.effects[4],
        Effect::Publish {
            command: LightCommand::TurnOnIeee {
                ieee,
                brightness: Some(200),
                color_temp_mired: Some(300),
                transition: Some(3),
            },
            required: false,
        } if ieee == "b"
    ));
    carry_out(&plan, &mut rs, at(5));
    assert!(!rs.night_mode_active && !rs.circadian_paused);
    assert_eq!(rs.update_source, UpdateSource::Circadian);
    assert_eq!(rs.intended_brightness, Some(200));
    assert_eq!(deactivate_night_mode("bedroom", room, &state, None).effects.len(), 4);
}

#[test]
fn schedules_switch_night_mode() {
    let config = config_with(scheduled_room());
    let mut scheduler = NightModeScheduler::new();
    let day = state_with(RoomState::default());
    let due = scheduler.check_schedules(&config, &day, &local(23 * 60), at(1));
    assert_eq!(switches(&due), vec![("bedroom".to_string(), true)]);

    let mut rs = RoomState::default();
    rs.night_mode_active = true;
    let night = state_with(rs);
    // Inside the window, already on.
    assert!(scheduler.check_schedules(&config, &night, &local(60), at(2)).is_empty());
    // Outside the window it ends.
    let due = scheduler.check_schedules(&config, &night, &local(5 * 60), at(3));
    assert_eq!(switches(&due), vec![("bedroom".to_string(), false)]);
}

#[test]
fn a_manual_end_is_respected_until_the_window_is_over() {
    let config = config_with(scheduled_room());
    let mut scheduler = NightModeScheduler::new();
    let day = state_with(RoomState::default());
    scheduler.note_event(&Event::NightModeChanged { room_id: "bedroom".to_string(), active: false });
    assert!(scheduler.check_schedules(&config, &day, &local(23 * 60), at(1)).is_empty());
    assert!(scheduler.check_schedules(&config, &day, &local(12 * 60), at(2)).is_empty());
    let due = scheduler.check_schedules(&config, &day, &local(23 * 60), at(3));
    assert_eq!(switches(&due), vec![("bedroom".to_string(), true)]);
    scheduler.note_event(&Event::NightModeChanged { room_id: "bedroom".to_string(), active: true });
    assert!(!scheduler.suppressed.contains("bedroom"));
}

#[test]
fn night_mode_ends_at_wake_time() {
    let mut room = RoomConfig::default();
    room.z2m_group = Some("Bedroom".to_string());
    let config = config_with(room);
    let mut scheduler = NightModeScheduler::new();
    let mut rs = RoomState::default();
    rs.night_mode_active = true;
    rs.night_mode_since = Some(at(100));
    let night = state_with(rs);
    assert!(scheduler.check_schedules(&config, &night, &local(359), at(101)).is_empty());
    let due = scheduler.check_schedules(&config, &night, &local(360), at(102));
    assert_eq!(switches(&due), vec![("bedroom".to_string(), false)]);
    assert!(scheduler.suppressed.contains("bedroom"));
}

#[test]
fn stale_night_mode_ends_in_the_hour_after_wake_time() {
    let mut room = RoomConfig::default();
    room.z2m_group = Some("Bedroom".to_string());
    let config = config_with(room);
    let mut rs = RoomState::default();
    rs.night_mode_active = true;
    rs.night_mode_since = Some(at(100));
    let night = state_with(rs);
    let late = at(100 + 7200);
    assert!(NightModeScheduler::new().check_schedules(&config, &night, &local(400), late).is_empty());
    let later = at(100 + 7201);
    let due = NightModeScheduler::new().check_schedules(&config, &night, &local(420), later);
    assert_eq!(switches(&due), vec![("bedroom".to_string(), false)]);
    assert!(NightModeScheduler::new().check_schedules(&config, &night, &local(421), later).is_empty());
}

#[test]
fn the_scheduler_needs_something_to_look_at() {
    let mut room = RoomConfig::default();
    room.circadian_enabled = false;
    assert!(!should_run(&config_with(room)));
    assert!(should_run(&config_with(RoomConfig::default())));
    let mut room = scheduled_room();
    room.circadian_enabled = false;
    assert!(should_run(&config_with(room)));
}
