use jeha::config::defaults::EffectiveNightMode;
use jeha::config::migrate::{migrate_config, plan_migration, MigrateError, MigrationStep};
use jeha::config::types::{
    ActionConfig, AppConfig, AutomationConfig, CircadianDefaults, CircadianOverride,
    CircadianSection, CurveType, GeneralConfig, LightCalibrationConfig, LightCalibrationOverride,
    LightsOutConfig, McpConfig, MqttConfig, NightModeDefaults, NightModeOverride,
    NightModeSection, RoomConfig, TriggerConfig,
};
use jeha::config::validate::{
    validate_color_temp, validate_config, validate_ieee, validate_time_str,
};
use jeha::daemon::{apply_overrides, initial_state, parse_broker_address, Overrides};
use jeha::names::NameMap;
use jeha::schedule::{Schedule, TimeOfDay, TimeWindow};
use jeha::time::Instant;

fn empty_config() -> AppConfig {
    AppConfig {
        schema_version: 1,
        mqtt: MqttConfig::default(),
        general: GeneralConfig::default(),
        circadian: CircadianSection::default(),
        night_mode: NightModeSection::default(),
        lights_out: LightsOutConfig::default(),
        mcp: McpConfig::default(),
        light_calibration: LightCalibrationConfig::default(),
        rooms: NameMap::new(),
        automations: vec![],
    }
}

fn group_room(group: &str) -> RoomConfig {
    let mut room = RoomConfig::default();
    room.z2m_group = Some(group.to_string());
    room
}

fn no_override() -> CircadianOverride {
    CircadianOverride {
        wake_time: None,
        sleep_time: None,
        start_temp_k: None,
        peak_temp_k: None,
        end_temp_k: None,
        start_brightness: None,
        peak_brightness: None,
        end_brightness: None,
        ramp_duration_mins: None,
        curve: None,
        transition_secs: None,
        update_interval_secs: None,
    }
}

fn automation(id: &str, rooms: &[&str]) -> AutomationConfig {
    AutomationConfig {
        id: id.to_string(),
        rooms: rooms.iter().map(|r| r.to_string()).collect(),
        trigger: TriggerConfig::Motion,
        action: ActionConfig::LightsOn {
            use_circadian: true,
            brightness: None,
            color_temp_k: None,
            transition: None,
        },
        off_action: Some(ActionConfig::LightsOff { delay_secs: 300, transition: None }),
        schedule: None,
        conditions: vec![],
    }
}

fn error_of(config: &AppConfig) -> String {
    validate_config(config).unwrap_err().message()
}

#[test]
fn test_minimal_config() {
    let mut config = empty_config();
    config.rooms.insert("kitchen".to_string(), group_room("Kitchen"));
    assert_eq!(config.schema_version, 1);
    assert!(config.rooms.contains_key("kitchen"));
    assert_eq!(config.circadian.defaults.peak_brightness, 254);
    assert!(validate_config(&config).is_ok());
}

#[test]
fn test_full_config() {
    let mut config = empty_config();
    config.mqtt = MqttConfig {
        host: "localhost".to_string(),
        port: 1883,
        base_topic: "zigbee2mqtt".to_string(),
    };
    config.general.timezone = "Europe/London".to_string();
    config.circadian.defaults = CircadianDefaults {
        wake_time: "06:00".to_string(),
        sleep_time: "23:00".to_string(),
        start_temp_k: 2700,
        peak_temp_k: 4000,
        end_temp_k: 2200,
        start_brightness: 180,
        peak_brightness: 254,
        end_brightness: 150,
        ramp_duration_mins: 120,
        curve: CurveType::Cosine,
        transition_secs: 30,
        update_interval_secs: 60,
    };
    config.night_mode.defaults =
        NightModeDefaults { color_temp_k: 2200, brightness: 20, motion_timeout_secs: 120 };
    config.mcp = McpConfig { bind: "127.0.0.1:8420".to_string() };
    let mut kitchen = group_room("Kitchen");
    kitchen.display_name = Some("Kitchen".to_string());
    kitchen.lights = vec!["0x001788010AAAAAA1".to_string()];
    kitchen.motion_sensor = Some("0x00158d000AAAAAAA".to_string());
    let mut own = no_override();
    own.peak_temp_k = Some(5500);
    own.peak_brightness = Some(254);
    kitchen.circadian = Some(own);
    kitchen.night_mode = Some(NightModeOverride {
        schedule: Some(Schedule::Window(TimeWindow {
            after: Some(TimeOfDay::from_hm_str("22:30").unwrap()),
            before: Some(TimeOfDay::from_hm_str("06:30").unwrap()),
            days: vec![],
            months: vec![],
        })),
        color_temp_k: None,
        brightness: None,
        motion_timeout_secs: None,
    });
    config.rooms.insert("kitchen".to_string(), kitchen);
    let mut office = group_room("Office");
    office.display_name = Some("Office".to_string());
    config.rooms.insert("office".to_string(), office);
    config.automations.push(automation("hallway_motion", &["kitchen"]));
    assert!(validate_config(&config).is_ok());
    assert_eq!(config.rooms.len(), 2);
    assert_eq!(config.automations.len(), 1);
}

#[test]
fn test_invalid_room_no_group_or_lights() {
    let mut config = empty_config();
    let mut room = RoomConfig::default();
    room.display_name = Some("Bad".to_string());
    config.rooms.insert("bad_room".to_string(), room);
    assert!(validate_config(&config).is_err());
    assert_eq!(
        error_of(&config),
        "Room 'bad_room' must have either z2m_group or lights (or both)."
    );
}

#[test]
fn test_validate_ieee_valid() {
    assert!(validate_ieee("0x00158d0004abcdef", "test").is_ok());
    assert!(validate_ieee("0x001788010AAAAAA1", "test").is_ok());
}

#[test]
fn test_validate_ieee_invalid() {
    assert!(validate_ieee("not_an_ieee", "test").is_err());
    assert!(validate_ieee("0x123", "test").is_err());
    assert!(validate_ieee("0x00158d0004abcdeg", "test").is_err());
}

#[test]
fn test_validate_time_str() {
    assert!(validate_time_str("06:00", "test").is_ok());
    assert!(validate_time_str("23:59", "test").is_ok());
    assert!(validate_time_str("24:00", "test").is_err());
    assert!(validate_time_str("12:60", "test").is_err());
    assert!(validate_time_str("noon", "test").is_err());
}

#[test]
fn test_validate_color_temp() {
    assert!(validate_color_temp(2700, "test").is_ok());
    assert!(validate_color_temp(999, "test").is_err());
    assert!(validate_color_temp(10001, "test").is_err());
}

#[test]
fn address_errors_name_the_field() {
    assert_eq!(
        validate_ieee("0x12", "rooms.a.lights").unwrap_err().message(),
        "Invalid IEEE address '0x12' in rooms.a.lights: must be 0x followed by 16 hex digits."
    );
    assert_eq!(
        validate_ieee("0x00158d0004abcdeg", "f").unwrap_err().message(),
        "Invalid IEEE address '0x00158d0004abcdeg' in f: contains non-hex characters."
    );
    // Eighteen bytes, but not eighteen characters.
    assert_eq!(
        validate_ieee("0x00158d0004abcdé", "f").unwrap_err().message(),
        "Invalid IEEE address '0x00158d0004abcdé' in f: contains non-hex characters."
    );
}

#[test]
fn other_checks_name_the_field() {
    assert_eq!(
        validate_time_str("noon", "circadian.defaults.wake_time").unwrap_err().message(),
        "Invalid time 'noon': expected HH:MM format in circadian.defaults.wake_time"
    );
    assert_eq!(
        validate_color_temp(999, "x").unwrap_err().message(),
        "Invalid color temperature 999 in x: must be 1000-10000K."
    );
    assert!(validate_color_temp(1000, "x").is_ok());
    assert!(validate_color_temp(10000, "x").is_ok());
}

#[test]
fn each_problem_of_a_configuration_is_told() {
    let mut config = empty_config();
    config.schema_version = 2;
    assert_eq!(error_of(&config), "Unsupported schema_version: 2. Expected 1.");

    let mut config = empty_config();
    let mut room = group_room("A");
    room.lights = vec!["0x00158d0004abcdef".to_string(), "zzz".to_string()];
    config.rooms.insert("a".to_string(), room);
    assert_eq!(
        error_of(&config),
        "Invalid IEEE address 'zzz' in rooms.a.lights: must be 0x followed by 16 hex digits."
    );

    let mut config = empty_config();
    let mut room = group_room("A");
    room.motion_sensor = Some("m".to_string());
    config.rooms.insert("a".to_string(), room);
    assert!(error_of(&config).contains("in rooms.a.motion_sensor:"));

    let mut config = empty_config();
    let mut room = group_room("A");
    room.remotes = vec!["0x00158d0004abcdef".to_string(), "r".to_string()];
    config.rooms.insert("a".to_string(), room);
    assert!(error_of(&config).contains("in rooms.a.remotes[1]:"));

    let mut config = empty_config();
    let mut room = group_room("A");
    room.motion_schedule = Some(Schedule::All { all: vec![] });
    config.rooms.insert("a".to_string(), room);
    assert_eq!(error_of(&config), "Empty 'all' schedule in rooms.a.motion_schedule");

    let mut config = empty_config();
    let mut room = group_room("A");
    let mut own = no_override();
    own.sleep_time = Some("1:2:3".to_string());
    room.circadian = Some(own);
    config.rooms.insert("a".to_string(), room);
    assert!(error_of(&config).ends_with(" in rooms.a.circadian.sleep_time"));

    let mut config = empty_config();
    let mut room = group_room("A");
    let mut own = no_override();
    own.end_temp_k = Some(1);
    room.circadian = Some(own);
    config.rooms.insert("a".to_string(), room);
    assert!(error_of(&config).contains("rooms.a.circadian.end_temp_k"));

    let mut config = empty_config();
    let mut room = group_room("A");
    room.night_mode = Some(NightModeOverride {
        schedule: Some(Schedule::Any { any: vec![] }),
        color_temp_k: None,
        brightness: None,
        motion_timeout_secs: None,
    });
    config.rooms.insert("a".to_string(), room);
    assert_eq!(error_of(&config), "Empty 'any' schedule in rooms.a.night_mode.schedule");

    let mut config = empty_config();
    config.circadian.defaults.peak_temp_k = 10_001;
    assert!(error_of(&config).contains("circadian.defaults.peak_temp_k"));
}

#[test]
fn calibration_offsets_have_a_range() {
    let mut config = empty_config();
    config.light_calibration.rgbw_color_temp_offset = 101;
    assert_eq!(
        error_of(&config),
        "light_calibration.rgbw_color_temp_offset must be between -100 and 100, got 101"
    );

    let mut config = empty_config();
    config.light_calibration.rgbw_brightness_offset = i16::MIN;
    assert_eq!(
        error_of(&config),
        "light_calibration.rgbw_brightness_offset must be between -100 and 100, got -32768"
    );

    let ieee = "0x00158d0004abcdef";
    let mut config = empty_config();
    config.light_calibration.overrides.insert(
        ieee.to_string(),
        LightCalibrationOverride { color_temp_offset: Some(-100), brightness_offset: Some(-101) },
    );
    assert_eq!(
        error_of(&config),
        "light_calibration.overrides.0x00158d0004abcdef.brightness_offset must be between -100 and 100, got -101"
    );

    let mut config = empty_config();
    config.light_calibration.overrides.insert(
        "lamp".to_string(),
        LightCalibrationOverride { color_temp_offset: None, brightness_offset: None },
    );
    assert!(error_of(&config).contains("in light_calibration.overrides.lamp:"));
}

#[test]
fn automations_refer_to_rooms() {
    let mut config = empty_config();
    config.automations.push(automation("", &[]));
    assert_eq!(error_of(&config), "Automation must have a non-empty id.");

    let mut config = empty_config();
    config.automations.push(automation("x", &["attic"]));
    assert_eq!(error_of(&config), "Automation 'x' references unknown room 'attic'.");

    let mut config = empty_config();
    config.rooms.insert("attic".to_string(), group_room("Attic"));
    config.automations.push(automation("x", &["attic"]));
    assert_eq!(
        error_of(&config),
        "Automation 'x' uses motion trigger but room 'attic' has no motion_sensor."
    );

    let mut config = empty_config();
    config.rooms.insert("attic".to_string(), group_room("Attic"));
    let mut cleared = automation("x", &["attic"]);
    cleared.trigger = TriggerConfig::MotionCleared;
    cleared.schedule = Some(Schedule::All { all: vec![] });
    config.automations.push(cleared);
    assert_eq!(error_of(&config), "Empty 'all' schedule in automations.x.schedule");
}

#[test]
fn defaults_are_as_documented() {
    let config = empty_config();
    assert_eq!(config.mqtt.host, "localhost");
    assert_eq!(config.mqtt.port, 1883);
    assert_eq!(config.mqtt.base_topic, "zigbee2mqtt");
    assert_eq!(config.general.timezone, "UTC");
    assert_eq!(config.general.motion_timeout_secs, 300);
    assert_eq!(config.general.external_override_secs, 1800);
    let d = &config.circadian.defaults;
    assert_eq!((d.wake_time.as_str(), d.sleep_time.as_str()), ("06:00", "23:00"));
    assert_eq!((d.start_temp_k, d.peak_temp_k, d.end_temp_k), (2700, 4000, 2200));
    assert_eq!(d.curve, CurveType::Cosine);
    assert_eq!(config.mcp.bind, "127.0.0.1:8420");
    assert!(config.lights_out.enabled);
    assert_eq!(config.lights_out.time, "01:00");
}

#[test]
fn rooms_override_defaults() {
    let mut room = group_room("A");
    let defaults = CircadianDefaults::default();
    assert_eq!(room.effective_circadian(&defaults).peak_temp_k, 4000);
    let mut own = no_override();
    own.peak_temp_k = Some(5500);
    own.wake_time = Some("07:00".to_string());
    room.circadian = Some(own);
    let merged = room.effective_circadian(&defaults);
    assert_eq!(merged.peak_temp_k, 5500);
    assert_eq!(merged.wake_time, "07:00");
    assert_eq!(merged.sleep_time, "23:00");

    assert_eq!(room.effective_motion_timeout(300), None);
    room.motion_sensor = Some("m".to_string());
    assert_eq!(room.effective_motion_timeout(300), Some(300));
    room.motion_timeout_secs = Some(60);
    assert_eq!(room.effective_motion_timeout(300), Some(60));

    let night: EffectiveNightMode = room.effective_night_mode(&NightModeDefaults::default());
    assert!(night.schedule.is_none());
    assert_eq!((night.color_temp_k, night.brightness, night.motion_timeout_secs), (2200, 20, 120));
}

#[test]
fn migration_goes_by_the_version() {
    assert_eq!(plan_migration(1, false).unwrap(), MigrationStep::UpToDate);
    assert_eq!(plan_migration(-3, true).unwrap(), MigrationStep::Announce { version: -3 });
    assert_eq!(plan_migration(-3, false).unwrap(), MigrationStep::BackUp);
    assert!(matches!(plan_migration(0, true), Err(MigrateError::MissingVersion)));
    assert_eq!(
        plan_migration(7, false).unwrap_err().message().unwrap(),
        "schema_version 7 is newer than this version of jeha supports."
    );
}

#[test]
fn migration_reads_the_version_out_of_the_file() {
    assert_eq!(
        migrate_config("schema_version = 1\n[mqtt]\nport = 5\n", false).unwrap(),
        MigrationStep::UpToDate
    );
    assert!(matches!(
        migrate_config("schema_version = 2\n", false),
        Err(MigrateError::TooNew { version: 2 })
    ));
    // Absent, or no integer: as if there were none.
    let missing = migrate_config("[mqtt]\nschema_version = 1\n", false).unwrap_err();
    assert_eq!(
        missing.message().unwrap(),
        "schema_version 0 or missing — cannot auto-migrate. Please add schema_version = 1 to your config."
    );
    assert!(matches!(
        migrate_config("schema_version = \"1\"\n", false),
        Err(MigrateError::MissingVersion)
    ));
    let syntax = migrate_config("schema_version = \n", false).unwrap_err();
    assert!(matches!(syntax, MigrateError::Syntax { .. }));
    assert!(syntax.message().is_none());
}

#[test]
fn given_settings_beat_the_file() {
    let mut config = empty_config();
    apply_overrides(
        &mut config,
        Overrides {
            mqtt_host: Some("10.0.0.5".to_string()),
            mqtt_port: None,
            mqtt_topic: Some("z".to_string()),
            mcp_bind: None,
        },
    );
    assert_eq!(config.mqtt.host, "10.0.0.5");
    assert_eq!(config.mqtt.port, 1883);
    assert_eq!(config.mqtt.base_topic, "z");
    assert_eq!(config.mcp.bind, "127.0.0.1:8420");
}

#[test]
fn the_daemon_starts_with_every_room_dark() {
    let mut config = empty_config();
    config.rooms.insert("a".to_string(), group_room("A"));
    config.rooms.insert("b".to_string(), group_room("B"));
    let state = initial_state(&config, Instant { nanos: 7 });
    assert_eq!(state.rooms.len(), 2);
    assert!(!state.rooms.get("a").unwrap().lights_on);
    assert!(state.rooms.get("c").is_none());
    assert_eq!(state.started_at, Some(Instant { nanos: 7 }));
    assert!(!state.mqtt_connected && !state.z2m_online);
}

#[test]
fn broker_addresses_have_a_host_and_a_port() {
    assert_eq!(
        parse_broker_address("localhost:1883"),
        Some(("localhost".to_string(), 1883))
    );
    assert_eq!(parse_broker_address("localhost"), None);
    assert_eq!(parse_broker_address("a:b:1"), None);
    assert_eq!(parse_broker_address("a:65536"), None);
}
