use jeha::event::{Event, Illuminance};
use jeha::names::NameMap;
use jeha::state::{
    RoomState, RoomStateUpdate, StateCommand, StateManager, SystemState, UpdateSource,
    Z2mDeviceInfo,
};
use jeha::time::Instant;

const SECOND: u128 = 1_000_000_000;

fn at(secs: u128) -> Instant {
    Instant { nanos: secs * SECOND }
}

fn make_device(ieee: &str, friendly_name: &str) -> Z2mDeviceInfo {
    Z2mDeviceInfo {
        ieee_address: ieee.to_string(),
        friendly_name: friendly_name.to_string(),
        supported: true,
        supports_brightness: true,
        supports_color_temp: false,
        color_temp_min: None,
        color_temp_max: None,
        supports_color_xy: false,
        supports_color_hs: false,
    }
}

fn update(room: &str, update: RoomStateUpdate) -> StateCommand {
    StateCommand::UpdateRoomState { room_id: room.to_string(), update }
}

#[test]
fn test_availability_buffered_until_device_list() {
    let mut manager = StateManager::new(SystemState::default());

    // Retained availability can arrive before the first bridge/devices
    let events = manager.handle(
        StateCommand::SetDeviceAvailability { friendly_name: "lamp".to_string(), available: false },
        at(1),
    );
    assert!(events.is_empty());

    let mut devices = NameMap::new();
    devices.insert("0xAA".to_string(), make_device("0xAA", "lamp"));
    let events = manager.handle(StateCommand::UpdateDevices(devices), at(2));

    assert!(!manager.state.device_map.is_empty());
    // Buffered report was applied once the device list resolved the name
    assert!(!manager.state.is_device_available("0xAA"));
    // Unknown devices default to available
    assert!(manager.state.is_device_available("0xBB"));
    assert!(manager.pending_availability.is_empty());

    // The buffered report's event comes once resolved
    assert_eq!(events.len(), 1);
    match &events[0] {
        Event::DeviceAvailabilityChanged { ieee, available } => {
            assert_eq!(ieee, "0xAA");
            assert!(!available);
        }
        other => panic!("unexpected event: {:?}", other),
    }
}

#[test]
fn test_restore_lights_preserves_concurrent_manual_override() {
    let mut manager = StateManager::new(SystemState::default());

    // Snapshot taken before an optimistic lights-on (circadian source)
    let snapshot = RoomState::default();

    // Optimistic update, then a concurrent ExternalChange lands while
    // the publish is failing (sets Manual + a fresh override TTL)
    manager.handle(
        update(
            "kitchen",
            RoomStateUpdate::LightsOnWithPush {
                brightness: Some(200),
                color_temp_mired: Some(300),
                source: UpdateSource::Circadian,
            },
        ),
        at(10),
    );
    manager.handle(update("kitchen", RoomStateUpdate::ExternalChange { ttl_secs: 600 }), at(11));

    // Rollback of the failed publish
    manager.handle(
        update("kitchen", RoomStateUpdate::RestoreLights(Box::new(snapshot))),
        at(12),
    );

    let rs = manager.state.rooms.get("kitchen").unwrap();
    // Light fields rolled back...
    assert!(!rs.lights_on);
    assert_eq!(rs.intended_brightness, None);
    // ...but the concurrent manual override survives intact
    assert_eq!(rs.update_source, UpdateSource::Manual);
    assert!(rs.is_manual_override_active(at(12)));
    assert!(rs.is_manual_override_active(at(610)));
    assert!(!rs.is_manual_override_active(at(611)));
}

#[test]
fn test_availability_pruned_for_removed_devices() {
    let mut manager = StateManager::new(SystemState::default());
    let mut devices = NameMap::new();
    devices.insert("0xAA".to_string(), make_device("0xAA", "lamp"));
    manager.handle(StateCommand::UpdateDevices(devices), at(1));

    let events = manager.handle(
        StateCommand::SetDeviceAvailability { friendly_name: "lamp".to_string(), available: false },
        at(2),
    );
    assert!(!manager.state.is_device_available("0xAA"));
    assert!(matches!(
        &events[0],
        Event::DeviceAvailabilityChanged { ieee, available: false } if ieee == "0xAA"
    ));

    // Device removed: its availability entry is pruned
    manager.handle(StateCommand::UpdateDevices(NameMap::new()), at(3));
    assert!(manager.state.device_map.is_empty());
    assert!(manager.state.is_device_available("0xAA"));
}

#[test]
fn availability_of_listed_devices_survives_a_new_list() {
    let mut manager = StateManager::new(SystemState::default());
    let mut devices = NameMap::new();
    devices.insert("0xAA".to_string(), make_device("0xAA", "lamp"));
    devices.insert("0xBB".to_string(), make_device("0xBB", "spot"));
    manager.handle(StateCommand::UpdateDevices(devices), at(1));
    manager.handle(
        StateCommand::SetDeviceAvailability { friendly_name: "lamp".to_string(), available: false },
        at(2),
    );
    // Renamed: the address stays
    let mut renamed = NameMap::new();
    renamed.insert("0xAA".to_string(), make_device("0xAA", "desk lamp"));
    manager.handle(StateCommand::UpdateDevices(renamed), at(3));
    assert!(!manager.state.is_device_available("0xAA"));
    assert_eq!(manager.state.friendly_to_ieee.get("desk lamp").unwrap(), "0xAA");
    assert!(manager.state.friendly_to_ieee.get("lamp").is_none());
}

fn lit() -> RoomState {
    let mut room = RoomState::default();
    room.lights_on = true;
    room.current_brightness = Some(100);
    room.current_color_temp_mired = Some(250);
    room.circadian_paused = true;
    room.circadian_paused_until = Some(at(99));
    room.intended_brightness = Some(90);
    room.last_jeha_push = Some(at(5));
    room
}

#[test]
fn rollback_undoes_optimistic_updates() {
    let updates = [
        RoomStateUpdate::LightsOff,
        RoomStateUpdate::LightsOn {
            brightness: Some(1),
            color_temp_mired: None,
            source: UpdateSource::Manual,
        },
        RoomStateUpdate::LightsOnWithPush {
            brightness: None,
            color_temp_mired: Some(400),
            source: UpdateSource::Automation,
        },
    ];
    for update in updates {
        let before = lit();
        let mut room = before;
        room.apply(&update, at(20));
        room.apply(&RoomStateUpdate::RestoreLights(Box::new(before)), at(21));
        assert_eq!(format!("{:?}", room), format!("{:?}", before));
    }
}

#[test]
fn rollback_keeps_sensor_updates() {
    let snapshot = lit();
    let mut room = lit();
    room.apply(&RoomStateUpdate::Occupancy(true), at(30));
    room.apply(&RoomStateUpdate::Illuminance(Illuminance::Lux(77)), at(30));
    room.apply(&RoomStateUpdate::NightMode(true), at(31));
    room.apply(&RoomStateUpdate::RestoreLights(Box::new(snapshot)), at(32));
    assert!(room.occupancy && room.night_mode_active);
    assert_eq!(room.last_motion, Some(at(30)));
    assert_eq!(room.night_mode_since, Some(at(31)));
    assert_eq!(room.last_illuminance, Some(Illuminance::Lux(77)));
}

#[test]
fn lights_off_ends_pauses_and_keeps_overrides() {
    let mut room = lit();
    room.apply(&RoomStateUpdate::ExternalChange { ttl_secs: 60 }, at(10));
    room.apply(&RoomStateUpdate::LightsOff, at(11));
    assert!(!room.lights_on);
    assert!(!room.is_circadian_paused(at(11)));
    assert!(room.is_manual_override_active(at(69)));
    assert!(!room.is_manual_override_active(at(70)));
}

#[test]
fn pauses_and_overrides_have_their_times() {
    let mut room = RoomState::default();
    assert!(!room.is_circadian_paused(at(0)));
    room.apply(&RoomStateUpdate::CircadianPause { paused: true, until: None }, at(1));
    assert!(room.is_circadian_paused(at(1_000_000)));
    room.apply(&RoomStateUpdate::CircadianPause { paused: true, until: Some(at(5)) }, at(1));
    assert!(room.is_circadian_paused(at(4)));
    assert!(!room.is_circadian_paused(at(5)));
    assert!(!room.is_manual_override_active(at(1)));
    room.update_source = UpdateSource::Manual;
    assert!(room.is_manual_override_active(at(1_000_000)));
    room.apply(&RoomStateUpdate::ManualOverrideTtl { until: Some(at(9)) }, at(1));
    assert!(!room.is_manual_override_active(at(9)));
}

#[test]
fn occupancy_and_night_mode_remember_their_times() {
    let mut room = RoomState::default();
    room.apply(&RoomStateUpdate::Occupancy(true), at(3));
    room.apply(&RoomStateUpdate::Occupancy(false), at(4));
    assert!(!room.occupancy);
    assert_eq!(room.last_motion, Some(at(3)));
    room.apply(&RoomStateUpdate::NightMode(true), at(5));
    room.apply(&RoomStateUpdate::NightMode(true), at(6));
    assert_eq!(room.night_mode_since, Some(at(5)));
    room.apply(&RoomStateUpdate::NightMode(false), at(7));
    assert_eq!(room.night_mode_since, None);
}

#[test]
fn pushes_set_the_intended_values() {
    let mut room = lit();
    room.apply(&RoomStateUpdate::JehaPush { brightness: None, color_temp_mired: Some(333) }, at(8));
    assert_eq!(room.intended_brightness, Some(90));
    assert_eq!(room.intended_color_temp_mired, Some(333));
    assert_eq!(room.current_color_temp_mired, Some(250));
    assert_eq!(room.last_jeha_push, Some(at(8)));
}

#[test]
fn rooms_are_independent() {
    let mut manager = StateManager::new(SystemState::default());
    manager.handle(update("a", RoomStateUpdate::Occupancy(true)), at(1));
    manager.handle(update("b", RoomStateUpdate::NightMode(true)), at(2));
    assert!(manager.state.rooms.get("a").unwrap().occupancy);
    assert!(!manager.state.rooms.get("a").unwrap().night_mode_active);
    assert!(!manager.state.rooms.get("b").unwrap().occupancy);
    assert!(manager.state.room_or_default("c").last_motion.is_none());
}

#[test]
fn connections_are_flags() {
    let mut manager = StateManager::new(SystemState::default());
    manager.handle(StateCommand::SetMqttConnected(true), at(1));
    manager.handle(StateCommand::SetZ2mOnline(true), at(1));
    assert!(manager.state.mqtt_connected && manager.state.z2m_online);
    manager.handle(StateCommand::SetMqttConnected(false), at(2));
    assert!(!manager.state.mqtt_connected && manager.state.z2m_online);
}

#[test]
fn times_beyond_the_clock_are_found() {
    let update = RoomStateUpdate::ExternalChange { ttl_secs: u64::MAX };
    assert!(update.check_fits(at(1)));
    assert!(!update.check_fits(Instant { nanos: u128::MAX }));
}

#[test]
fn maps_keep_the_order_of_their_names() {
    let mut map = NameMap::new();
    map.insert("b".to_string(), 1);
    map.insert("a".to_string(), 2);
    map.insert("b".to_string(), 3);
    assert_eq!(map.len(), 2);
    assert_eq!((map.key_at(0).as_str(), *map.value_at(0)), ("b", 3));
    assert_eq!((map.key_at(1).as_str(), *map.value_at(1)), ("a", 2));
    assert_eq!(map.remove("b"), Some(3));
    assert_eq!(map.remove("b"), None);
    assert!(map.get("b").is_none() && map.contains_key("a"));
    let copy = map.clone();
    assert_eq!(copy.get("a"), Some(&2));
}

#[test]
fn names_keep_their_places() {
    let mut map = NameMap::new();
    for (i, name) in ["b", "a", "c"].iter().enumerate() {
        map.insert(name.to_string(), i);
    }
    map.insert("a".to_string(), 7);
    let list = |map: &NameMap<usize>| -> Vec<(String, usize)> {
        (0..map.len()).map(|i| (map.key_at(i).clone(), *map.value_at(i))).collect()
    };
    let entry = |name: &str, value: usize| (name.to_string(), value);
    assert_eq!(list(&map), vec![entry("b", 0), entry("a", 7), entry("c", 2)]);
    assert_eq!(map.remove("b"), Some(0));
    assert_eq!(map.remove("b"), None);
    map.insert("b".to_string(), 9);
    assert_eq!(list(&map), vec![entry("a", 7), entry("c", 2), entry("b", 9)]);
}
