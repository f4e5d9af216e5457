use jeha::automation::trigger::matches_trigger;
use jeha::config::types::TriggerConfig;
use jeha::event::Event;

#[test]
fn test_motion_trigger_match() {
    let trigger = TriggerConfig::Motion;
    let event = Event::MotionDetected {
        room_id: "kitchen".to_string(),
        sensor_ieee: "0x00158d000AAAAAAA".to_string(),
        illuminance: None,
    };
    assert!(matches_trigger(
        &trigger,
        &event,
        Some("0x00158d000AAAAAAA")
    ));
    assert!(!matches_trigger(
        &trigger,
        &event,
        Some("0x00158d000BBBBBBB")
    ));
}

#[test]
fn test_motion_cleared_trigger_match() {
    let trigger = TriggerConfig::MotionCleared;
    let event = Event::MotionCleared {
        room_id: "kitchen".to_string(),
        sensor_ieee: "0x00158d000AAAAAAA".to_string(),
    };
    assert!(matches_trigger(
        &trigger,
        &event,
        Some("0x00158d000AAAAAAA")
    ));
}

#[test]
fn test_no_sensor_no_match() {
    let trigger = TriggerConfig::Motion;
    let event = Event::MotionDetected {
        room_id: "kitchen".to_string(),
        sensor_ieee: "0x00158d000AAAAAAA".to_string(),
        illuminance: None,
    };
    assert!(!matches_trigger(&trigger, &event, None));
}

#[test]
fn triggers_do_not_mix() {
    let cleared = Event::MotionCleared {
        room_id: String::new(),
        sensor_ieee: "a".to_string(),
    };
    assert!(!matches_trigger(&TriggerConfig::Motion, &cleared, Some("a")));
    assert!(!matches_trigger(&TriggerConfig::MotionCleared, &Event::MqttConnected, Some("a")));
}
