//! Which events an automation listens to.

use vstd::prelude::*;

use crate::config::types::TriggerConfig;
use crate::event::Event;
use crate::text::same;

verus! {

/// The event is of the kind that the trigger names and comes from the room's own sensor.
pub open spec fn triggers(
    trigger: TriggerConfig,
    event: Event<Seq<char>>,
    sensor_ieee: Option<Seq<char>>,
) -> bool {
    match (trigger, event) {
        (TriggerConfig::Motion, Event::MotionDetected { sensor_ieee: from, .. }) => sensor_ieee
            == Some(from),
        (TriggerConfig::MotionCleared, Event::MotionCleared { sensor_ieee: from, .. }) =>
            sensor_ieee == Some(from),
        _ => false,
    }
}

/// The view of an optional text.
pub open spec fn text_view(text: Option<&str>) -> Option<Seq<char>> {
    match text {
        Some(s) => Some(s@),
        None => None,
    }
}

pub fn matches_trigger(trigger: &TriggerConfig, event: &Event, sensor_ieee: Option<&str>) -> (r:
    bool)
    ensures
        r == triggers(*trigger, event@, text_view(sensor_ieee)),
{
    match (trigger, event) {
        (TriggerConfig::Motion, Event::MotionDetected { sensor_ieee: from, .. }) =>
            match sensor_ieee {
                Some(sensor) => same(sensor, from.as_str()),
                None => false,
            },
        (TriggerConfig::MotionCleared, Event::MotionCleared { sensor_ieee: from, .. }) =>
            match sensor_ieee {
                Some(sensor) => same(sensor, from.as_str()),
                None => false,
            },
        _ => false,
    }
}

} // verus!
