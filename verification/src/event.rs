//! What the parts of the daemon tell each other.

use vstd::prelude::*;

verus! {

/// A light reading of a motion sensor.
#[derive(Clone, Copy, Debug, PartialEq, Eq, Structural)]
pub enum Illuminance {
    /// Numeric lux value (e.g. IKEA VALLHORN).
    Lux(u16),
    /// Boolean threshold from the sensor (true = bright enough, e.g. IKEA TRADFRI motion sensor 2).
    AboveThreshold(bool),
}

/// Something that happened, as it is told on the event bus. `S` is the type of its texts.
#[derive(Clone, Debug)]
pub enum Event<S = String> {
    DevicesUpdated,
    GroupsUpdated,
    LightStateChanged { room_id: S },
    MotionDetected { room_id: S, sensor_ieee: S, illuminance: Option<Illuminance> },
    MotionCleared { room_id: S, sensor_ieee: S },
    DeviceAvailabilityChanged { ieee: S, available: bool },
    NightModeChanged { room_id: S, active: bool },
    RemoteAction { remote_ieee: S, action: S },
    ExternalLightChange { room_id: S, device_name: S },
    ConfigReloaded,
    MqttConnected,
    MqttDisconnected,
}

impl View for Event<String> {
    type V = Event<Seq<char>>;

    open spec fn view(&self) -> Event<Seq<char>> {
        match self {
            Event::DevicesUpdated => Event::DevicesUpdated,
            Event::GroupsUpdated => Event::GroupsUpdated,
            Event::LightStateChanged { room_id } => Event::LightStateChanged { room_id: room_id@ },
            Event::MotionDetected { room_id, sensor_ieee, illuminance } => Event::MotionDetected {
                room_id: room_id@,
                sensor_ieee: sensor_ieee@,
                illuminance: *illuminance,
            },
            Event::MotionCleared { room_id, sensor_ieee } => Event::MotionCleared {
                room_id: room_id@,
                sensor_ieee: sensor_ieee@,
            },
            Event::DeviceAvailabilityChanged { ieee, available } =>
                Event::DeviceAvailabilityChanged { ieee: ieee@, available: *available },
            Event::NightModeChanged { room_id, active } => Event::NightModeChanged {
                room_id: room_id@,
                active: *active,
            },
            Event::RemoteAction { remote_ieee, action } => Event::RemoteAction {
                remote_ieee: remote_ieee@,
                action: action@,
            },
            Event::ExternalLightChange { room_id, device_name } => Event::ExternalLightChange {
                room_id: room_id@,
                device_name: device_name@,
            },
            Event::ConfigReloaded => Event::ConfigReloaded,
            Event::MqttConnected => Event::MqttConnected,
            Event::MqttDisconnected => Event::MqttDisconnected,
        }
    }
}

} // verus!
