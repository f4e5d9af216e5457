//! What the daemon knows: devices, groups, and what every room's lights are doing.

use vstd::prelude::*;

use crate::event::{Event, Illuminance};
use crate::names::NameMap;
use crate::time::{Duration, Instant};

verus! {

/// A Zigbee2MQTT device and what its lamp can do.
#[derive(Clone, Debug)]
pub struct Z2mDeviceInfo {
    pub ieee_address: String,
    pub friendly_name: String,
    pub supported: bool,
    pub supports_brightness: bool,
    pub supports_color_temp: bool,
    pub color_temp_min: Option<u16>,
    pub color_temp_max: Option<u16>,
    pub supports_color_xy: bool,
    pub supports_color_hs: bool,
}

/// Light type derived from device capabilities.
#[derive(Clone, Copy, Debug, PartialEq, Eq, Structural)]
pub enum LightType {
    /// Has color_temp AND (color_xy OR color_hs): RGBW bulbs.
    Rgbw,
    /// Has color_temp only: dedicated CT lights.
    CtOnly,
    /// Has brightness only.
    BrightnessOnly,
    /// None of the above (on/off only or unsupported).
    OnOff,
}

impl Z2mDeviceInfo {
    pub open spec fn spec_light_type(self) -> LightType {
        if self.supports_color_temp {
            if self.supports_color_xy || self.supports_color_hs {
                LightType::Rgbw
            } else {
                LightType::CtOnly
            }
        } else if self.supports_brightness {
            LightType::BrightnessOnly
        } else {
            LightType::OnOff
        }
    }

    pub fn light_type(&self) -> (r: LightType)
        ensures
            r == self.spec_light_type(),
    {
        if self.supports_color_temp && (self.supports_color_xy || self.supports_color_hs) {
            LightType::Rgbw
        } else if self.supports_color_temp {
            LightType::CtOnly
        } else if self.supports_brightness {
            LightType::BrightnessOnly
        } else {
            LightType::OnOff
        }
    }
}

#[derive(Clone, Debug)]
pub struct Z2mScene {
    pub id: u16,
    pub name: String,
}

#[derive(Clone, Debug)]
pub struct Z2mGroupInfo {
    pub id: u16,
    pub friendly_name: String,
    pub members: Vec<Z2mGroupMember>,
    pub scenes: Vec<Z2mScene>,
}

#[derive(Clone, Debug)]
pub struct Z2mGroupMember {
    pub ieee_address: String,
    pub endpoint: u8,
}

/// Who last decided what a room's lights show.
#[derive(Clone, Copy, Debug, PartialEq, Eq, Structural)]
pub enum UpdateSource {
    Circadian,
    Manual,
    Automation,
}

#[derive(Clone, Copy, Debug)]
pub struct RoomState {
    pub lights_on: bool,
    pub current_brightness: Option<u8>,
    pub current_color_temp_mired: Option<u16>,
    pub occupancy: bool,
    pub last_motion: Option<Instant>,
    pub night_mode_active: bool,
    /// When night mode was activated (for fallback wake-time deactivation).
    pub night_mode_since: Option<Instant>,
    pub update_source: UpdateSource,
    pub circadian_paused: bool,
    /// When set, circadian auto-resumes after this instant.
    pub circadian_paused_until: Option<Instant>,
    /// When set, manual override expires and circadian resumes after this instant.
    pub manual_override_until: Option<Instant>,
    /// When the daemon last pushed light state to this room (circadian or API command).
    /// Used to tell the daemon's own echoes from external changes.
    pub last_jeha_push: Option<Instant>,
    /// Last values intentionally published (for external change comparison).
    /// Echo-backs of the broker leave these alone; only the daemon's own publishes set them.
    pub intended_brightness: Option<u8>,
    pub intended_color_temp_mired: Option<u16>,
    pub last_illuminance: Option<Illuminance>,
}

impl RoomState {
    /// A room nothing is known of yet.
    pub open spec fn initial() -> RoomState {
        RoomState {
            lights_on: false,
            current_brightness: None,
            current_color_temp_mired: None,
            occupancy: false,
            last_motion: None,
            night_mode_active: false,
            night_mode_since: None,
            update_source: UpdateSource::Circadian,
            circadian_paused: false,
            circadian_paused_until: None,
            manual_override_until: None,
            last_jeha_push: None,
            intended_brightness: None,
            intended_color_temp_mired: None,
            last_illuminance: None,
        }
    }

    /// Circadian updates are held back at `now`.
    pub open spec fn circadian_paused_at(self, now: Instant) -> bool {
        self.circadian_paused && match self.circadian_paused_until {
            Some(until) => now.nanos < until.nanos,
            None => true,
        }
    }

    /// A manual override is in force at `now`.
    pub open spec fn manual_override_at(self, now: Instant) -> bool {
        self.update_source == UpdateSource::Manual && match self.manual_override_until {
            Some(until) => now.nanos < until.nanos,
            None => true,
        }
    }

    /// Returns true if circadian is effectively paused at `now`.
    pub fn is_circadian_paused(&self, now: Instant) -> (r: bool)
        ensures
            r == self.circadian_paused_at(now),
    {
        if !self.circadian_paused {
            return false;
        }
        match self.circadian_paused_until {
            Some(until) => now.nanos < until.nanos,
            None => true,
        }
    }

    /// Returns true if a manual override is still active at `now` (its TTL has not expired).
    /// An override without a TTL is in force until something else takes over.
    pub fn is_manual_override_active(&self, now: Instant) -> (r: bool)
        ensures
            r == self.manual_override_at(now),
    {
        if self.update_source != UpdateSource::Manual {
            return false;
        }
        match self.manual_override_until {
            Some(until) => now.nanos < until.nanos,
            None => true,
        }
    }

    /// The room after `update` at `now`.
    pub open spec fn updated(self, update: RoomStateUpdate, now: Instant) -> RoomState {
        match update {
            RoomStateUpdate::LightsOn { brightness, color_temp_mired, source } => RoomState {
                lights_on: true,
                current_brightness: or_else(brightness, self.current_brightness),
                current_color_temp_mired: or_else(color_temp_mired, self.current_color_temp_mired),
                update_source: source,
                ..self
            },
            RoomStateUpdate::LightsOff => RoomState {
                lights_on: false,
                circadian_paused: false,
                circadian_paused_until: None,
                ..self
            },
            RoomStateUpdate::LightsOffByRequest => RoomState { lights_on: false, ..self },
            RoomStateUpdate::Occupancy(occupied) => RoomState {
                occupancy: occupied,
                last_motion: if occupied {
                    Some(now)
                } else {
                    self.last_motion
                },
                ..self
            },
            RoomStateUpdate::NightMode(active) => RoomState {
                night_mode_active: active,
                night_mode_since: if active {
                    or_else(self.night_mode_since, Some(now))
                } else {
                    None
                },
                ..self
            },
            RoomStateUpdate::CircadianPause { paused, until } => RoomState {
                circadian_paused: paused,
                circadian_paused_until: until,
                ..self
            },
            RoomStateUpdate::ManualOverrideTtl { until } => RoomState {
                manual_override_until: until,
                ..self
            },
            RoomStateUpdate::JehaPush { brightness, color_temp_mired } => RoomState {
                last_jeha_push: Some(now),
                intended_brightness: or_else(brightness, self.intended_brightness),
                intended_color_temp_mired: or_else(
                    color_temp_mired,
                    self.intended_color_temp_mired,
                ),
                ..self
            },
            RoomStateUpdate::LightsOnWithPush { brightness, color_temp_mired, source } => RoomState {
                lights_on: true,
                current_brightness: or_else(brightness, self.current_brightness),
                current_color_temp_mired: or_else(color_temp_mired, self.current_color_temp_mired),
                update_source: source,
                last_jeha_push: Some(now),
                intended_brightness: or_else(brightness, self.intended_brightness),
                intended_color_temp_mired: or_else(
                    color_temp_mired,
                    self.intended_color_temp_mired,
                ),
                ..self
            },
            RoomStateUpdate::ExternalChange { ttl_secs } => RoomState {
                update_source: UpdateSource::Manual,
                manual_override_until: Some(now.after(ttl_secs)),
                ..self
            },
            RoomStateUpdate::Illuminance(value) => RoomState {
                last_illuminance: Some(value),
                ..self
            },
            RoomStateUpdate::RestoreLights(snapshot) => RoomState {
                lights_on: snapshot.lights_on,
                current_brightness: snapshot.current_brightness,
                current_color_temp_mired: snapshot.current_color_temp_mired,
                update_source: if self.manual_override_until == snapshot.manual_override_until {
                    snapshot.update_source
                } else {
                    self.update_source
                },
                intended_brightness: snapshot.intended_brightness,
                intended_color_temp_mired: snapshot.intended_color_temp_mired,
                last_jeha_push: snapshot.last_jeha_push,
                circadian_paused: snapshot.circadian_paused,
                circadian_paused_until: snapshot.circadian_paused_until,
                ..self
            },
        }
    }

    /// Brings the room up to date with `update`, which is dealt with at `now`.
    pub fn apply(&mut self, update: &RoomStateUpdate, now: Instant)
        requires
            update.fits(now),
        ensures
            *final(self) == old(self).updated(*update, now),
    {
        match update {
            RoomStateUpdate::LightsOn { brightness, color_temp_mired, source } => {
                self.lights_on = true;
                if brightness.is_some() {
                    self.current_brightness = *brightness;
                }
                if color_temp_mired.is_some() {
                    self.current_color_temp_mired = *color_temp_mired;
                }
                self.update_source = *source;
            },
            RoomStateUpdate::LightsOffByRequest => {
                self.lights_on = false;
            },
            RoomStateUpdate::LightsOff => {
                // manual_override_until and update_source stay, so that the next lights-on (e.g.
                // from motion) can restore the manual brightness and color temperature until the
                // TTL expires.
                self.lights_on = false;
                self.circadian_paused = false;
                self.circadian_paused_until = None;
            },
            RoomStateUpdate::Occupancy(occupied) => {
                self.occupancy = *occupied;
                if *occupied {
                    self.last_motion = Some(now);
                }
            },
            RoomStateUpdate::NightMode(active) => {
                self.night_mode_active = *active;
                self.night_mode_since = if *active {
                    Some(self.night_mode_since.unwrap_or(now))
                } else {
                    None
                };
            },
            RoomStateUpdate::CircadianPause { paused, until } => {
                self.circadian_paused = *paused;
                self.circadian_paused_until = *until;
            },
            RoomStateUpdate::ManualOverrideTtl { until } => {
                self.manual_override_until = *until;
            },
            RoomStateUpdate::JehaPush { brightness, color_temp_mired } => {
                self.last_jeha_push = Some(now);
                if brightness.is_some() {
                    self.intended_brightness = *brightness;
                }
                if color_temp_mired.is_some() {
                    self.intended_color_temp_mired = *color_temp_mired;
                }
            },
            RoomStateUpdate::LightsOnWithPush { brightness, color_temp_mired, source } => {
                self.lights_on = true;
                if brightness.is_some() {
                    self.current_brightness = *brightness;
                    self.intended_brightness = *brightness;
                }
                if color_temp_mired.is_some() {
                    self.current_color_temp_mired = *color_temp_mired;
                    self.intended_color_temp_mired = *color_temp_mired;
                }
                self.update_source = *source;
                self.last_jeha_push = Some(now);
            },
            RoomStateUpdate::ExternalChange { ttl_secs } => {
                self.update_source = UpdateSource::Manual;
                self.manual_override_until = Some(now.plus_secs(*ttl_secs));
            },
            RoomStateUpdate::Illuminance(value) => {
                self.last_illuminance = Some(*value);
            },
            RoomStateUpdate::RestoreLights(snapshot) => {
                self.lights_on = snapshot.lights_on;
                self.current_brightness = snapshot.current_brightness;
                self.current_color_temp_mired = snapshot.current_color_temp_mired;
                // A changed manual_override_until means that a manual override landed while the
                // publish was failing; its update_source stays, so that its TTL is honored.
                if same_instant(self.manual_override_until, snapshot.manual_override_until) {
                    self.update_source = snapshot.update_source;
                }
                self.intended_brightness = snapshot.intended_brightness;
                self.intended_color_temp_mired = snapshot.intended_color_temp_mired;
                self.last_jeha_push = snapshot.last_jeha_push;
                self.circadian_paused = snapshot.circadian_paused;
                self.circadian_paused_until = snapshot.circadian_paused_until;
            },
        }
    }
}

impl Default for RoomState {
    fn default() -> (r: Self)
        ensures
            r == RoomState::initial(),
    {
        RoomState {
            lights_on: false,
            current_brightness: None,
            current_color_temp_mired: None,
            occupancy: false,
            last_motion: None,
            night_mode_active: false,
            night_mode_since: None,
            update_source: UpdateSource::Circadian,
            circadian_paused: false,
            circadian_paused_until: None,
            manual_override_until: None,
            last_jeha_push: None,
            intended_brightness: None,
            intended_color_temp_mired: None,
            last_illuminance: None,
        }
    }
}

/// `first` where it holds a value, `second` otherwise.
pub open spec fn or_else<T>(first: Option<T>, second: Option<T>) -> Option<T> {
    if first is Some {
        first
    } else {
        second
    }
}

/// Whether the two hold the same reading, or none at all.
fn same_instant(a: Option<Instant>, b: Option<Instant>) -> (r: bool)
    ensures
        r == (a == b),
{
    match (a, b) {
        (Some(x), Some(y)) => x.nanos == y.nanos,
        (None, None) => true,
        _ => false,
    }
}

/// A change of what is known of one room.
#[derive(Clone, Debug)]
pub enum RoomStateUpdate {
    LightsOn { brightness: Option<u8>, color_temp_mired: Option<u16>, source: UpdateSource },
    /// The lights went off; that ends a pause.
    LightsOff,
    /// An agent asked for the lights to go off; a pause stays for when they come back on.
    LightsOffByRequest,
    Occupancy(bool),
    NightMode(bool),
    CircadianPause { paused: bool, until: Option<Instant> },
    ManualOverrideTtl { until: Option<Instant> },
    JehaPush { brightness: Option<u8>, color_temp_mired: Option<u16> },
    /// LightsOn and JehaPush in a single change, so that no echo of the broker can arrive between
    /// the two.
    LightsOnWithPush { brightness: Option<u8>, color_temp_mired: Option<u16>, source: UpdateSource },
    ExternalChange { ttl_secs: u64 },
    Illuminance(Illuminance),
    /// Roll back the light-related fields of a room to an earlier snapshot after a failed publish.
    /// Only what the updates of lights going on or off touch is restored, so that sensor updates
    /// (occupancy, motion, illuminance, night mode) that landed meanwhile stay.
    RestoreLights(Box<RoomState>),
}

impl RoomStateUpdate {
    /// The times that the update reckons with can be represented.
    pub open spec fn fits(self, now: Instant) -> bool {
        self matches RoomStateUpdate::ExternalChange { ttl_secs } ==> now.can_advance(ttl_secs)
    }

    /// Whether the times that the update reckons with can be represented.
    pub fn check_fits(&self, now: Instant) -> (r: bool)
        ensures
            r == self.fits(now),
    {
        match self {
            RoomStateUpdate::ExternalChange { ttl_secs } => now.can_advance_secs(*ttl_secs),
            _ => true,
        }
    }
}

/// Everything the daemon knows at one moment.
#[derive(Clone, Debug)]
pub struct SystemState {
    /// IEEE address -> device.
    pub device_map: NameMap<Z2mDeviceInfo>,
    /// Group friendly name -> group.
    pub group_map: NameMap<Z2mGroupInfo>,
    /// Reverse index: friendly name -> IEEE address. Rebuilt with device_map.
    pub friendly_to_ieee: NameMap<String>,
    /// Availability overlay (IEEE -> available). Devices absent here are assumed available.
    pub availability: NameMap<bool>,
    pub rooms: NameMap<RoomState>,
    pub mqtt_connected: bool,
    pub z2m_online: bool,
    pub started_at: Option<Instant>,
}

impl SystemState {
    /// Nothing is known yet.
    pub open spec fn is_initial(self) -> bool {
        &&& self.device_map@ == Map::<Seq<char>, Z2mDeviceInfo>::empty()
        &&& self.group_map@ == Map::<Seq<char>, Z2mGroupInfo>::empty()
        &&& self.friendly_to_ieee@ == Map::<Seq<char>, String>::empty()
        &&& self.availability@ == Map::<Seq<char>, bool>::empty()
        &&& self.rooms@ == Map::<Seq<char>, RoomState>::empty()
        &&& !self.mqtt_connected
        &&& !self.z2m_online
        &&& self.started_at is None
    }

    /// A device that nothing was reported of is available.
    pub open spec fn device_available(self, ieee: Seq<char>) -> bool {
        self.availability@.contains_key(ieee) ==> self.availability@[ieee]
    }

    /// What is known of a room, or the state of a room nothing is known of.
    pub open spec fn room(self, room_id: Seq<char>) -> RoomState {
        if self.rooms@.contains_key(room_id) {
            self.rooms@[room_id]
        } else {
            RoomState::initial()
        }
    }

    /// Whether a device is available per the availability topics.
    /// Unknown devices default to available (availability reporting may be switched off).
    pub fn is_device_available(&self, ieee: &str) -> (r: bool)
        ensures
            r == self.device_available(ieee@),
    {
        match self.availability.get(ieee) {
            Some(available) => *available,
            None => true,
        }
    }

    /// What is known of a room, or the state of a room nothing is known of.
    pub fn room_or_default(&self, room_id: &str) -> (r: RoomState)
        ensures
            r == self.room(room_id@),
    {
        match self.rooms.get(room_id) {
            Some(room) => *room,
            None => RoomState::default(),
        }
    }
}

impl Default for SystemState {
    fn default() -> (r: Self)
        ensures
            r.is_initial(),
    {
        SystemState {
            device_map: NameMap::new(),
            group_map: NameMap::new(),
            friendly_to_ieee: NameMap::new(),
            availability: NameMap::new(),
            rooms: NameMap::new(),
            mqtt_connected: false,
            z2m_online: false,
            started_at: None,
        }
    }
}

/// A change of what the daemon knows.
#[derive(Clone, Debug)]
pub enum StateCommand {
    UpdateDevices(NameMap<Z2mDeviceInfo>),
    UpdateGroups(NameMap<Z2mGroupInfo>),
    UpdateRoomState { room_id: String, update: RoomStateUpdate },
    /// Availability report of a `<friendly_name>/availability` topic. Reports for friendly names
    /// that are not known yet are buffered and applied with the next UpdateDevices.
    SetDeviceAvailability { friendly_name: String, available: bool },
    SetMqttConnected(bool),
    SetZ2mOnline(bool),
}

impl StateCommand {
    /// The times that the command reckons with can be represented.
    pub open spec fn fits(self, now: Instant) -> bool {
        self matches StateCommand::UpdateRoomState { room_id, update } ==> update.fits(now)
    }
}

/// The reverse index of a device list: friendly name -> IEEE address. Where two devices share a
/// friendly name, the later one has it.
pub open spec fn friendly_index(devices: Seq<(String, Z2mDeviceInfo)>) -> Map<Seq<char>, String>
    decreases devices.len(),
{
    if devices.len() == 0 {
        Map::empty()
    } else {
        friendly_index(devices.drop_last()).insert(
            devices.last().1.friendly_name@,
            devices.last().1.ieee_address,
        )
    }
}

/// The availability overlay once the buffered reports whose friendly name resolves are applied.
pub open spec fn with_pending(
    base: Map<Seq<char>, bool>,
    pending: Seq<(String, bool)>,
    index: Map<Seq<char>, String>,
) -> Map<Seq<char>, bool>
    decreases pending.len(),
{
    if pending.len() == 0 {
        base
    } else {
        let rest = with_pending(base, pending.drop_last(), index);
        let name = pending.last().0@;
        if index.contains_key(name) {
            rest.insert(index[name]@, pending.last().1)
        } else {
            rest
        }
    }
}

/// The announcements of the buffered reports whose friendly name resolves, in order.
pub open spec fn pending_events(
    pending: Seq<(String, bool)>,
    index: Map<Seq<char>, String>,
) -> Seq<Event>
    decreases pending.len(),
{
    if pending.len() == 0 {
        Seq::empty()
    } else {
        let rest = pending_events(pending.drop_last(), index);
        let name = pending.last().0@;
        if index.contains_key(name) {
            rest.push(
                Event::DeviceAvailabilityChanged {
                    ieee: index[name],
                    available: pending.last().1,
                },
            )
        } else {
            rest
        }
    }
}

/// Owns the state and applies commands to it one at a time.
#[derive(Debug)]
pub struct StateManager {
    pub state: SystemState,
    /// Availability reports whose friendly name did not resolve to a known device yet (retained
    /// reports can arrive before the device list). Applied with the next UpdateDevices.
    pub pending_availability: NameMap<bool>,
}

/// What one command makes of the state and of the buffered availability reports.
pub open spec fn command_outcome(
    before: StateManager,
    cmd: StateCommand,
    now: Instant,
    after: StateManager,
    events: Seq<Event>,
) -> bool {
    match cmd {
        StateCommand::UpdateDevices(devices) => {
            let index = friendly_index(devices.entries_seq());
            let pending = before.pending_availability;
            &&& after.state.device_map == devices
            &&& after.state.friendly_to_ieee@ == index
            &&& after.state.availability@ == with_pending(
                before.state.availability@.restrict(devices@.dom()),
                pending.entries_seq(),
                index,
            )
            &&& after.pending_availability@ == pending@.remove_keys(index.dom())
            &&& events == pending_events(pending.entries_seq(), index)
            &&& after.state.group_map == before.state.group_map
            &&& after.state.rooms == before.state.rooms
            &&& after.state.mqtt_connected == before.state.mqtt_connected
            &&& after.state.z2m_online == before.state.z2m_online
            &&& after.state.started_at == before.state.started_at
        },
        StateCommand::UpdateGroups(groups) => {
            &&& after.state == (SystemState { group_map: groups, ..before.state })
            &&& after.pending_availability == before.pending_availability
            &&& events == Seq::<Event>::empty()
        },
        StateCommand::UpdateRoomState { room_id, update } => {
            let room = before.state.room(room_id@).updated(update, now);
            &&& after.state.rooms@ == before.state.rooms@.insert(room_id@, room)
            &&& after.state == (SystemState { rooms: after.state.rooms, ..before.state })
            &&& after.pending_availability == before.pending_availability
            &&& events == Seq::<Event>::empty()
        },
        StateCommand::SetDeviceAvailability { friendly_name, available } => {
            let index = before.state.friendly_to_ieee@;
            if index.contains_key(friendly_name@) {
                let ieee = index[friendly_name@];
                &&& after.state.availability@ == before.state.availability@.insert(ieee@, available)
                &&& after.state == (SystemState {
                    availability: after.state.availability,
                    ..before.state
                })
                &&& after.pending_availability == before.pending_availability
                &&& events == seq![Event::DeviceAvailabilityChanged { ieee, available }]
            } else {
                &&& after.state == before.state
                &&& after.pending_availability@ == before.pending_availability@.insert(
                    friendly_name@,
                    available,
                )
                &&& events == Seq::<Event>::empty()
            }
        },
        StateCommand::SetMqttConnected(connected) => {
            &&& after.state == (SystemState { mqtt_connected: connected, ..before.state })
            &&& after.pending_availability == before.pending_availability
            &&& events == Seq::<Event>::empty()
        },
        StateCommand::SetZ2mOnline(online) => {
            &&& after.state == (SystemState { z2m_online: online, ..before.state })
            &&& after.pending_availability == before.pending_availability
            &&& events == Seq::<Event>::empty()
        },
    }
}

/// Builds the reverse index of a device list.
fn build_friendly_index(devices: &NameMap<Z2mDeviceInfo>) -> (r: NameMap<String>)
    ensures
        r@ == friendly_index(devices.entries_seq()),
{
    let mut index: NameMap<String> = NameMap::new();
    let mut i: usize = 0;
    let n: usize = devices.len();
    let ghost entries = devices.entries_seq();
    while i < n
        invariant
            i <= n == entries.len(),
            entries == devices.entries_seq(),
            index@ == friendly_index(entries.take(i as int)),
        decreases n - i,
    {
        let device = devices.value_at(i);
        index.insert(device.friendly_name.clone(), device.ieee_address.clone());
        proof {
            assert(entries.take(i + 1).drop_last() =~= entries.take(i as int));
        }
        i = i + 1;
    }
    assert(entries.take(n as int) =~= entries);
    index
}

/// The part of an availability overlay that speaks of listed devices.
fn prune_availability(availability: &NameMap<bool>, devices: &NameMap<Z2mDeviceInfo>) -> (r: NameMap<
    bool,
>)
    ensures
        r@ == availability@.restrict(devices@.dom()),
{
    let mut kept: NameMap<bool> = NameMap::new();
    let mut i: usize = 0;
    let n: usize = availability.len();
    let ghost entries = availability.entries_seq();
    while i < n
        invariant
            i <= n == entries.len(),
            entries == availability.entries_seq(),
            forall|k: Seq<char>| #[trigger]
                kept@.contains_key(k) ==> availability@.contains_key(k) && devices@.contains_key(k)
                    && kept@[k] == availability@[k],
            forall|j: int|
                0 <= j < i && devices@.contains_key((#[trigger] entries[j]).0@)
                    ==> kept@.contains_key(entries[j].0@),
        decreases n - i,
    {
        let ieee = availability.key_at(i);
        if devices.contains_key(ieee.as_str()) {
            kept.insert(ieee.clone(), *availability.value_at(i));
        }
        i = i + 1;
    }
    assert(kept@ =~= availability@.restrict(devices@.dom())) by {
        assert forall|k: Seq<char>|
            availability@.contains_key(k) && devices@.contains_key(k) implies #[trigger]
            kept@.contains_key(k) by {
            let j = crate::names::key_position(entries, k);
            assert(entries[j].0@ == k);
        }
    }
    kept
}

impl StateManager {
    /// A manager of `state` with nothing buffered.
    pub fn new(state: SystemState) -> (r: Self)
        ensures
            r.state == state,
            r.pending_availability@ == Map::<Seq<char>, bool>::empty(),
    {
        StateManager { state, pending_availability: NameMap::new() }
    }

    /// Applies a new device list: rebuilds the reverse index, drops the availability of devices
    /// that are gone, and applies the buffered reports that now resolve. The events announce those
    /// reports; they are to be published once the state is visible to readers.
    fn update_devices(&mut self, devices: NameMap<Z2mDeviceInfo>) -> (events: Vec<Event>)
        ensures
            command_outcome(
                *old(self),
                StateCommand::UpdateDevices(devices),
                Instant { nanos: 0 },
                *final(self),
                events@,
            ),
    {
        let index = build_friendly_index(&devices);
        let mut availability = prune_availability(&self.state.availability, &devices);
        let mut still_pending: NameMap<bool> = NameMap::new();
        let mut events: Vec<Event> = Vec::new();
        let ghost base = availability@;
        let ghost pending = self.pending_availability;
        let ghost entries = pending.entries_seq();
        let n: usize = self.pending_availability.len();
        let mut i: usize = 0;
        while i < n
            invariant
                i <= n == entries.len(),
                self.pending_availability == pending,
                entries == pending.entries_seq(),
                self.state == old(self).state,
                availability@ == with_pending(base, entries.take(i as int), index@),
                events@ == pending_events(entries.take(i as int), index@),
                forall|k: Seq<char>| #[trigger]
                    still_pending@.contains_key(k) ==> pending@.contains_key(k)
                        && !index@.contains_key(k) && still_pending@[k] == pending@[k],
                forall|j: int|
                    0 <= j < i && !index@.contains_key((#[trigger] entries[j]).0@)
                        ==> still_pending@.contains_key(entries[j].0@),
            decreases n - i,
        {
            let friendly_name = self.pending_availability.key_at(i);
            let available: bool = *self.pending_availability.value_at(i);
            proof {
                assert(entries.take(i + 1).drop_last() =~= entries.take(i as int));
            }
            match index.get(friendly_name.as_str()) {
                Some(ieee) => {
                    availability.insert(ieee.clone(), available);
                    events.push(
                        Event::DeviceAvailabilityChanged { ieee: ieee.clone(), available },
                    );
                },
                None => {
                    still_pending.insert(friendly_name.clone(), available);
                },
            }
            i = i + 1;
        }
        proof {
            assert(entries.take(n as int) =~= entries);
            assert(still_pending@ =~= pending@.remove_keys(index@.dom())) by {
                assert forall|k: Seq<char>|
                    pending@.contains_key(k) && !index@.contains_key(k) implies #[trigger]
                    still_pending@.contains_key(k) by {
                    let j = crate::names::key_position(entries, k);
                    assert(entries[j].0@ == k);
                }
            }
        }
        self.pending_availability = still_pending;
        self.state.friendly_to_ieee = index;
        self.state.availability = availability;
        self.state.device_map = devices;
        events
    }

    /// Applies one command at `now`. The events are to be published after the new state is visible
    /// to readers, so that no handler sees stale availability.
    pub fn handle(&mut self, cmd: StateCommand, now: Instant) -> (events: Vec<Event>)
        requires
            cmd.fits(now),
        ensures
            command_outcome(*old(self), cmd, now, *final(self), events@),
    {
        let mut events: Vec<Event> = Vec::new();
        match cmd {
            StateCommand::UpdateDevices(devices) => {
                events = self.update_devices(devices);
            },
            StateCommand::UpdateGroups(groups) => {
                self.state.group_map = groups;
            },
            StateCommand::SetDeviceAvailability { friendly_name, available } => {
                let resolved: Option<String> = match self.state.friendly_to_ieee.get(
                    friendly_name.as_str(),
                ) {
                    Some(ieee) => Some(ieee.clone()),
                    None => None,
                };
                match resolved {
                    Some(ieee) => {
                        self.state.availability.insert(ieee.clone(), available);
                        events.push(Event::DeviceAvailabilityChanged { ieee, available });
                    },
                    None => {
                        self.pending_availability.insert(friendly_name, available);
                    },
                }
            },
            StateCommand::UpdateRoomState { room_id, update } => {
                let mut room: RoomState = self.state.room_or_default(room_id.as_str());
                room.apply(&update, now);
                self.state.rooms.insert(room_id, room);
            },
            StateCommand::SetMqttConnected(connected) => {
                self.state.mqtt_connected = connected;
            },
            StateCommand::SetZ2mOnline(online) => {
                self.state.z2m_online = online;
            },
        }
        events
    }
}

/// Rolling back undoes an optimistic lights-on, lights-off or lights-on with push entirely.
pub proof fn law_rollback_undoes(room: RoomState, update: RoomStateUpdate, at: Instant, later: Instant)
    requires
        update is LightsOn || update is LightsOff || update is LightsOffByRequest || update is
            LightsOnWithPush,
    ensures
        room.updated(update, at).updated(RoomStateUpdate::RestoreLights(Box::new(room)), later)
            == room,
{
}

/// Rolling back leaves alone what sensors, night mode and manual overrides wrote down meanwhile.
pub proof fn law_rollback_keeps_other_updates(room: RoomState, snapshot: RoomState, now: Instant)
    ensures
        ({
            let after = room.updated(RoomStateUpdate::RestoreLights(Box::new(snapshot)), now);
            &&& after.occupancy == room.occupancy
            &&& after.last_motion == room.last_motion
            &&& after.night_mode_active == room.night_mode_active
            &&& after.night_mode_since == room.night_mode_since
            &&& after.last_illuminance == room.last_illuminance
            &&& after.manual_override_until == room.manual_override_until
        }),
{
}

/// A manual override that landed while a publish was failing survives the rollback.
pub proof fn law_rollback_keeps_concurrent_override(
    room: RoomState,
    snapshot: RoomState,
    now: Instant,
    t: Instant,
)
    requires
        room.manual_override_until != snapshot.manual_override_until,
    ensures
        room.updated(
            RoomStateUpdate::RestoreLights(Box::new(snapshot)),
            now,
        ).manual_override_at(t) == room.manual_override_at(t),
{
}

/// A change that somebody else made holds the room for exactly the override's time.
pub proof fn law_external_change_holds_for_its_time(
    room: RoomState,
    ttl_secs: u64,
    now: Instant,
    t: Instant,
)
    requires
        now.can_advance(ttl_secs),
    ensures
        room.updated(RoomStateUpdate::ExternalChange { ttl_secs }, now).manual_override_at(t)
            <==> t.nanos < now.nanos + Duration::secs_nanos(ttl_secs),
{
}

/// Lights that go off end every pause, and keep a manual override for the next time they go on.
pub proof fn law_lights_off_ends_pauses(room: RoomState, now: Instant, t: Instant)
    ensures
        !room.updated(RoomStateUpdate::LightsOff, now).circadian_paused_at(t),
        room.updated(RoomStateUpdate::LightsOff, now).manual_override_at(t)
            == room.manual_override_at(t),
{
}

/// Night mode remembers when it was switched on, however often it is switched on again.
pub proof fn law_night_mode_keeps_its_start(room: RoomState, first: Instant, second: Instant)
    ensures
        ({
            let once = room.updated(RoomStateUpdate::NightMode(true), first);
            once.night_mode_since is Some && once.updated(
                RoomStateUpdate::NightMode(true),
                second,
            ).night_mode_since == once.night_mode_since
        }),
{
}

/// A change of one room leaves every other room as it was.
pub proof fn law_rooms_are_independent(
    before: StateManager,
    room_id: String,
    update: RoomStateUpdate,
    now: Instant,
    after: StateManager,
    events: Seq<Event>,
    other: Seq<char>,
)
    requires
        command_outcome(
            before,
            StateCommand::UpdateRoomState { room_id, update },
            now,
            after,
            events,
        ),
        other != room_id@,
    ensures
        after.state.room(other) == before.state.room(other),
        after.state.rooms@.contains_key(other) == before.state.rooms@.contains_key(other),
        after.state.device_map == before.state.device_map,
        after.state.availability == before.state.availability,
{
}

/// A buffered report and the reports before it do not speak of the same device.
pub open spec fn speaks_alone(
    pending: Seq<(String, bool)>,
    index: Map<Seq<char>, String>,
    name: Seq<char>,
) -> bool {
    forall|i: int|
        0 <= i < pending.len() && (#[trigger] pending[i]).0@ != name && index.contains_key(
            pending[i].0@,
        ) ==> index[pending[i].0@]@ != index[name]@
}

proof fn lemma_pending_applied(
    base: Map<Seq<char>, bool>,
    pending: Seq<(String, bool)>,
    index: Map<Seq<char>, String>,
    at: int,
)
    requires
        crate::names::distinct_keys(pending),
        0 <= at < pending.len(),
        index.contains_key(pending[at].0@),
        speaks_alone(pending, index, pending[at].0@),
    ensures
        with_pending(base, pending, index).contains_key(index[pending[at].0@]@),
        with_pending(base, pending, index)[index[pending[at].0@]@] == pending[at].1,
    decreases pending.len(),
{
    if at < pending.len() - 1 {
        let front = pending.drop_last();
        assert(front[at] == pending[at]);
        assert(pending[at].0@ != pending[pending.len() - 1].0@);
        assert forall|i: int| 0 <= i < front.len() && (#[trigger] front[i]).0@ != pending[at].0@
            && index.contains_key(front[i].0@) implies index[front[i].0@]@
            != index[pending[at].0@]@ by {
            assert(front[i] == pending[i]);
        }
        assert forall|i: int, j: int|
            #![trigger front[i], front[j]]
            0 <= i < j < front.len() implies front[i].0@ != front[j].0@ by {
            assert(front[i] == pending[i] && front[j] == pending[j]);
            assert(pending[i].0@ != pending[j].0@);
        }
        lemma_pending_applied(base, front, index, at);
    }
}

/// A report that came before its device was listed counts from the moment the device is listed.
pub proof fn law_buffered_reports_are_applied(
    before: StateManager,
    devices: NameMap<Z2mDeviceInfo>,
    now: Instant,
    after: StateManager,
    events: Seq<Event>,
    name: Seq<char>,
)
    requires
        command_outcome(before, StateCommand::UpdateDevices(devices), now, after, events),
        before.pending_availability.wf(),
        before.pending_availability@.contains_key(name),
        friendly_index(devices.entries_seq()).contains_key(name),
        speaks_alone(
            before.pending_availability.entries_seq(),
            friendly_index(devices.entries_seq()),
            name,
        ),
    ensures
        after.state.device_available(friendly_index(devices.entries_seq())[name]@)
            == before.pending_availability@[name],
        !after.pending_availability@.contains_key(name),
{
    let pending = before.pending_availability.entries_seq();
    let at = crate::names::key_position(pending, name);
    before.pending_availability.lemma_entry(at);
    lemma_pending_applied(
        before.state.availability@.restrict(devices@.dom()),
        pending,
        friendly_index(devices.entries_seq()),
        at,
    );
}

proof fn lemma_pending_elsewhere(
    base: Map<Seq<char>, bool>,
    pending: Seq<(String, bool)>,
    index: Map<Seq<char>, String>,
    ieee: Seq<char>,
)
    requires
        forall|i: int|
            0 <= i < pending.len() && index.contains_key((#[trigger] pending[i]).0@)
                ==> index[pending[i].0@]@ != ieee,
    ensures
        with_pending(base, pending, index).contains_key(ieee) == base.contains_key(ieee),
        base.contains_key(ieee) ==> with_pending(base, pending, index)[ieee] == base[ieee],
    decreases pending.len(),
{
    if pending.len() > 0 {
        let front = pending.drop_last();
        assert forall|i: int| 0 <= i < front.len() && index.contains_key(
            (#[trigger] front[i]).0@,
        ) implies index[front[i].0@]@ != ieee by {
            assert(front[i] == pending[i]);
        }
        lemma_pending_elsewhere(base, front, index, ieee);
        assert(index.contains_key(pending[pending.len() - 1].0@) ==> index[pending[pending.len()
            - 1].0@]@ != ieee);
    }
}

/// What was reported of a device is forgotten once it is no longer listed: it counts as available
/// again, unless a buffered report speaks of it.
pub proof fn law_removed_devices_are_forgotten(
    before: StateManager,
    devices: NameMap<Z2mDeviceInfo>,
    now: Instant,
    after: StateManager,
    events: Seq<Event>,
    ieee: Seq<char>,
)
    requires
        command_outcome(before, StateCommand::UpdateDevices(devices), now, after, events),
        !devices@.contains_key(ieee),
        forall|i: int|
            0 <= i < before.pending_availability.entries_seq().len() && friendly_index(
                devices.entries_seq(),
            ).contains_key((#[trigger] before.pending_availability.entries_seq()[i]).0@)
                ==> friendly_index(
                devices.entries_seq(),
            )[before.pending_availability.entries_seq()[i].0@]@ != ieee,
    ensures
        after.state.device_available(ieee),
{
    lemma_pending_elsewhere(
        before.state.availability@.restrict(devices@.dom()),
        before.pending_availability.entries_seq(),
        friendly_index(devices.entries_seq()),
        ieee,
    );
}

/// What a room's lights going on changes: they are on, whoever decided it has the room, and a value
/// that comes with it replaces the known one. Nothing else changes.
pub proof fn law_lights_on_is_written_down(
    room: RoomState,
    brightness: Option<u8>,
    color_temp_mired: Option<u16>,
    source: UpdateSource,
    now: Instant,
)
    ensures
        ({
            let on = room.updated(
                RoomStateUpdate::LightsOn { brightness, color_temp_mired, source },
                now,
            );
            &&& on.lights_on
            &&& on.update_source == source
            &&& brightness is Some ==> on.current_brightness == brightness
            &&& brightness is None ==> on.current_brightness == room.current_brightness
            &&& color_temp_mired is Some ==> on.current_color_temp_mired == color_temp_mired
            &&& color_temp_mired is None ==> on.current_color_temp_mired
                == room.current_color_temp_mired
            &&& on.intended_brightness == room.intended_brightness
            &&& on.intended_color_temp_mired == room.intended_color_temp_mired
            &&& on.last_jeha_push == room.last_jeha_push
            &&& on.circadian_paused == room.circadian_paused
            &&& on.circadian_paused_until == room.circadian_paused_until
            &&& on.manual_override_until == room.manual_override_until
            &&& on.night_mode_active == room.night_mode_active
            &&& on.occupancy == room.occupancy
        }),
{
}

/// What a push of the daemon changes: when it was, and the values that were meant, as far as it has
/// any. Lights on with a push is lights on, then a push.
pub proof fn law_pushes_are_written_down(
    room: RoomState,
    brightness: Option<u8>,
    color_temp_mired: Option<u16>,
    source: UpdateSource,
    now: Instant,
)
    ensures
        ({
            let push = RoomStateUpdate::JehaPush { brightness, color_temp_mired };
            let pushed = room.updated(push, now);
            &&& pushed.last_jeha_push == Some(now)
            &&& brightness is Some ==> pushed.intended_brightness == brightness
            &&& brightness is None ==> pushed.intended_brightness == room.intended_brightness
            &&& color_temp_mired is Some ==> pushed.intended_color_temp_mired == color_temp_mired
            &&& color_temp_mired is None ==> pushed.intended_color_temp_mired
                == room.intended_color_temp_mired
            &&& pushed.lights_on == room.lights_on
            &&& pushed.current_brightness == room.current_brightness
            &&& pushed.current_color_temp_mired == room.current_color_temp_mired
            &&& pushed.update_source == room.update_source
            &&& room.updated(
                RoomStateUpdate::LightsOnWithPush { brightness, color_temp_mired, source },
                now,
            ) == room.updated(
                RoomStateUpdate::LightsOn { brightness, color_temp_mired, source },
                now,
            ).updated(push, now)
        }),
{
}

/// What lights going off changes: they are off, and a pause is over. What is known and meant of
/// their values stays.
pub proof fn law_lights_off_is_written_down(room: RoomState, now: Instant)
    ensures
        ({
            let off = room.updated(RoomStateUpdate::LightsOff, now);
            &&& !off.lights_on
            &&& !off.circadian_paused
            &&& off.circadian_paused_until is None
            &&& off.update_source == room.update_source
            &&& off.manual_override_until == room.manual_override_until
            &&& off.current_brightness == room.current_brightness
            &&& off.current_color_temp_mired == room.current_color_temp_mired
            &&& off.intended_brightness == room.intended_brightness
            &&& off.night_mode_active == room.night_mode_active
            &&& off.occupancy == room.occupancy
        }),
{
}

/// What sensors and switches change: occupancy, and the time of motion where there is any; night
/// mode, and since when; pauses and overrides, and until when; the light reading.
pub proof fn law_other_updates_are_written_down(
    room: RoomState,
    flag: bool,
    until: Option<Instant>,
    reading: Illuminance,
    now: Instant,
)
    ensures
        ({
            let seen = room.updated(RoomStateUpdate::Occupancy(flag), now);
            let night = room.updated(RoomStateUpdate::NightMode(flag), now);
            let pause = room.updated(RoomStateUpdate::CircadianPause { paused: flag, until }, now);
            let limit = room.updated(RoomStateUpdate::ManualOverrideTtl { until }, now);
            let light = room.updated(RoomStateUpdate::Illuminance(reading), now);
            &&& seen.occupancy == flag
            &&& flag ==> seen.last_motion == Some(now)
            &&& !flag ==> seen.last_motion == room.last_motion
            &&& seen.lights_on == room.lights_on
            &&& night.night_mode_active == flag
            &&& !flag ==> night.night_mode_since is None
            &&& flag && room.night_mode_since is None ==> night.night_mode_since == Some(now)
            &&& flag && room.night_mode_since is Some ==> night.night_mode_since
                == room.night_mode_since
            &&& night.lights_on == room.lights_on && night.circadian_paused
                == room.circadian_paused
            &&& pause.circadian_paused == flag && pause.circadian_paused_until == until
            &&& pause.update_source == room.update_source && pause.manual_override_until
                == room.manual_override_until
            &&& limit.manual_override_until == until && limit.update_source == room.update_source
            &&& light.last_illuminance == Some(reading) && light.occupancy == room.occupancy
        }),
{
}

/// A pause holds until its end, or until it is lifted where it has none, and so does an override of
/// a room that was set by hand.
pub proof fn law_pauses_and_overrides_run_out(room: RoomState, t: Instant)
    ensures
        room.circadian_paused && room.circadian_paused_until is None ==> room.circadian_paused_at(t),
        room.circadian_paused && room.circadian_paused_until is Some ==> (room.circadian_paused_at(
            t,
        ) <==> t.nanos < room.circadian_paused_until->0.nanos),
        !room.circadian_paused ==> !room.circadian_paused_at(t),
        room.update_source == UpdateSource::Manual && room.manual_override_until is None
            ==> room.manual_override_at(t),
        room.update_source == UpdateSource::Manual && room.manual_override_until is Some ==> (
        room.manual_override_at(t) <==> t.nanos < room.manual_override_until->0.nanos),
        room.update_source != UpdateSource::Manual ==> !room.manual_override_at(t),
{
}

/// An availability report of a known device is written down for the device and announced; one of an
/// unknown device is kept for later.
pub proof fn law_availability_is_written_down(
    before: StateManager,
    friendly_name: String,
    available: bool,
    now: Instant,
    after: StateManager,
    events: Seq<Event>,
)
    requires
        command_outcome(
            before,
            StateCommand::SetDeviceAvailability { friendly_name, available },
            now,
            after,
            events,
        ),
    ensures
        before.state.friendly_to_ieee@.contains_key(friendly_name@) ==> ({
            let ieee = before.state.friendly_to_ieee@[friendly_name@];
            &&& after.state.device_available(ieee@) == available
            &&& events.len() == 1
            &&& events[0] == (Event::DeviceAvailabilityChanged { ieee, available })
            &&& forall|other: Seq<char>|
                other != ieee@ ==> after.state.device_available(other)
                    == before.state.device_available(other)
        }),
        !before.state.friendly_to_ieee@.contains_key(friendly_name@)
            ==> after.pending_availability@.contains_key(friendly_name@)
            && after.pending_availability@[friendly_name@] == available && events.len() == 0
            && after.state == before.state,
{
}

proof fn lemma_index_leads_on(entries: Seq<(String, Z2mDeviceInfo)>, i: int)
    requires
        0 <= i < entries.len(),
        forall|j: int|
            i < j < entries.len() ==> (#[trigger] entries[j]).1.friendly_name@
                != entries[i].1.friendly_name@,
    ensures
        friendly_index(entries).contains_key(entries[i].1.friendly_name@),
        friendly_index(entries)[entries[i].1.friendly_name@]@ == entries[i].1.ieee_address@,
    decreases entries.len(),
{
    let front = entries.drop_last();
    if i < entries.len() - 1 {
        assert(front[i] == entries[i]);
        assert forall|j: int| i < j < front.len() implies (#[trigger] front[j]).1.friendly_name@
            != front[i].1.friendly_name@ by {
            assert(front[j] == entries[j]);
        }
        lemma_index_leads_on(front, i);
        assert(entries[entries.len() - 1].1.friendly_name@ != entries[i].1.friendly_name@);
    }
}

/// After a new device list, every listed device is known, and is found under the name that it has
/// now, whatever it was called before.
pub proof fn law_devices_are_found_by_their_names(
    before: StateManager,
    devices: NameMap<Z2mDeviceInfo>,
    now: Instant,
    after: StateManager,
    events: Seq<Event>,
    i: int,
)
    requires
        command_outcome(before, StateCommand::UpdateDevices(devices), now, after, events),
        0 <= i < devices.entries_seq().len(),
        forall|j: int|
            i < j < devices.entries_seq().len() ==> (
            #[trigger] devices.entries_seq()[j]).1.friendly_name@
                != devices.entries_seq()[i].1.friendly_name@,
    ensures
        after.state.device_map@ == devices@,
        ({
            let d = devices.entries_seq()[i].1;
            &&& after.state.friendly_to_ieee@.contains_key(d.friendly_name@)
            &&& after.state.friendly_to_ieee@[d.friendly_name@]@ == d.ieee_address@
        }),
{
    lemma_index_leads_on(devices.entries_seq(), i);
}

} // verus!
