//! What a device's state message changes: button presses, motion, lights, and changes that
//! somebody else made.

use vstd::prelude::*;

use crate::config::types::AppConfig;
use crate::effect::{emits, lemma_in_either, updates, Effect, Plan};
use crate::event::{Event, Illuminance};
use crate::json::{
    is_json, json_text, json_truth, json_unsigned, json_valid, text_at, truth_at, unsigned_at,
};
use crate::mqtt::lookup::{find_room_for_device, room_of, RoomLookup};
use crate::mqtt::z2m::{
    actions_view, is_republish, is_transition, record_occupancy, record_remote_action, Z2mMemory,
    EXTERNAL_CHANGE_DEDUP_NANOS,
};
use crate::state::{RoomState, RoomStateUpdate, SystemState, UpdateSource};
use crate::text::same;
use crate::time::{Duration, Instant};

verus! {

/// The fields of a device's state message that matter here. `S` is the type of its texts.
#[derive(Clone, Debug)]
pub struct DeviceReport<S = String> {
    pub action: Option<S>,
    pub occupancy: Option<bool>,
    pub illuminance: Option<u64>,
    pub illuminance_above_threshold: Option<bool>,
    pub state: Option<S>,
    pub brightness: Option<u64>,
    pub color_temp: Option<u64>,
}

/// The view of an optional text.
pub open spec fn string_view(text: Option<String>) -> Option<Seq<char>> {
    match text {
        Some(s) => Some(s@),
        None => None,
    }
}

impl View for DeviceReport<String> {
    type V = DeviceReport<Seq<char>>;

    open spec fn view(&self) -> DeviceReport<Seq<char>> {
        DeviceReport {
            action: string_view(self.action),
            occupancy: self.occupancy,
            illuminance: self.illuminance,
            illuminance_above_threshold: self.illuminance_above_threshold,
            state: string_view(self.state),
            brightness: self.brightness,
            color_temp: self.color_temp,
        }
    }
}

/// The report that a payload holds.
pub open spec fn report_of(payload: Seq<u8>) -> DeviceReport<Seq<char>> {
    DeviceReport {
        action: json_text(payload, "/action"@),
        occupancy: json_truth(payload, "/occupancy"@),
        illuminance: json_unsigned(payload, "/illuminance"@),
        illuminance_above_threshold: json_truth(payload, "/illuminance_above_threshold"@),
        state: json_text(payload, "/state"@),
        brightness: json_unsigned(payload, "/brightness"@),
        color_temp: json_unsigned(payload, "/color_temp"@),
    }
}

/// Reads the report out of a payload; nothing where the payload is no JSON document.
pub fn read_report(payload: &[u8]) -> (r: Option<DeviceReport>)
    ensures
        r is Some == json_valid(payload@),
        r matches Some(report) ==> report@ == report_of(payload@),
{
    if !is_json(payload) {
        return None;
    }
    Some(
        DeviceReport {
            action: text_at(payload, "/action"),
            occupancy: truth_at(payload, "/occupancy"),
            illuminance: unsigned_at(payload, "/illuminance"),
            illuminance_above_threshold: truth_at(payload, "/illuminance_above_threshold"),
            state: text_at(payload, "/state"),
            brightness: unsigned_at(payload, "/brightness"),
            color_temp: unsigned_at(payload, "/color_temp"),
        },
    )
}

/// The address of the device that reports, where it is known.
pub open spec fn sender(state: SystemState, device_name: Seq<char>) -> Option<String> {
    state.friendly_to_ieee.lookup(device_name)
}

/// The report is a button press of a known device.
pub open spec fn is_press(report: DeviceReport<Seq<char>>, ieee: Option<String>) -> bool {
    report.action is Some && report.action->0.len() > 0 && ieee is Some
}

/// A button press is announced, unless it is a republish.
pub open spec fn press_effects(
    report: DeviceReport<Seq<char>>,
    ieee: Option<String>,
    memory: Z2mMemory,
    now: Instant,
) -> Seq<Effect<Seq<char>>> {
    if is_press(report, ieee) && !is_republish(
        memory.remote_actions@,
        ieee->0@,
        report.action->0,
        now,
    ) {
        seq![
            emits(Event::RemoteAction { remote_ieee: ieee->0@, action: report.action->0 }),
        ]
    } else {
        Seq::empty()
    }
}

/// The remembered actions once the report was taken in.
pub open spec fn actions_after(
    report: DeviceReport<Seq<char>>,
    ieee: Option<String>,
    memory: Z2mMemory,
    now: Instant,
) -> Map<Seq<char>, (Seq<char>, Instant)> {
    let before = actions_view(memory.remote_actions);
    if is_press(report, ieee) && !is_republish(
        memory.remote_actions@,
        ieee->0@,
        report.action->0,
        now,
    ) {
        before.insert(ieee->0@, (report.action->0, now))
    } else {
        before
    }
}

/// The light reading of a report: a lux value in 16 bits, or what the sensor itself makes of it.
pub open spec fn reading_of(report: DeviceReport<Seq<char>>) -> Option<Illuminance> {
    match report.illuminance {
        Some(lux) => Some(Illuminance::Lux((lux % 65_536) as u16)),
        None => match report.illuminance_above_threshold {
            Some(above) => Some(Illuminance::AboveThreshold(above)),
            None => None,
        },
    }
}

/// The light reading is written down in each of the first `n` rooms.
pub open spec fn reading_effects(rooms: Seq<String>, reading: Illuminance, n: int) -> Seq<
    Effect<Seq<char>>,
>
    decreases n,
{
    if n <= 0 {
        Seq::empty()
    } else {
        reading_effects(rooms, reading, n - 1).push(
            updates(rooms[n - 1]@, RoomStateUpdate::Illuminance(reading)),
        )
    }
}

/// What an occupancy report brings: the light reading is written down, and a change of occupancy is
/// announced. Devices republish their whole state for every attribute, with an unchanged occupancy
/// value, which is no motion.
pub open spec fn motion_effects(
    report: DeviceReport<Seq<char>>,
    ieee: Option<String>,
    lookup: RoomLookup,
    memory: Z2mMemory,
) -> Seq<Effect<Seq<char>>> {
    if report.occupancy is Some && ieee is Some {
        let id = ieee->0@;
        let occupied = report.occupancy->0;
        let reading = reading_of(report);
        let written = match (reading, lookup.sensor_rooms.lookup(id)) {
            (Some(value), Some(rooms)) => reading_effects(rooms@, value, rooms@.len() as int),
            _ => Seq::empty(),
        };
        let announced = if !is_transition(memory.occupancy@, id, occupied) {
            Seq::empty()
        } else if occupied {
            seq![
                emits(
                    Event::MotionDetected {
                        room_id: Seq::empty(),
                        sensor_ieee: id,
                        illuminance: reading,
                    },
                ),
            ]
        } else {
            seq![emits(Event::MotionCleared { room_id: Seq::empty(), sensor_ieee: id })]
        };
        written + announced
    } else {
        Seq::empty()
    }
}

/// The remembered occupancies once the report was taken in.
pub open spec fn occupancy_after(
    report: DeviceReport<Seq<char>>,
    ieee: Option<String>,
    memory: Z2mMemory,
) -> Map<Seq<char>, bool> {
    if report.occupancy is Some && ieee is Some {
        memory.occupancy@.insert(ieee->0@, report.occupancy->0)
    } else {
        memory.occupancy@
    }
}

pub open spec fn says_on(report: DeviceReport<Seq<char>>) -> bool {
    report.state == Some("ON"@)
}

pub open spec fn says_off(report: DeviceReport<Seq<char>>) -> bool {
    report.state == Some("OFF"@)
}

/// The low 8 bits of a number.
pub open spec fn low8(value: Option<u64>) -> Option<u8> {
    match value {
        Some(v) => Some((v % 256) as u8),
        None => None,
    }
}

/// The low 16 bits of a number.
pub open spec fn low16(value: Option<u64>) -> Option<u16> {
    match value {
        Some(v) => Some((v % 65_536) as u16),
        None => None,
    }
}

/// A report of lights that went on or off is written down. Who decided it stays as it was.
pub open spec fn light_effects(
    report: DeviceReport<Seq<char>>,
    room_id: Option<String>,
    state: SystemState,
) -> Seq<Effect<Seq<char>>> {
    match room_id {
        None => Seq::empty(),
        Some(id) => if says_on(report) {
            seq![
                updates(
                    id@,
                    RoomStateUpdate::LightsOn {
                        brightness: low8(report.brightness),
                        color_temp_mired: low16(report.color_temp),
                        source: match state.rooms.lookup(id@) {
                            Some(rs) => rs.update_source,
                            None => UpdateSource::Circadian,
                        },
                    },
                ),
            ]
        } else if says_off(report) {
            seq![updates(id@, RoomStateUpdate::LightsOff)]
        } else {
            Seq::empty()
        },
    }
}

/// How long after a push the lamps' own echoes are expected (seconds): the room's transition and
/// five seconds more.
pub open spec fn quiet_secs(config: AppConfig, room_id: Seq<char>) -> int {
    5 + match config.rooms.lookup(room_id) {
        Some(room) => room.circadian_settings(config.circadian.defaults).transition_secs,
        None => 30,
    }
}

/// The room's last push is long enough ago that a report is no echo of it.
pub open spec fn past_echoes(config: AppConfig, room_id: Seq<char>, rs: RoomState, now: Instant) -> bool {
    match rs.last_jeha_push {
        Some(push) => now.since(push) > quiet_secs(config, room_id) * 1_000_000_000,
        None => true,
    }
}

/// A number as a signed one of 64 bits.
pub open spec fn as_signed(v: u64) -> int {
    if v <= i64::MAX {
        v as int
    } else {
        v - 0x1_0000_0000_0000_0000
    }
}

/// A reported value is further from the intended one than the tolerance allows.
pub open spec fn deviates(reported: Option<u64>, intended: Option<int>, tolerance: u64) -> bool {
    match (reported, intended) {
        (Some(r), Some(i)) => {
            let d = as_signed(r) - i;
            d > tolerance || -d > tolerance
        },
        _ => false,
    }
}

/// The report tells of a change that somebody else made to a room that follows the curve: the room
/// is lit and not paused, its last push is past, and brightness or color temperature is off by
/// more than the tolerance.
pub open spec fn is_external_change(
    report: DeviceReport<Seq<char>>,
    room_id: Option<String>,
    state: SystemState,
    config: AppConfig,
    now: Instant,
) -> bool {
    says_on(report) && room_id is Some && state.rooms@.contains_key(room_id->0@) && ({
        let rs = state.rooms@[room_id->0@];
        &&& rs.lights_on
        &&& rs.update_source == UpdateSource::Circadian
        &&& !rs.circadian_paused
        &&& past_echoes(config, room_id->0@, rs, now)
        &&& deviates(
            report.brightness,
            match rs.intended_brightness {
                Some(b) => Some(b as int),
                None => None,
            },
            config.general.external_brightness_tolerance,
        ) || deviates(
            report.color_temp,
            match rs.intended_color_temp_mired {
                Some(ct) => Some(ct as int),
                None => None,
            },
            config.general.external_color_temp_tolerance,
        )
    })
}

/// A change was announced for the room less than the dedup window ago.
pub open spec fn recently_announced(memory: Z2mMemory, room_id: Seq<char>, now: Instant) -> bool {
    memory.external_changes@.contains_key(room_id) && now.since(
        memory.external_changes@[room_id],
    ) < EXTERNAL_CHANGE_DEDUP_NANOS
}

/// A change that somebody else made holds the curve back for a while and is announced, unless that
/// just happened.
pub open spec fn external_effects(
    report: DeviceReport<Seq<char>>,
    device_name: Seq<char>,
    room_id: Option<String>,
    state: SystemState,
    config: AppConfig,
    memory: Z2mMemory,
    now: Instant,
) -> Seq<Effect<Seq<char>>> {
    if is_external_change(report, room_id, state, config, now) && !recently_announced(
        memory,
        room_id->0@,
        now,
    ) {
        seq![
            updates(
                room_id->0@,
                RoomStateUpdate::ExternalChange { ttl_secs: config.general.external_override_secs },
            ),
            emits(Event::ExternalLightChange { room_id: room_id->0@, device_name }),
        ]
    } else {
        Seq::empty()
    }
}

/// The remembered announcements once the report was taken in.
pub open spec fn external_after(
    report: DeviceReport<Seq<char>>,
    room_id: Option<String>,
    state: SystemState,
    config: AppConfig,
    memory: Z2mMemory,
    now: Instant,
) -> Map<Seq<char>, Instant> {
    if is_external_change(report, room_id, state, config, now) && !recently_announced(
        memory,
        room_id->0@,
        now,
    ) {
        memory.external_changes@.insert(room_id->0@, now)
    } else {
        memory.external_changes@
    }
}

/// Everything that a report brings, in order.
pub open spec fn report_effects(
    report: DeviceReport<Seq<char>>,
    device_name: Seq<char>,
    state: SystemState,
    config: AppConfig,
    lookup: RoomLookup,
    memory: Z2mMemory,
    now: Instant,
) -> Seq<Effect<Seq<char>>> {
    let ieee = sender(state, device_name);
    let room_id = room_of(device_name, state, lookup);
    press_effects(report, ieee, memory, now) + motion_effects(report, ieee, lookup, memory)
        + light_effects(report, room_id, state) + external_effects(
        report,
        device_name,
        room_id,
        state,
        config,
        memory,
        now,
    )
}

/// What is remembered once a report was taken in.
pub open spec fn remembers(
    after: Z2mMemory,
    report: DeviceReport<Seq<char>>,
    device_name: Seq<char>,
    state: SystemState,
    config: AppConfig,
    lookup: RoomLookup,
    before: Z2mMemory,
    now: Instant,
) -> bool {
    let ieee = sender(state, device_name);
    let room_id = room_of(device_name, state, lookup);
    &&& actions_view(after.remote_actions) == actions_after(report, ieee, before, now)
    &&& after.occupancy@ == occupancy_after(report, ieee, before)
    &&& after.external_changes@ == external_after(report, room_id, state, config, before, now)
}

fn plan_press(
    report: &DeviceReport,
    ieee: Option<&String>,
    memory: &mut Z2mMemory,
    now: Instant,
    plan: &mut Plan,
)
    ensures
        final(plan)@ == old(plan)@ + press_effects(
            report@,
            crate::names::unref(ieee),
            *old(memory),
            now,
        ),
        actions_view(final(memory).remote_actions) == actions_after(
            report@,
            crate::names::unref(ieee),
            *old(memory),
            now,
        ),
        final(memory).occupancy == old(memory).occupancy,
        final(memory).external_changes == old(memory).external_changes,
{
    let ghost before = plan@;
    if let (Some(action), Some(ieee)) = (&report.action, ieee) {
        if !action.as_str().is_empty() && record_remote_action(
            &mut memory.remote_actions,
            ieee.as_str(),
            action.as_str(),
            now,
        ) {
            plan.emit(
                Event::RemoteAction { remote_ieee: ieee.clone(), action: action.clone() },
            );
        }
    }
    assert(plan@ =~= before + press_effects(
        report@,
        crate::names::unref(ieee),
        *old(memory),
        now,
    ));
}

fn light_reading(report: &DeviceReport) -> (r: Option<Illuminance>)
    ensures
        r == reading_of(report@),
{
    match report.illuminance {
        Some(lux) => Some(Illuminance::Lux((lux % 65_536) as u16)),
        None => match report.illuminance_above_threshold {
            Some(above) => Some(Illuminance::AboveThreshold(above)),
            None => None,
        },
    }
}

fn plan_motion(
    report: &DeviceReport,
    ieee: Option<&String>,
    lookup: &RoomLookup,
    memory: &mut Z2mMemory,
    plan: &mut Plan,
)
    ensures
        final(plan)@ == old(plan)@ + motion_effects(
            report@,
            crate::names::unref(ieee),
            *lookup,
            *old(memory),
        ),
        final(memory).occupancy@ == occupancy_after(
            report@,
            crate::names::unref(ieee),
            *old(memory),
        ),
        final(memory).remote_actions == old(memory).remote_actions,
        final(memory).external_changes == old(memory).external_changes,
{
    let ghost before = plan@;
    if let (Some(occupied), Some(ieee)) = (report.occupancy, ieee) {
        let reading: Option<Illuminance> = light_reading(report);
        if let (Some(value), Some(rooms)) = (reading, lookup.sensor_rooms.get(ieee.as_str())) {
            let mut i: usize = 0;
            assert(plan@ =~= before + reading_effects(rooms@, value, 0));
            while i < rooms.len()
                invariant
                    i <= rooms@.len(),
                    plan@ == before + reading_effects(rooms@, value, i as int),
                decreases rooms.len() - i,
            {
                plan.update(rooms[i].as_str(), RoomStateUpdate::Illuminance(value));
                i = i + 1;
                assert(plan@ =~= before + reading_effects(rooms@, value, i as int));
            }
        }
        if record_occupancy(&mut memory.occupancy, ieee.as_str(), occupied) {
            let nowhere: String = String::new();
            assert(nowhere@ =~= Seq::<char>::empty());
            if occupied {
                plan.emit(
                    Event::MotionDetected {
                        room_id: nowhere,
                        sensor_ieee: ieee.clone(),
                        illuminance: reading,
                    },
                );
            } else {
                plan.emit(Event::MotionCleared { room_id: nowhere, sensor_ieee: ieee.clone() });
            }
        }
    }
    assert(plan@ =~= before + motion_effects(
        report@,
        crate::names::unref(ieee),
        *lookup,
        *old(memory),
    ));
}

fn state_is(report: &DeviceReport, text: &str) -> (r: bool)
    ensures
        r == (report@.state == Some(text@)),
{
    match &report.state {
        Some(state) => same(state.as_str(), text),
        None => false,
    }
}

fn plan_lights(
    report: &DeviceReport,
    room_id: &Option<String>,
    state: &SystemState,
    plan: &mut Plan,
)
    ensures
        final(plan)@ == old(plan)@ + light_effects(report@, *room_id, *state),
{
    let ghost before = plan@;
    if let Some(id) = room_id {
        if state_is(report, "ON") {
            let brightness: Option<u8> = match report.brightness {
                Some(b) => Some((b % 256) as u8),
                None => None,
            };
            let color_temp_mired: Option<u16> = match report.color_temp {
                Some(ct) => Some((ct % 65_536) as u16),
                None => None,
            };
            let source: UpdateSource = match state.rooms.get(id.as_str()) {
                Some(rs) => rs.update_source,
                None => UpdateSource::Circadian,
            };
            plan.update(
                id.as_str(),
                RoomStateUpdate::LightsOn { brightness, color_temp_mired, source },
            );
        } else if state_is(report, "OFF") {
            plan.update(id.as_str(), RoomStateUpdate::LightsOff);
        }
    }
    assert(plan@ =~= before + light_effects(report@, *room_id, *state));
}

fn is_off_by(reported: Option<u64>, intended: Option<u16>, tolerance: u64) -> (r: bool)
    ensures
        r == deviates(
            reported,
            match intended {
                Some(v) => Some(v as int),
                None => None,
            },
            tolerance,
        ),
{
    match (reported, intended) {
        (Some(r), Some(i)) => {
            let signed: i128 = if r <= i64::MAX as u64 {
                r as i128
            } else {
                r as i128 - 0x1_0000_0000_0000_0000
            };
            let d: i128 = signed - i as i128;
            d > tolerance as i128 || -d > tolerance as i128
        },
        _ => false,
    }
}

fn detect_external_change(
    report: &DeviceReport,
    room_id: &Option<String>,
    state: &SystemState,
    config: &AppConfig,
    now: Instant,
) -> (r: bool)
    ensures
        r == is_external_change(report@, *room_id, *state, *config, now),
{
    let id = match room_id {
        Some(id) => id,
        None => {
            return false;
        },
    };
    let rs: &RoomState = match state.rooms.get(id.as_str()) {
        Some(rs) => rs,
        None => {
            return false;
        },
    };
    // Only a room that the curve currently manages can be changed behind its back.
    if !state_is(report, "ON") || !rs.lights_on || rs.update_source != UpdateSource::Circadian
        || rs.circadian_paused {
        return false;
    }
    let transition_secs: u32 = match config.rooms.get(id.as_str()) {
        Some(room) => room.effective_circadian(&config.circadian.defaults).transition_secs,
        None => 30,
    };
    let quiet: Duration = Duration::from_secs(transition_secs as u64 + 5);
    let outside_quiet_window: bool = match rs.last_jeha_push {
        Some(push) => now.duration_since(push).nanos > quiet.nanos,
        None => true,
    };
    if !outside_quiet_window {
        return false;
    }
    // Intended values are compared, not current ones, which drift with every echo.
    let intended_brightness: Option<u16> = match rs.intended_brightness {
        Some(b) => Some(b as u16),
        None => None,
    };
    is_off_by(
        report.brightness,
        intended_brightness,
        config.general.external_brightness_tolerance,
    ) || is_off_by(
        report.color_temp,
        rs.intended_color_temp_mired,
        config.general.external_color_temp_tolerance,
    )
}

fn plan_external(
    report: &DeviceReport,
    device_name: &str,
    room_id: &Option<String>,
    state: &SystemState,
    config: &AppConfig,
    memory: &mut Z2mMemory,
    now: Instant,
    plan: &mut Plan,
)
    ensures
        final(plan)@ == old(plan)@ + external_effects(
            report@,
            device_name@,
            *room_id,
            *state,
            *config,
            *old(memory),
            now,
        ),
        final(memory).external_changes@ == external_after(
            report@,
            *room_id,
            *state,
            *config,
            *old(memory),
            now,
        ),
        final(memory).remote_actions == old(memory).remote_actions,
        final(memory).occupancy == old(memory).occupancy,
{
    let ghost before = plan@;
    if detect_external_change(report, room_id, state, config, now) {
        if let Some(id) = room_id {
            let recently: bool = match memory.external_changes.get(id.as_str()) {
                Some(at) => now.duration_since(*at).nanos < EXTERNAL_CHANGE_DEDUP_NANOS,
                None => false,
            };
            if !recently {
                memory.external_changes.insert(id.clone(), now);
                plan.update(
                    id.as_str(),
                    RoomStateUpdate::ExternalChange {
                        ttl_secs: config.general.external_override_secs,
                    },
                );
                plan.emit(
                    Event::ExternalLightChange {
                        room_id: id.clone(),
                        device_name: device_name.to_owned(),
                    },
                );
            }
        }
    }
    assert(plan@ =~= before + external_effects(
        report@,
        device_name@,
        *room_id,
        *state,
        *config,
        *old(memory),
        now,
    ));
}

/// Takes a device's report in.
pub fn handle_report(
    device_name: &str,
    report: &DeviceReport,
    state: &SystemState,
    config: &AppConfig,
    lookup: &RoomLookup,
    memory: &mut Z2mMemory,
    now: Instant,
) -> (plan: Plan)
    ensures
        plan@ == report_effects(
            report@,
            device_name@,
            *state,
            *config,
            *lookup,
            *old(memory),
            now,
        ),
        remembers(
            *final(memory),
            report@,
            device_name@,
            *state,
            *config,
            *lookup,
            *old(memory),
            now,
        ),
{
    let mut plan: Plan = Plan::new();
    let ieee: Option<&String> = state.friendly_to_ieee.get(device_name);
    let room_id: Option<String> = find_room_for_device(device_name, state, lookup);
    plan_press(report, ieee, memory, now, &mut plan);
    plan_motion(report, ieee, lookup, memory, &mut plan);
    plan_lights(report, &room_id, state, &mut plan);
    plan_external(report, device_name, &room_id, state, config, memory, now, &mut plan);
    assert(plan@ =~= report_effects(
        report@,
        device_name@,
        *state,
        *config,
        *lookup,
        *old(memory),
        now,
    ));
    plan
}

/// Takes a device's state message in. A payload that is no JSON document is passed over.
pub fn handle_device_state(
    device_name: &str,
    payload: &[u8],
    state: &SystemState,
    config: &AppConfig,
    lookup: &RoomLookup,
    memory: &mut Z2mMemory,
    now: Instant,
) -> (plan: Plan)
    ensures
        json_valid(payload@) ==> plan@ == report_effects(
            report_of(payload@),
            device_name@,
            *state,
            *config,
            *lookup,
            *old(memory),
            now,
        ) && remembers(
            *final(memory),
            report_of(payload@),
            device_name@,
            *state,
            *config,
            *lookup,
            *old(memory),
            now,
        ),
        !json_valid(payload@) ==> plan@ == Seq::<Effect<Seq<char>>>::empty() && *final(memory)
            == *old(memory),
{
    match read_report(payload) {
        Some(report) => handle_report(device_name, &report, state, config, lookup, memory, now),
        None => Plan::new(),
    }
}

/// The value lies within the tolerance of what was intended, on both sides, or there is nothing to
/// compare.
pub open spec fn is_as_intended(reported: Option<u64>, intended: Option<int>, tolerance: u64) -> bool {
    reported is Some && intended is Some ==> intended->0 - tolerance <= reported->0 <= intended->0
        + tolerance
}

/// A number where there is one.
pub open spec fn as_number8(value: Option<u8>) -> Option<int> {
    match value {
        Some(v) => Some(v as int),
        None => None,
    }
}

/// A number where there is one.
pub open spec fn as_number16(value: Option<u16>) -> Option<int> {
    match value {
        Some(v) => Some(v as int),
        None => None,
    }
}

/// A report counts as a change that somebody else made exactly where the room is on the curve, the
/// report says that the lights are on, the last push is longer ago than the room's transition and
/// five seconds, and brightness or color temperature is off by more than the tolerance, on either
/// side. Values that no lamp sends, of 2^63 and more, are left out.
pub proof fn law_only_deviations_are_changes(
    report: DeviceReport<Seq<char>>,
    id: String,
    state: SystemState,
    config: AppConfig,
    now: Instant,
)
    requires
        report.brightness matches Some(b) ==> b <= i64::MAX,
        report.color_temp matches Some(ct) ==> ct <= i64::MAX,
    ensures
        is_external_change(report, Some(id), state, config, now) <==> {
            let rs = state.rooms@[id@];
            let transition = if config.rooms@.contains_key(id@) {
                config.rooms@[id@].circadian_settings(
                    config.circadian.defaults,
                ).transition_secs as int
            } else {
                30
            };
            &&& state.rooms@.contains_key(id@)
            &&& report.state == Some("ON"@)
            &&& rs.lights_on
            &&& rs.update_source == UpdateSource::Circadian
            &&& !rs.circadian_paused
            &&& rs.last_jeha_push matches Some(push) ==> now.nanos > push.nanos + (transition + 5)
                * 1_000_000_000
            &&& !is_as_intended(
                report.brightness,
                as_number8(rs.intended_brightness),
                config.general.external_brightness_tolerance,
            ) || !is_as_intended(
                report.color_temp,
                as_number16(rs.intended_color_temp_mired),
                config.general.external_color_temp_tolerance,
            )
        },
{
    let q = quiet_secs(config, id@) * 1_000_000_000;
    assert(q >= 0);
}

proof fn lemma_in_report(
    report: DeviceReport<Seq<char>>,
    device_name: Seq<char>,
    state: SystemState,
    config: AppConfig,
    lookup: RoomLookup,
    memory: Z2mMemory,
    now: Instant,
    effect: Effect<Seq<char>>,
)
    ensures
        ({
            let ieee = sender(state, device_name);
            let room_id = room_of(device_name, state, lookup);
            report_effects(report, device_name, state, config, lookup, memory, now).contains(effect)
                <==> press_effects(report, ieee, memory, now).contains(effect) || motion_effects(
                report,
                ieee,
                lookup,
                memory,
            ).contains(effect) || light_effects(report, room_id, state).contains(effect)
                || external_effects(
                report,
                device_name,
                room_id,
                state,
                config,
                memory,
                now,
            ).contains(effect)
        }),
{
    let ieee = sender(state, device_name);
    let room_id = room_of(device_name, state, lookup);
    let a = press_effects(report, ieee, memory, now);
    let b = motion_effects(report, ieee, lookup, memory);
    let c = light_effects(report, room_id, state);
    let d = external_effects(report, device_name, room_id, state, config, memory, now);
    lemma_in_either(a + b + c, d, effect);
    lemma_in_either(a + b, c, effect);
    lemma_in_either(a, b, effect);
}

proof fn lemma_single<T>(x: T, y: T)
    ensures
        seq![x].contains(y) <==> x == y,
{
    assert(seq![x][0] == x);
}

/// A change that somebody else made is announced, and holds the curve back for the configured time,
/// exactly where it is one and none was announced for the room in the two seconds before.
pub proof fn law_changes_are_announced(
    report: DeviceReport<Seq<char>>,
    device_name: Seq<char>,
    state: SystemState,
    config: AppConfig,
    lookup: RoomLookup,
    memory: Z2mMemory,
    now: Instant,
    id: String,
)
    requires
        room_of(device_name, state, lookup) == Some(id),
    ensures
        ({
            let effects = report_effects(
                report,
                device_name,
                state,
                config,
                lookup,
                memory,
                now,
            );
            let due = is_external_change(report, Some(id), state, config, now) && !(
            memory.external_changes@.contains_key(id@) && now.nanos
                < memory.external_changes@[id@].nanos + 2_000_000_000);
            &&& effects.contains(
                Effect::Emit { event: Event::ExternalLightChange { room_id: id@, device_name } },
            ) <==> due
            &&& effects.contains(
                Effect::Update {
                    room_id: id@,
                    update: RoomStateUpdate::ExternalChange {
                        ttl_secs: config.general.external_override_secs,
                    },
                },
            ) <==> due
        }),
{
    let emit = Effect::Emit {
        event: Event::ExternalLightChange { room_id: id@, device_name },
    };
    let update = Effect::Update {
        room_id: id@,
        update: RoomStateUpdate::ExternalChange { ttl_secs: config.general.external_override_secs },
    };
    lemma_in_report(report, device_name, state, config, lookup, memory, now, emit);
    lemma_in_report(report, device_name, state, config, lookup, memory, now, update);
    let ieee = sender(state, device_name);
    lemma_motion_effects_are_about_motion(report, ieee, lookup, memory, emit);
    lemma_motion_effects_are_about_motion(report, ieee, lookup, memory, update);
    let ext = external_effects(report, device_name, Some(id), state, config, memory, now);
    if ext.len() > 0 {
        assert(ext[0] == update && ext[1] == emit);
    }
}

proof fn lemma_reading_effects(
    rooms: Seq<String>,
    reading: Illuminance,
    n: int,
    effect: Effect<Seq<char>>,
)
    requires
        0 <= n <= rooms.len(),
    ensures
        reading_effects(rooms, reading, n).contains(effect) <==> exists|j: int|
            0 <= j < n && effect == (Effect::Update {
                room_id: (#[trigger] rooms[j])@,
                update: RoomStateUpdate::Illuminance(reading),
            }),
    decreases n,
{
    if n > 0 {
        lemma_reading_effects(rooms, reading, n - 1, effect);
        let rest = reading_effects(rooms, reading, n - 1);
        let own = updates(rooms[n - 1]@, RoomStateUpdate::Illuminance(reading));
        assert(rest.push(own) =~= rest + seq![own]);
        lemma_in_either(rest, seq![own], effect);
        lemma_single(own, effect);
        assert(rooms[n - 1] == rooms[n - 1]);
    }
}

proof fn lemma_motion_effects_are_about_motion(
    report: DeviceReport<Seq<char>>,
    ieee: Option<String>,
    lookup: RoomLookup,
    memory: Z2mMemory,
    effect: Effect<Seq<char>>,
)
    ensures
        motion_effects(report, ieee, lookup, memory).contains(effect) ==> match effect {
            Effect::Update { update, .. } => update is Illuminance,
            Effect::Emit { event } => event is MotionDetected || event is MotionCleared,
            _ => false,
        },
{
    if report.occupancy is Some && ieee is Some {
        let id = ieee->0@;
        let reading = reading_of(report);
        let written = match (reading, lookup.sensor_rooms.lookup(id)) {
            (Some(value), Some(rooms)) => reading_effects(rooms@, value, rooms@.len() as int),
            _ => Seq::empty(),
        };
        let all = motion_effects(report, ieee, lookup, memory);
        let announced = all.skip(written.len() as int);
        assert(all =~= written + announced);
        lemma_in_either(written, announced, effect);
        if reading is Some && lookup.sensor_rooms.lookup(id) is Some {
            let rooms = lookup.sensor_rooms.lookup(id)->0;
            lemma_reading_effects(rooms@, reading->0, rooms@.len() as int, effect);
        }
    }
}

/// A lamp or group that reports to be on or off is written down as that, with the values that it
/// reports, and with whoever decided it before.
pub proof fn law_switched_lights_are_written_down(
    report: DeviceReport<Seq<char>>,
    device_name: Seq<char>,
    state: SystemState,
    config: AppConfig,
    lookup: RoomLookup,
    memory: Z2mMemory,
    now: Instant,
    id: String,
    brightness: Option<u8>,
    color_temp_mired: Option<u16>,
    source: UpdateSource,
)
    requires
        room_of(device_name, state, lookup) == Some(id),
        match report.brightness {
            Some(b) => b <= 255 && brightness == Some(b as u8),
            None => brightness is None,
        },
        match report.color_temp {
            Some(ct) => ct <= 65_535 && color_temp_mired == Some(ct as u16),
            None => color_temp_mired is None,
        },
        source == (if state.rooms@.contains_key(id@) {
            state.rooms@[id@].update_source
        } else {
            UpdateSource::Circadian
        }),
    ensures
        ({
            let effects = report_effects(
                report,
                device_name,
                state,
                config,
                lookup,
                memory,
                now,
            );
            &&& effects.contains(
                Effect::Update {
                    room_id: id@,
                    update: RoomStateUpdate::LightsOn { brightness, color_temp_mired, source },
                },
            ) <==> report.state == Some("ON"@)
            &&& effects.contains(
                Effect::Update { room_id: id@, update: RoomStateUpdate::LightsOff },
            ) <==> report.state == Some("OFF"@)
        }),
{
    let on = Effect::Update {
        room_id: id@,
        update: RoomStateUpdate::LightsOn { brightness, color_temp_mired, source },
    };
    let off = Effect::Update { room_id: id@, update: RoomStateUpdate::LightsOff };
    lemma_in_report(report, device_name, state, config, lookup, memory, now, on);
    lemma_in_report(report, device_name, state, config, lookup, memory, now, off);
    let ieee = sender(state, device_name);
    lemma_motion_effects_are_about_motion(report, ieee, lookup, memory, on);
    lemma_motion_effects_are_about_motion(report, ieee, lookup, memory, off);
    let own = light_effects(report, Some(id), state);
    lemma_on_is_not_off();
    if own.len() > 0 {
        assert(own[0] == own[0]);
        lemma_single(own[0], on);
        lemma_single(own[0], off);
        assert(own =~= seq![own[0]]);
    }
}

proof fn lemma_on_is_not_off()
    ensures
        "ON"@ != "OFF"@,
{
    reveal_strlit("ON");
    reveal_strlit("OFF");
    assert("ON"@.len() == 2);
    assert("OFF"@.len() == 3);
}

/// A button press is announced exactly where it is one, the remote is known, and the same press was
/// not accepted from it in the half second before.
pub proof fn law_presses_are_announced(
    report: DeviceReport<Seq<char>>,
    device_name: Seq<char>,
    state: SystemState,
    config: AppConfig,
    lookup: RoomLookup,
    memory: Z2mMemory,
    now: Instant,
    action: Seq<char>,
    remote: Seq<char>,
)
    ensures
        report_effects(report, device_name, state, config, lookup, memory, now).contains(
            Effect::Emit { event: Event::RemoteAction { remote_ieee: remote, action } },
        ) <==> {
            let cache = memory.remote_actions@;
            &&& report.action == Some(action)
            &&& action.len() > 0
            &&& state.friendly_to_ieee@.contains_key(device_name)
            &&& state.friendly_to_ieee@[device_name]@ == remote
            &&& !(cache.contains_key(remote) && cache[remote].0@ == action && now.nanos
                < cache[remote].1.nanos + 500_000_000)
        },
{
    let emit = Effect::Emit { event: Event::RemoteAction { remote_ieee: remote, action } };
    lemma_in_report(report, device_name, state, config, lookup, memory, now, emit);
    let ieee = sender(state, device_name);
    lemma_motion_effects_are_about_motion(report, ieee, lookup, memory, emit);
    let own = press_effects(report, ieee, memory, now);
    if own.len() > 0 {
        lemma_single(own[0], emit);
        assert(own =~= seq![own[0]]);
    }
}

/// Motion and its end are announced exactly where a known sensor reports an occupancy that differs
/// from its last one, or its first; motion comes with the light reading.
pub proof fn law_motion_is_announced(
    report: DeviceReport<Seq<char>>,
    device_name: Seq<char>,
    state: SystemState,
    config: AppConfig,
    lookup: RoomLookup,
    memory: Z2mMemory,
    now: Instant,
    sensor: Seq<char>,
    reading: Option<Illuminance>,
)
    requires
        reading == (match report.illuminance {
            Some(lux) => Some(Illuminance::Lux(lux as u16)),
            None => match report.illuminance_above_threshold {
                Some(above) => Some(Illuminance::AboveThreshold(above)),
                None => None,
            },
        }),
        report.illuminance matches Some(lux) ==> lux <= 65_535,
    ensures
        ({
            let effects = report_effects(
                report,
                device_name,
                state,
                config,
                lookup,
                memory,
                now,
            );
            let known = state.friendly_to_ieee@.contains_key(device_name)
                && state.friendly_to_ieee@[device_name]@ == sensor;
            let news = |occupied: bool|
                !(memory.occupancy@.contains_key(sensor) && memory.occupancy@[sensor] == occupied);
            &&& effects.contains(
                Effect::Emit {
                    event: Event::MotionDetected {
                        room_id: Seq::empty(),
                        sensor_ieee: sensor,
                        illuminance: reading,
                    },
                },
            ) <==> known && report.occupancy == Some(true) && news(true)
            &&& effects.contains(
                Effect::Emit {
                    event: Event::MotionCleared { room_id: Seq::empty(), sensor_ieee: sensor },
                },
            ) <==> known && report.occupancy == Some(false) && news(false)
        }),
{
    let detected = Effect::Emit {
        event: Event::MotionDetected {
            room_id: Seq::empty(),
            sensor_ieee: sensor,
            illuminance: reading,
        },
    };
    let cleared = Effect::Emit {
        event: Event::MotionCleared { room_id: Seq::empty(), sensor_ieee: sensor },
    };
    lemma_in_report(report, device_name, state, config, lookup, memory, now, detected);
    lemma_in_report(report, device_name, state, config, lookup, memory, now, cleared);
    lemma_motion_emits(report, sender(state, device_name), lookup, memory, detected);
    lemma_motion_emits(report, sender(state, device_name), lookup, memory, cleared);
}

proof fn lemma_motion_emits(
    report: DeviceReport<Seq<char>>,
    ieee: Option<String>,
    lookup: RoomLookup,
    memory: Z2mMemory,
    effect: Effect<Seq<char>>,
)
    requires
        effect is Emit,
    ensures
        motion_effects(report, ieee, lookup, memory).contains(effect) <==> report.occupancy is Some
            && ieee is Some && is_transition(memory.occupancy@, ieee->0@, report.occupancy->0)
            && effect == (if report.occupancy->0 {
            emits(
                Event::MotionDetected {
                    room_id: Seq::empty(),
                    sensor_ieee: ieee->0@,
                    illuminance: reading_of(report),
                },
            )
        } else {
            emits(Event::MotionCleared { room_id: Seq::empty(), sensor_ieee: ieee->0@ })
        }),
{
    if report.occupancy is Some && ieee is Some {
        let id = ieee->0@;
        let reading = reading_of(report);
        let written = match (reading, lookup.sensor_rooms.lookup(id)) {
            (Some(value), Some(rooms)) => reading_effects(rooms@, value, rooms@.len() as int),
            _ => Seq::empty(),
        };
        let all = motion_effects(report, ieee, lookup, memory);
        let announced = all.skip(written.len() as int);
        assert(all =~= written + announced);
        lemma_in_either(written, announced, effect);
        if reading is Some && lookup.sensor_rooms.lookup(id) is Some {
            let rooms = lookup.sensor_rooms.lookup(id)->0;
            lemma_reading_effects(rooms@, reading->0, rooms@.len() as int, effect);
        }
        if announced.len() > 0 {
            lemma_single(announced[0], effect);
            assert(announced =~= seq![announced[0]]);
        }
    }
}

/// A light reading that comes with an occupancy report is written down in every room that uses the
/// sensor.
pub proof fn law_light_readings_are_written_down(
    report: DeviceReport<Seq<char>>,
    device_name: Seq<char>,
    state: SystemState,
    config: AppConfig,
    lookup: RoomLookup,
    memory: Z2mMemory,
    now: Instant,
    lux: u16,
    k: int,
)
    requires
        report.occupancy is Some,
        report.illuminance == Some(lux as u64),
        state.friendly_to_ieee@.contains_key(device_name),
        lookup.sensor_rooms@.contains_key(state.friendly_to_ieee@[device_name]@),
        0 <= k < lookup.sensor_rooms@[state.friendly_to_ieee@[device_name]@]@.len(),
    ensures
        report_effects(report, device_name, state, config, lookup, memory, now).contains(
            Effect::Update {
                room_id: lookup.sensor_rooms@[state.friendly_to_ieee@[device_name]@]@[k]@,
                update: RoomStateUpdate::Illuminance(Illuminance::Lux(lux)),
            },
        ),
{
    let id = state.friendly_to_ieee@[device_name]@;
    let rooms = lookup.sensor_rooms@[id]@;
    let reading = Illuminance::Lux(lux);
    let effect = Effect::Update {
        room_id: rooms[k]@,
        update: RoomStateUpdate::Illuminance(reading),
    };
    lemma_in_report(report, device_name, state, config, lookup, memory, now, effect);
    lemma_reading_effects(rooms, reading, rooms.len() as int, effect);
    let written = reading_effects(rooms, reading, rooms.len() as int);
    let all = motion_effects(report, sender(state, device_name), lookup, memory);
    let announced = all.skip(written.len() as int);
    assert(all =~= written + announced);
    lemma_in_either(written, announced, effect);
}

/// What a report leaves behind: the occupancy that a known sensor reported, a press that was
/// announced, and when, and the time of a change that was announced. Nothing is forgotten.
pub proof fn law_reports_are_remembered(
    after: Z2mMemory,
    report: DeviceReport<Seq<char>>,
    device_name: Seq<char>,
    state: SystemState,
    config: AppConfig,
    lookup: RoomLookup,
    before: Z2mMemory,
    now: Instant,
    ieee: Seq<char>,
    other: Seq<char>,
)
    requires
        remembers(after, report, device_name, state, config, lookup, before, now),
        state.friendly_to_ieee@.contains_key(device_name),
        state.friendly_to_ieee@[device_name]@ == ieee,
        other != ieee,
    ensures
        report.occupancy is Some ==> after.occupancy@.contains_key(ieee) && after.occupancy@[ieee]
            == report.occupancy->0,
        report.occupancy is None ==> after.occupancy@ == before.occupancy@,
        after.occupancy@.contains_key(other) == before.occupancy@.contains_key(other),
        before.occupancy@.contains_key(other) ==> after.occupancy@[other]
            == before.occupancy@[other],
        report_effects(report, device_name, state, config, lookup, before, now).contains(
            Effect::Emit {
                event: Event::RemoteAction {
                    remote_ieee: ieee,
                    action: report.action->0,
                },
            },
        ) ==> after.remote_actions@.contains_key(ieee) && after.remote_actions@[ieee].0@
            == report.action->0 && after.remote_actions@[ieee].1 == now,
        report.action is None ==> actions_view(after.remote_actions) == actions_view(
            before.remote_actions,
        ),
{
    law_presses_are_announced(
        report,
        device_name,
        state,
        config,
        lookup,
        before,
        now,
        report.action->0,
        ieee,
    );
    let a = actions_view(after.remote_actions);
    if is_press(report, sender(state, device_name)) && !is_republish(
        before.remote_actions@,
        ieee,
        report.action->0,
        now,
    ) {
        assert(a.contains_key(ieee) && a[ieee] == (report.action->0, now));
        assert(after.remote_actions@.contains_key(ieee));
    }
}

/// A change of a room that was announced is remembered with its time, and other rooms' stay.
pub proof fn law_announced_changes_are_remembered(
    after: Z2mMemory,
    report: DeviceReport<Seq<char>>,
    device_name: Seq<char>,
    state: SystemState,
    config: AppConfig,
    lookup: RoomLookup,
    before: Z2mMemory,
    now: Instant,
    id: String,
    other: Seq<char>,
)
    requires
        remembers(after, report, device_name, state, config, lookup, before, now),
        room_of(device_name, state, lookup) == Some(id),
        other != id@,
    ensures
        report_effects(report, device_name, state, config, lookup, before, now).contains(
            Effect::Emit { event: Event::ExternalLightChange { room_id: id@, device_name } },
        ) ==> after.external_changes@.contains_key(id@) && after.external_changes@[id@] == now,
        after.external_changes@.contains_key(other) == before.external_changes@.contains_key(other),
        before.external_changes@.contains_key(other) ==> after.external_changes@[other]
            == before.external_changes@[other],
{
    law_changes_are_announced(
        report,
        device_name,
        state,
        config,
        lookup,
        before,
        now,
        id,
    );
}

/// A report that comes twice at the same time is news once: the second time no motion, no press and
/// no change is announced.
pub proof fn law_republished_reports_are_no_news(
    after: Z2mMemory,
    report: DeviceReport<Seq<char>>,
    device_name: Seq<char>,
    state: SystemState,
    config: AppConfig,
    lookup: RoomLookup,
    before: Z2mMemory,
    now: Instant,
    event: Event<Seq<char>>,
)
    requires
        remembers(after, report, device_name, state, config, lookup, before, now),
    ensures
        !report_effects(report, device_name, state, config, lookup, after, now).contains(
            Effect::Emit { event },
        ),
{
    let emit = Effect::Emit { event };
    let ieee = sender(state, device_name);
    let room_id = room_of(device_name, state, lookup);
    lemma_in_report(report, device_name, state, config, lookup, after, now, emit);
    lemma_motion_emits(report, ieee, lookup, after, emit);
    if is_press(report, ieee) {
        let a = actions_view(after.remote_actions);
        let b = actions_view(before.remote_actions);
        let id = ieee->0@;
        assert(after.remote_actions@.contains_key(id) == a.contains_key(id));
        assert(before.remote_actions@.contains_key(id) == b.contains_key(id));
        assert(a.contains_key(id) && a[id].0 == report.action->0);
        assert(is_republish(after.remote_actions@, id, report.action->0, now));
    }
}

/// Every part of a report is what the payload holds under the part's own name, at its top level.
pub proof fn law_reports_are_read_by_name(payload: Seq<u8>)
    ensures
        report_of(payload).action == json_text(payload, "/action"@),
        report_of(payload).occupancy == json_truth(payload, "/occupancy"@),
        report_of(payload).illuminance == json_unsigned(payload, "/illuminance"@),
        report_of(payload).illuminance_above_threshold == json_truth(
            payload,
            "/illuminance_above_threshold"@,
        ),
        report_of(payload).state == json_text(payload, "/state"@),
        report_of(payload).brightness == json_unsigned(payload, "/brightness"@),
        report_of(payload).color_temp == json_unsigned(payload, "/color_temp"@),
{
}

} // verus!
