//! What the people (and programs) who control the lights can ask for, and what they are told.

use vstd::prelude::*;

use crate::circadian::curve::{kelvin_to_mired, mired, CircadianTarget};
use crate::circadian::engine::{lights_for_room, room_lights};
use crate::calibration::{calibration_differs, group_needs_fanout, resolved};
use crate::config::types::{AppConfig, RoomConfig};
use crate::effect::{
    publishes, turn_off_all, turn_on_all, turn_on_ids, updates, Effect, LightCommand, Plan,
};
use crate::state::{RoomState, RoomStateUpdate, SystemState, UpdateSource};
use crate::text::{cat2, cat3, cat4, cat5, decimal, decimal_string, join, joined, same};
use crate::time::{Duration, Instant};

verus! {

/// How a room stands to the curve. Absent parts are left out of what is told. `S` is the type of
/// its texts.
#[derive(Clone, Debug)]
pub struct CircadianStatus<S = String> {
    pub status: S,
    pub remaining_mins: Option<u64>,
    pub remaining: Option<S>,
    pub remaining_secs: Option<u64>,
    pub description: S,
}

/// The view of an optional text.
pub open spec fn opt_view(text: Option<String>) -> Option<Seq<char>> {
    match text {
        Some(s) => Some(s@),
        None => None,
    }
}

impl View for CircadianStatus<String> {
    type V = CircadianStatus<Seq<char>>;

    open spec fn view(&self) -> CircadianStatus<Seq<char>> {
        CircadianStatus {
            status: self.status@,
            remaining_mins: self.remaining_mins,
            remaining: opt_view(self.remaining),
            remaining_secs: self.remaining_secs,
            description: self.description@,
        }
    }
}

/// A status that says no more than how things are.
pub open spec fn plain_status(status: Seq<char>, description: Seq<char>) -> CircadianStatus<
    Seq<char>,
> {
    CircadianStatus {
        status,
        remaining_mins: None,
        remaining: None,
        remaining_secs: None,
        description,
    }
}

/// Whole seconds from `now` until `until`, as many as 64 bits hold.
pub open spec fn secs_until(now: Instant, until: Instant) -> int {
    let secs = until.since(now) / 1_000_000_000;
    if secs <= u64::MAX {
        secs
    } else {
        u64::MAX as int
    }
}

pub fn seconds_until(now: Instant, until: Instant) -> (r: u64)
    ensures
        r == secs_until(now, until),
{
    let secs: u128 = until.duration_since(now).nanos / 1_000_000_000;
    if secs <= u64::MAX as u128 {
        secs as u64
    } else {
        u64::MAX
    }
}

/// Hours and minutes, the hours only where there are any.
pub open spec fn hours_and_minutes(mins: nat) -> Seq<char> {
    if mins / 60 > 0 {
        decimal(mins / 60) + "h "@ + decimal(mins % 60) + "m"@
    } else {
        decimal(mins % 60) + "m"@
    }
}

fn hours_and_minutes_text(mins: u64) -> (r: String)
    ensures
        r@ == hours_and_minutes(mins as nat),
{
    if mins / 60 > 0 {
        cat4(
            decimal_string(mins / 60).as_str(),
            "h ",
            decimal_string(mins % 60).as_str(),
            "m",
        )
    } else {
        cat2(decimal_string(mins % 60).as_str(), "m")
    }
}

/// A span of seconds in hours and minutes.
pub fn format_duration(secs: u64) -> (r: String)
    ensures
        r@ == hours_and_minutes((secs / 60) as nat),
{
    hours_and_minutes_text(secs / 60)
}

/// The status of a room under a manual override; nothing where there is none, or its time is up.
pub open spec fn override_status(rs: RoomState, now: Instant) -> Option<CircadianStatus<Seq<char>>> {
    if rs.update_source != UpdateSource::Manual {
        None
    } else {
        match rs.manual_override_until {
            Some(until) => if now.nanos < until.nanos {
                let mins = secs_until(now, until) / 60;
                Some(
                    CircadianStatus {
                        status: "manual_override"@,
                        remaining_mins: Some(mins as u64),
                        remaining: None,
                        remaining_secs: None,
                        description: "Manual override active — circadian auto-resumes in "@
                            + decimal(mins as nat) + "m"@,
                    },
                )
            } else {
                None
            },
            None => if !rs.circadian_paused {
                Some(
                    plain_status(
                        "manual_override"@,
                        "Manual override active indefinitely — use resume_circadian to re-enable"@,
                    ),
                )
            } else {
                None
            },
        }
    }
}

/// The status of a room apart from overrides.
pub open spec fn pause_status(rs: RoomState, now: Instant) -> CircadianStatus<Seq<char>> {
    if !rs.circadian_paused {
        plain_status("active"@, "Circadian rhythm is active — lights adjust automatically"@)
    } else {
        match rs.circadian_paused_until {
            Some(until) => if now.nanos >= until.nanos {
                plain_status(
                    "active"@,
                    "Circadian snooze has expired — will resume on next cycle"@,
                )
            } else {
                let secs = secs_until(now, until);
                let text = hours_and_minutes((secs / 60) as nat);
                CircadianStatus {
                    status: "snoozed"@,
                    remaining_mins: None,
                    remaining: Some(text),
                    remaining_secs: Some(secs as u64),
                    description: "Circadian snoozed — auto-resumes in "@ + text,
                }
            },
            None => plain_status(
                "paused"@,
                "Circadian paused indefinitely — use resume_circadian to re-enable"@,
            ),
        }
    }
}

/// How a room stands to the curve at `now`.
pub open spec fn status_of(rs: RoomState, now: Instant) -> CircadianStatus<Seq<char>> {
    match override_status(rs, now) {
        Some(status) => status,
        None => pause_status(rs, now),
    }
}

fn plain(status: &str, description: &str) -> (r: CircadianStatus)
    ensures
        r@ == plain_status(status@, description@),
{
    CircadianStatus {
        status: status.to_owned(),
        remaining_mins: None,
        remaining: None,
        remaining_secs: None,
        description: description.to_owned(),
    }
}

/// Tells how a room stands to the curve.
pub fn describe_circadian_status(rs: &RoomState, now: Instant) -> (r: CircadianStatus)
    ensures
        r@ == status_of(*rs, now),
{
    if rs.update_source == UpdateSource::Manual {
        match rs.manual_override_until {
            Some(until) => if now.nanos < until.nanos {
                let secs: u64 = seconds_until(now, until);
                let mins: u64 = secs / 60;
                let r = CircadianStatus {
                    status: "manual_override".to_owned(),
                    remaining_mins: Some(mins),
                    remaining: None,
                    remaining_secs: None,
                    description: cat3(
                        "Manual override active — circadian auto-resumes in ",
                        decimal_string(mins).as_str(),
                        "m",
                    ),
                };
                return r;
            },
            None => if !rs.circadian_paused {
                return plain(
                    "manual_override",
                    "Manual override active indefinitely — use resume_circadian to re-enable",
                );
            },
        }
    }
    if !rs.circadian_paused {
        return plain("active", "Circadian rhythm is active — lights adjust automatically");
    }
    match rs.circadian_paused_until {
        Some(until) => if now.nanos >= until.nanos {
            plain("active", "Circadian snooze has expired — will resume on next cycle")
        } else {
            let secs: u64 = seconds_until(now, until);
            let text: String = hours_and_minutes_text(secs / 60);
            let description: String = cat2(
                "Circadian snoozed — auto-resumes in ",
                text.as_str(),
            );
            CircadianStatus {
                status: "snoozed".to_owned(),
                remaining_mins: None,
                remaining: Some(text),
                remaining_secs: Some(secs),
                description,
            }
        },
        None => plain(
            "paused",
            "Circadian paused indefinitely — use resume_circadian to re-enable",
        ),
    }
}

/// The curve is told to be in charge of a room exactly where neither a pause nor a manual override
/// that is in force keeps it away, apart from an override without an end in a room that is also
/// paused, of which only the pause is told.
pub proof fn law_status_tells_who_is_in_charge(rs: RoomState, now: Instant)
    requires
        !(rs.update_source == UpdateSource::Manual && rs.manual_override_until is None
            && rs.circadian_paused),
    ensures
        status_of(rs, now).status == "active"@ <==> !rs.circadian_paused_at(now)
            && !rs.manual_override_at(now),
{
    reveal_strlit("active");
    reveal_strlit("manual_override");
    reveal_strlit("snoozed");
    reveal_strlit("paused");
    assert("active"@.len() == 6);
    assert("paused"@[0] != "active"@[0]);
}

/// The name under which a room is shown.
pub open spec fn shown_name(config: AppConfig, room_id: Seq<char>) -> Seq<char> {
    match config.rooms.lookup(room_id) {
        Some(room) => match room.display_name {
            Some(name) => name@,
            None => room_id,
        },
        None => room_id,
    }
}

pub fn display_name(config: &AppConfig, room_id: &str) -> (r: String)
    ensures
        r@ == shown_name(*config, room_id@),
{
    match config.rooms.get(room_id) {
        Some(room) => match &room.display_name {
            Some(name) => name.clone(),
            None => room_id.to_owned(),
        },
        None => room_id.to_owned(),
    }
}

/// The ids of all rooms, in order.
pub open spec fn room_ids(config: AppConfig) -> Seq<Seq<char>> {
    config.rooms.entries_seq().map_values(|e: (String, RoomConfig)| e.0@)
}

/// What is said about a room that nobody configured.
pub open spec fn unknown_room_text(config: AppConfig, room_id: Seq<char>) -> Seq<char> {
    "Room '"@ + room_id + "' not found. Available rooms: "@ + joined(room_ids(config), ", "@)
}

/// What is said about a room that nobody configured; nothing about one that somebody did.
pub fn validate_room(config: &AppConfig, room_id: &str) -> (r: Option<String>)
    ensures
        r is None == config.rooms@.contains_key(room_id@),
        r matches Some(message) ==> message@ == unknown_room_text(*config, room_id@),
{
    if config.rooms.contains_key(room_id) {
        return None;
    }
    let mut ids: Vec<String> = Vec::new();
    let n: usize = config.rooms.len();
    let mut i: usize = 0;
    while i < n
        invariant
            i <= n == config.rooms.entries_seq().len(),
            ids@.len() == i,
            forall|j: int|
                0 <= j < i ==> (#[trigger] ids@[j]) == config.rooms.entries_seq()[j].0,
        decreases n - i,
    {
        ids.push(config.rooms.key_at(i).clone());
        i = i + 1;
    }
    assert(ids@.map_values(|s: String| s@) =~= room_ids(*config));
    Some(
        cat4(
            "Room '",
            room_id,
            "' not found. Available rooms: ",
            join(&ids, ", ").as_str(),
        ),
    )
}

/// When a manual override ends, and how many minutes that is said to be.
#[derive(Clone, Copy, Debug, PartialEq, Eq, Structural)]
pub struct OverrideTtl {
    pub after: Duration,
    pub rounded_mins: u32,
}

/// How long the curve is snoozed, and how that is said: from one hour on in hours and minutes,
/// below in minutes.
#[derive(Clone, Copy, Debug, PartialEq, Eq, Structural)]
pub struct Snooze {
    pub after: Duration,
    pub at_least_one_hour: bool,
    pub whole_hours: u32,
    pub mins_beyond: u32,
    pub total_mins: u32,
}

/// The end of a span that starts at `now` can be represented.
pub open spec fn span_fits(now: Instant, after: Duration) -> bool {
    now.nanos + after.nanos <= u128::MAX
}

/// The end of an override that starts at `now` can be represented.
pub open spec fn ttl_fits(now: Instant, ttl: Option<OverrideTtl>) -> bool {
    ttl matches Some(t) ==> span_fits(now, t.after)
}

/// When an override that starts at `now` ends.
pub open spec fn ttl_end(now: Instant, ttl: Option<OverrideTtl>) -> Option<Instant> {
    match ttl {
        Some(t) => Some(Instant { nanos: (now.nanos + t.after.nanos) as u128 }),
        None => None,
    }
}

/// When an override that starts at `now` ends.
pub fn override_end_at(now: Instant, ttl: Option<OverrideTtl>) -> (r: Option<Instant>)
    requires
        ttl_fits(now, ttl),
    ensures
        r == ttl_end(now, ttl),
{
    match ttl {
        Some(t) => Some(Instant { nanos: now.nanos + t.after.nanos }),
        None => None,
    }
}

/// How long a snooze is said to be.
pub open spec fn snooze_text(snooze: Snooze) -> Seq<char> {
    if snooze.at_least_one_hour {
        if snooze.mins_beyond > 0 {
            decimal(snooze.whole_hours as nat) + "h "@ + decimal(snooze.mins_beyond as nat) + "m"@
        } else {
            decimal(snooze.whole_hours as nat) + "h"@
        }
    } else {
        decimal(snooze.total_mins as nat) + "m"@
    }
}

/// How long a snooze is said to be.
pub fn snooze_duration_text(snooze: Snooze) -> (r: String)
    ensures
        r@ == snooze_text(snooze),
{
    if snooze.at_least_one_hour {
        if snooze.mins_beyond > 0 {
            cat4(
                decimal_string(snooze.whole_hours as u64).as_str(),
                "h ",
                decimal_string(snooze.mins_beyond as u64).as_str(),
                "m",
            )
        } else {
            cat2(decimal_string(snooze.whole_hours as u64).as_str(), "h")
        }
    } else {
        cat2(decimal_string(snooze.total_mins as u64).as_str(), "m")
    }
}

/// The answer to a request that was granted: what was done, in which room. Absent parts are left
/// out. `S` is the type of its texts.
#[derive(Clone, Debug)]
pub struct Granted<S = String> {
    pub room: S,
    pub circadian: Option<S>,
    pub duration: Option<S>,
    pub scene: Option<S>,
    pub brightness: Option<u8>,
    pub color_temp_k: Option<u16>,
    pub z2m_scene: Option<S>,
    pub scene_id: Option<u16>,
    pub night_mode: Option<bool>,
    pub description: Option<S>,
}

impl View for Granted<String> {
    type V = Granted<Seq<char>>;

    open spec fn view(&self) -> Granted<Seq<char>> {
        Granted {
            room: self.room@,
            circadian: opt_view(self.circadian),
            duration: opt_view(self.duration),
            scene: opt_view(self.scene),
            brightness: self.brightness,
            color_temp_k: self.color_temp_k,
            z2m_scene: opt_view(self.z2m_scene),
            scene_id: self.scene_id,
            night_mode: self.night_mode,
            description: opt_view(self.description),
        }
    }
}

/// An answer that says no more than what was done.
pub open spec fn granted(room: Seq<char>, description: Seq<char>) -> Granted<Seq<char>> {
    Granted {
        room,
        circadian: None,
        duration: None,
        scene: None,
        brightness: None,
        color_temp_k: None,
        z2m_scene: None,
        scene_id: None,
        night_mode: None,
        description: Some(description),
    }
}

/// An answer that says no more than what was done.
pub fn grant(room: &str, description: String) -> (r: Granted)
    ensures
        r@ == granted(room@, description@),
{
    Granted {
        room: room.to_owned(),
        circadian: None,
        duration: None,
        scene: None,
        brightness: None,
        color_temp_k: None,
        z2m_scene: None,
        scene_id: None,
        night_mode: None,
        description: Some(description),
    }
}

/// What is said once lights were turned on.
pub open spec fn light_on_text(
    name: Seq<char>,
    brightness: Option<u8>,
    color_temp_k: Option<u16>,
    ttl: Option<OverrideTtl>,
) -> Seq<char> {
    let manual = brightness is Some || color_temp_k is Some;
    name + " lights turned on"@ + (match brightness {
        Some(b) => ", brightness="@ + decimal(b as nat),
        None => Seq::empty(),
    }) + (match color_temp_k {
        Some(k) => ", color_temp="@ + decimal(k as nat) + "K"@,
        None => Seq::empty(),
    }) + (if !manual {
        Seq::empty()
    } else {
        match ttl {
            Some(t) => " (manual override — circadian auto-resumes in "@ + decimal(
                t.rounded_mins as nat,
            ) + "m)"@,
            None => " (manual override — use resume_circadian to re-enable auto)"@,
        }
    })
}

/// What is said once lights were turned on.
pub fn describe_light_on(
    name: &str,
    brightness: Option<u8>,
    color_temp_k: Option<u16>,
    ttl: Option<OverrideTtl>,
) -> (r: String)
    ensures
        r@ == light_on_text(name@, brightness, color_temp_k, ttl),
{
    let mut out: String = cat2(name, " lights turned on");
    if let Some(b) = brightness {
        out.append(", brightness=");
        out.append(decimal_string(b as u64).as_str());
    }
    if let Some(k) = color_temp_k {
        out.append(", color_temp=");
        out.append(decimal_string(k as u64).as_str());
        out.append("K");
    }
    if brightness.is_some() || color_temp_k.is_some() {
        match ttl {
            Some(t) => {
                out.append(" (manual override — circadian auto-resumes in ");
                out.append(decimal_string(t.rounded_mins as u64).as_str());
                out.append("m)");
            },
            None => {
                out.append(" (manual override — use resume_circadian to re-enable auto)");
            },
        }
    }
    assert(out@ =~= light_on_text(name@, brightness, color_temp_k, ttl));
    out
}

/// The curve is held back until `until`, or until further notice.
pub open spec fn pause_until(id: Seq<char>, until: Option<Instant>) -> Effect<Seq<char>> {
    updates(id, RoomStateUpdate::CircadianPause { paused: true, until })
}

/// What a room's lights are turned on with: the values that were asked for, and without any where
/// the room's curve is.
pub open spec fn wanted_values(
    brightness: Option<u8>,
    color_temp_mired: Option<u16>,
    target: Option<CircadianTarget>,
) -> (Option<u8>, Option<u16>) {
    if brightness is Some || color_temp_mired is Some || target is None {
        (brightness, color_temp_mired)
    } else {
        (Some(target->0.brightness), Some(target->0.color_temp_mired))
    }
}

/// What a room's lights are turned on with.
pub fn choose_values(
    brightness: Option<u8>,
    color_temp_mired: Option<u16>,
    target: Option<CircadianTarget>,
) -> (r: (Option<u8>, Option<u16>))
    ensures
        r == wanted_values(brightness, color_temp_mired, target),
{
    if brightness.is_some() || color_temp_mired.is_some() {
        return (brightness, color_temp_mired);
    }
    match target {
        Some(t) => (Some(t.brightness), Some(t.color_temp_mired)),
        None => (None, None),
    }
}

/// What is written down once a room's lights were turned on by request. Values that somebody asked
/// for are a manual override; otherwise the curve has the room.
pub open spec fn light_on_record(
    id: Seq<char>,
    brightness: Option<u8>,
    color_temp_mired: Option<u16>,
    manual: bool,
    until: Option<Instant>,
) -> Seq<Effect<Seq<char>>> {
    seq![
        updates(
            id,
            RoomStateUpdate::LightsOn {
                brightness,
                color_temp_mired,
                source: if manual {
                    UpdateSource::Manual
                } else {
                    UpdateSource::Circadian
                },
            },
        ),
        updates(id, RoomStateUpdate::JehaPush { brightness, color_temp_mired }),
    ] + (if manual {
        seq![updates(id, RoomStateUpdate::ManualOverrideTtl { until })]
    } else {
        Seq::empty()
    })
}

/// Writes down that a room's lights were turned on by request.
pub fn record_light_on(
    plan: &mut Plan,
    room_id: &str,
    brightness: Option<u8>,
    color_temp_mired: Option<u16>,
    manual: bool,
    until: Option<Instant>,
)
    ensures
        final(plan)@ == old(plan)@ + light_on_record(
            room_id@,
            brightness,
            color_temp_mired,
            manual,
            until,
        ),
{
    let source: UpdateSource = if manual {
        UpdateSource::Manual
    } else {
        UpdateSource::Circadian
    };
    plan.update(room_id, RoomStateUpdate::LightsOn { brightness, color_temp_mired, source });
    plan.update(room_id, RoomStateUpdate::JehaPush { brightness, color_temp_mired });
    if manual {
        plan.update(room_id, RoomStateUpdate::ManualOverrideTtl { until });
    }
    assert(plan@ =~= old(plan)@ + light_on_record(
        room_id@,
        brightness,
        color_temp_mired,
        manual,
        until,
    ));
}

/// An optional color temperature in mired.
pub open spec fn opt_mired(color_temp_k: Option<u16>) -> Option<u16> {
    match color_temp_k {
        Some(k) => Some(mired(k)),
        None => None,
    }
}

pub fn to_mired(color_temp_k: Option<u16>) -> (r: Option<u16>)
    requires
        color_temp_k != Some(0u16),
    ensures
        r == opt_mired(color_temp_k),
{
    match color_temp_k {
        Some(k) => Some(kelvin_to_mired(k)),
        None => None,
    }
}

/// A room's lamps go off: the group by one command, or each lamp it lists.
pub open spec fn lamps_off(room: RoomConfig, transition: Option<u32>) -> Seq<Effect<Seq<char>>> {
    match room.z2m_group {
        Some(group) => seq![
            publishes(LightCommand::TurnOffGroup { group: group@, transition }),
        ],
        None => turn_off_all(room.lights@, transition, false),
    }
}

pub fn plan_lamps_off(plan: &mut Plan, room_config: &RoomConfig, transition: Option<u32>)
    ensures
        final(plan)@ == old(plan)@ + lamps_off(*room_config, transition),
{
    match &room_config.z2m_group {
        Some(group) => {
            plan.publish(LightCommand::TurnOffGroup { group: group.clone(), transition });
        },
        None => {
            plan.turn_off_each(&room_config.lights, transition, false);
        },
    }
    assert(plan@ =~= old(plan)@ + lamps_off(*room_config, transition));
}

/// A room's lamps go on: the group by one command, or each lamp it lists.
pub open spec fn lamps_on(
    room: RoomConfig,
    brightness: Option<u8>,
    color_temp_mired: Option<u16>,
    transition: Option<u32>,
) -> Seq<Effect<Seq<char>>> {
    match room.z2m_group {
        Some(group) => seq![
            publishes(
                LightCommand::TurnOnGroup {
                    group: group@,
                    brightness,
                    color_temp_mired,
                    transition,
                },
            ),
        ],
        None => turn_on_all(room.lights@, brightness, color_temp_mired, transition, false),
    }
}

pub fn plan_lamps_on(
    plan: &mut Plan,
    room_config: &RoomConfig,
    brightness: Option<u8>,
    color_temp_mired: Option<u16>,
    transition: Option<u32>,
)
    ensures
        final(plan)@ == old(plan)@ + lamps_on(
            *room_config,
            brightness,
            color_temp_mired,
            transition,
        ),
{
    match &room_config.z2m_group {
        Some(group) => {
            plan.publish(
                LightCommand::TurnOnGroup {
                    group: group.clone(),
                    brightness,
                    color_temp_mired,
                    transition,
                },
            );
        },
        None => {
            plan.turn_on_each(&room_config.lights, brightness, color_temp_mired, transition, false);
        },
    }
    assert(plan@ =~= old(plan)@ + lamps_on(*room_config, brightness, color_temp_mired, transition));
}

/// The group of a room suits all its members: it is known, and no member has a calibration.
pub open spec fn suits_all(config: AppConfig, state: SystemState, room: RoomConfig) -> bool {
    room.z2m_group is Some && (state.group_map.lookup(room.z2m_group->0@) matches Some(group)
        && !calibration_differs(group, config.light_calibration, state.device_map))
}

/// A room's lamps go on: the group by one command where it suits all its members, and each lamp
/// otherwise, so that calibrations apply.
pub open spec fn calibrated_lamps_on(
    config: AppConfig,
    state: SystemState,
    room: RoomConfig,
    brightness: Option<u8>,
    color_temp_mired: Option<u16>,
    transition: Option<u32>,
) -> Seq<Effect<Seq<char>>> {
    if suits_all(config, state, room) {
        seq![
            publishes(
                LightCommand::TurnOnGroup {
                    group: room.z2m_group->0@,
                    brightness,
                    color_temp_mired,
                    transition,
                },
            ),
        ]
    } else {
        turn_on_ids(room_lights(room, state), brightness, color_temp_mired, transition)
    }
}

pub fn plan_calibrated_lamps_on(
    plan: &mut Plan,
    config: &AppConfig,
    state: &SystemState,
    room_config: &RoomConfig,
    brightness: Option<u8>,
    color_temp_mired: Option<u16>,
    transition: Option<u32>,
)
    ensures
        final(plan)@ == old(plan)@ + calibrated_lamps_on(
            *config,
            *state,
            *room_config,
            brightness,
            color_temp_mired,
            transition,
        ),
{
    let mut use_group: bool = false;
    if let Some(group_name) = &room_config.z2m_group {
        if let Some(group) = state.group_map.get(group_name.as_str()) {
            use_group = !group_needs_fanout(group, &config.light_calibration, &state.device_map);
        }
        if use_group {
            plan.publish(
                LightCommand::TurnOnGroup {
                    group: group_name.clone(),
                    brightness,
                    color_temp_mired,
                    transition,
                },
            );
        }
    }
    if !use_group {
        let lights: Vec<String> = lights_for_room(room_config, state);
        plan.turn_on_each(&lights, brightness, color_temp_mired, transition, false);
        proof {
            let ids = room_lights(*room_config, *state);
            assert forall|i: int| 0 <= i < lights@.len() implies (#[trigger] lights@[i])@
                == ids[i] by {
                assert(lights@.map_values(|s: String| s@)[i] == ids[i]);
            }
            assert(turn_on_all(lights@, brightness, color_temp_mired, transition, false)
                =~= turn_on_ids(ids, brightness, color_temp_mired, transition));
        }
    }
    assert(plan@ =~= old(plan)@ + calibrated_lamps_on(
        *config,
        *state,
        *room_config,
        brightness,
        color_temp_mired,
        transition,
    ));
}

/// A predefined scene.
#[derive(Clone, Copy, Debug)]
pub struct Scene {
    pub brightness: u8,
    pub color_temp_k: u16,
    pub description: &'static str,
}

/// The predefined scenes by name.
pub open spec fn scene_named(name: Seq<char>) -> Option<Scene> {
    if name == "bright"@ {
        Some(
            Scene {
                brightness: 254,
                color_temp_k: 4000,
                description: "Full brightness, neutral white",
            },
        )
    } else if name == "relax"@ {
        Some(
            Scene {
                brightness: 150,
                color_temp_k: 2700,
                description: "Relaxed — dimmer, warm white",
            },
        )
    } else if name == "movie"@ {
        Some(
            Scene {
                brightness: 80,
                color_temp_k: 2200,
                description: "Movie mode — very dim, warm amber",
            },
        )
    } else if name == "energize"@ {
        Some(
            Scene {
                brightness: 254,
                color_temp_k: 5500,
                description: "Energize — full brightness, cool daylight",
            },
        )
    } else if name == "nightlight"@ {
        Some(
            Scene {
                brightness: 10,
                color_temp_k: 2200,
                description: "Nightlight — barely there, warm amber",
            },
        )
    } else {
        None
    }
}

/// The names of the predefined scenes.
pub open spec fn scene_list() -> Seq<&'static str> {
    seq!["bright", "relax", "movie", "energize", "nightlight"]
}

/// The name is that of a predefined scene.
pub open spec fn is_scene_name(name: Seq<char>) -> bool {
    exists|i: int| 0 <= i < scene_list().len() && (#[trigger] scene_list()[i])@ == name
}

/// The names of the predefined scenes: every one of them can be set, and no other.
pub fn scene_names() -> (r: Vec<&'static str>)
    ensures
        r@ == scene_list(),
        forall|name: Seq<char>| #[trigger] scene_named(name) is Some <==> is_scene_name(name),
{
    let names: Vec<&'static str> = vec!["bright", "relax", "movie", "energize", "nightlight"];
    proof {
        assert(names@ =~= scene_list());
        let list = scene_list();
        assert(list[0]@ == "bright"@);
        assert(list[1]@ == "relax"@);
        assert(list[2]@ == "movie"@);
        assert(list[3]@ == "energize"@);
        assert(list[4]@ == "nightlight"@);
        assert forall|name: Seq<char>| #[trigger]
            scene_named(name) is Some <==> is_scene_name(name) by {
            if is_scene_name(name) {
                let i = choose|i: int| 0 <= i < list.len() && (#[trigger] list[i])@ == name;
                assert(i == 0 || i == 1 || i == 2 || i == 3 || i == 4);
            }
        }
    }
    names
}

pub fn find_scene(name: &str) -> (r: Option<Scene>)
    ensures
        r == scene_named(name@),
{
    if same(name, "bright") {
        Some(
            Scene {
                brightness: 254,
                color_temp_k: 4000,
                description: "Full brightness, neutral white",
            },
        )
    } else if same(name, "relax") {
        Some(
            Scene {
                brightness: 150,
                color_temp_k: 2700,
                description: "Relaxed — dimmer, warm white",
            },
        )
    } else if same(name, "movie") {
        Some(
            Scene {
                brightness: 80,
                color_temp_k: 2200,
                description: "Movie mode — very dim, warm amber",
            },
        )
    } else if same(name, "energize") {
        Some(
            Scene {
                brightness: 254,
                color_temp_k: 5500,
                description: "Energize — full brightness, cool daylight",
            },
        )
    } else if same(name, "nightlight") {
        Some(
            Scene {
                brightness: 10,
                color_temp_k: 2200,
                description: "Nightlight — barely there, warm amber",
            },
        )
    } else {
        None
    }
}

/// What is said about a scene that there is not.
pub open spec fn unknown_scene_text(scene: Seq<char>) -> Seq<char> {
    "Unknown scene '"@ + scene
        + "'. Available: bright, relax, movie, energize, nightlight"@
}

pub fn describe_unknown_scene(scene: &str) -> (r: String)
    ensures
        r@ == unknown_scene_text(scene@),
{
    cat3(
        "Unknown scene '",
        scene,
        "'. Available: bright, relax, movie, energize, nightlight",
    )
}

/// How a scene is said to end.
pub open spec fn scene_end_text(ttl: Option<OverrideTtl>) -> Seq<char> {
    match ttl {
        Some(t) => " Auto-resumes in "@ + decimal(t.rounded_mins as nat) + "m."@,
        None => " Use resume_circadian to go back to automatic."@,
    }
}

/// The answer to a scene that was set.
pub open spec fn scene_granted(
    config: AppConfig,
    room_id: Seq<char>,
    name: Seq<char>,
    scene: Scene,
    ttl: Option<OverrideTtl>,
) -> Granted<Seq<char>> {
    Granted {
        scene: Some(name),
        brightness: Some(scene.brightness),
        color_temp_k: Some(scene.color_temp_k),
        ..granted(
            room_id,
            shown_name(config, room_id) + ": "@ + name + " — "@ + scene.description@
                + ". Circadian paused."@ + scene_end_text(ttl),
        )
    }
}

pub fn grant_scene(
    config: &AppConfig,
    room_id: &str,
    name: &str,
    scene: Scene,
    ttl: Option<OverrideTtl>,
) -> (r: Granted)
    ensures
        r@ == scene_granted(*config, room_id@, name@, scene, ttl),
{
    let end: String = match ttl {
        Some(t) => cat3(
            " Auto-resumes in ",
            decimal_string(t.rounded_mins as u64).as_str(),
            "m.",
        ),
        None => " Use resume_circadian to go back to automatic.".to_owned(),
    };
    let mut description: String = cat5(
        display_name(config, room_id).as_str(),
        ": ",
        name,
        " — ",
        scene.description,
    );
    description.append(". Circadian paused.");
    description.append(end.as_str());
    let mut r: Granted = grant(room_id, description);
    r.scene = Some(name.to_owned());
    r.brightness = Some(scene.brightness);
    r.color_temp_k = Some(scene.color_temp_k);
    r
}

/// What is told of a room's time: under an override that ends, the whole minutes until then; under a
/// snooze, the whole seconds. Neither is told of a room that is not held back for a while.
pub proof fn law_status_tells_the_rest(rs: RoomState, now: Instant, until: Instant)
    requires
        now.nanos < until.nanos,
        until.nanos - now.nanos < 1_000_000_000 * 0x1_0000_0000_0000_0000,
    ensures
        rs.update_source == UpdateSource::Manual && rs.manual_override_until == Some(until)
            ==> status_of(rs, now).status == "manual_override"@ && (status_of(
            rs,
            now,
        ).remaining_mins matches Some(mins) && mins * 60_000_000_000 <= until.nanos - now.nanos < (
        mins + 1) * 60_000_000_000),
        rs.update_source != UpdateSource::Manual && rs.circadian_paused
            && rs.circadian_paused_until == Some(until) ==> status_of(rs, now).status == "snoozed"@
            && (status_of(rs, now).remaining_secs matches Some(secs) && secs * 1_000_000_000
            <= until.nanos - now.nanos < (secs + 1) * 1_000_000_000),
        rs.update_source != UpdateSource::Manual && rs.circadian_paused
            && rs.circadian_paused_until is None ==> status_of(rs, now).status == "paused"@,
        rs.update_source != UpdateSource::Manual && !rs.circadian_paused ==> status_of(
            rs,
            now,
        ).status == "active"@ && status_of(rs, now).remaining_secs is None && status_of(
            rs,
            now,
        ).remaining_mins is None,
{
    let d = until.nanos - now.nanos;
    let secs = d / 1_000_000_000;
    assert(secs <= u64::MAX);
    assert(secs_until(now, until) == secs);
}

/// A room is shown under its display name, and under its id where it has none.
pub proof fn law_rooms_are_shown_by_name(config: AppConfig, id: Seq<char>)
    ensures
        config.rooms@.contains_key(id) && config.rooms@[id].display_name is Some ==> shown_name(
            config,
            id,
        ) == config.rooms@[id].display_name->0@,
        !(config.rooms@.contains_key(id) && config.rooms@[id].display_name is Some) ==> shown_name(
            config,
            id,
        ) == id,
{
}

/// A request tells a room's group, or each lamp that it lists, once, with the values as they are.
pub proof fn law_requests_reach_the_room(
    room: RoomConfig,
    brightness: Option<u8>,
    color_temp_mired: Option<u16>,
    transition: Option<u32>,
    k: int,
)
    ensures
        ({
            let on = lamps_on(room, brightness, color_temp_mired, transition);
            let off = lamps_off(room, transition);
            &&& room.z2m_group matches Some(group) ==> on.len() == 1 && off.len() == 1 && on[0] == (
            Effect::Publish {
                command: LightCommand::TurnOnGroup {
                    group: group@,
                    brightness,
                    color_temp_mired,
                    transition,
                },
                required: true,
            }) && off[0] == (Effect::Publish {
                command: LightCommand::TurnOffGroup { group: group@, transition },
                required: true,
            })
            &&& room.z2m_group is None ==> on.len() == room.lights@.len() && off.len()
                == room.lights@.len()
            &&& room.z2m_group is None && 0 <= k < room.lights@.len() ==> on[k] == (
            Effect::Publish {
                command: LightCommand::TurnOnIeee {
                    ieee: room.lights@[k]@,
                    brightness,
                    color_temp_mired,
                    transition,
                },
                required: false,
            }) && off[k] == (Effect::Publish {
                command: LightCommand::TurnOffIeee { ieee: room.lights@[k]@, transition },
                required: false,
            })
        }),
{
}

/// A group is told as one exactly where it is known and none of its members is to be moved by an
/// offset. Otherwise every lamp of the room is told: those it lists, or the members of its group.
pub proof fn law_calibrated_lamps_are_told_one_by_one(
    config: AppConfig,
    state: SystemState,
    room: RoomConfig,
    brightness: Option<u8>,
    color_temp_mired: Option<u16>,
    transition: Option<u32>,
    k: int,
)
    ensures
        ({
            let on = calibrated_lamps_on(
                config,
                state,
                room,
                brightness,
                color_temp_mired,
                transition,
            );
            let known = room.z2m_group is Some && state.group_map@.contains_key(
                room.z2m_group->0@,
            );
            let members = state.group_map@[room.z2m_group->0@].members@;
            let plain = known && forall|i: int|
                0 <= i < members.len() ==> ({
                    let ieee = (#[trigger] members[i]).ieee_address@;
                    let cal = resolved(ieee, config.light_calibration, state.device_map.lookup(ieee));
                    cal.color_temp_offset == 0 && cal.brightness_offset == 0
                });
            &&& plain ==> on.len() == 1 && on[0] == (Effect::Publish {
                command: LightCommand::TurnOnGroup {
                    group: room.z2m_group->0@,
                    brightness,
                    color_temp_mired,
                    transition,
                },
                required: true,
            })
            &&& !plain && room.lights@.len() > 0 ==> on.len() == room.lights@.len()
            &&& !plain && 0 <= k < room.lights@.len() ==> on[k] == (Effect::Publish {
                command: LightCommand::TurnOnIeee {
                    ieee: room.lights@[k]@,
                    brightness,
                    color_temp_mired,
                    transition,
                },
                required: false,
            })
            &&& !plain && room.lights@.len() == 0 && !known ==> on.len() == 0
            &&& !plain && room.lights@.len() == 0 && known ==> on.len() == members.len()
            &&& !plain && room.lights@.len() == 0 && known && 0 <= k < members.len() ==> on[k] == (
            Effect::Publish {
                command: LightCommand::TurnOnIeee {
                    ieee: members[k].ieee_address@,
                    brightness,
                    color_temp_mired,
                    transition,
                },
                required: false,
            })
        }),
{
    if room.z2m_group is Some && state.group_map@.contains_key(room.z2m_group->0@) {
        crate::calibration::law_fanout_is_for_offsets(
            state.group_map@[room.z2m_group->0@],
            config.light_calibration,
            state.device_map,
        );
    }
}

/// What is written down of lights that a request turned on: what they were told, as known and as
/// meant, and whose they are.
pub proof fn law_requests_are_written_down(
    id: Seq<char>,
    brightness: Option<u8>,
    color_temp_mired: Option<u16>,
    manual: bool,
    until: Option<Instant>,
)
    ensures
        ({
            let record = light_on_record(id, brightness, color_temp_mired, manual, until);
            &&& record.len() == (if manual {
                3int
            } else {
                2
            })
            &&& record[0] == (Effect::Update {
                room_id: id,
                update: RoomStateUpdate::LightsOn {
                    brightness,
                    color_temp_mired,
                    source: if manual {
                        UpdateSource::Manual
                    } else {
                        UpdateSource::Circadian
                    },
                },
            })
            &&& record[1] == (Effect::Update {
                room_id: id,
                update: RoomStateUpdate::JehaPush { brightness, color_temp_mired },
            })
            &&& manual ==> record[2] == (Effect::Update {
                room_id: id,
                update: RoomStateUpdate::ManualOverrideTtl { until },
            })
        }),
{
}

/// Values that were asked for are taken as they are; without any, those of the curve are, where it
/// is known.
pub proof fn law_asked_values_win(
    brightness: Option<u8>,
    color_temp_mired: Option<u16>,
    target: Option<CircadianTarget>,
)
    ensures
        brightness is Some || color_temp_mired is Some ==> wanted_values(
            brightness,
            color_temp_mired,
            target,
        ) == (brightness, color_temp_mired),
        brightness is None && color_temp_mired is None && target is Some ==> wanted_values(
            brightness,
            color_temp_mired,
            target,
        ) == (Some(target->0.brightness), Some(target->0.color_temp_mired)),
{
}

/// A span is told in whole hours and the minutes beyond them, and in minutes alone below an hour.
pub proof fn law_spans_are_told_in_hours_and_minutes(hours: nat, mins: nat)
    requires
        mins < 60,
    ensures
        hours > 0 ==> hours_and_minutes(hours * 60 + mins) == decimal(hours) + "h "@ + decimal(mins)
            + "m"@,
        hours == 0 ==> hours_and_minutes(hours * 60 + mins) == decimal(mins) + "m"@,
{
}

/// A snooze is told by its hours and the minutes beyond them from one hour on, the minutes only where
/// there are any, and by all its minutes below.
pub proof fn law_snoozes_are_told(snooze: Snooze)
    ensures
        !snooze.at_least_one_hour ==> snooze_text(snooze) == decimal(snooze.total_mins as nat)
            + "m"@,
        snooze.at_least_one_hour && snooze.mins_beyond == 0 ==> snooze_text(snooze) == decimal(
            snooze.whole_hours as nat,
        ) + "h"@,
        snooze.at_least_one_hour && snooze.mins_beyond > 0 ==> snooze_text(snooze) == decimal(
            snooze.whole_hours as nat,
        ) + "h "@ + decimal(snooze.mins_beyond as nat) + "m"@,
{
}

} // verus!
