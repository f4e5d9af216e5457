//! What is told about rooms, scenes and the system.

use vstd::prelude::*;

use crate::automation::engine::text_views;
use crate::circadian::curve::CircadianTarget;
use crate::circadian::engine::{
    config_enables, enabled_target, find_target, known_target, room_ready, CurveNow,
};
use crate::config::types::AppConfig;
use crate::control::{
    describe_circadian_status, display_name, format_duration, hours_and_minutes, opt_view,
    plain_status, shown_name, status_of, CircadianStatus,
};
use crate::state::{RoomState, SystemState, Z2mScene};
use crate::text::{
    cat4, cat5, comes_before, decimal, decimal_string, is_before, join, joined,
    lemma_before_is_asymmetric,
};
use crate::time::Instant;

verus! {

/// What is told about a room in a list. `S` is the type of its texts.
#[derive(Clone, Debug)]
pub struct RoomSummary<S = String> {
    pub room_id: S,
    pub display_name: S,
    pub lights_on: bool,
    pub brightness: Option<u8>,
    pub color_temp_mired: Option<u16>,
    /// Left out of lists that are only about the curve.
    pub occupancy: Option<bool>,
    /// Left out of lists that are only about the curve.
    pub night_mode: Option<bool>,
    /// Where the room's curve is now; only in lists about the curve, and only for rooms that
    /// follow it.
    pub target: Option<CircadianTarget>,
    pub circadian: CircadianStatus<S>,
}

impl View for RoomSummary<String> {
    type V = RoomSummary<Seq<char>>;

    open spec fn view(&self) -> RoomSummary<Seq<char>> {
        RoomSummary {
            room_id: self.room_id@,
            display_name: self.display_name@,
            lights_on: self.lights_on,
            brightness: self.brightness,
            color_temp_mired: self.color_temp_mired,
            occupancy: self.occupancy,
            night_mode: self.night_mode,
            target: self.target,
            circadian: self.circadian@,
        }
    }
}

/// The views of several summaries.
pub open spec fn summary_views(list: Seq<RoomSummary>) -> Seq<RoomSummary<Seq<char>>> {
    list.map_values(|s: RoomSummary| s@)
}

/// What is told about a room in a list: with `curve`, how the room stands to it, and otherwise also
/// what its sensors say.
pub open spec fn summary_of(
    config: AppConfig,
    id: Seq<char>,
    rs: RoomState,
    now: Instant,
    curve: Option<CurveNow>,
) -> RoomSummary<Seq<char>> {
    RoomSummary {
        room_id: id,
        display_name: shown_name(config, id),
        lights_on: rs.lights_on,
        brightness: rs.current_brightness,
        color_temp_mired: rs.current_color_temp_mired,
        occupancy: if curve is None {
            Some(rs.occupancy)
        } else {
            None
        },
        night_mode: if curve is None {
            Some(rs.night_mode_active)
        } else {
            None
        },
        target: match curve {
            Some(c) => known_target(config, id, c),
            None => None,
        },
        circadian: status_of(rs, now),
    }
}

fn summarize(
    config: &AppConfig,
    room_id: &String,
    rs: &RoomState,
    now: Instant,
    curve: Option<CurveNow>,
) -> (r: RoomSummary)
    ensures
        r@ == summary_of(*config, room_id@, *rs, now, curve),
{
    let mut occupancy: Option<bool> = None;
    let mut night_mode: Option<bool> = None;
    let mut target: Option<CircadianTarget> = None;
    match curve {
        Some(curve) => {
            target = find_target(config, room_id.as_str(), curve);
        },
        None => {
            occupancy = Some(rs.occupancy);
            night_mode = Some(rs.night_mode_active);
        },
    }
    RoomSummary {
        room_id: room_id.clone(),
        display_name: display_name(config, room_id.as_str()),
        lights_on: rs.lights_on,
        brightness: rs.current_brightness,
        color_temp_mired: rs.current_color_temp_mired,
        occupancy,
        night_mode,
        target,
        circadian: describe_circadian_status(rs, now),
    }
}

/// `x` put into a list behind everything that it does not come before.
pub open spec fn placed(
    list: Seq<RoomSummary<Seq<char>>>,
    x: RoomSummary<Seq<char>>,
) -> Seq<RoomSummary<Seq<char>>>
    decreases list.len(),
{
    if list.len() == 0 || !comes_before(x.display_name, list.last().display_name) {
        list.push(x)
    } else {
        placed(list.drop_last(), x).push(list.last())
    }
}

/// The first `n` rooms by their names.
pub open spec fn by_name(
    config: AppConfig,
    rooms: Seq<(String, RoomState)>,
    now: Instant,
    curve: Option<CurveNow>,
    n: int,
) -> Seq<RoomSummary<Seq<char>>>
    decreases n,
{
    if n <= 0 {
        Seq::empty()
    } else {
        placed(
            by_name(config, rooms, now, curve, n - 1),
            summary_of(config, rooms[n - 1].0@, rooms[n - 1].1, now, curve),
        )
    }
}

proof fn lemma_placed_at(list: Seq<RoomSummary<Seq<char>>>, x: RoomSummary<Seq<char>>, at: int)
    requires
        0 <= at <= list.len(),
        forall|j: int|
            at <= j < list.len() ==> comes_before(
                x.display_name,
                (#[trigger] list[j]).display_name,
            ),
        at > 0 ==> !comes_before(x.display_name, list[at - 1].display_name),
    ensures
        placed(list, x) == list.insert(at, x),
    decreases list.len(),
{
    if at == list.len() {
        assert(list.insert(at, x) =~= list.push(x));
    } else {
        lemma_placed_at(list.drop_last(), x, at);
        assert(list.insert(at, x) =~= list.drop_last().insert(at, x).push(list.last()));
    }
}

/// Lists what is told about the rooms, by their names.
pub fn list_rooms(
    config: &AppConfig,
    state: &SystemState,
    now: Instant,
    curve: Option<CurveNow>,
) -> (list: Vec<RoomSummary>)
    ensures
        summary_views(list@) == by_name(
            *config,
            state.rooms.entries_seq(),
            now,
            curve,
            state.rooms.entries_seq().len() as int,
        ),
{
    let mut list: Vec<RoomSummary> = Vec::new();
    let ghost rooms = state.rooms.entries_seq();
    let n: usize = state.rooms.len();
    let mut i: usize = 0;
    assert(summary_views(list@) =~= Seq::<RoomSummary<Seq<char>>>::empty());
    while i < n
        invariant
            i <= n == rooms.len(),
            rooms == state.rooms.entries_seq(),
            summary_views(list@) == by_name(*config, rooms, now, curve, i as int),
        decreases n - i,
    {
        let entry: RoomSummary = summarize(
            config,
            state.rooms.key_at(i),
            state.rooms.value_at(i),
            now,
            curve,
        );
        let ghost before = summary_views(list@);
        let mut at: usize = list.len();
        while at > 0 && is_before(
            entry.display_name.as_str(),
            list[at - 1].display_name.as_str(),
        )
            invariant
                at <= list@.len(),
                before == summary_views(list@),
                forall|j: int|
                    at <= j < before.len() ==> comes_before(
                        entry@.display_name,
                        (#[trigger] before[j]).display_name,
                    ),
            ensures
                at <= list@.len(),
                forall|j: int|
                    at <= j < before.len() ==> comes_before(
                        entry@.display_name,
                        (#[trigger] before[j]).display_name,
                    ),
                at > 0 ==> !comes_before(entry@.display_name, before[at - 1].display_name),
            decreases at,
        {
            at = at - 1;
        }
        proof {
            lemma_placed_at(before, entry@, at as int);
        }
        list.insert(at, entry);
        assert(summary_views(list@) =~= before.insert(at as int, entry@));
        i = i + 1;
    }
    list
}

/// The list is in order: nobody stands behind somebody who comes later.
pub open spec fn in_order(list: Seq<RoomSummary<Seq<char>>>) -> bool {
    forall|i: int|
        0 <= i < list.len() - 1 ==> !comes_before(
            (#[trigger] list[i + 1]).display_name,
            list[i].display_name,
        )
}

proof fn lemma_placed_in_order(list: Seq<RoomSummary<Seq<char>>>, x: RoomSummary<Seq<char>>)
    requires
        in_order(list),
    ensures
        in_order(placed(list, x)),
        placed(list, x).len() == list.len() + 1,
        placed(list, x).last() == x || (list.len() > 0 && placed(list, x).last() == list.last()),
        placed(list, x).to_multiset() == list.to_multiset().insert(x),
    decreases list.len(),
{
    broadcast use vstd::seq_lib::group_to_multiset_ensures;

    if list.len() == 0 || !comes_before(x.display_name, list.last().display_name) {
        let r = list.push(x);
        assert(placed(list, x) == r);
        assert forall|i: int| 0 <= i < r.len() - 1 implies !comes_before(
            (#[trigger] r[i + 1]).display_name,
            r[i].display_name,
        ) by {
            if i + 1 < list.len() {
                assert(r[i + 1] == list[i + 1]);
            }
        }
    } else {
        let front = list.drop_last();
        assert(list =~= front.push(list.last()));
        assert forall|i: int| 0 <= i < front.len() - 1 implies !comes_before(
            (#[trigger] front[i + 1]).display_name,
            front[i].display_name,
        ) by {
            assert(front[i + 1] == list[i + 1]);
        }
        lemma_placed_in_order(front, x);
        lemma_before_is_asymmetric(x.display_name, list.last().display_name);
        let inner = placed(front, x);
        let r = inner.push(list.last());
        assert(placed(list, x) == r);
        assert forall|i: int| 0 <= i < r.len() - 1 implies !comes_before(
            (#[trigger] r[i + 1]).display_name,
            r[i].display_name,
        ) by {
            if i + 1 < inner.len() {
                assert(r[i + 1] == inner[i + 1]);
            } else {
                assert(r[i] == inner.last());
                if front.len() > 0 && inner.last() == front.last() {
                    assert(front.last() == list[list.len() - 2]);
                    assert(!comes_before(
                        list[list.len() - 2 + 1].display_name,
                        list[list.len() - 2].display_name,
                    ));
                }
            }
        }
        assert(r.to_multiset() =~= list.to_multiset().insert(x));
    }
}

/// The rooms come out in order of their names, each once.
pub proof fn law_rooms_come_by_name(
    config: AppConfig,
    rooms: Seq<(String, RoomState)>,
    now: Instant,
    curve: Option<CurveNow>,
    n: int,
)
    requires
        0 <= n <= rooms.len(),
    ensures
        in_order(by_name(config, rooms, now, curve, n)),
        by_name(config, rooms, now, curve, n).len() == n,
        by_name(config, rooms, now, curve, n).to_multiset() == rooms.take(n).map_values(
            |e: (String, RoomState)| summary_of(config, e.0@, e.1, now, curve),
        ).to_multiset(),
    decreases n,
{
    broadcast use vstd::seq_lib::group_to_multiset_ensures;

    let f = |e: (String, RoomState)| summary_of(config, e.0@, e.1, now, curve);
    if n == 0 {
        assert(rooms.take(0).map_values(f) =~= Seq::<RoomSummary<Seq<char>>>::empty());
    } else {
        law_rooms_come_by_name(config, rooms, now, curve, n - 1);
        let x = summary_of(config, rooms[n - 1].0@, rooms[n - 1].1, now, curve);
        lemma_placed_in_order(by_name(config, rooms, now, curve, n - 1), x);
        assert(rooms.take(n).map_values(f) =~= rooms.take(n - 1).map_values(f).push(x));
    }
}

/// What is told about the rooms, by their names.
pub fn get_rooms(config: &AppConfig, state: &SystemState, now: Instant) -> (r: Vec<RoomSummary>)
    ensures
        summary_views(r@) == by_name(
            *config,
            state.rooms.entries_seq(),
            now,
            None,
            state.rooms.entries_seq().len() as int,
        ),
{
    list_rooms(config, state, now, None)
}

/// How the rooms stand to the curve, by their names: where it is now for each of them, and whether
/// it is held back.
pub fn get_circadian_status(
    config: &AppConfig,
    state: &SystemState,
    now: Instant,
    curve: CurveNow,
) -> (r: Vec<RoomSummary>)
    ensures
        summary_views(r@) == by_name(
            *config,
            state.rooms.entries_seq(),
            now,
            Some(curve),
            state.rooms.entries_seq().len() as int,
        ),
{
    list_rooms(config, state, now, Some(curve))
}

/// The status of a room that follows the curve tells what its lights should show now, wherever that
/// can be worked out.
pub proof fn law_status_tells_the_target(
    config: AppConfig,
    id: Seq<char>,
    rs: RoomState,
    now: Instant,
    curve: CurveNow,
)
    requires
        config_enables(config, id),
        room_ready(config, config.rooms@[id], id, curve.minutes, *curve.eased),
    ensures
        summary_of(config, id, rs, now, Some(curve)).target == enabled_target(
            config,
            id,
            curve.minutes,
            *curve.eased,
        ),
        summary_of(config, id, rs, now, Some(curve)).target is Some,
{
}

/// Settings of a room that are told along with its state.
#[derive(Clone, Debug)]
pub struct RoomSettings {
    pub motion_timeout_secs: Option<u64>,
    pub remotes: Vec<String>,
    pub circadian_enabled: bool,
}

/// What is told about a single room.
#[derive(Clone, Debug)]
pub struct RoomDetail {
    pub summary: RoomSummary,
    pub z2m_group: Option<String>,
    pub has_motion_sensor: bool,
    /// Left out of short answers.
    pub settings: Option<RoomSettings>,
}

/// The group of a room, where it has one.
pub open spec fn group_of(config: AppConfig, id: Seq<char>) -> Option<Seq<char>> {
    match config.rooms.lookup(id) {
        Some(room) => opt_view(room.z2m_group),
        None => None,
    }
}

/// The settings are those of the room, or those of a room that nobody configured.
pub open spec fn tells_settings(s: RoomSettings, config: AppConfig, id: Seq<char>) -> bool {
    match config.rooms.lookup(id) {
        Some(room) => s.motion_timeout_secs == room.motion_timeout(
            config.general.motion_timeout_secs,
        ) && text_views(s.remotes@) == text_views(room.remotes@) && s.circadian_enabled
            == room.circadian_enabled,
        None => s.motion_timeout_secs is None && s.remotes@.len() == 0 && s.circadian_enabled,
    }
}

/// The detail tells what is known of the room `id`, whose summary is `summary`.
pub open spec fn tells(
    detail: RoomDetail,
    config: AppConfig,
    id: Seq<char>,
    summary: RoomSummary<Seq<char>>,
) -> bool {
    &&& detail.summary@ == summary
    &&& opt_view(detail.z2m_group) == group_of(config, id)
    &&& detail.has_motion_sensor == (config.rooms.lookup(id) matches Some(room)
        && room.motion_sensor is Some)
}

/// A room in which the curve is switched off.
pub open spec fn is_disabled(config: AppConfig, id: Seq<char>) -> bool {
    config.rooms.lookup(id) matches Some(room) && !room.circadian_enabled
}

/// The summary in the long answer about a room; a room in which the curve is switched off says so.
pub open spec fn long_summary(config: AppConfig, id: Seq<char>, rs: RoomState, now: Instant) -> RoomSummary<
    Seq<char>,
> {
    let summary = summary_of(config, id, rs, now, None);
    if is_disabled(config, id) {
        RoomSummary {
            circadian: plain_status(
                "disabled"@,
                "Circadian is disabled for this room in config"@,
            ),
            ..summary
        }
    } else {
        summary
    }
}

fn copy_texts(texts: &Vec<String>) -> (r: Vec<String>)
    ensures
        text_views(r@) == text_views(texts@),
{
    let mut out: Vec<String> = Vec::new();
    let mut i: usize = 0;
    while i < texts.len()
        invariant
            i <= texts@.len(),
            out@.len() == i,
            forall|j: int| 0 <= j < i ==> (#[trigger] out@[j]) == texts@[j],
        decreases texts.len() - i,
    {
        out.push(texts[i].clone());
        i = i + 1;
    }
    assert(text_views(out@) =~= text_views(texts@));
    out
}

fn copy_text(text: &Option<String>) -> (r: Option<String>)
    ensures
        r == *text,
{
    match text {
        Some(s) => Some(s.clone()),
        None => None,
    }
}

/// The short answer about a room; nothing where it is not known.
pub fn room_detail(config: &AppConfig, state: &SystemState, now: Instant, room_id: &str) -> (r:
    Option<RoomDetail>)
    ensures
        r is Some == state.rooms@.contains_key(room_id@),
        r matches Some(detail) ==> detail.settings is None && tells(
            detail,
            *config,
            room_id@,
            summary_of(*config, room_id@, state.rooms@[room_id@], now, None),
        ),
{
    let rs: &RoomState = match state.rooms.get(room_id) {
        Some(rs) => rs,
        None => {
            return None;
        },
    };
    let id: String = room_id.to_owned();
    let summary: RoomSummary = summarize(config, &id, rs, now, None);
    match config.rooms.get(room_id) {
        Some(room) => Some(
            RoomDetail {
                summary,
                z2m_group: copy_text(&room.z2m_group),
                has_motion_sensor: room.motion_sensor.is_some(),
                settings: None,
            },
        ),
        None => Some(
            RoomDetail { summary, z2m_group: None, has_motion_sensor: false, settings: None },
        ),
    }
}

/// The long answer about a room; nothing where it is not known.
pub fn room_detail_with_settings(
    config: &AppConfig,
    state: &SystemState,
    now: Instant,
    room_id: &str,
) -> (r: Option<RoomDetail>)
    ensures
        r is Some == state.rooms@.contains_key(room_id@),
        r matches Some(detail) ==> detail.settings is Some && tells_settings(
            detail.settings->0,
            *config,
            room_id@,
        ) && tells(
            detail,
            *config,
            room_id@,
            long_summary(*config, room_id@, state.rooms@[room_id@], now),
        ),
{
    let mut detail: RoomDetail = match room_detail(config, state, now, room_id) {
        Some(detail) => detail,
        None => {
            return None;
        },
    };
    match config.rooms.get(room_id) {
        Some(room) => {
            if !room.circadian_enabled {
                detail.summary.circadian = CircadianStatus {
                    status: "disabled".to_owned(),
                    remaining_mins: None,
                    remaining: None,
                    remaining_secs: None,
                    description: "Circadian is disabled for this room in config".to_owned(),
                };
            }
            detail.settings = Some(
                RoomSettings {
                    motion_timeout_secs: room.effective_motion_timeout(
                        config.general.motion_timeout_secs,
                    ),
                    remotes: copy_texts(&room.remotes),
                    circadian_enabled: room.circadian_enabled,
                },
            );
        },
        None => {
            detail.settings = Some(
                RoomSettings {
                    motion_timeout_secs: None,
                    remotes: Vec::new(),
                    circadian_enabled: true,
                },
            );
        },
    }
    Some(detail)
}

/// How the system is doing. `S` is the type of its texts.
#[derive(Clone, Debug)]
pub struct SystemStatus<S = String> {
    pub mqtt_connected: bool,
    pub z2m_online: bool,
    pub uptime: S,
    pub uptime_secs: u64,
    pub device_count: usize,
    pub group_count: usize,
    pub room_count: usize,
    pub description: S,
}

/// The system in one sentence.
pub open spec fn system_text(
    mqtt_connected: bool,
    z2m_online: bool,
    uptime: Seq<char>,
    device_count: nat,
    group_count: nat,
    room_count: nat,
) -> Seq<char> {
    "MQTT "@ + (if mqtt_connected {
        "connected"@
    } else {
        "disconnected"@
    }) + ", Zigbee2MQTT "@ + (if z2m_online {
        "online"@
    } else {
        "offline"@
    }) + ", up for "@ + uptime + " with "@ + decimal(device_count) + " devices, "@ + decimal(
        group_count,
    ) + " groups and "@ + decimal(room_count) + " rooms"@
}

/// Whole seconds since the start, as many as 64 bits hold.
pub open spec fn uptime_of(state: SystemState, now: Instant) -> int {
    match state.started_at {
        Some(start) => crate::control::secs_until(start, now),
        None => 0,
    }
}

/// The status tells how the system is doing.
pub open spec fn tells_system(status: SystemStatus, state: SystemState, now: Instant) -> bool {
    &&& status.mqtt_connected == state.mqtt_connected
    &&& status.z2m_online == state.z2m_online
    &&& status.uptime_secs == uptime_of(state, now)
    &&& status.uptime@ == hours_and_minutes((uptime_of(state, now) / 60) as nat)
    &&& status.device_count == state.device_map.entries_seq().len()
    &&& status.group_count == state.group_map.entries_seq().len()
    &&& status.room_count == state.rooms.entries_seq().len()
    &&& status.description@ == system_text(
        state.mqtt_connected,
        state.z2m_online,
        status.uptime@,
        status.device_count as nat,
        status.group_count as nat,
        status.room_count as nat,
    )
}

/// How the system is doing.
pub fn get_system_status(state: &SystemState, now: Instant) -> (r: SystemStatus)
    ensures
        tells_system(r, *state, now),
{
    let uptime_secs: u64 = match state.started_at {
        Some(start) => crate::control::seconds_until(start, now),
        None => 0,
    };
    let uptime: String = format_duration(uptime_secs);
    let mut description: String = cat4(
        "MQTT ",
        if state.mqtt_connected {
            "connected"
        } else {
            "disconnected"
        },
        ", Zigbee2MQTT ",
        if state.z2m_online {
            "online"
        } else {
            "offline"
        },
    );
    description.append(", up for ");
    description.append(uptime.as_str());
    description.append(" with ");
    description.append(decimal_string(state.device_map.len() as u64).as_str());
    description.append(" devices, ");
    description.append(decimal_string(state.group_map.len() as u64).as_str());
    description.append(" groups and ");
    description.append(decimal_string(state.rooms.len() as u64).as_str());
    description.append(" rooms");
    SystemStatus {
        mqtt_connected: state.mqtt_connected,
        z2m_online: state.z2m_online,
        uptime,
        uptime_secs,
        device_count: state.device_map.len(),
        group_count: state.group_map.len(),
        room_count: state.rooms.len(),
        description,
    }
}

/// The scenes that a room's group has stored.
#[derive(Clone, Debug)]
pub struct SceneList {
    pub room: String,
    pub z2m_group: Option<String>,
    pub scenes: Vec<Z2mScene>,
    pub description: String,
}

/// The scenes of a group; none where it is not known.
pub open spec fn stored_scenes(state: SystemState, group: Seq<char>) -> Seq<Z2mScene> {
    match state.group_map.lookup(group) {
        Some(info) => info.scenes@,
        None => Seq::empty(),
    }
}

/// Two lists name the same scenes.
pub open spec fn same_scenes(a: Seq<Z2mScene>, b: Seq<Z2mScene>) -> bool {
    a.len() == b.len() && forall|i: int|
        0 <= i < a.len() ==> (#[trigger] a[i]).id == b[i].id && a[i].name@ == b[i].name@
}

/// What is said about the scenes of a room.
pub open spec fn scenes_text(name: Seq<char>, group: Seq<char>, count: nat) -> Seq<char> {
    if count == 0 {
        "No Z2M scenes found for "@ + name + " (group '"@ + group
            + "'). Create scenes in the Z2M frontend first."@
    } else {
        name + " has "@ + decimal(count) + " Z2M scene(s) in group '"@ + group + "'"@
    }
}

/// The list is the one for a configured room.
pub open spec fn lists_scenes(
    list: SceneList,
    config: AppConfig,
    state: SystemState,
    id: Seq<char>,
) -> bool {
    &&& list.room@ == id
    &&& opt_view(list.z2m_group) == group_of(config, id)
    &&& match group_of(config, id) {
        None => list.scenes@.len() == 0 && list.description@
            == "This room has no Z2M group — Z2M scenes require a group."@,
        Some(group) => same_scenes(list.scenes@, stored_scenes(state, group))
            && list.description@ == scenes_text(
            shown_name(config, id),
            group,
            stored_scenes(state, group).len(),
        ),
    }
}

/// Lists the scenes of a configured room's group.
pub fn list_scenes(config: &AppConfig, state: &SystemState, room_id: &str) -> (r: SceneList)
    ensures
        lists_scenes(r, *config, *state, room_id@),
{
    let group: Option<String> = match config.rooms.get(room_id) {
        Some(room) => copy_text(&room.z2m_group),
        None => None,
    };
    let group_name: String = match group {
        Some(group_name) => group_name,
        None => {
            return SceneList {
                room: room_id.to_owned(),
                z2m_group: None,
                scenes: Vec::new(),
                description: "This room has no Z2M group — Z2M scenes require a group.".to_owned(),
            };
        },
    };
    let mut scenes: Vec<Z2mScene> = Vec::new();
    if let Some(info) = state.group_map.get(group_name.as_str()) {
        let mut i: usize = 0;
        while i < info.scenes.len()
            invariant
                i <= info.scenes@.len(),
                scenes@.len() == i,
                forall|j: int|
                    0 <= j < i ==> (#[trigger] scenes@[j]).id == info.scenes@[j].id
                        && scenes@[j].name@ == info.scenes@[j].name@,
            decreases info.scenes.len() - i,
        {
            scenes.push(Z2mScene { id: info.scenes[i].id, name: info.scenes[i].name.clone() });
            i = i + 1;
        }
    }
    let name: String = display_name(config, room_id);
    let description: String = if scenes.len() == 0 {
        cat5(
            "No Z2M scenes found for ",
            name.as_str(),
            " (group '",
            group_name.as_str(),
            "'). Create scenes in the Z2M frontend first.",
        )
    } else {
        let mut text: String = cat5(
            name.as_str(),
            " has ",
            decimal_string(scenes.len() as u64).as_str(),
            " Z2M scene(s) in group '",
            group_name.as_str(),
        );
        text.append("'");
        text
    };
    SceneList { room: room_id.to_owned(), z2m_group: Some(group_name), scenes, description }
}

/// The name of the first of `scenes`, from number `from` on, that has the id.
pub open spec fn scene_name_from(scenes: Seq<Z2mScene>, id: u16, from: int) -> Option<Seq<char>>
    decreases scenes.len() - from,
{
    if from < 0 || from >= scenes.len() {
        None
    } else if scenes[from].id == id {
        Some(scenes[from].name@)
    } else {
        scene_name_from(scenes, id, from + 1)
    }
}

/// The name of the scene of a group that has the id.
pub fn scene_name(state: &SystemState, group: &str, id: u16) -> (r: Option<String>)
    ensures
        opt_view(r) == scene_name_from(stored_scenes(*state, group@), id, 0),
{
    if let Some(info) = state.group_map.get(group) {
        let mut i: usize = 0;
        while i < info.scenes.len()
            invariant
                i <= info.scenes@.len(),
                info.scenes@ == stored_scenes(*state, group@),
                scene_name_from(info.scenes@, id, 0) == scene_name_from(
                    info.scenes@,
                    id,
                    i as int,
                ),
            decreases info.scenes.len() - i,
        {
            if info.scenes[i].id == id {
                return Some(info.scenes[i].name.clone());
            }
            i = i + 1;
        }
    }
    None
}

/// How scenes are named in a list of those there are.
pub open spec fn scene_labels(scenes: Seq<Z2mScene>) -> Seq<Seq<char>> {
    scenes.map_values(|s: Z2mScene| s.name@ + " (id="@ + decimal(s.id as nat) + ")"@)
}

/// What is said about a scene id that a group does not have.
pub open spec fn unknown_scene_id_text(state: SystemState, group: Seq<char>, id: u16) -> Seq<char> {
    "Scene ID "@ + decimal(id as nat) + " not found in group '"@ + group + "'. Available: "@ + (
    if stored_scenes(state, group).len() == 0 {
        "none"@
    } else {
        joined(scene_labels(stored_scenes(state, group)), ", "@)
    })
}

/// What is said about a scene id that a group does not have.
pub fn describe_unknown_scene_id(state: &SystemState, group: &str, id: u16) -> (r: String)
    ensures
        r@ == unknown_scene_id_text(*state, group@, id),
{
    let mut labels: Vec<String> = Vec::new();
    if let Some(info) = state.group_map.get(group) {
        let mut i: usize = 0;
        while i < info.scenes.len()
            invariant
                i <= info.scenes@.len(),
                labels@.len() == i,
                forall|j: int|
                    0 <= j < i ==> (#[trigger] labels@[j])@ == scene_labels(info.scenes@)[j],
            decreases info.scenes.len() - i,
        {
            labels.push(
                cat4(
                    info.scenes[i].name.as_str(),
                    " (id=",
                    decimal_string(info.scenes[i].id as u64).as_str(),
                    ")",
                ),
            );
            i = i + 1;
        }
    }
    assert(labels@.map_values(|s: String| s@) =~= scene_labels(stored_scenes(*state, group@)));
    let available: String = if labels.len() == 0 {
        "none".to_owned()
    } else {
        join(&labels, ", ")
    };
    let mut out: String = cat5(
        "Scene ID ",
        decimal_string(id as u64).as_str(),
        " not found in group '",
        group,
        "'. Available: ",
    );
    out.append(available.as_str());
    out
}

/// A stored scene is found by its id, the first of several; there is none only where no stored scene
/// has the id.
pub proof fn law_scenes_are_found_by_id(scenes: Seq<Z2mScene>, id: u16, from: int)
    requires
        0 <= from <= scenes.len(),
    ensures
        match scene_name_from(scenes, id, from) {
            Some(name) => exists|i: int|
                from <= i < scenes.len() && (#[trigger] scenes[i]).id == id && scenes[i].name@
                    == name && forall|j: int| from <= j < i ==> (#[trigger] scenes[j]).id != id,
            None => forall|j: int| from <= j < scenes.len() ==> (#[trigger] scenes[j]).id != id,
        },
    decreases scenes.len() - from,
{
    if from < scenes.len() {
        law_scenes_are_found_by_id(scenes, id, from + 1);
        if scenes[from].id == id {
            assert(scenes[from].name@ == scenes[from].name@);
        } else if scene_name_from(scenes, id, from + 1) is Some {
            let name = scene_name_from(scenes, id, from + 1)->0;
            let i = choose|i: int|
                from + 1 <= i < scenes.len() && (#[trigger] scenes[i]).id == id && scenes[i].name@
                    == name && forall|j: int| from + 1 <= j < i ==> (#[trigger] scenes[j]).id != id;
            assert forall|j: int| from <= j < i implies (#[trigger] scenes[j]).id != id by {}
            assert(scenes[i].id == id);
        }
    }
}

/// What is told about a room is what is known of it: its lights and their values, and in full lists
/// also occupancy and night mode.
pub proof fn law_summaries_tell_what_is_known(
    config: AppConfig,
    id: Seq<char>,
    rs: RoomState,
    now: Instant,
    curve: CurveNow,
)
    ensures
        ({
            let full = summary_of(config, id, rs, now, None);
            let short = summary_of(config, id, rs, now, Some(curve));
            &&& full.room_id == id && short.room_id == id
            &&& full.lights_on == rs.lights_on && short.lights_on == rs.lights_on
            &&& full.brightness == rs.current_brightness && short.brightness
                == rs.current_brightness
            &&& full.color_temp_mired == rs.current_color_temp_mired && short.color_temp_mired
                == rs.current_color_temp_mired
            &&& full.occupancy == Some(rs.occupancy) && full.night_mode == Some(
                rs.night_mode_active,
            )
            &&& full.target is None && short.occupancy is None && short.night_mode is None
        }),
{
}

} // verus!
