//! Which rooms follow the curve at a given moment, and what their lamps are told.

use vstd::prelude::*;

use crate::calibration::{
    calibration_differs, capabilities_differ, capability, clamped, group_has_mixed_capabilities,
    group_needs_fanout, range_ok, resolve_for_device, resolved, ResolvedCalibration,
};
use crate::circadian::curve::{
    compute_target, minutes_or_zero, parse_time_to_minutes, CircadianParams, CircadianTarget,
    Eased, Phase,
};
use crate::config::defaults::pick;
use crate::config::types::{AppConfig, CircadianDefaults, RoomConfig};
use crate::effect::{publishes, updates, Effect, LightCommand, Plan};
use crate::event::Event;
use crate::mqtt::publish::device_color_temp;
use crate::names::NameMap;
use crate::schedule::{hm_minutes, TimeProblem};
use crate::state::{
    RoomState, RoomStateUpdate, SystemState, UpdateSource, Z2mDeviceInfo, Z2mGroupInfo,
    Z2mGroupMember,
};
use crate::time::Instant;

verus! {

/// The curve of a room: its own settings, and the defaults where it has none.
pub open spec fn room_params(config: AppConfig, room: RoomConfig) -> CircadianParams {
    let d = room.circadian_settings(config.circadian.defaults);
    CircadianParams {
        wake_minutes: minutes_or_zero(d.wake_time@),
        sleep_minutes: minutes_or_zero(d.sleep_time@),
        ramp_duration_mins: d.ramp_duration_mins,
        start_temp_k: d.start_temp_k,
        peak_temp_k: d.peak_temp_k,
        end_temp_k: d.end_temp_k,
        start_brightness: d.start_brightness,
        peak_brightness: d.peak_brightness,
        end_brightness: d.end_brightness,
        curve: d.curve,
    }
}

pub fn params_for_room(config: &AppConfig, room_config: &RoomConfig) -> (r: CircadianParams)
    ensures
        r == room_params(*config, *room_config),
        r.wake_minutes < 1440,
        r.sleep_minutes < 1440,
{
    let d: CircadianDefaults = room_config.effective_circadian(&config.circadian.defaults);
    CircadianParams {
        wake_minutes: parse_time_to_minutes(d.wake_time.as_str()),
        sleep_minutes: parse_time_to_minutes(d.sleep_time.as_str()),
        ramp_duration_mins: d.ramp_duration_mins,
        start_temp_k: d.start_temp_k,
        peak_temp_k: d.peak_temp_k,
        end_temp_k: d.end_temp_k,
        start_brightness: d.start_brightness,
        peak_brightness: d.peak_brightness,
        end_brightness: d.end_brightness,
        curve: d.curve,
    }
}

/// The minute of the day, and the interpolated values of the rooms that are on a ramp then.
#[derive(Clone, Copy)]
pub struct CurveNow<'a> {
    pub minutes: u32,
    pub eased: &'a NameMap<Eased>,
}

/// The values that were handed in for a room; what stands for them where there are none is never
/// looked at.
pub open spec fn handed_in(eased: NameMap<Eased>, id: Seq<char>) -> Eased {
    pick(eased.lookup(id), Eased { temp_k: 1, brightness: 0 })
}

/// The room's curve can be reckoned with at minute `minutes`, and its interpolated values are at
/// hand where it is on a ramp then.
pub open spec fn room_ready(
    config: AppConfig,
    room: RoomConfig,
    id: Seq<char>,
    minutes: u32,
    eased: NameMap<Eased>,
) -> bool {
    &&& room_params(config, room).in_limits(minutes, handed_in(eased, id))
    &&& room_params(config, room).phase(minutes) is Ramp ==> eased@.contains_key(id)
}

/// Whether a room's curve can be reckoned with, and a ramp has its values.
pub fn check_room(
    config: &AppConfig,
    room_config: &RoomConfig,
    room_id: &str,
    minutes: u32,
    eased: &NameMap<Eased>,
) -> (r: bool)
    ensures
        r == room_ready(*config, *room_config, room_id@, minutes, *eased),
{
    let params: CircadianParams = params_for_room(config, room_config);
    if params.ramp_duration_mins > u32::MAX - params.wake_minutes {
        return false;
    }
    match params.phase_at(minutes) {
        Phase::Night => params.end_temp_k > 0,
        Phase::Ramp(_) => match eased.get(room_id) {
            Some(values) => values.temp_k > 0,
            None => false,
        },
        Phase::Day => params.peak_temp_k > 0,
    }
}

/// What a room's lights should show at minute `minutes`.
pub open spec fn room_target(
    config: AppConfig,
    id: Seq<char>,
    room: RoomConfig,
    minutes: u32,
    eased: NameMap<Eased>,
) -> CircadianTarget {
    room_params(config, room).target(minutes, handed_in(eased, id))
}

fn target_for_room(
    config: &AppConfig,
    room_id: &str,
    room_config: &RoomConfig,
    minutes: u32,
    eased: &NameMap<Eased>,
) -> (r: CircadianTarget)
    requires
        room_ready(*config, *room_config, room_id@, minutes, *eased),
    ensures
        r == room_target(*config, room_id@, *room_config, minutes, *eased),
{
    let params: CircadianParams = params_for_room(config, room_config);
    let values: Eased = match eased.get(room_id) {
        Some(values) => *values,
        None => Eased { temp_k: 1, brightness: 0 },
    };
    compute_target(&params, minutes, values)
}

/// The room is configured and follows the curve.
pub open spec fn config_enables(config: AppConfig, id: Seq<char>) -> bool {
    config.rooms@.contains_key(id) && config.rooms@[id].circadian_enabled
}

/// What a room's lights should show; nothing for an unknown room and for one that does not follow
/// the curve.
pub open spec fn enabled_target(
    config: AppConfig,
    id: Seq<char>,
    minutes: u32,
    eased: NameMap<Eased>,
) -> Option<CircadianTarget> {
    if config_enables(config, id) {
        Some(room_target(config, id, config.rooms@[id], minutes, eased))
    } else {
        None
    }
}

/// [`enabled_target`], as far as the room's curve can be reckoned with.
pub open spec fn known_target(config: AppConfig, id: Seq<char>, curve: CurveNow) -> Option<
    CircadianTarget,
> {
    if config_enables(config, id) && room_ready(
        config,
        config.rooms@[id],
        id,
        curve.minutes,
        *curve.eased,
    ) {
        enabled_target(config, id, curve.minutes, *curve.eased)
    } else {
        None
    }
}

/// What a room's lights should show, as far as its curve can be reckoned with; nothing for an
/// unknown room and for one that does not follow the curve.
pub fn find_target(config: &AppConfig, room_id: &str, curve: CurveNow) -> (r: Option<
    CircadianTarget,
>)
    ensures
        r == known_target(*config, room_id@, curve),
{
    let minutes: u32 = curve.minutes;
    let eased = curve.eased;
    match config.rooms.get(room_id) {
        Some(room_config) => if room_config.circadian_enabled && check_room(
            config,
            room_config,
            room_id,
            minutes,
            eased,
        ) {
            Some(target_for_room(config, room_id, room_config, minutes, eased))
        } else {
            None
        },
        None => None,
    }
}

/// The larger of a bound and another one, where it is there.
pub open spec fn raised(bound: Option<u16>, to: Option<u16>) -> Option<u16> {
    match (bound, to) {
        (Some(a), Some(b)) => Some(
            if a >= b {
                a
            } else {
                b
            },
        ),
        (None, b) => b,
        (a, None) => a,
    }
}

/// The smaller of a bound and another one, where it is there.
pub open spec fn lowered(bound: Option<u16>, to: Option<u16>) -> Option<u16> {
    match (bound, to) {
        (Some(a), Some(b)) => Some(
            if a <= b {
                a
            } else {
                b
            },
        ),
        (None, b) => b,
        (a, None) => a,
    }
}

/// The highest lower bound among the first `n` members that can show color temperatures.
pub open spec fn members_min(
    members: Seq<Z2mGroupMember>,
    devices: NameMap<Z2mDeviceInfo>,
    n: int,
) -> Option<u16>
    decreases n,
{
    if n <= 0 {
        None
    } else {
        let rest = members_min(members, devices, n - 1);
        match devices.lookup(members[n - 1].ieee_address@) {
            Some(d) => if d.supports_color_temp {
                raised(rest, d.color_temp_min)
            } else {
                rest
            },
            None => rest,
        }
    }
}

/// The lowest upper bound among the first `n` members that can show color temperatures.
pub open spec fn members_max(
    members: Seq<Z2mGroupMember>,
    devices: NameMap<Z2mDeviceInfo>,
    n: int,
) -> Option<u16>
    decreases n,
{
    if n <= 0 {
        None
    } else {
        let rest = members_max(members, devices, n - 1);
        match devices.lookup(members[n - 1].ieee_address@) {
            Some(d) => if d.supports_color_temp {
                lowered(rest, d.color_temp_max)
            } else {
                rest
            },
            None => rest,
        }
    }
}

/// A color temperature moved into the range that two optional bounds leave; unchanged where they
/// leave none.
pub open spec fn within_bounds(mired: u16, low: Option<u16>, high: Option<u16>) -> u16 {
    match (low, high) {
        (Some(min), Some(max)) => if min <= max {
            clamped(mired as int, min as int, max as int) as u16
        } else {
            mired
        },
        (Some(min), None) => if mired < min {
            min
        } else {
            mired
        },
        (None, Some(max)) => if mired > max {
            max
        } else {
            mired
        },
        (None, None) => mired,
    }
}

/// A color temperature that every member of a group can show, as far as there is one.
pub open spec fn group_color_temp(state: SystemState, group_name: Seq<char>, mired: u16) -> u16 {
    match state.group_map.lookup(group_name) {
        Some(group) => within_bounds(
            mired,
            members_min(group.members@, state.device_map, group.members@.len() as int),
            members_max(group.members@, state.device_map, group.members@.len() as int),
        ),
        None => mired,
    }
}

/// Clamp a color_temp mired value to the narrowest supported range of all devices in the given
/// group.
pub fn clamp_color_temp_for_group(state: &SystemState, group_name: &str, mired: u16) -> (r: u16)
    ensures
        r == group_color_temp(*state, group_name@, mired),
{
    let group = match state.group_map.get(group_name) {
        Some(group) => group,
        None => {
            return mired;
        },
    };
    let mut range_min: Option<u16> = None;
    let mut range_max: Option<u16> = None;
    let mut i: usize = 0;
    while i < group.members.len()
        invariant
            i <= group.members@.len(),
            range_min == members_min(group.members@, state.device_map, i as int),
            range_max == members_max(group.members@, state.device_map, i as int),
        decreases group.members.len() - i,
    {
        if let Some(device) = state.device_map.get(group.members[i].ieee_address.as_str()) {
            if device.supports_color_temp {
                if let Some(dev_min) = device.color_temp_min {
                    range_min = match range_min {
                        Some(cur) if cur >= dev_min => Some(cur),
                        _ => Some(dev_min),
                    };
                }
                if let Some(dev_max) = device.color_temp_max {
                    range_max = match range_max {
                        Some(cur) if cur <= dev_max => Some(cur),
                        _ => Some(dev_max),
                    };
                }
            }
        }
        i = i + 1;
    }
    match (range_min, range_max) {
        (Some(min), Some(max)) => if min <= max {
            if mired < min {
                min
            } else if mired > max {
                max
            } else {
                mired
            }
        } else {
            mired
        },
        (Some(min), None) => if mired < min {
            min
        } else {
            mired
        },
        (None, Some(max)) => if mired > max {
            max
        } else {
            mired
        },
        (None, None) => mired,
    }
}

/// A color temperature moved into a single device's range.
pub open spec fn device_clamped(state: SystemState, ieee: Seq<char>, mired: u16) -> u16 {
    match state.device_map.lookup(ieee) {
        Some(d) => clamped(
            mired as int,
            pick(d.color_temp_min, 0) as int,
            pick(d.color_temp_max, u16::MAX) as int,
        ) as u16,
        None => mired,
    }
}

/// Color temperatures can be moved into the device's range: it is no empty one, or the device is
/// not known.
pub open spec fn can_clamp(state: SystemState, ieee: Seq<char>) -> bool {
    match state.device_map.lookup(ieee) {
        Some(d) => pick(d.color_temp_min, 0) <= pick(d.color_temp_max, u16::MAX),
        None => true,
    }
}

/// Whether color temperatures can be moved into the device's range.
pub fn check_clamp(state: &SystemState, ieee: &str) -> (r: bool)
    ensures
        r == can_clamp(*state, ieee@),
{
    match state.device_map.get(ieee) {
        Some(device) => device.color_temp_min.unwrap_or(0) <= device.color_temp_max.unwrap_or(
            u16::MAX,
        ),
        None => true,
    }
}

/// Clamp a color_temp mired value to a single device's supported range.
pub fn clamp_color_temp_for_device(state: &SystemState, ieee: &str, mired: u16) -> (r: u16)
    requires
        can_clamp(*state, ieee@),
    ensures
        r == device_clamped(*state, ieee@, mired),
{
    match state.device_map.get(ieee) {
        Some(device) => {
            let min: u16 = device.color_temp_min.unwrap_or(0);
            let max: u16 = device.color_temp_max.unwrap_or(u16::MAX);
            if mired < min {
                min
            } else if mired > max {
                max
            } else {
                mired
            }
        },
        None => mired,
    }
}

/// The device can show color temperatures.
pub open spec fn shows_color_temp(state: SystemState, ieee: Seq<char>) -> bool {
    state.device_map@.contains_key(ieee) && state.device_map@[ieee].supports_color_temp
}

fn supports_color_temp(state: &SystemState, ieee: &str) -> (r: bool)
    ensures
        r == shows_color_temp(*state, ieee@),
{
    match state.device_map.get(ieee) {
        Some(device) => device.supports_color_temp,
        None => false,
    }
}

/// The lamps of a room: those it lists, or the members of its group.
pub open spec fn room_lights(room: RoomConfig, state: SystemState) -> Seq<Seq<char>> {
    if room.lights@.len() > 0 {
        room.lights@.map_values(|s: String| s@)
    } else {
        match room.z2m_group {
            Some(name) => match state.group_map.lookup(name@) {
                Some(group) => group.members@.map_values(|m: Z2mGroupMember| m.ieee_address@),
                None => Seq::empty(),
            },
            None => Seq::empty(),
        }
    }
}

/// Get all device IEEEs for a room: from its explicit lights list, or from its group's members.
pub fn lights_for_room(room_config: &RoomConfig, state: &SystemState) -> (r: Vec<String>)
    ensures
        r@.map_values(|s: String| s@) == room_lights(*room_config, *state),
{
    let mut out: Vec<String> = Vec::new();
    if room_config.lights.len() > 0 {
        let mut i: usize = 0;
        while i < room_config.lights.len()
            invariant
                i <= room_config.lights@.len(),
                out@ == room_config.lights@.take(i as int),
            decreases room_config.lights.len() - i,
        {
            out.push(room_config.lights[i].clone());
            i = i + 1;
            assert(out@ =~= room_config.lights@.take(i as int));
        }
        assert(out@ =~= room_config.lights@);
        return out;
    }
    if let Some(group_name) = &room_config.z2m_group {
        if let Some(group) = state.group_map.get(group_name.as_str()) {
            let mut i: usize = 0;
            while i < group.members.len()
                invariant
                    i <= group.members@.len(),
                    out@.len() == i,
                    forall|j: int|
                        0 <= j < i ==> (#[trigger] out@[j])@ == group.members@[j].ieee_address@,
                decreases group.members.len() - i,
            {
                out.push(group.members[i].ieee_address.clone());
                i = i + 1;
            }
            assert(out@.map_values(|s: String| s@) =~= room_lights(*room_config, *state));
            return out;
        }
    }
    assert(out@.map_values(|s: String| s@) =~= room_lights(*room_config, *state));
    out
}

/// The corrections for the first `n` members of a group: one for each member that can show color
/// temperatures and would ideally show another one than the group was told.
pub open spec fn corrections(
    config: AppConfig,
    state: SystemState,
    members: Seq<Z2mGroupMember>,
    target: CircadianTarget,
    group_ct: u16,
    transition: u32,
    n: int,
) -> Seq<Effect<Seq<char>>>
    decreases n,
{
    if n <= 0 {
        Seq::empty()
    } else {
        let rest = corrections(config, state, members, target, group_ct, transition, n - 1);
        let ieee = members[n - 1].ieee_address@;
        let device_ct = device_clamped(state, ieee, target.color_temp_mired);
        if shows_color_temp(state, ieee) && device_color_temp(
            ieee,
            device_ct,
            config,
            state.device_map,
        ) != group_ct {
            rest.push(
                publishes(
                    LightCommand::PushCircadianIeee {
                        ieee,
                        brightness: target.brightness,
                        color_temp_mired: Some(device_ct),
                        transition,
                    },
                ),
            )
        } else {
            rest
        }
    }
}

/// The group does not suit all its members: their calibrations or their capabilities differ.
pub open spec fn is_mixed(config: AppConfig, state: SystemState, group: Z2mGroupInfo) -> bool {
    calibration_differs(group, config.light_calibration, state.device_map) || capabilities_differ(
        group,
        state.device_map,
    )
}

/// The color temperature that a room is told.
pub open spec fn published_color_temp(
    state: SystemState,
    room: RoomConfig,
    target: CircadianTarget,
) -> u16 {
    match room.z2m_group {
        Some(group_name) => group_color_temp(state, group_name@, target.color_temp_mired),
        None => target.color_temp_mired,
    }
}

/// The color temperature that one lamp is told, where it can show any.
pub open spec fn lamp_color_temp(state: SystemState, ieee: Seq<char>, mired: u16) -> Option<u16> {
    if shows_color_temp(state, ieee) {
        Some(device_clamped(state, ieee, mired))
    } else {
        None
    }
}

/// The command that moves one lamp along the curve.
pub open spec fn lamp_push(
    state: SystemState,
    ieee: Seq<char>,
    target: CircadianTarget,
    transition: u32,
) -> Effect<Seq<char>> {
    publishes(
        LightCommand::PushCircadianIeee {
            ieee,
            brightness: target.brightness,
            color_temp_mired: lamp_color_temp(state, ieee, target.color_temp_mired),
            transition,
        },
    )
}

/// The commands that move a room's lamps along the curve. A group gets one command for all its
/// members, and a mixed one corrections for those it does not suit; without a group every lamp
/// gets its own.
pub open spec fn room_pushes(
    config: AppConfig,
    state: SystemState,
    room: RoomConfig,
    target: CircadianTarget,
    transition: u32,
) -> Seq<Effect<Seq<char>>> {
    match room.z2m_group {
        Some(group_name) => {
            let group_ct = group_color_temp(state, group_name@, target.color_temp_mired);
            let command = publishes(
                LightCommand::PushCircadianGroup {
                    group: group_name@,
                    brightness: target.brightness,
                    color_temp_mired: group_ct,
                    transition,
                },
            );
            match state.group_map.lookup(group_name@) {
                Some(group) => if is_mixed(config, state, group) {
                    seq![command] + corrections(
                        config,
                        state,
                        group.members@,
                        target,
                        group_ct,
                        transition,
                        group.members@.len() as int,
                    )
                } else {
                    seq![command]
                },
                None => seq![command],
            }
        },
        None => room_lights(room, state).map_values(
            |ieee: Seq<char>| lamp_push(state, ieee, target, transition),
        ),
    }
}

/// Every one of the members that can show color temperatures has a range that is not empty.
pub open spec fn members_ready(members: Seq<Z2mGroupMember>, state: SystemState) -> bool {
    forall|i: int|
        0 <= i < members.len() && shows_color_temp(
            state,
            (#[trigger] members[i]).ieee_address@,
        ) ==> range_ok(state.device_map@[members[i].ieee_address@])
}

/// The values of a room's lamps can be worked out: single lamps can be clamped, and so can the
/// members of a group that are to be corrected.
pub open spec fn lamps_ready(config: AppConfig, state: SystemState, room: RoomConfig) -> bool {
    match room.z2m_group {
        Some(group_name) => match state.group_map.lookup(group_name@) {
            Some(group) => is_mixed(config, state, group) ==> members_ready(group.members@, state),
            None => true,
        },
        None => forall|i: int|
            0 <= i < room_lights(room, state).len() && shows_color_temp(
                state,
                #[trigger] room_lights(room, state)[i],
            ) ==> can_clamp(state, room_lights(room, state)[i]),
    }
}

fn check_members(members: &Vec<Z2mGroupMember>, state: &SystemState) -> (r: bool)
    ensures
        r == members_ready(members@, *state),
{
    let mut i: usize = 0;
    while i < members.len()
        invariant
            i <= members@.len(),
            forall|j: int|
                0 <= j < i && shows_color_temp(*state, (#[trigger] members@[j]).ieee_address@)
                    ==> range_ok(state.device_map@[members@[j].ieee_address@]),
        decreases members.len() - i,
    {
        if let Some(device) = state.device_map.get(members[i].ieee_address.as_str()) {
            if device.supports_color_temp && device.color_temp_min.unwrap_or(1)
                > device.color_temp_max.unwrap_or(u16::MAX) {
                assert(shows_color_temp(*state, members@[i as int].ieee_address@));
                return false;
            }
        }
        i = i + 1;
    }
    true
}

fn check_lamps(config: &AppConfig, state: &SystemState, room_config: &RoomConfig) -> (r: bool)
    ensures
        r == lamps_ready(*config, *state, *room_config),
{
    match &room_config.z2m_group {
        Some(group_name) => match state.group_map.get(group_name.as_str()) {
            Some(group) => {
                let mixed: bool = group_needs_fanout(
                    group,
                    &config.light_calibration,
                    &state.device_map,
                ) || group_has_mixed_capabilities(group, &state.device_map);
                !mixed || check_members(&group.members, state)
            },
            None => true,
        },
        None => {
            let lights: Vec<String> = lights_for_room(room_config, state);
            let ghost ids = room_lights(*room_config, *state);
            let mut i: usize = 0;
            while i < lights.len()
                invariant
                    i <= lights@.len(),
                    lights@.map_values(|s: String| s@) == ids,
                    ids == room_lights(*room_config, *state),
                    room_config.z2m_group is None,
                    forall|j: int|
                        0 <= j < i && shows_color_temp(*state, #[trigger] ids[j]) ==> can_clamp(
                            *state,
                            ids[j],
                        ),
                decreases lights.len() - i,
            {
                assert(ids[i as int] == lights@[i as int]@);
                if supports_color_temp(state, lights[i].as_str()) && !check_clamp(
                    state,
                    lights[i].as_str(),
                ) {
                    return false;
                }
                i = i + 1;
            }
            true
        },
    }
}

fn plan_corrections(
    config: &AppConfig,
    state: &SystemState,
    members: &Vec<Z2mGroupMember>,
    target: CircadianTarget,
    group_ct: u16,
    transition: u32,
    plan: &mut Plan,
)
    requires
        members_ready(members@, *state),
    ensures
        final(plan)@ == old(plan)@ + corrections(
            *config,
            *state,
            members@,
            target,
            group_ct,
            transition,
            members@.len() as int,
        ),
{
    let ghost before = plan@;
    let mut i: usize = 0;
    assert(plan@ =~= before + Seq::<Effect<Seq<char>>>::empty());
    while i < members.len()
        invariant
            i <= members@.len(),
            members_ready(members@, *state),
            plan@ == before + corrections(
                *config,
                *state,
                members@,
                target,
                group_ct,
                transition,
                i as int,
            ),
        decreases members.len() - i,
    {
        let ieee = &members[i].ieee_address;
        if supports_color_temp(state, ieee.as_str()) {
            assert(range_ok(state.device_map@[members@[i as int].ieee_address@]));
            let device_ct: u16 = clamp_color_temp_for_device(
                state,
                ieee.as_str(),
                target.color_temp_mired,
            );
            let cal: ResolvedCalibration = resolve_for_device(
                ieee.as_str(),
                config,
                &state.device_map,
            );
            let device_info = state.device_map.get(ieee.as_str());
            if cal.apply_color_temp(device_ct, device_info) != group_ct {
                plan.publish(
                    LightCommand::PushCircadianIeee {
                        ieee: ieee.clone(),
                        brightness: target.brightness,
                        color_temp_mired: Some(device_ct),
                        transition,
                    },
                );
            }
        }
        i = i + 1;
        assert(plan@ =~= before + corrections(
            *config,
            *state,
            members@,
            target,
            group_ct,
            transition,
            i as int,
        ));
    }
}

fn plan_room_pushes(
    config: &AppConfig,
    state: &SystemState,
    room_config: &RoomConfig,
    target: CircadianTarget,
    transition: u32,
    plan: &mut Plan,
) -> (published_ct: u16)
    requires
        lamps_ready(*config, *state, *room_config),
    ensures
        final(plan)@ == old(plan)@ + room_pushes(
            *config,
            *state,
            *room_config,
            target,
            transition,
        ),
        published_ct == published_color_temp(*state, *room_config, target),
{
    let ghost before = plan@;
    match &room_config.z2m_group {
        Some(group_name) => {
            let group_ct: u16 = clamp_color_temp_for_group(
                state,
                group_name.as_str(),
                target.color_temp_mired,
            );
            plan.publish(
                LightCommand::PushCircadianGroup {
                    group: group_name.clone(),
                    brightness: target.brightness,
                    color_temp_mired: group_ct,
                    transition,
                },
            );
            if let Some(group) = state.group_map.get(group_name.as_str()) {
                let mixed: bool = group_needs_fanout(
                    group,
                    &config.light_calibration,
                    &state.device_map,
                ) || group_has_mixed_capabilities(group, &state.device_map);
                if mixed {
                    plan_corrections(
                        config,
                        state,
                        &group.members,
                        target,
                        group_ct,
                        transition,
                        plan,
                    );
                }
            }
            assert(plan@ =~= before + room_pushes(
                *config,
                *state,
                *room_config,
                target,
                transition,
            ));
            group_ct
        },
        None => {
            let lights: Vec<String> = lights_for_room(room_config, state);
            let ghost ids = room_lights(*room_config, *state);
            let ghost all = room_pushes(*config, *state, *room_config, target, transition);
            let mut i: usize = 0;
            while i < lights.len()
                invariant
                    i <= lights@.len(),
                    ids == room_lights(*room_config, *state),
                    room_config.z2m_group is None,
                    lamps_ready(*config, *state, *room_config),
                    lights@.map_values(|s: String| s@) == ids,
                    all == ids.map_values(
                        |ieee: Seq<char>| lamp_push(*state, ieee, target, transition),
                    ),
                    plan@ == before + all.take(i as int),
                decreases lights.len() - i,
            {
                let ieee = &lights[i];
                assert(ids[i as int] == lights@[i as int]@);
                let ct: Option<u16> = if supports_color_temp(state, ieee.as_str()) {
                    Some(
                        clamp_color_temp_for_device(
                            state,
                            ieee.as_str(),
                            target.color_temp_mired,
                        ),
                    )
                } else {
                    None
                };
                plan.publish(
                    LightCommand::PushCircadianIeee {
                        ieee: ieee.clone(),
                        brightness: target.brightness,
                        color_temp_mired: ct,
                        transition,
                    },
                );
                i = i + 1;
                assert(plan@ =~= before + all.take(i as int));
            }
            assert(all.take(i as int) =~= all);
            target.color_temp_mired
        },
    }
}

/// The room follows the curve as far as its configuration, its lights and night mode go.
pub open spec fn is_followed(state: SystemState, id: Seq<char>, room: RoomConfig) -> bool {
    room.circadian_enabled && state.rooms@.contains_key(id) && state.rooms@[id].lights_on
        && !state.rooms@[id].night_mode_active
}

/// A snooze that has run out is lifted.
pub open spec fn snooze_end(id: Seq<char>, rs: RoomState) -> Seq<Effect<Seq<char>>> {
    if rs.circadian_paused {
        seq![updates(id, RoomStateUpdate::CircadianPause { paused: false, until: None })]
    } else {
        Seq::empty()
    }
}

/// A manual override that has run out hands the room back to the curve.
pub open spec fn override_end(id: Seq<char>, rs: RoomState) -> Seq<Effect<Seq<char>>> {
    if rs.update_source == UpdateSource::Manual {
        seq![
            updates(
                id,
                RoomStateUpdate::LightsOn {
                    brightness: None,
                    color_temp_mired: None,
                    source: UpdateSource::Circadian,
                },
            ),
            updates(id, RoomStateUpdate::ManualOverrideTtl { until: None }),
        ]
    } else {
        Seq::empty()
    }
}

/// What is written down once a room was told its values.
pub open spec fn push_record(id: Seq<char>, brightness: u8, color_temp_mired: u16) -> Seq<
    Effect<Seq<char>>,
> {
    seq![
        updates(
            id,
            RoomStateUpdate::LightsOn {
                brightness: Some(brightness),
                color_temp_mired: Some(color_temp_mired),
                source: UpdateSource::Circadian,
            },
        ),
        updates(
            id,
            RoomStateUpdate::JehaPush {
                brightness: Some(brightness),
                color_temp_mired: Some(color_temp_mired),
            },
        ),
    ]
}

/// What one round of the engine does for a room. A room whose lights are off, that is in night
/// mode, paused, or under a manual override is left alone.
pub open spec fn room_round(
    config: AppConfig,
    state: SystemState,
    now: Instant,
    minutes: u32,
    eased: NameMap<Eased>,
    id: Seq<char>,
    room: RoomConfig,
) -> Seq<Effect<Seq<char>>> {
    let rs = state.rooms@[id];
    if !is_followed(state, id, room) || rs.circadian_paused_at(now) {
        Seq::empty()
    } else if rs.manual_override_at(now) {
        snooze_end(id, rs)
    } else {
        let target = room_target(config, id, room, minutes, eased);
        let transition = room.circadian_settings(config.circadian.defaults).transition_secs;
        snooze_end(id, rs) + override_end(id, rs) + room_pushes(
            config,
            state,
            room,
            target,
            transition,
        ) + push_record(id, target.brightness, published_color_temp(state, room, target))
    }
}

/// The room is told where the curve is in this round.
pub open spec fn is_told(state: SystemState, now: Instant, id: Seq<char>, room: RoomConfig) -> bool {
    is_followed(state, id, room) && !state.rooms@[id].circadian_paused_at(now)
        && !state.rooms@[id].manual_override_at(now)
}

fn tells_room(state: &SystemState, now: Instant, room_id: &str, room_config: &RoomConfig) -> (r:
    bool)
    ensures
        r == is_told(*state, now, room_id@, *room_config),
{
    match state.rooms.get(room_id) {
        Some(rs) => room_config.circadian_enabled && rs.lights_on && !rs.night_mode_active
            && !rs.is_circadian_paused(now) && !rs.is_manual_override_active(now),
        None => false,
    }
}

/// A room that is told where the curve is has a curve that can be reckoned with, and lamps whose
/// values can be worked out. Nothing is asked of other rooms and of other lamps.
pub open spec fn room_round_ready(
    config: AppConfig,
    state: SystemState,
    now: Instant,
    minutes: u32,
    eased: NameMap<Eased>,
    id: Seq<char>,
    room: RoomConfig,
) -> bool {
    is_told(state, now, id, room) ==> room_ready(config, room, id, minutes, eased) && lamps_ready(
        config,
        state,
        room,
    )
}

/// [`room_round_ready`] for every room.
pub open spec fn round_ready(
    config: AppConfig,
    state: SystemState,
    now: Instant,
    minutes: u32,
    eased: NameMap<Eased>,
) -> bool {
    forall|i: int|
        0 <= i < config.rooms.entries_seq().len() ==> room_round_ready(
            config,
            state,
            now,
            minutes,
            eased,
            (#[trigger] config.rooms.entries_seq()[i]).0@,
            config.rooms.entries_seq()[i].1,
        )
}

/// One round of the engine for the first `n` rooms.
pub open spec fn rounds(
    config: AppConfig,
    state: SystemState,
    now: Instant,
    minutes: u32,
    eased: NameMap<Eased>,
    n: int,
) -> Seq<Effect<Seq<char>>>
    decreases n,
{
    if n <= 0 {
        Seq::empty()
    } else {
        let (id, room) = config.rooms.entries_seq()[n - 1];
        rounds(config, state, now, minutes, eased, n - 1) + room_round(
            config,
            state,
            now,
            minutes,
            eased,
            id@,
            room,
        )
    }
}

fn plan_room_round(
    config: &AppConfig,
    state: &SystemState,
    now: Instant,
    minutes: u32,
    eased: &NameMap<Eased>,
    room_id: &String,
    room_config: &RoomConfig,
    plan: &mut Plan,
)
    requires
        room_round_ready(*config, *state, now, minutes, *eased, room_id@, *room_config),
    ensures
        final(plan)@ == old(plan)@ + room_round(
            *config,
            *state,
            now,
            minutes,
            *eased,
            room_id@,
            *room_config,
        ),
{
    let ghost before = plan@;
    let id: &str = room_id.as_str();
    proof {
        assert(before + Seq::<Effect<Seq<char>>>::empty() =~= before);
    }
    if !room_config.circadian_enabled {
        return ;
    }
    let rs: &RoomState = match state.rooms.get(id) {
        Some(rs) => rs,
        None => {
            return ;
        },
    };
    if !rs.lights_on || rs.night_mode_active {
        return ;
    }
    if rs.circadian_paused {
        if rs.is_circadian_paused(now) {
            return ;
        }
        plan.update(id, RoomStateUpdate::CircadianPause { paused: false, until: None });
    }
    assert(plan@ =~= before + snooze_end(room_id@, *rs));
    if rs.update_source == UpdateSource::Manual {
        if rs.is_manual_override_active(now) {
            return ;
        }
        plan.update(
            id,
            RoomStateUpdate::LightsOn {
                brightness: None,
                color_temp_mired: None,
                source: UpdateSource::Circadian,
            },
        );
        plan.update(id, RoomStateUpdate::ManualOverrideTtl { until: None });
    }
    assert(plan@ =~= before + snooze_end(room_id@, *rs) + override_end(room_id@, *rs));
    let target: CircadianTarget = target_for_room(config, id, room_config, minutes, eased);
    let transition: u32 = room_config.effective_circadian(
        &config.circadian.defaults,
    ).transition_secs;
    let published_ct: u16 = plan_room_pushes(config, state, room_config, target, transition, plan);
    plan.update(
        id,
        RoomStateUpdate::LightsOn {
            brightness: Some(target.brightness),
            color_temp_mired: Some(published_ct),
            source: UpdateSource::Circadian,
        },
    );
    plan.update(
        id,
        RoomStateUpdate::JehaPush {
            brightness: Some(target.brightness),
            color_temp_mired: Some(published_ct),
        },
    );
    assert(plan@ =~= before + room_round(
        *config,
        *state,
        now,
        minutes,
        *eased,
        room_id@,
        *room_config,
    ));
}

/// The device belongs to the room: the room lists it, or the room's group has it as a member.
pub open spec fn belongs_to(state: SystemState, room: RoomConfig, ieee: Seq<char>) -> bool {
    lists_light(room.lights@, ieee) || match room.z2m_group {
        Some(name) => match state.group_map.lookup(name@) {
            Some(group) => has_member(group.members@, ieee),
            None => false,
        },
        None => false,
    }
}

pub open spec fn lists_light(lights: Seq<String>, ieee: Seq<char>) -> bool {
    exists|i: int| 0 <= i < lights.len() && (#[trigger] lights[i])@ == ieee
}

pub open spec fn has_member(members: Seq<Z2mGroupMember>, ieee: Seq<char>) -> bool {
    exists|i: int| 0 <= i < members.len() && (#[trigger] members[i]).ieee_address@ == ieee
}

/// Whether a list of addresses has `ieee` on it.
pub fn contains_light(lights: &Vec<String>, ieee: &str) -> (r: bool)
    ensures
        r == lists_light(lights@, ieee@),
{
    let wanted: String = ieee.to_owned();
    let mut i: usize = 0;
    while i < lights.len()
        invariant
            i <= lights@.len(),
            wanted@ == ieee@,
            forall|j: int| 0 <= j < i ==> (#[trigger] lights@[j])@ != ieee@,
        decreases lights.len() - i,
    {
        if lights[i] == wanted {
            return true;
        }
        i = i + 1;
    }
    false
}

fn contains_member(members: &Vec<Z2mGroupMember>, ieee: &str) -> (r: bool)
    ensures
        r == has_member(members@, ieee@),
{
    let wanted: String = ieee.to_owned();
    let mut i: usize = 0;
    while i < members.len()
        invariant
            i <= members@.len(),
            wanted@ == ieee@,
            forall|j: int| 0 <= j < i ==> (#[trigger] members@[j]).ieee_address@ != ieee@,
        decreases members.len() - i,
    {
        if members[i].ieee_address == wanted {
            return true;
        }
        i = i + 1;
    }
    false
}

fn is_in_room(state: &SystemState, room_config: &RoomConfig, ieee: &str) -> (r: bool)
    ensures
        r == belongs_to(*state, *room_config, ieee@),
{
    if contains_light(&room_config.lights, ieee) {
        return true;
    }
    match &room_config.z2m_group {
        Some(group_name) => match state.group_map.get(group_name.as_str()) {
            Some(group) => contains_member(&group.members, ieee),
            None => false,
        },
        None => false,
    }
}

/// A device that comes online is brought up to date in this room: it belongs there, the room
/// follows the curve and its lights are on, and neither night mode nor a pause nor a manual
/// override holds the curve back.
pub open spec fn takes_newcomer(
    state: SystemState,
    now: Instant,
    id: Seq<char>,
    room: RoomConfig,
    ieee: Seq<char>,
) -> bool {
    belongs_to(state, room, ieee) && is_told(state, now, id, room)
}

/// The first room, from number `from` on, that takes a device that came online.
pub open spec fn taker(
    config: AppConfig,
    state: SystemState,
    now: Instant,
    ieee: Seq<char>,
    from: int,
) -> Option<int>
    decreases config.rooms.entries_seq().len() - from,
{
    if from < 0 || from >= config.rooms.entries_seq().len() {
        None
    } else {
        let (name, room) = config.rooms.entries_seq()[from];
        if takes_newcomer(state, now, name@, room, ieee) {
            Some(from)
        } else {
            taker(config, state, now, ieee, from + 1)
        }
    }
}

/// What a device that came online is told on behalf of the first room that takes it.
pub open spec fn newcomer_push(
    config: AppConfig,
    state: SystemState,
    now: Instant,
    minutes: u32,
    eased: NameMap<Eased>,
    ieee: Seq<char>,
) -> Seq<Effect<Seq<char>>> {
    match taker(config, state, now, ieee, 0) {
        None => Seq::empty(),
        Some(i) => {
            let (name, room) = config.rooms.entries_seq()[i];
            let target = room_target(config, name@, room, minutes, eased);
            seq![
                lamp_push(state, ieee, target, 3),
                updates(
                    name@,
                    RoomStateUpdate::JehaPush {
                        brightness: Some(target.brightness),
                        color_temp_mired: lamp_color_temp(state, ieee, target.color_temp_mired),
                    },
                ),
            ]
        },
    }
}

/// What a device that came online is told can be worked out: the curve of the room that takes it
/// can be reckoned with, and the device can be clamped.
pub open spec fn newcomer_ready(
    config: AppConfig,
    state: SystemState,
    now: Instant,
    minutes: u32,
    eased: NameMap<Eased>,
    ieee: Seq<char>,
) -> bool {
    match taker(config, state, now, ieee, 0) {
        None => true,
        Some(i) => {
            let (name, room) = config.rooms.entries_seq()[i];
            room_ready(config, room, name@, minutes, eased) && (shows_color_temp(state, ieee)
                ==> can_clamp(state, ieee))
        },
    }
}

fn find_taker(config: &AppConfig, state: &SystemState, now: Instant, ieee: &str) -> (r: Option<
    usize,
>)
    ensures
        match r {
            Some(i) => i < config.rooms.entries_seq().len() && taker(*config, *state, now, ieee@, 0)
                == Some(i as int),
            None => taker(*config, *state, now, ieee@, 0) is None,
        },
{
    let n: usize = config.rooms.len();
    let mut i: usize = 0;
    while i < n
        invariant
            i <= n == config.rooms.entries_seq().len(),
            taker(*config, *state, now, ieee@, 0) == taker(*config, *state, now, ieee@, i as int),
        decreases n - i,
    {
        let room_id = config.rooms.key_at(i);
        let room_config = config.rooms.value_at(i);
        if tells_room(state, now, room_id.as_str(), room_config) && is_in_room(
            state,
            room_config,
            ieee,
        ) {
            return Some(i);
        }
        i = i + 1;
    }
    None
}

/// Moves the rooms along their curves.
#[derive(Clone, Copy)]
pub struct CircadianEngine<'a> {
    pub config: &'a AppConfig,
    pub state: &'a SystemState,
}

impl<'a> CircadianEngine<'a> {
    pub fn new(config: &'a AppConfig, state: &'a SystemState) -> (r: Self)
        ensures
            r.config == config,
            r.state == state,
    {
        CircadianEngine { config, state }
    }

    /// What a room's lights should show; nothing for an unknown room and for one that does not
    /// follow the curve.
    pub fn compute_room_target(
        &self,
        room_id: &str,
        minutes: u32,
        eased: &NameMap<Eased>,
    ) -> (r: Option<CircadianTarget>)
        requires
            config_enables(*self.config, room_id@) ==> room_ready(
                *self.config,
                self.config.rooms@[room_id@],
                room_id@,
                minutes,
                *eased,
            ),
        ensures
            r == enabled_target(*self.config, room_id@, minutes, *eased),
    {
        let config = self.config;
        match config.rooms.get(room_id) {
            Some(room_config) => if room_config.circadian_enabled {
                Some(target_for_room(config, room_id, room_config, minutes, eased))
            } else {
                None
            },
            None => None,
        }
    }

    /// Whether a round can be worked out for one room.
    pub fn check_room_round(
        &self,
        now: Instant,
        minutes: u32,
        eased: &NameMap<Eased>,
        room_id: &String,
        room_config: &RoomConfig,
    ) -> (r: bool)
        ensures
            r == room_round_ready(
                *self.config,
                *self.state,
                now,
                minutes,
                *eased,
                room_id@,
                *room_config,
            ),
    {
        !tells_room(self.state, now, room_id.as_str(), room_config) || check_room(self.config, room_config, room_id.as_str(), minutes, eased)
            && check_lamps(self.config, self.state, room_config)
    }

    /// One round of the engine for one room.
    pub fn update_room(
        &self,
        now: Instant,
        minutes: u32,
        eased: &NameMap<Eased>,
        room_id: &String,
        room_config: &RoomConfig,
    ) -> (plan: Plan)
        requires
            room_round_ready(
                *self.config,
                *self.state,
                now,
                minutes,
                *eased,
                room_id@,
                *room_config,
            ),
        ensures
            plan@ == room_round(
                *self.config,
                *self.state,
                now,
                minutes,
                *eased,
                room_id@,
                *room_config,
            ),
    {
        let mut plan: Plan = Plan::new();
        let ghost none = plan@;
        plan_room_round(
            self.config,
            self.state,
            now,
            minutes,
            eased,
            room_id,
            room_config,
            &mut plan,
        );
        assert(plan@ =~= none + plan@);
        plan
    }

    /// One round of the engine: every room that follows the curve is told where it is now.
    pub fn update_all_rooms(
        &self,
        now: Instant,
        minutes: u32,
        eased: &NameMap<Eased>,
    ) -> (plan: Plan)
        requires
            round_ready(*self.config, *self.state, now, minutes, *eased),
        ensures
            plan@ == rounds(
                *self.config,
                *self.state,
                now,
                minutes,
                *eased,
                self.config.rooms.entries_seq().len() as int,
            ),
    {
        let config = self.config;
        let state = self.state;
        let mut plan: Plan = Plan::new();
        let n: usize = config.rooms.len();
        let mut i: usize = 0;
        while i < n
            invariant
                i <= n == config.rooms.entries_seq().len(),
                round_ready(*config, *state, now, minutes, *eased),
                plan@ == rounds(*config, *state, now, minutes, *eased, i as int),
            decreases n - i,
        {
            let room_id = config.rooms.key_at(i);
            let room_config = config.rooms.value_at(i);
            assert(config.rooms.entries_seq()[i as int] == (*room_id, *room_config));
            plan_room_round(config, state, now, minutes, eased, room_id, room_config, &mut plan);
            i = i + 1;
        }
        plan
    }

    /// Whether what a device that came online is told can be worked out.
    pub fn check_newcomer(
        &self,
        now: Instant,
        minutes: u32,
        eased: &NameMap<Eased>,
        ieee: &String,
    ) -> (r: bool)
        ensures
            r == newcomer_ready(*self.config, *self.state, now, minutes, *eased, ieee@),
    {
        match find_taker(self.config, self.state, now, ieee.as_str()) {
            Some(i) => check_room(
                self.config,
                self.config.rooms.value_at(i),
                self.config.rooms.key_at(i).as_str(),
                minutes,
                eased,
            ) && (!supports_color_temp(self.state, ieee.as_str()) || check_clamp(
                self.state,
                ieee.as_str(),
            )),
            None => true,
        }
    }

    /// Brings a device that came online up to date, with a transition of three seconds.
    pub fn push_for_device(
        &self,
        now: Instant,
        minutes: u32,
        eased: &NameMap<Eased>,
        ieee: &String,
    ) -> (plan: Plan)
        requires
            newcomer_ready(*self.config, *self.state, now, minutes, *eased, ieee@),
        ensures
            plan@ == newcomer_push(*self.config, *self.state, now, minutes, *eased, ieee@),
    {
        let config = self.config;
        let state = self.state;
        let mut plan: Plan = Plan::new();
        if let Some(i) = find_taker(config, state, now, ieee.as_str()) {
            let room_id = config.rooms.key_at(i);
            let target: CircadianTarget = target_for_room(
                config,
                room_id.as_str(),
                config.rooms.value_at(i),
                minutes,
                eased,
            );
            let ct: Option<u16> = if supports_color_temp(state, ieee.as_str()) {
                Some(clamp_color_temp_for_device(state, ieee.as_str(), target.color_temp_mired))
            } else {
                None
            };
            plan.publish(
                LightCommand::PushCircadianIeee {
                    ieee: ieee.clone(),
                    brightness: target.brightness,
                    color_temp_mired: ct,
                    transition: 3,
                },
            );
            plan.update(
                room_id.as_str(),
                RoomStateUpdate::JehaPush {
                    brightness: Some(target.brightness),
                    color_temp_mired: ct,
                },
            );
            assert(plan@ =~= newcomer_push(*config, *state, now, minutes, *eased, ieee@));
        }
        plan
    }
}

/// Every effect of a round is done on behalf of a room whose lights are on, that is not in night
/// mode, and that is not paused. Lights that are off are never updated.
pub proof fn law_rounds_leave_dark_rooms_alone(
    config: AppConfig,
    state: SystemState,
    now: Instant,
    minutes: u32,
    eased: NameMap<Eased>,
    n: int,
    effect: Effect<Seq<char>>,
)
    requires
        0 <= n <= config.rooms.entries_seq().len(),
        rounds(config, state, now, minutes, eased, n).contains(effect),
    ensures
        exists|j: int|
            0 <= j < n && room_round(
                config,
                state,
                now,
                minutes,
                eased,
                (#[trigger] config.rooms.entries_seq()[j]).0@,
                config.rooms.entries_seq()[j].1,
            ).contains(effect) && state.rooms@.contains_key(config.rooms.entries_seq()[j].0@)
                && state.rooms@[config.rooms.entries_seq()[j].0@].lights_on
                && !state.rooms@[config.rooms.entries_seq()[j].0@].night_mode_active
                && !state.rooms@[config.rooms.entries_seq()[j].0@].circadian_paused_at(now),
    decreases n,
{
    if n > 0 {
        let rest = rounds(config, state, now, minutes, eased, n - 1);
        let (id, room) = config.rooms.entries_seq()[n - 1];
        let own = room_round(config, state, now, minutes, eased, id@, room);
        let k = (rest + own).index_of(effect);
        assert((rest + own)[k] == effect);
        if k < rest.len() {
            assert(rest[k] == effect);
            law_rounds_leave_dark_rooms_alone(config, state, now, minutes, eased, n - 1, effect);
        } else {
            assert(own[k - rest.len()] == effect);
            assert(own.contains(effect));
            assert(config.rooms.entries_seq()[n - 1] == (id, room));
        }
    }
}

/// A room under a manual override is sent no command, whatever else happens to it.
pub proof fn law_overridden_rooms_get_no_command(
    config: AppConfig,
    state: SystemState,
    now: Instant,
    minutes: u32,
    eased: NameMap<Eased>,
    id: Seq<char>,
    room: RoomConfig,
)
    requires
        state.rooms@.contains_key(id),
        state.rooms@[id].manual_override_at(now),
    ensures
        forall|i: int|
            0 <= i < room_round(config, state, now, minutes, eased, id, room).len() ==> (
            #[trigger] room_round(config, state, now, minutes, eased, id, room)[i]) is Update,
{
}

/// A room that is not told where the curve is gets no command, and nothing is written down of its
/// lights: at most a snooze that has run out is lifted.
pub proof fn law_rooms_off_the_curve_are_left_alone(
    config: AppConfig,
    state: SystemState,
    now: Instant,
    minutes: u32,
    eased: NameMap<Eased>,
    id: Seq<char>,
    room: RoomConfig,
)
    requires
        !is_on_the_curve(state, now, id, room),
    ensures
        forall|i: int|
            0 <= i < room_round(config, state, now, minutes, eased, id, room).len() ==> (
            #[trigger] room_round(config, state, now, minutes, eased, id, room)[i]) == updates(
                id,
                RoomStateUpdate::CircadianPause { paused: false, until: None },
            ),
{
}

/// A uniform group gets one command for all its members.
pub proof fn law_uniform_group_takes_one_command(
    config: AppConfig,
    state: SystemState,
    room: RoomConfig,
    target: CircadianTarget,
    transition: u32,
)
    requires
        room.z2m_group is Some,
        state.group_map@.contains_key(room.z2m_group->0@),
        !is_mixed(config, state, state.group_map@[room.z2m_group->0@]),
    ensures
        room_pushes(config, state, room, target, transition) == seq![
            publishes(
                LightCommand::PushCircadianGroup {
                    group: room.z2m_group->0@,
                    brightness: target.brightness,
                    color_temp_mired: published_color_temp(state, room, target),
                    transition,
                },
            ),
        ],
{
}

/// The effect is a correction of one lamp whose ideal color temperature differs from `group_ct`.
pub open spec fn is_needed_correction(
    config: AppConfig,
    state: SystemState,
    target: CircadianTarget,
    group_ct: u16,
    effect: Effect<Seq<char>>,
) -> bool {
    effect matches Effect::Publish { command, required } && command matches
        LightCommand::PushCircadianIeee { ieee, brightness, color_temp_mired, transition }
        && brightness == target.brightness && color_temp_mired == Some(
        device_clamped(state, ieee, target.color_temp_mired),
    ) && shows_color_temp(state, ieee) && device_color_temp(
        ieee,
        color_temp_mired->0,
        config,
        state.device_map,
    ) != group_ct
}

proof fn lemma_corrections_are_needed(
    config: AppConfig,
    state: SystemState,
    members: Seq<Z2mGroupMember>,
    target: CircadianTarget,
    group_ct: u16,
    transition: u32,
    n: int,
)
    requires
        0 <= n <= members.len(),
    ensures
        corrections(config, state, members, target, group_ct, transition, n).len() <= n,
        forall|i: int|
            0 <= i < corrections(
                config,
                state,
                members,
                target,
                group_ct,
                transition,
                n,
            ).len() ==> is_needed_correction(
                config,
                state,
                target,
                group_ct,
                #[trigger] corrections(config, state, members, target, group_ct, transition, n)[i],
            ),
    decreases n,
{
    if n > 0 {
        lemma_corrections_are_needed(
            config,
            state,
            members,
            target,
            group_ct,
            transition,
            n - 1,
        );
    }
}

/// A room with a group is told by one command to the group, which comes first; what follows are
/// corrections of single lamps whose ideal value differs from what the group was told.
pub proof fn law_groups_come_first(
    config: AppConfig,
    state: SystemState,
    room: RoomConfig,
    target: CircadianTarget,
    transition: u32,
)
    requires
        room.z2m_group is Some,
    ensures
        ({
            let pushes = room_pushes(config, state, room, target, transition);
            let group_ct = published_color_temp(state, room, target);
            &&& pushes.len() >= 1
            &&& pushes[0] == publishes(
                LightCommand::PushCircadianGroup {
                    group: room.z2m_group->0@,
                    brightness: target.brightness,
                    color_temp_mired: group_ct,
                    transition,
                },
            )
            &&& forall|i: int|
                1 <= i < pushes.len() ==> is_needed_correction(
                    config,
                    state,
                    target,
                    group_ct,
                    #[trigger] pushes[i],
                )
        }),
{
    let pushes = room_pushes(config, state, room, target, transition);
    let group_ct = published_color_temp(state, room, target);
    if state.group_map@.contains_key(room.z2m_group->0@) {
        let group = state.group_map@[room.z2m_group->0@];
        let own = corrections(
            config,
            state,
            group.members@,
            target,
            group_ct,
            transition,
            group.members@.len() as int,
        );
        lemma_corrections_are_needed(
            config,
            state,
            group.members@,
            target,
            group_ct,
            transition,
            group.members@.len() as int,
        );
        if is_mixed(config, state, group) {
            assert forall|i: int| 1 <= i < pushes.len() implies is_needed_correction(
                config,
                state,
                target,
                group_ct,
                #[trigger] pushes[i],
            ) by {
                assert(pushes[i] == own[i - 1]);
            }
        }
    }
}

/// The room that takes a newcomer is one of the configuration that takes it.
pub proof fn lemma_taker(
    config: AppConfig,
    state: SystemState,
    now: Instant,
    ieee: Seq<char>,
    from: int,
)
    requires
        0 <= from,
        taker(config, state, now, ieee, from) is Some,
    ensures
        ({
            let i = taker(config, state, now, ieee, from)->0;
            from <= i < config.rooms.entries_seq().len() && takes_newcomer(
                state,
                now,
                config.rooms.entries_seq()[i].0@,
                config.rooms.entries_seq()[i].1,
                ieee,
            )
        }),
    decreases config.rooms.entries_seq().len() - from,
{
    let (name, room) = config.rooms.entries_seq()[from];
    if !takes_newcomer(state, now, name@, room, ieee) {
        lemma_taker(config, state, now, ieee, from + 1);
    }
}

/// A device that comes online is sent at most one command, on behalf of a room that it belongs to
/// and that follows the curve, with its lights on, and neither in night mode, nor paused, nor under
/// a manual override.
pub proof fn law_newcomers_get_one_command(
    config: AppConfig,
    state: SystemState,
    now: Instant,
    minutes: u32,
    eased: NameMap<Eased>,
    ieee: Seq<char>,
)
    ensures
        ({
            let plan = newcomer_push(config, state, now, minutes, eased, ieee);
            ||| plan.len() == 0
            ||| exists|i: int|
                0 <= i < config.rooms.entries_seq().len() && plan.len() == 2 && plan[0]
                    == lamp_push(
                    state,
                    ieee,
                    room_target(
                        config,
                        (#[trigger] config.rooms.entries_seq()[i]).0@,
                        config.rooms.entries_seq()[i].1,
                        minutes,
                        eased,
                    ),
                    3,
                ) && plan[1] is Update && belongs_to(state, config.rooms.entries_seq()[i].1, ieee)
                    && is_told(
                    state,
                    now,
                    config.rooms.entries_seq()[i].0@,
                    config.rooms.entries_seq()[i].1,
                )
        }),
{
    if taker(config, state, now, ieee, 0) is Some {
        lemma_taker(config, state, now, ieee, 0);
        let i = taker(config, state, now, ieee, 0)->0;
        assert(config.rooms.entries_seq()[i] == config.rooms.entries_seq()[i]);
    }
}

/// What the engine does about an event.
#[derive(Clone, Debug)]
pub enum Reaction<S = String> {
    Ignore,
    /// Bring one device up to date.
    PushDevice { ieee: S },
    /// Run a round for all rooms.
    UpdateAll,
}

impl View for Reaction<String> {
    type V = Reaction<Seq<char>>;

    open spec fn view(&self) -> Reaction<Seq<char>> {
        match self {
            Reaction::Ignore => Reaction::Ignore,
            Reaction::PushDevice { ieee } => Reaction::PushDevice { ieee: ieee@ },
            Reaction::UpdateAll => Reaction::UpdateAll,
        }
    }
}

/// A dimmable device that comes online is brought up to date; a new connection to the broker
/// brings a round for all rooms.
pub open spec fn reaction_to(event: Event<Seq<char>>, state: SystemState) -> Reaction<Seq<char>> {
    match event {
        Event::DeviceAvailabilityChanged { ieee, available } => if available
            && state.device_map@.contains_key(ieee) && state.device_map@[ieee].supports_brightness {
            Reaction::PushDevice { ieee }
        } else {
            Reaction::Ignore
        },
        Event::MqttConnected => Reaction::UpdateAll,
        _ => Reaction::Ignore,
    }
}

/// What the engine does about an event.
pub fn react(event: &Event, state: &SystemState) -> (r: Reaction)
    ensures
        r@ == reaction_to(event@, *state),
{
    match event {
        Event::DeviceAvailabilityChanged { ieee, available } => {
            let dimmable: bool = match state.device_map.get(ieee.as_str()) {
                Some(device) => device.supports_brightness,
                None => false,
            };
            if *available && dimmable {
                Reaction::PushDevice { ieee: ieee.clone() }
            } else {
                Reaction::Ignore
            }
        },
        Event::MqttConnected => Reaction::UpdateAll,
        _ => Reaction::Ignore,
    }
}

/// A room that follows the curve at this moment: it is meant to, its lights are on, and neither
/// night mode nor a pause nor a manual override that has not run out holds it back.
pub open spec fn is_on_the_curve(
    state: SystemState,
    now: Instant,
    id: Seq<char>,
    room: RoomConfig,
) -> bool {
    room.circadian_enabled && state.rooms@.contains_key(id) && ({
        let rs = state.rooms@[id];
        &&& rs.lights_on
        &&& !rs.night_mode_active
        &&& !rs.circadian_paused || (rs.circadian_paused_until matches Some(end) && end.nanos
            <= now.nanos)
        &&& rs.update_source != UpdateSource::Manual || (rs.manual_override_until matches Some(end)
            && end.nanos <= now.nanos)
    })
}

/// `r` is the value closest to `x` from `lo` to `hi`.
pub open spec fn is_closest(x: int, lo: int, hi: int, r: int) -> bool {
    &&& lo <= r <= hi
    &&& x < lo ==> r == lo
    &&& x > hi ==> r == hi
    &&& lo <= x <= hi ==> r == x
}

/// The least mired value that a device says it can show.
pub open spec fn low_end(device: Z2mDeviceInfo, otherwise: int) -> int {
    match device.color_temp_min {
        Some(min) => min as int,
        None => otherwise,
    }
}

/// The greatest mired value that a device says it can show.
pub open spec fn high_end(device: Z2mDeviceInfo) -> int {
    match device.color_temp_max {
        Some(max) => max as int,
        None => 65_535,
    }
}

proof fn lemma_correction_of(
    config: AppConfig,
    state: SystemState,
    members: Seq<Z2mGroupMember>,
    target: CircadianTarget,
    group_ct: u16,
    transition: u32,
    n: int,
    i: int,
)
    requires
        0 <= i < n <= members.len(),
        shows_color_temp(state, members[i].ieee_address@),
        device_color_temp(
            members[i].ieee_address@,
            device_clamped(state, members[i].ieee_address@, target.color_temp_mired),
            config,
            state.device_map,
        ) != group_ct,
    ensures
        corrections(config, state, members, target, group_ct, transition, n).contains(
            publishes(
                LightCommand::PushCircadianIeee {
                    ieee: members[i].ieee_address@,
                    brightness: target.brightness,
                    color_temp_mired: Some(
                        device_clamped(state, members[i].ieee_address@, target.color_temp_mired),
                    ),
                    transition,
                },
            ),
        ),
    decreases n,
{
    let all = corrections(config, state, members, target, group_ct, transition, n);
    let rest = corrections(config, state, members, target, group_ct, transition, n - 1);
    let own = publishes(
        LightCommand::PushCircadianIeee {
            ieee: members[i].ieee_address@,
            brightness: target.brightness,
            color_temp_mired: Some(
                device_clamped(state, members[i].ieee_address@, target.color_temp_mired),
            ),
            transition,
        },
    );
    if i == n - 1 {
        assert(all[all.len() - 1] == own);
    } else {
        lemma_correction_of(config, state, members, target, group_ct, transition, n - 1, i);
        let k = rest.index_of(own);
        assert(all[k] == own);
    }
}

proof fn lemma_uniform_bounds(
    members: Seq<Z2mGroupMember>,
    devices: NameMap<Z2mDeviceInfo>,
    low: Option<u16>,
    high: Option<u16>,
    n: int,
)
    requires
        0 <= n <= members.len(),
        forall|j: int|
            0 <= j < n && devices@.contains_key((#[trigger] members[j]).ieee_address@) ==> ({
                let d = devices@[members[j].ieee_address@];
                d.supports_color_temp && d.color_temp_min == low && d.color_temp_max == high
            }),
    ensures
        members_min(members, devices, n) == low || members_min(members, devices, n) is None,
        members_max(members, devices, n) == high || members_max(members, devices, n) is None,
        (exists|j: int|
            0 <= j < n && devices@.contains_key((#[trigger] members[j]).ieee_address@))
            ==> members_min(members, devices, n) == low && members_max(members, devices, n) == high,
    decreases n,
{
    if n > 0 {
        lemma_uniform_bounds(members, devices, low, high, n - 1);
        assert(members[n - 1] == members[n - 1]);
    }
}

/// A member of a room's group whose ideal color temperature differs from what the group was told, in
/// either direction, is corrected: it is sent what it should show. Its ideal value is the one of the
/// curve, moved into the lamp's range and by the lamp's offset.
pub proof fn law_differing_members_are_corrected(
    config: AppConfig,
    state: SystemState,
    room: RoomConfig,
    target: CircadianTarget,
    transition: u32,
    told: u16,
    i: int,
    shown: u16,
    ideal: u16,
)
    requires
        room.z2m_group is Some,
        state.group_map@.contains_key(room.z2m_group->0@),
        0 <= i < state.group_map@[room.z2m_group->0@].members@.len(),
        target.color_temp_mired >= 1,
        room_pushes(config, state, room, target, transition)[0] == (Effect::Publish {
            command: LightCommand::PushCircadianGroup {
                group: room.z2m_group->0@,
                brightness: target.brightness,
                color_temp_mired: told,
                transition,
            },
            required: true,
        }),
        ({
            let ieee = state.group_map@[room.z2m_group->0@].members@[i].ieee_address@;
            let d = state.device_map@[ieee];
            &&& state.device_map@.contains_key(ieee)
            &&& d.supports_color_temp
            &&& is_closest(target.color_temp_mired as int, low_end(d, 0), high_end(d), shown as int)
            &&& is_closest(
                shown + resolved(ieee, config.light_calibration, Some(d)).color_temp_offset,
                low_end(d, 1),
                high_end(d),
                ideal as int,
            )
        }),
        ideal != told,
    ensures
        room_pushes(config, state, room, target, transition).contains(
            Effect::Publish {
                command: LightCommand::PushCircadianIeee {
                    ieee: state.group_map@[room.z2m_group->0@].members@[i].ieee_address@,
                    brightness: target.brightness,
                    color_temp_mired: Some(shown),
                    transition,
                },
                required: true,
            },
        ),
{
    let group = state.group_map@[room.z2m_group->0@];
    let members = group.members@;
    let n = members.len() as int;
    let ieee = members[i].ieee_address@;
    let d = state.device_map@[ieee];
    let pushes = room_pushes(config, state, room, target, transition);
    let group_ct = group_color_temp(state, room.z2m_group->0@, target.color_temp_mired);
    assert(told == group_ct);
    if is_mixed(config, state, group) {
        let own = corrections(config, state, members, target, group_ct, transition, n);
        lemma_correction_of(config, state, members, target, group_ct, transition, n, i);
        let command = publishes(
            LightCommand::PushCircadianIeee {
                ieee,
                brightness: target.brightness,
                color_temp_mired: Some(shown),
                transition,
            },
        );
        let k = own.index_of(command);
        assert(own[k] == command);
        assert(pushes[k + 1] == command);
    } else {
        assert forall|j: int|
            0 <= j < n && state.device_map@.contains_key(
                (#[trigger] members[j]).ieee_address@,
            ) implies ({
            let o = state.device_map@[members[j].ieee_address@];
            o.supports_color_temp && o.color_temp_min == d.color_temp_min && o.color_temp_max
                == d.color_temp_max
        }) by {
            let o = state.device_map@[members[j].ieee_address@];
            assert(capability(state.device_map@[group.members@[i].ieee_address@]) == capability(o));
        }
        lemma_uniform_bounds(members, state.device_map, d.color_temp_min, d.color_temp_max, n);
        assert(resolved(ieee, config.light_calibration, Some(d)).no_correction());
    }
}

/// The device can show color temperatures, and `v` is one that it says it can show.
pub open spec fn can_show(state: SystemState, ieee: Seq<char>, v: int) -> bool {
    state.device_map@.contains_key(ieee) && state.device_map@[ieee].supports_color_temp ==> low_end(
        state.device_map@[ieee],
        0,
    ) <= v <= high_end(state.device_map@[ieee])
}

proof fn lemma_bounds_hold(
    members: Seq<Z2mGroupMember>,
    state: SystemState,
    v: int,
    w: int,
    n: int,
)
    requires
        0 <= n <= members.len(),
        0 <= v <= 65_535,
        forall|j: int|
            0 <= j < n ==> can_show(state, (#[trigger] members[j]).ieee_address@, v),
    ensures
        members_min(members, state.device_map, n) matches Some(min) ==> min <= v,
        members_max(members, state.device_map, n) matches Some(max) ==> v <= max,
        0 <= w <= 65_535 && (members_min(members, state.device_map, n) matches Some(min) ==> min
            <= w) && (members_max(members, state.device_map, n) matches Some(max) ==> w <= max)
            ==> forall|j: int|
            0 <= j < n ==> can_show(state, (#[trigger] members[j]).ieee_address@, w),
    decreases n,
{
    if n > 0 {
        lemma_bounds_hold(members, state, v, w, n - 1);
        assert(can_show(state, members[n - 1].ieee_address@, v));
    }
}

/// What a group is told suits all its members, as far as anything does: where some value `v` lies in
/// the range of every member that can show color temperatures, so does what the group is told, and
/// it is no further from what was asked for than `v` is.
pub proof fn law_groups_are_told_what_suits_all(
    state: SystemState,
    room: RoomConfig,
    target: CircadianTarget,
    v: int,
    i: int,
)
    requires
        room.z2m_group is Some,
        state.group_map@.contains_key(room.z2m_group->0@),
        0 <= v <= 65_535,
        forall|j: int|
            0 <= j < state.group_map@[room.z2m_group->0@].members@.len() ==> can_show(
                state,
                (#[trigger] state.group_map@[room.z2m_group->0@].members@[j]).ieee_address@,
                v,
            ),
        0 <= i < state.group_map@[room.z2m_group->0@].members@.len(),
    ensures
        ({
            let told = published_color_temp(state, room, target) as int;
            let asked = target.color_temp_mired as int;
            &&& can_show(
                state,
                state.group_map@[room.z2m_group->0@].members@[i].ieee_address@,
                told,
            )
            &&& asked <= told ==> told - asked <= (if v >= asked {
                v - asked
            } else {
                0
            })
            &&& told <= asked ==> asked - told <= (if v <= asked {
                asked - v
            } else {
                0
            })
        }),
{
    let members = state.group_map@[room.z2m_group->0@].members@;
    let told = published_color_temp(state, room, target) as int;
    let n = members.len() as int;
    lemma_bounds_hold(members, state, v, told, n);
    assert(can_show(state, members[i].ieee_address@, told));
}

/// A group that is not known, and one of which no member can show color temperatures, is told what
/// was asked for.
pub proof fn law_unknown_groups_are_told_as_asked(
    state: SystemState,
    room: RoomConfig,
    target: CircadianTarget,
)
    requires
        room.z2m_group matches Some(name) ==> (state.group_map@.contains_key(name@) ==> forall|
            j: int,
        |
            0 <= j < state.group_map@[name@].members@.len() ==> !(state.device_map@.contains_key(
                (#[trigger] state.group_map@[name@].members@[j]).ieee_address@,
            ) && state.device_map@[state.group_map@[name@].members@[j].ieee_address@].supports_color_temp)),
    ensures
        published_color_temp(state, room, target) == target.color_temp_mired,
{
    if let Some(name) = room.z2m_group {
        if state.group_map@.contains_key(name@) {
            let members = state.group_map@[name@].members@;
            lemma_no_bounds(members, state, members.len() as int);
        }
    }
}

proof fn lemma_no_bounds(members: Seq<Z2mGroupMember>, state: SystemState, n: int)
    requires
        0 <= n <= members.len(),
        forall|j: int|
            0 <= j < n ==> !(state.device_map@.contains_key((#[trigger] members[j]).ieee_address@)
                && state.device_map@[members[j].ieee_address@].supports_color_temp),
    ensures
        members_min(members, state.device_map, n) is None,
        members_max(members, state.device_map, n) is None,
    decreases n,
{
    if n > 0 {
        lemma_no_bounds(members, state, n - 1);
        assert(members[n - 1] == members[n - 1]);
    }
}

/// The color temperature suits the lamp: there is one exactly where the lamp can show any, and it is
/// the closest to `asked` in the lamp's range, where that is no empty one.
pub open spec fn suits_lamp(
    state: SystemState,
    ieee: Seq<char>,
    asked: int,
    ct: Option<u16>,
) -> bool {
    let d = state.device_map@[ieee];
    &&& (state.device_map@.contains_key(ieee) && d.supports_color_temp) <==> ct is Some
    &&& ct is Some && low_end(d, 0) <= high_end(d) ==> is_closest(
        asked,
        low_end(d, 0),
        high_end(d),
        ct->0 as int,
    )
}

/// In a room without a group, every lamp that the room lists gets one command of its own, in order,
/// with the brightness of the curve; one that can show color temperatures also gets the closest one
/// in its range, and no other lamp gets any.
pub proof fn law_lamps_without_a_group_are_told_one_by_one(
    config: AppConfig,
    state: SystemState,
    room: RoomConfig,
    target: CircadianTarget,
    transition: u32,
    i: int,
)
    requires
        room.z2m_group is None,
        0 <= i < room.lights@.len(),
    ensures
        room_pushes(config, state, room, target, transition).len() == room.lights@.len(),
        ({
            let ieee = room.lights@[i]@;
            exists|ct: Option<u16>| #[trigger]
                suits_lamp(state, ieee, target.color_temp_mired as int, ct) && room_pushes(
                    config,
                    state,
                    room,
                    target,
                    transition,
                )[i] == (Effect::Publish {
                    command: LightCommand::PushCircadianIeee {
                        ieee,
                        brightness: target.brightness,
                        color_temp_mired: ct,
                        transition,
                    },
                    required: true,
                })
        }),
{
    assert(room_lights(room, state)[i] == room.lights@[i]@);
    let ct = lamp_color_temp(state, room.lights@[i]@, target.color_temp_mired);
    assert(suits_lamp(state, room.lights@[i]@, target.color_temp_mired as int, ct));
}

proof fn lemma_round_of(
    config: AppConfig,
    state: SystemState,
    now: Instant,
    minutes: u32,
    eased: NameMap<Eased>,
    n: int,
    i: int,
    effect: Effect<Seq<char>>,
)
    requires
        0 <= i < n <= config.rooms.entries_seq().len(),
        room_round(
            config,
            state,
            now,
            minutes,
            eased,
            config.rooms.entries_seq()[i].0@,
            config.rooms.entries_seq()[i].1,
        ).contains(effect),
    ensures
        rounds(config, state, now, minutes, eased, n).contains(effect),
    decreases n,
{
    let rest = rounds(config, state, now, minutes, eased, n - 1);
    let (id, room) = config.rooms.entries_seq()[n - 1];
    let own = room_round(config, state, now, minutes, eased, id@, room);
    if i == n - 1 {
        let k = own.index_of(effect);
        assert((rest + own)[rest.len() + k] == effect);
    } else {
        lemma_round_of(config, state, now, minutes, eased, n - 1, i, effect);
        let k = rest.index_of(effect);
        assert((rest + own)[k] == effect);
    }
}

/// Every room on the curve is told in every round: its group or each of its lamps is sent where the
/// curve is, over the room's transition, and what was sent is written down as the curve's.
pub proof fn law_rooms_on_the_curve_are_told(
    config: AppConfig,
    state: SystemState,
    now: Instant,
    minutes: u32,
    eased: NameMap<Eased>,
    given: Eased,
    i: int,
    k: int,
)
    requires
        0 <= i < config.rooms.entries_seq().len(),
        is_on_the_curve(
            state,
            now,
            config.rooms.entries_seq()[i].0@,
            config.rooms.entries_seq()[i].1,
        ),
        room_params(config, config.rooms.entries_seq()[i].1).phase(minutes) is Ramp
            ==> eased@.contains_key(config.rooms.entries_seq()[i].0@)
            && eased@[config.rooms.entries_seq()[i].0@] == given,
    ensures
        ({
            let id = config.rooms.entries_seq()[i].0@;
            let room = config.rooms.entries_seq()[i].1;
            let target = room_params(config, room).target(minutes, given);
            let over = room.circadian_settings(config.circadian.defaults).transition_secs;
            let told = published_color_temp(state, room, target);
            let all = rounds(
                config,
                state,
                now,
                minutes,
                eased,
                config.rooms.entries_seq().len() as int,
            );
            &&& room.z2m_group matches Some(group) ==> all.contains(
                Effect::Publish {
                    command: LightCommand::PushCircadianGroup {
                        group: group@,
                        brightness: target.brightness,
                        color_temp_mired: told,
                        transition: over,
                    },
                    required: true,
                },
            )
            &&& 0 <= k < room_pushes(config, state, room, target, over).len() ==> all.contains(
                room_pushes(config, state, room, target, over)[k],
            )
            &&& all.contains(
                Effect::Update {
                    room_id: id,
                    update: RoomStateUpdate::LightsOn {
                        brightness: Some(target.brightness),
                        color_temp_mired: Some(told),
                        source: UpdateSource::Circadian,
                    },
                },
            )
            &&& all.contains(
                Effect::Update {
                    room_id: id,
                    update: RoomStateUpdate::JehaPush {
                        brightness: Some(target.brightness),
                        color_temp_mired: Some(told),
                    },
                },
            )
            &&& state.rooms@[id].circadian_paused ==> all.contains(
                Effect::Update {
                    room_id: id,
                    update: RoomStateUpdate::CircadianPause { paused: false, until: None },
                },
            )
            &&& state.rooms@[id].update_source == UpdateSource::Manual ==> all.contains(
                Effect::Update {
                    room_id: id,
                    update: RoomStateUpdate::ManualOverrideTtl { until: None },
                },
            )
        }),
{
    let id = config.rooms.entries_seq()[i].0@;
    let room = config.rooms.entries_seq()[i].1;
    let rs = state.rooms@[id];
    let n = config.rooms.entries_seq().len() as int;
    let target = room_params(config, room).target(minutes, given);
    assert(room_target(config, id, room, minutes, eased) == target);
    let over = room.circadian_settings(config.circadian.defaults).transition_secs;
    let told = published_color_temp(state, room, target);
    let own = room_round(config, state, now, minutes, eased, id, room);
    let s = snooze_end(id, rs);
    let o = override_end(id, rs);
    let p = room_pushes(config, state, room, target, over);
    let r = push_record(id, target.brightness, told);
    assert(own =~= s + o + p + r);
    let at = (s.len() + o.len()) as int;
    let end = (at + p.len()) as int;
    if room.z2m_group is Some {
        assert(own[at] == p[0]);
        lemma_round_of(config, state, now, minutes, eased, n, i, own[at]);
    }
    if 0 <= k < p.len() {
        assert(own[at + k] == p[k]);
        lemma_round_of(config, state, now, minutes, eased, n, i, own[at + k]);
    }
    assert(own[end] == r[0]);
    assert(own[end + 1] == r[1]);
    lemma_round_of(config, state, now, minutes, eased, n, i, own[end]);
    lemma_round_of(config, state, now, minutes, eased, n, i, own[end + 1]);
    if rs.circadian_paused {
        assert(own[0] == s[0]);
        lemma_round_of(config, state, now, minutes, eased, n, i, own[0]);
    }
    if rs.update_source == UpdateSource::Manual {
        assert(own[s.len() as int + 1] == o[1]);
        lemma_round_of(config, state, now, minutes, eased, n, i, own[s.len() as int + 1]);
    }
}

/// A device belongs to a room that lists it, and to one whose group has it as a member.
pub open spec fn is_at_home(state: SystemState, room: RoomConfig, ieee: Seq<char>) -> bool {
    ||| exists|i: int| 0 <= i < room.lights@.len() && (#[trigger] room.lights@[i])@ == ieee
    ||| room.z2m_group is Some && state.group_map@.contains_key(room.z2m_group->0@) && exists|
        i: int,
    |
        0 <= i < state.group_map@[room.z2m_group->0@].members@.len() && (
        #[trigger] state.group_map@[room.z2m_group->0@].members@[i]).ieee_address@ == ieee
}

proof fn lemma_first_taker(
    config: AppConfig,
    state: SystemState,
    now: Instant,
    ieee: Seq<char>,
    from: int,
    i: int,
)
    requires
        0 <= from <= i < config.rooms.entries_seq().len(),
        is_at_home(state, config.rooms.entries_seq()[i].1, ieee),
        is_on_the_curve(
            state,
            now,
            config.rooms.entries_seq()[i].0@,
            config.rooms.entries_seq()[i].1,
        ),
        forall|j: int|
            from <= j < i ==> !(is_at_home(
                state,
                (#[trigger] config.rooms.entries_seq()[j]).1,
                ieee,
            ) && is_on_the_curve(
                state,
                now,
                config.rooms.entries_seq()[j].0@,
                config.rooms.entries_seq()[j].1,
            )),
    ensures
        taker(config, state, now, ieee, from) == Some(i),
    decreases i - from,
{
    let (name, room) = config.rooms.entries_seq()[from];
    if from < i {
        assert(!takes_newcomer(state, now, name@, room, ieee));
        lemma_first_taker(config, state, now, ieee, from + 1, i);
    }
}

/// A device that comes online is brought up to date on behalf of the first room on the curve that
/// it belongs to: it is sent where that room's curve is, over three seconds, the color temperature
/// only if it can show any and then the closest one in its range.
pub proof fn law_newcomers_are_brought_up_to_date(
    config: AppConfig,
    state: SystemState,
    now: Instant,
    minutes: u32,
    eased: NameMap<Eased>,
    given: Eased,
    ieee: Seq<char>,
    i: int,
)
    requires
        0 <= i < config.rooms.entries_seq().len(),
        is_at_home(state, config.rooms.entries_seq()[i].1, ieee),
        is_on_the_curve(
            state,
            now,
            config.rooms.entries_seq()[i].0@,
            config.rooms.entries_seq()[i].1,
        ),
        forall|j: int|
            0 <= j < i ==> !(is_at_home(
                state,
                (#[trigger] config.rooms.entries_seq()[j]).1,
                ieee,
            ) && is_on_the_curve(
                state,
                now,
                config.rooms.entries_seq()[j].0@,
                config.rooms.entries_seq()[j].1,
            )),
        room_params(config, config.rooms.entries_seq()[i].1).phase(minutes) is Ramp
            ==> eased@.contains_key(config.rooms.entries_seq()[i].0@)
            && eased@[config.rooms.entries_seq()[i].0@] == given,
    ensures
        ({
            let id = config.rooms.entries_seq()[i].0@;
            let target = room_params(config, config.rooms.entries_seq()[i].1).target(
                minutes,
                given,
            );
            let plan = newcomer_push(config, state, now, minutes, eased, ieee);
            plan.len() == 2 && exists|ct: Option<u16>| #[trigger]
                suits_lamp(state, ieee, target.color_temp_mired as int, ct) && plan[0]
                    == (Effect::Publish {
                    command: LightCommand::PushCircadianIeee {
                        ieee,
                        brightness: target.brightness,
                        color_temp_mired: ct,
                        transition: 3,
                    },
                    required: true,
                }) && plan[1] == (Effect::Update {
                    room_id: id,
                    update: RoomStateUpdate::JehaPush {
                        brightness: Some(target.brightness),
                        color_temp_mired: ct,
                    },
                })
        }),
{
    lemma_first_taker(config, state, now, ieee, 0, i);
    let id = config.rooms.entries_seq()[i].0@;
    let room = config.rooms.entries_seq()[i].1;
    let target = room_params(config, room).target(minutes, given);
    assert(room_target(config, id, room, minutes, eased) == target);
    let ct = lamp_color_temp(state, ieee, target.color_temp_mired);
    assert(suits_lamp(state, ieee, target.color_temp_mired as int, ct));
}

proof fn lemma_no_taker(
    config: AppConfig,
    state: SystemState,
    now: Instant,
    ieee: Seq<char>,
    from: int,
)
    requires
        0 <= from <= config.rooms.entries_seq().len(),
        forall|j: int|
            from <= j < config.rooms.entries_seq().len() ==> !(is_at_home(
                state,
                (#[trigger] config.rooms.entries_seq()[j]).1,
                ieee,
            ) && is_on_the_curve(
                state,
                now,
                config.rooms.entries_seq()[j].0@,
                config.rooms.entries_seq()[j].1,
            )),
    ensures
        taker(config, state, now, ieee, from) is None,
    decreases config.rooms.entries_seq().len() - from,
{
    if from < config.rooms.entries_seq().len() {
        let (name, room) = config.rooms.entries_seq()[from];
        assert(!takes_newcomer(state, now, name@, room, ieee));
        lemma_no_taker(config, state, now, ieee, from + 1);
    }
}

/// A device that comes online and belongs to no room on the curve is sent nothing.
pub proof fn law_strangers_are_sent_nothing(
    config: AppConfig,
    state: SystemState,
    now: Instant,
    minutes: u32,
    eased: NameMap<Eased>,
    ieee: Seq<char>,
)
    requires
        forall|j: int|
            0 <= j < config.rooms.entries_seq().len() ==> !(is_at_home(
                state,
                (#[trigger] config.rooms.entries_seq()[j]).1,
                ieee,
            ) && is_on_the_curve(
                state,
                now,
                config.rooms.entries_seq()[j].0@,
                config.rooms.entries_seq()[j].1,
            )),
    ensures
        newcomer_push(config, state, now, minutes, eased, ieee).len() == 0,
{
    lemma_no_taker(config, state, now, ieee, 0);
}

/// A room's curve is made of its own settings, one by one, and of the defaults where it has none.
pub proof fn law_rooms_have_their_own_curves(config: AppConfig, room: RoomConfig, m: nat)
    ensures
        room_params(config, room).start_temp_k == (match room.circadian {
            Some(own) => match own.start_temp_k {
                Some(value) => value,
                None => config.circadian.defaults.start_temp_k,
            },
            None => config.circadian.defaults.start_temp_k,
        }),
        room_params(config, room).peak_temp_k == (match room.circadian {
            Some(own) => match own.peak_temp_k {
                Some(value) => value,
                None => config.circadian.defaults.peak_temp_k,
            },
            None => config.circadian.defaults.peak_temp_k,
        }),
        room_params(config, room).end_temp_k == (match room.circadian {
            Some(own) => match own.end_temp_k {
                Some(value) => value,
                None => config.circadian.defaults.end_temp_k,
            },
            None => config.circadian.defaults.end_temp_k,
        }),
        room_params(config, room).start_brightness == (match room.circadian {
            Some(own) => match own.start_brightness {
                Some(value) => value,
                None => config.circadian.defaults.start_brightness,
            },
            None => config.circadian.defaults.start_brightness,
        }),
        room_params(config, room).peak_brightness == (match room.circadian {
            Some(own) => match own.peak_brightness {
                Some(value) => value,
                None => config.circadian.defaults.peak_brightness,
            },
            None => config.circadian.defaults.peak_brightness,
        }),
        room_params(config, room).end_brightness == (match room.circadian {
            Some(own) => match own.end_brightness {
                Some(value) => value,
                None => config.circadian.defaults.end_brightness,
            },
            None => config.circadian.defaults.end_brightness,
        }),
        room_params(config, room).ramp_duration_mins == (match room.circadian {
            Some(own) => match own.ramp_duration_mins {
                Some(value) => value,
                None => config.circadian.defaults.ramp_duration_mins,
            },
            None => config.circadian.defaults.ramp_duration_mins,
        }),
        room_params(config, room).curve == (match room.circadian {
            Some(own) => match own.curve {
                Some(value) => value,
                None => config.circadian.defaults.curve,
            },
            None => config.circadian.defaults.curve,
        }),
        hm_minutes(
            (match room.circadian {
            Some(own) => match own.wake_time {
                Some(value) => value,
                None => config.circadian.defaults.wake_time,
            },
            None => config.circadian.defaults.wake_time,
        })@,
        ) == Ok::<nat, TimeProblem>(m) && m < 1440 ==> room_params(config, room).wake_minutes == m,
        hm_minutes(
            (match room.circadian {
            Some(own) => match own.sleep_time {
                Some(value) => value,
                None => config.circadian.defaults.sleep_time,
            },
            None => config.circadian.defaults.sleep_time,
        })@,
        ) == Ok::<nat, TimeProblem>(m) && m < 1440 ==> room_params(config, room).sleep_minutes == m,
{
}

/// A lamp that comes online is brought up to date exactly where it can be dimmed, and every new
/// connection to the broker brings a round for all rooms.
pub proof fn law_newcomers_and_connections_are_answered(
    event: Event<Seq<char>>,
    state: SystemState,
    ieee: Seq<char>,
)
    ensures
        reaction_to(event, state) is UpdateAll <==> event is MqttConnected,
        reaction_to(event, state) == (Reaction::PushDevice { ieee }) <==> event
            == (Event::DeviceAvailabilityChanged { ieee, available: true })
            && state.device_map@.contains_key(ieee) && state.device_map@[ieee].supports_brightness,
{
}

} // verus!
