//! Rooms for groups that nobody configured yet.

use vstd::prelude::*;

use crate::config::types::{AppConfig, RoomConfig};
use crate::event::Event;
use crate::naming::{make_room_id, room_id_of, trim_end, trimmed_end};
use crate::state::{SystemState, Z2mDeviceInfo, Z2mGroupInfo, Z2mGroupMember};
use crate::names::NameMap;
use crate::text::{cat2, has_part, occurs_at};

verus! {

/// Some room is configured with the group.
pub open spec fn is_configured(rooms: Seq<(String, RoomConfig)>, group: Seq<char>) -> bool {
    exists|i: int|
        0 <= i < rooms.len() && ((#[trigger] rooms[i]).1.z2m_group matches Some(own) && own@
            == group)
}

/// Some member of the group is a light: a known device that can be dimmed.
pub open spec fn has_light(members: Seq<Z2mGroupMember>, devices: NameMap<Z2mDeviceInfo>) -> bool {
    exists|i: int|
        0 <= i < members.len() && devices@.contains_key((#[trigger] members[i]).ieee_address@)
            && devices@[members[i].ieee_address@].supports_brightness
}

/// A room is to be made for the group: it is not configured, it has a light, and no room has the
/// id that its name gives.
pub open spec fn wants_room(config: AppConfig, state: SystemState, group: (String, Z2mGroupInfo)) -> bool {
    &&& !is_configured(config.rooms.entries_seq(), group.0@)
    &&& has_light(group.1.members@, state.device_map)
    &&& !config.rooms@.contains_key(room_id_of(group.0@))
}

/// The section of the configuration file that a new room gets.
pub open spec fn room_section(room_id: Seq<char>, group: Seq<char>) -> Seq<char> {
    "\n[rooms."@ + room_id + "]\ndisplay_name = \""@ + group + "\"\nz2m_group = \""@ + group
        + "\"\n"@
}

/// The sections for those of the first `n` groups that want a room.
pub open spec fn new_sections(config: AppConfig, state: SystemState, n: int) -> Seq<char>
    decreases n,
{
    if n <= 0 {
        Seq::empty()
    } else {
        let rest = new_sections(config, state, n - 1);
        let group = state.group_map.entries_seq()[n - 1];
        if wants_room(config, state, group) {
            rest + room_section(room_id_of(group.0@), group.0@)
        } else {
            rest
        }
    }
}

/// How many of the first `n` groups want a room.
pub open spec fn new_rooms(config: AppConfig, state: SystemState, n: int) -> nat
    decreases n,
{
    if n <= 0 {
        0
    } else {
        let rest = new_rooms(config, state, n - 1);
        if wants_room(config, state, state.group_map.entries_seq()[n - 1]) {
            rest + 1
        } else {
            rest
        }
    }
}

fn group_is_configured(rooms: &NameMap<RoomConfig>, group: &String) -> (r: bool)
    ensures
        r == is_configured(rooms.entries_seq(), group@),
{
    let n: usize = rooms.len();
    let mut i: usize = 0;
    while i < n
        invariant
            i <= n == rooms.entries_seq().len(),
            forall|j: int|
                0 <= j < i ==> !((#[trigger] rooms.entries_seq()[j]).1.z2m_group matches Some(own)
                    && own@ == group@),
        decreases n - i,
    {
        if let Some(own) = &rooms.value_at(i).z2m_group {
            if *own == *group {
                return true;
            }
        }
        i = i + 1;
    }
    false
}

fn group_has_light(members: &Vec<Z2mGroupMember>, devices: &NameMap<Z2mDeviceInfo>) -> (r: bool)
    ensures
        r == has_light(members@, *devices),
{
    let mut i: usize = 0;
    while i < members.len()
        invariant
            i <= members@.len(),
            forall|j: int|
                0 <= j < i ==> !(devices@.contains_key((#[trigger] members@[j]).ieee_address@)
                    && devices@[members@[j].ieee_address@].supports_brightness),
        decreases members.len() - i,
    {
        if let Some(device) = devices.get(members[i].ieee_address.as_str()) {
            if device.supports_brightness {
                return true;
            }
        }
        i = i + 1;
    }
    false
}

/// What is to be added to the configuration file for groups that have lights but no room yet;
/// nothing where there is no such group.
pub fn sync_new_groups(config: &AppConfig, state: &SystemState) -> (r: Option<String>)
    ensures
        r is Some == (new_rooms(
            *config,
            *state,
            state.group_map.entries_seq().len() as int,
        ) > 0),
        r matches Some(additions) ==> additions@ == new_sections(
            *config,
            *state,
            state.group_map.entries_seq().len() as int,
        ),
{
    let mut additions: String = String::new();
    let mut found: bool = false;
    let n: usize = state.group_map.len();
    let mut i: usize = 0;
    assert(additions@ =~= Seq::<char>::empty());
    while i < n
        invariant
            i <= n == state.group_map.entries_seq().len(),
            additions@ == new_sections(*config, *state, i as int),
            found == (new_rooms(*config, *state, i as int) > 0),
        decreases n - i,
    {
        let name = state.group_map.key_at(i);
        let group = state.group_map.value_at(i);
        if !group_is_configured(&config.rooms, name) && group_has_light(
            &group.members,
            &state.device_map,
        ) {
            let room_id: String = make_room_id(name.as_str());
            if !config.rooms.contains_key(room_id.as_str()) {
                let ghost before = additions@;
                additions.append("\n[rooms.");
                additions.append(room_id.as_str());
                additions.append("]\ndisplay_name = \"");
                additions.append(name.as_str());
                additions.append("\"\nz2m_group = \"");
                additions.append(name.as_str());
                additions.append("\"\n");
                assert(additions@ =~= before + room_section(room_id@, name@));
                found = true;
            }
        }
        i = i + 1;
    }
    if found {
        Some(additions)
    } else {
        None
    }
}

/// The configuration file with the additions behind its last line.
pub fn updated_file(existing: &str, additions: &str) -> (r: String)
    ensures
        r@ == trimmed_end(existing@) + additions@,
{
    cat2(trim_end(existing).as_str(), additions)
}

/// New groups are looked for whenever the group list was updated.
pub fn wants_sync(event: &Event) -> (r: bool)
    ensures
        r == (event@ is GroupsUpdated),
{
    match event {
        Event::GroupsUpdated => true,
        _ => false,
    }
}

/// Nobody configured the group, one of its members is a known lamp that can be dimmed, and the id
/// that its name gives is free.
pub open spec fn is_new_with_lights(
    config: AppConfig,
    state: SystemState,
    name: Seq<char>,
    members: Seq<Z2mGroupMember>,
) -> bool {
    &&& forall|i: int|
        0 <= i < config.rooms.entries_seq().len() ==> !((
        #[trigger] config.rooms.entries_seq()[i]).1.z2m_group is Some
            && config.rooms.entries_seq()[i].1.z2m_group->0@ == name)
    &&& exists|i: int|
        0 <= i < members.len() && state.device_map@.contains_key(
            (#[trigger] members[i]).ieee_address@,
        ) && state.device_map@[members[i].ieee_address@].supports_brightness
    &&& !config.rooms@.contains_key(room_id_of(name))
}

/// There is something to add exactly where some group is new and has lights, and every such group
/// gets a room of its own: a section with its id, and the group's name as the room's name and group.
pub proof fn law_new_groups_get_rooms(config: AppConfig, state: SystemState, n: int)
    requires
        0 <= n <= state.group_map.entries_seq().len(),
    ensures
        new_rooms(config, state, n) > 0 <==> exists|j: int|
            0 <= j < n && is_new_with_lights(
                config,
                state,
                (#[trigger] state.group_map.entries_seq()[j]).0@,
                state.group_map.entries_seq()[j].1.members@,
            ),
        forall|j: int|
            0 <= j < n && is_new_with_lights(
                config,
                state,
                (#[trigger] state.group_map.entries_seq()[j]).0@,
                state.group_map.entries_seq()[j].1.members@,
            ) ==> has_part(
                new_sections(config, state, n),
                "\n[rooms."@ + room_id_of(state.group_map.entries_seq()[j].0@)
                    + "]\ndisplay_name = \""@ + state.group_map.entries_seq()[j].0@
                    + "\"\nz2m_group = \""@ + state.group_map.entries_seq()[j].0@ + "\"\n"@,
            ),
        new_rooms(config, state, n) == 0 ==> new_sections(config, state, n).len() == 0,
    decreases n,
{
    if n > 0 {
        law_new_groups_get_rooms(config, state, n - 1);
        let group = state.group_map.entries_seq()[n - 1];
        let rest = new_sections(config, state, n - 1);
        let all = new_sections(config, state, n);
        assert(wants_room(config, state, group) <==> is_new_with_lights(
            config,
            state,
            group.0@,
            group.1.members@,
        ));
        let own = room_section(room_id_of(group.0@), group.0@);
        if wants_room(config, state, group) {
            assert(all.subrange(rest.len() as int, (rest.len() + own.len()) as int) =~= own);
            assert(occurs_at(all, own, rest.len() as int));
        }
        assert forall|j: int|
            0 <= j < n && is_new_with_lights(
                config,
                state,
                (#[trigger] state.group_map.entries_seq()[j]).0@,
                state.group_map.entries_seq()[j].1.members@,
            ) implies has_part(
            all,
            "\n[rooms."@ + room_id_of(state.group_map.entries_seq()[j].0@)
                + "]\ndisplay_name = \""@ + state.group_map.entries_seq()[j].0@
                + "\"\nz2m_group = \""@ + state.group_map.entries_seq()[j].0@ + "\"\n"@,
        ) by {
            let name = state.group_map.entries_seq()[j].0@;
            let part = room_section(room_id_of(name), name);
            if j < n - 1 {
                let at = choose|at: int| #[trigger] occurs_at(rest, part, at);
                assert(all.subrange(at, (at + part.len()) as int) =~= rest.subrange(
                    at,
                    (at + part.len()) as int,
                ));
                assert(occurs_at(all, part, at));
            }
        }
    }
}

} // verus!
