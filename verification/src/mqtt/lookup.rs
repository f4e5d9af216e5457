//! Which room a group, a lamp or a sensor belongs to.

use vstd::prelude::*;

use crate::config::types::{AppConfig, RoomConfig};
use crate::names::NameMap;
use crate::state::SystemState;

verus! {

/// Precomputed room lookups derived from the configuration, so that single messages need no walk
/// over all rooms.
#[derive(Debug)]
pub struct RoomLookup {
    /// Group friendly name -> room_id (rooms configured with z2m_group).
    pub group_to_room: NameMap<String>,
    /// Light IEEE -> room_id (rooms configured with explicit lights, no group).
    pub ieee_to_room: NameMap<String>,
    /// Motion sensor IEEE -> room_ids using that sensor.
    pub sensor_rooms: NameMap<Vec<String>>,
}

/// The rooms among the first `n` by their group. Where two share a group, the later one has it.
pub open spec fn by_group(rooms: Seq<(String, RoomConfig)>, n: int) -> Map<Seq<char>, String>
    decreases n,
{
    if n <= 0 {
        Map::empty()
    } else {
        let rest = by_group(rooms, n - 1);
        match rooms[n - 1].1.z2m_group {
            Some(group) => rest.insert(group@, rooms[n - 1].0),
            None => rest,
        }
    }
}

/// `map`, with the first `n` lights leading to `room_id`.
pub open spec fn with_lights(
    map: Map<Seq<char>, String>,
    lights: Seq<String>,
    room_id: String,
    n: int,
) -> Map<Seq<char>, String>
    decreases n,
{
    if n <= 0 {
        map
    } else {
        with_lights(map, lights, room_id, n - 1).insert(lights[n - 1]@, room_id)
    }
}

/// The rooms without a group among the first `n` by their lights. Where two list a light, the
/// later one has it.
pub open spec fn by_light(rooms: Seq<(String, RoomConfig)>, n: int) -> Map<Seq<char>, String>
    decreases n,
{
    if n <= 0 {
        Map::empty()
    } else {
        let rest = by_light(rooms, n - 1);
        let (room_id, room) = rooms[n - 1];
        match room.z2m_group {
            Some(_) => rest,
            None => with_lights(rest, room.lights@, room_id, room.lights@.len() as int),
        }
    }
}

/// The rooms among the first `n` that use a motion sensor, in order.
pub open spec fn using_sensor(rooms: Seq<(String, RoomConfig)>, sensor: Seq<char>, n: int) -> Seq<
    String,
>
    decreases n,
{
    if n <= 0 {
        Seq::empty()
    } else {
        let rest = using_sensor(rooms, sensor, n - 1);
        match rooms[n - 1].1.motion_sensor {
            Some(own) => if own@ == sensor {
                rest.push(rooms[n - 1].0)
            } else {
                rest
            },
            None => rest,
        }
    }
}

/// The map leads from every sensor in use to the rooms among the first `n` that use it.
pub open spec fn leads_to_users(
    map: Map<Seq<char>, Vec<String>>,
    rooms: Seq<(String, RoomConfig)>,
    n: int,
) -> bool {
    &&& forall|sensor: Seq<char>| #[trigger]
        map.contains_key(sensor) <==> using_sensor(rooms, sensor, n).len() > 0
    &&& forall|sensor: Seq<char>| #[trigger]
        map.contains_key(sensor) ==> map[sensor]@ == using_sensor(rooms, sensor, n)
}

impl RoomLookup {
    /// The lookups are those of the configuration.
    pub open spec fn is_of(self, config: AppConfig) -> bool {
        let rooms = config.rooms.entries_seq();
        &&& self.group_to_room@ == by_group(rooms, rooms.len() as int)
        &&& self.ieee_to_room@ == by_light(rooms, rooms.len() as int)
        &&& leads_to_users(self.sensor_rooms@, rooms, rooms.len() as int)
    }

    pub fn from_config(config: &AppConfig) -> (r: Self)
        ensures
            r.is_of(*config),
    {
        let mut group_to_room: NameMap<String> = NameMap::new();
        let mut ieee_to_room: NameMap<String> = NameMap::new();
        let mut sensor_rooms: NameMap<Vec<String>> = NameMap::new();
        let ghost rooms = config.rooms.entries_seq();
        let n: usize = config.rooms.len();
        let mut i: usize = 0;
        while i < n
            invariant
                i <= n == rooms.len(),
                rooms == config.rooms.entries_seq(),
                group_to_room@ == by_group(rooms, i as int),
                ieee_to_room@ == by_light(rooms, i as int),
                leads_to_users(sensor_rooms@, rooms, i as int),
            decreases n - i,
        {
            let room_id = config.rooms.key_at(i);
            let room = config.rooms.value_at(i);
            if let Some(group) = &room.z2m_group {
                group_to_room.insert(group.clone(), room_id.clone());
            } else {
                let ghost base = ieee_to_room@;
                let mut j: usize = 0;
                while j < room.lights.len()
                    invariant
                        j <= room.lights@.len(),
                        ieee_to_room@ == with_lights(base, room.lights@, *room_id, j as int),
                    decreases room.lights.len() - j,
                {
                    ieee_to_room.insert(room.lights[j].clone(), room_id.clone());
                    j = j + 1;
                }
            }
            if let Some(sensor) = &room.motion_sensor {
                let ghost before = sensor_rooms@;
                let mut users: Vec<String> = match sensor_rooms.remove(sensor.as_str()) {
                    Some(users) => users,
                    None => Vec::new(),
                };
                proof {
                    assert(users@ =~= using_sensor(rooms, sensor@, i as int));
                }
                users.push(room_id.clone());
                sensor_rooms.insert(sensor.clone(), users);
                proof {
                    assert forall|s: Seq<char>| s != sensor@ implies #[trigger] using_sensor(
                        rooms,
                        s,
                        i + 1,
                    ) == using_sensor(rooms, s, i as int) by {}
                    assert forall|s: Seq<char>| #[trigger]
                        sensor_rooms@.contains_key(s) <==> using_sensor(rooms, s, i + 1).len()
                            > 0 by {
                        if s != sensor@ {
                            assert(using_sensor(rooms, s, i + 1) == using_sensor(
                                rooms,
                                s,
                                i as int,
                            ));
                            assert(sensor_rooms@.contains_key(s) == before.contains_key(s));
                        }
                    }
                    assert forall|s: Seq<char>| #[trigger]
                        sensor_rooms@.contains_key(s) implies sensor_rooms@[s]@ == using_sensor(
                        rooms,
                        s,
                        i + 1,
                    ) by {
                        if s != sensor@ {
                            assert(using_sensor(rooms, s, i + 1) == using_sensor(
                                rooms,
                                s,
                                i as int,
                            ));
                            assert(before.contains_key(s));
                        }
                    }
                }
            } else {
                assert forall|s: Seq<char>| #[trigger] using_sensor(rooms, s, i + 1)
                    == using_sensor(rooms, s, i as int) by {}
            }
            i = i + 1;
        }
        RoomLookup { group_to_room, ieee_to_room, sensor_rooms }
    }
}

/// The room that a device or group belongs to, by its friendly name.
pub open spec fn room_of(device_name: Seq<char>, state: SystemState, lookup: RoomLookup) -> Option<
    String,
> {
    match lookup.group_to_room.lookup(device_name) {
        Some(room_id) => Some(room_id),
        None => match state.friendly_to_ieee.lookup(device_name) {
            Some(ieee) => lookup.ieee_to_room.lookup(ieee@),
            None => None,
        },
    }
}

/// Find which room a device (by friendly name) belongs to. Rooms with a group only match the group
/// topic, so that the same state is not taken in twice; rooms with explicit lights match the
/// individual device by IEEE.
pub fn find_room_for_device(device_name: &str, system_state: &SystemState, lookup: &RoomLookup) -> (r:
    Option<String>)
    ensures
        r == room_of(device_name@, *system_state, *lookup),
{
    if let Some(room_id) = lookup.group_to_room.get(device_name) {
        return Some(room_id.clone());
    }
    match system_state.friendly_to_ieee.get(device_name) {
        Some(ieee) => match lookup.ieee_to_room.get(ieee.as_str()) {
            Some(room_id) => Some(room_id.clone()),
            None => None,
        },
        None => None,
    }
}

proof fn lemma_group_leads_on(rooms: Seq<(String, RoomConfig)>, i: int, n: int)
    requires
        0 <= i < n <= rooms.len(),
        rooms[i].1.z2m_group is Some,
        forall|j: int|
            i < j < n ==> !((#[trigger] rooms[j]).1.z2m_group matches Some(other) && other@
                == rooms[i].1.z2m_group->0@),
    ensures
        by_group(rooms, n).contains_key(rooms[i].1.z2m_group->0@),
        by_group(rooms, n)[rooms[i].1.z2m_group->0@] == rooms[i].0,
    decreases n,
{
    if i < n - 1 {
        lemma_group_leads_on(rooms, i, n - 1);
        assert(rooms[n - 1] == rooms[n - 1]);
    }
}

proof fn lemma_light_among(
    map: Map<Seq<char>, String>,
    lights: Seq<String>,
    room_id: String,
    n: int,
    ieee: Seq<char>,
)
    requires
        0 <= n <= lights.len(),
    ensures
        (exists|k: int| 0 <= k < n && (#[trigger] lights[k])@ == ieee) ==> with_lights(
            map,
            lights,
            room_id,
            n,
        ).contains_key(ieee) && with_lights(map, lights, room_id, n)[ieee] == room_id,
        !(exists|k: int| 0 <= k < n && (#[trigger] lights[k])@ == ieee) ==> (with_lights(
            map,
            lights,
            room_id,
            n,
        ).contains_key(ieee) == map.contains_key(ieee)) && (map.contains_key(ieee) ==> with_lights(
            map,
            lights,
            room_id,
            n,
        )[ieee] == map[ieee]),
    decreases n,
{
    if n > 0 {
        lemma_light_among(map, lights, room_id, n - 1, ieee);
        assert(lights[n - 1] == lights[n - 1]);
    }
}

proof fn lemma_light_leads_on(rooms: Seq<(String, RoomConfig)>, i: int, k: int, n: int)
    requires
        0 <= i < n <= rooms.len(),
        rooms[i].1.z2m_group is None,
        0 <= k < rooms[i].1.lights@.len(),
        forall|j: int|
            i < j < n ==> (#[trigger] rooms[j]).1.z2m_group is Some || !lists(
                rooms[j].1,
                rooms[i].1.lights@[k]@,
            ),
    ensures
        by_light(rooms, n).contains_key(rooms[i].1.lights@[k]@),
        by_light(rooms, n)[rooms[i].1.lights@[k]@] == rooms[i].0,
    decreases n,
{
    let ieee = rooms[i].1.lights@[k]@;
    let (room_id, room) = rooms[n - 1];
    lemma_light_among(
        by_light(rooms, n - 1),
        room.lights@,
        room_id,
        room.lights@.len() as int,
        ieee,
    );
    if i < n - 1 {
        lemma_light_leads_on(rooms, i, k, n - 1);
        assert(rooms[n - 1].1.z2m_group is Some || !lists(rooms[n - 1].1, ieee));
    } else {
        assert(room.lights@[k]@ == ieee);
    }
}

/// The room lists the light.
pub open spec fn lists(room: RoomConfig, ieee: Seq<char>) -> bool {
    exists|k: int| 0 <= k < room.lights@.len() && (#[trigger] room.lights@[k])@ == ieee
}

/// A report about a group is about the room that has the group, the last one of several.
pub proof fn law_groups_lead_to_their_room(
    config: AppConfig,
    state: SystemState,
    lookup: RoomLookup,
    i: int,
)
    requires
        lookup.is_of(config),
        0 <= i < config.rooms.entries_seq().len(),
        config.rooms.entries_seq()[i].1.z2m_group is Some,
        forall|j: int|
            i < j < config.rooms.entries_seq().len() ==> !((
            #[trigger] config.rooms.entries_seq()[j]).1.z2m_group matches Some(other) && other@
                == config.rooms.entries_seq()[i].1.z2m_group->0@),
    ensures
        room_of(config.rooms.entries_seq()[i].1.z2m_group->0@, state, lookup) == Some(
            config.rooms.entries_seq()[i].0,
        ),
{
    let rooms = config.rooms.entries_seq();
    lemma_group_leads_on(rooms, i, rooms.len() as int);
}

/// A report about a lamp is about the room without a group that lists the lamp, whatever the lamp
/// is called at the moment; of several such rooms the last counts.
pub proof fn law_lamps_lead_to_their_room(
    config: AppConfig,
    state: SystemState,
    lookup: RoomLookup,
    name: Seq<char>,
    i: int,
    k: int,
)
    requires
        lookup.is_of(config),
        0 <= i < config.rooms.entries_seq().len(),
        config.rooms.entries_seq()[i].1.z2m_group is None,
        0 <= k < config.rooms.entries_seq()[i].1.lights@.len(),
        forall|j: int|
            i < j < config.rooms.entries_seq().len() ==> (
            #[trigger] config.rooms.entries_seq()[j]).1.z2m_group is Some || !lists(
                config.rooms.entries_seq()[j].1,
                config.rooms.entries_seq()[i].1.lights@[k]@,
            ),
        state.friendly_to_ieee@.contains_key(name),
        state.friendly_to_ieee@[name]@ == config.rooms.entries_seq()[i].1.lights@[k]@,
        !lookup.group_to_room@.contains_key(name),
    ensures
        room_of(name, state, lookup) == Some(config.rooms.entries_seq()[i].0),
{
    let rooms = config.rooms.entries_seq();
    lemma_light_leads_on(rooms, i, k, rooms.len() as int);
}

proof fn lemma_users(rooms: Seq<(String, RoomConfig)>, sensor: Seq<char>, n: int, id: String)
    requires
        0 <= n <= rooms.len(),
    ensures
        using_sensor(rooms, sensor, n).contains(id) <==> exists|j: int|
            0 <= j < n && (#[trigger] rooms[j]).0 == id && (rooms[j].1.motion_sensor matches Some(
                own,
            ) && own@ == sensor),
    decreases n,
{
    if n > 0 {
        lemma_users(rooms, sensor, n - 1, id);
        let rest = using_sensor(rooms, sensor, n - 1);
        let all = using_sensor(rooms, sensor, n);
        assert(rooms[n - 1] == rooms[n - 1]);
        if all == rest.push(rooms[n - 1].0) {
            assert(all[all.len() - 1] == rooms[n - 1].0);
            if rest.contains(id) {
                let k = rest.index_of(id);
                assert(all[k] == id);
            }
            if all.contains(id) {
                let k = all.index_of(id);
                assert(all[k] == id);
                if k < rest.len() {
                    assert(rest[k] == id);
                }
            }
        }
    }
}

/// A motion sensor leads to exactly the rooms that use it.
pub proof fn law_sensors_lead_to_their_rooms(
    config: AppConfig,
    lookup: RoomLookup,
    sensor: Seq<char>,
    id: String,
)
    requires
        lookup.is_of(config),
    ensures
        (lookup.sensor_rooms@.contains_key(sensor) && lookup.sensor_rooms@[sensor]@.contains(id))
            <==> exists|j: int|
            0 <= j < config.rooms.entries_seq().len() && (
            #[trigger] config.rooms.entries_seq()[j]).0 == id && (
            config.rooms.entries_seq()[j].1.motion_sensor matches Some(own) && own@ == sensor),
{
    let rooms = config.rooms.entries_seq();
    lemma_users(rooms, sensor, rooms.len() as int, id);
    let users = using_sensor(rooms, sensor, rooms.len() as int);
    assert(lookup.sensor_rooms@.contains_key(sensor) <==> users.len() > 0);
    if lookup.sensor_rooms@.contains_key(sensor) {
        assert(lookup.sensor_rooms@[sensor]@ == users);
    }
    if users.contains(id) {
        assert(users.len() > 0);
    }
}

} // verus!
