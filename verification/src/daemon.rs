//! How the daemon starts.

use vstd::prelude::*;

use crate::config::types::AppConfig;
use crate::names::NameMap;
use crate::state::{RoomState, SystemState};
use crate::text::{halves, parse_unsigned, parsed, split_in_two};
use crate::time::Instant;

verus! {

/// Settings given on the command line or by the environment.
#[derive(Clone, Debug)]
pub struct Overrides {
    pub mqtt_host: Option<String>,
    pub mqtt_port: Option<u16>,
    pub mqtt_topic: Option<String>,
    pub mcp_bind: Option<String>,
}

/// Puts the given settings in place of those of the configuration file. Everything else stays.
pub fn apply_overrides(config: &mut AppConfig, overrides: Overrides)
    ensures
        final(config).mqtt.host == crate::config::defaults::pick(
            overrides.mqtt_host,
            old(config).mqtt.host,
        ),
        final(config).mqtt.port == crate::config::defaults::pick(
            overrides.mqtt_port,
            old(config).mqtt.port,
        ),
        final(config).mqtt.base_topic == crate::config::defaults::pick(
            overrides.mqtt_topic,
            old(config).mqtt.base_topic,
        ),
        final(config).mcp.bind == crate::config::defaults::pick(
            overrides.mcp_bind,
            old(config).mcp.bind,
        ),
        *final(config) == (AppConfig {
            mqtt: final(config).mqtt,
            mcp: final(config).mcp,
            ..*old(config)
        }),
{
    if let Some(host) = overrides.mqtt_host {
        config.mqtt.host = host;
    }
    if let Some(port) = overrides.mqtt_port {
        config.mqtt.port = port;
    }
    if let Some(topic) = overrides.mqtt_topic {
        config.mqtt.base_topic = topic;
    }
    if let Some(bind) = overrides.mcp_bind {
        config.mcp.bind = bind;
    }
}

/// What is known at the start: nothing of the network, and every configured room as a room that
/// nothing is known of.
pub open spec fn is_start(state: SystemState, config: AppConfig, now: Instant) -> bool {
    &&& state.device_map@ == Map::<Seq<char>, crate::state::Z2mDeviceInfo>::empty()
    &&& state.group_map@ == Map::<Seq<char>, crate::state::Z2mGroupInfo>::empty()
    &&& state.friendly_to_ieee@ == Map::<Seq<char>, String>::empty()
    &&& state.availability@ == Map::<Seq<char>, bool>::empty()
    &&& !state.mqtt_connected
    &&& !state.z2m_online
    &&& state.started_at == Some(now)
    &&& forall|id: Seq<char>| #[trigger]
        state.rooms@.contains_key(id) <==> config.rooms@.contains_key(id)
    &&& forall|id: Seq<char>| #[trigger]
        state.rooms@.contains_key(id) ==> state.rooms@[id] == RoomState::initial()
}

/// What is known when the daemon starts at `now`.
pub fn initial_state(config: &AppConfig, now: Instant) -> (r: SystemState)
    ensures
        is_start(r, *config, now),
{
    let mut rooms: NameMap<RoomState> = NameMap::new();
    let ghost entries = config.rooms.entries_seq();
    let n: usize = config.rooms.len();
    let mut i: usize = 0;
    while i < n
        invariant
            i <= n == entries.len(),
            entries == config.rooms.entries_seq(),
            forall|id: Seq<char>| #[trigger]
                rooms@.contains_key(id) ==> config.rooms@.contains_key(id) && rooms@[id]
                    == RoomState::initial(),
            forall|j: int| 0 <= j < i ==> rooms@.contains_key((#[trigger] entries[j]).0@),
        decreases n - i,
    {
        rooms.insert(config.rooms.key_at(i).clone(), RoomState::default());
        i = i + 1;
    }
    assert forall|id: Seq<char>| #[trigger] config.rooms@.contains_key(id) implies rooms@.contains_key(
        id,
    ) by {
        let j = crate::names::key_position(entries, id);
        assert(entries[j].0@ == id);
    }
    let mut state: SystemState = SystemState::default();
    state.rooms = rooms;
    state.started_at = Some(now);
    state
}

/// The host and the port of a broker address `host:port`; nothing where it has another shape.
pub fn parse_broker_address(address: &str) -> (r: Option<(String, u16)>)
    ensures
        match r {
            Some((host, port)) => halves(address@, ':') matches Some((h, p)) && host@ == h
                && parsed(p, 65_535) == Some(port as nat),
            None => match halves(address@, ':') {
                Some((h, p)) => parsed(p, 65_535) is None,
                None => true,
            },
        },
{
    match split_in_two(address, ':') {
        Some((host, port)) => match parse_unsigned(port.as_str(), 65_535) {
            Some(port) => Some((host, port as u16)),
            None => None,
        },
        None => None,
    }
}

} // verus!
