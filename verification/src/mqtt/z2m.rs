//! What Zigbee2MQTT tells, and what follows from it.

use vstd::prelude::*;
use vstd::utf8::{decode_utf8, valid_utf8};

use crate::init::offers;
use crate::json::decode_text;
use crate::names::NameMap;
use crate::state::{StateCommand, Z2mDeviceInfo, Z2mGroupInfo, Z2mGroupMember, Z2mScene};
use crate::text::{
    begins_with, contains, finishes_with, has_part, same, strip_prefix, strip_suffix,
};
use crate::time::Instant;

verus! {

/// How long a second external change of a room counts as the same one.
pub const EXTERNAL_CHANGE_DEDUP_NANOS: u128 = 2_000_000_000;

/// How long an identical action from the same remote is treated as a republish rather than a new
/// press. Deliberate repeat presses are hundreds of milliseconds apart at the very fastest, while
/// republish storms land in the same millisecond, so this keeps real double-presses working.
pub const REMOTE_ACTION_DEDUP_NANOS: u128 = 500_000_000;

/// Last-known values that single messages are held against.
#[derive(Debug)]
pub struct Z2mMemory {
    /// Room -> when an external change was last announced for it.
    pub external_changes: NameMap<Instant>,
    /// Motion sensor IEEE -> last occupancy. By IEEE, as friendly names change at any time.
    pub occupancy: NameMap<bool>,
    /// Remote IEEE -> last action, and when it was accepted.
    pub remote_actions: NameMap<(String, Instant)>,
}

impl Z2mMemory {
    pub fn new() -> (r: Self)
        ensures
            r.external_changes@ == Map::<Seq<char>, Instant>::empty(),
            r.occupancy@ == Map::<Seq<char>, bool>::empty(),
            r.remote_actions@ == Map::<Seq<char>, (String, Instant)>::empty(),
    {
        Z2mMemory {
            external_changes: NameMap::new(),
            occupancy: NameMap::new(),
            remote_actions: NameMap::new(),
        }
    }
}

/// The value differs from the last one of this sensor, or is its first.
pub open spec fn is_transition(cache: Map<Seq<char>, bool>, ieee: Seq<char>, occupancy: bool) -> bool {
    cache.contains_key(ieee) ==> cache[ieee] != occupancy
}

/// Stores `occupancy` as the current value for `ieee` and reports whether it is a transition worth
/// publishing. The first report seen for a sensor, such as the retained state replayed right after
/// a restart, always counts as one, since there is no prior value to compare it with.
pub fn record_occupancy(cache: &mut NameMap<bool>, ieee: &str, occupancy: bool) -> (r: bool)
    ensures
        r == is_transition(old(cache)@, ieee@, occupancy),
        final(cache)@ == old(cache)@.insert(ieee@, occupancy),
{
    let r: bool = match cache.get(ieee) {
        Some(previous) => *previous != occupancy,
        None => true,
    };
    cache.insert(ieee.to_owned(), occupancy);
    r
}

/// The remote's last accepted action is this one, less than the dedup window ago.
pub open spec fn is_republish(
    cache: Map<Seq<char>, (String, Instant)>,
    ieee: Seq<char>,
    action: Seq<char>,
    now: Instant,
) -> bool {
    cache.contains_key(ieee) && cache[ieee].0@ == action && now.since(cache[ieee].1)
        < REMOTE_ACTION_DEDUP_NANOS
}

/// What the cache holds, with its texts as sequences of characters.
pub open spec fn actions_view(cache: NameMap<(String, Instant)>) -> Map<
    Seq<char>,
    (Seq<char>, Instant),
> {
    cache@.map_values(|entry: (String, Instant)| (entry.0@, entry.1))
}

/// Records `action` for `ieee` and reports whether it should be published as a button press. Not
/// so an identical action seen inside the dedup window. A different action always counts, so that
/// genuine sequences (`on_press`, then `on_hold`) are never suppressed.
pub fn record_remote_action(
    cache: &mut NameMap<(String, Instant)>,
    ieee: &str,
    action: &str,
    now: Instant,
) -> (r: bool)
    ensures
        r == !is_republish(old(cache)@, ieee@, action@, now),
        r ==> actions_view(*final(cache)) == actions_view(*old(cache)).insert(
            ieee@,
            (action@, now),
        ),
        !r ==> *final(cache) == *old(cache),
{
    let republish: bool = match cache.get(ieee) {
        Some(entry) => same(entry.0.as_str(), action) && now.duration_since(entry.1).nanos
            < REMOTE_ACTION_DEDUP_NANOS,
        None => false,
    };
    if republish {
        return false;
    }
    cache.insert(ieee.to_owned(), (action.to_owned(), now));
    assert(actions_view(*cache) =~= actions_view(*old(cache)).insert(ieee@, (action@, now)));
    true
}

/// Recording a value makes the same value no transition any more, and the other one a transition.
pub proof fn law_only_changes_are_transitions(
    cache: Map<Seq<char>, bool>,
    ieee: Seq<char>,
    first: bool,
    second: bool,
)
    ensures
        is_transition(cache.insert(ieee, first), ieee, second) == (first != second),
{
}

/// A report of one sensor leaves what is known of the others alone.
pub proof fn law_sensors_are_independent(
    cache: Map<Seq<char>, bool>,
    ieee: Seq<char>,
    other: Seq<char>,
    reported: bool,
    value: bool,
)
    requires
        ieee != other,
    ensures
        is_transition(cache.insert(ieee, reported), other, value) == is_transition(
            cache,
            other,
            value,
        ),
{
}

/// A different action is never taken for a republish, and neither is a repeat outside the window
/// or an action of another remote.
pub proof fn law_real_presses_count(
    cache: Map<Seq<char>, (String, Instant)>,
    ieee: Seq<char>,
    action: Seq<char>,
    now: Instant,
)
    ensures
        !cache.contains_key(ieee) ==> !is_republish(cache, ieee, action, now),
        cache.contains_key(ieee) && cache[ieee].0@ != action ==> !is_republish(
            cache,
            ieee,
            action,
            now,
        ),
        cache.contains_key(ieee) && now.since(cache[ieee].1) >= REMOTE_ACTION_DEDUP_NANOS
            ==> !is_republish(cache, ieee, action, now),
{
}

/// A text field of a JSON object.
#[derive(Clone, Debug)]
pub enum TextField {
    Absent,
    /// The field holds something else than a text.
    Other,
    Text(String),
}

/// A feature that a device exposes, possibly made of others.
#[derive(Debug)]
pub struct Expose {
    pub features: Vec<Expose>,
    pub name: TextField,
    pub property: TextField,
    pub value_min: Option<u64>,
    pub value_max: Option<u64>,
}

/// A device as the bridge lists it.
#[derive(Debug)]
pub struct Z2mDevice {
    pub ieee_address: String,
    pub friendly_name: String,
    pub supported: Option<bool>,
    pub exposes: Option<Vec<Expose>>,
    pub device_type: Option<String>,
}

/// A group as the bridge lists it.
#[derive(Debug)]
pub struct Z2mGroup {
    pub id: u16,
    pub friendly_name: String,
    pub members: Vec<Z2mGroupMember>,
    pub scenes: Vec<Z2mScene>,
}

/// What a feature is called: by its name, and by its property where it has no name.
pub open spec fn expose_name(expose: Expose) -> Option<Seq<char>> {
    match expose.name {
        TextField::Text(name) => Some(name@),
        TextField::Other => None,
        TextField::Absent => match expose.property {
            TextField::Text(property) => Some(property@),
            _ => None,
        },
    }
}

impl Expose {
    /// Whether the feature is called `name`.
    pub fn is_called(&self, name: &str) -> (r: bool)
        ensures
            r == (expose_name(*self) == Some(name@)),
    {
        match &self.name {
            TextField::Text(own) => same(own.as_str(), name),
            TextField::Other => false,
            TextField::Absent => match &self.property {
                TextField::Text(own) => same(own.as_str(), name),
                _ => false,
            },
        }
    }
}

/// What a lamp can do, as read off its features.
pub struct Capabilities {
    pub brightness: bool,
    pub color_temp: bool,
    pub color_temp_min: Option<u16>,
    pub color_temp_max: Option<u16>,
    pub color_xy: bool,
    pub color_hs: bool,
}

/// The capabilities that a device record holds.
pub open spec fn capabilities_of(info: Z2mDeviceInfo) -> Capabilities {
    Capabilities {
        brightness: info.supports_brightness,
        color_temp: info.supports_color_temp,
        color_temp_min: info.color_temp_min,
        color_temp_max: info.color_temp_max,
        color_xy: info.supports_color_xy,
        color_hs: info.supports_color_hs,
    }
}

/// The low 16 bits of a bound, where there is one; what was known before otherwise.
pub open spec fn bound_or(bound: Option<u64>, before: Option<u16>) -> Option<u16> {
    match bound {
        Some(value) => Some((value % 65_536) as u16),
        None => before,
    }
}

/// The capabilities once the name of a feature was taken in.
pub open spec fn with_name(c: Capabilities, expose: Expose) -> Capabilities {
    let name = expose_name(expose);
    if name == Some("brightness"@) {
        Capabilities { brightness: true, ..c }
    } else if name == Some("color_temp"@) {
        Capabilities {
            color_temp: true,
            color_temp_min: bound_or(expose.value_min, c.color_temp_min),
            color_temp_max: bound_or(expose.value_max, c.color_temp_max),
            ..c
        }
    } else if name == Some("color_xy"@) {
        Capabilities { color_xy: true, ..c }
    } else if name == Some("color_hs"@) {
        Capabilities { color_hs: true, ..c }
    } else {
        c
    }
}

/// The capabilities once the first `n` features of a list were taken in, each after the features
/// that it is made of.
pub open spec fn with_features(c: Capabilities, exposes: Seq<Expose>, n: nat) -> Capabilities
    decreases exposes, n,
{
    if n == 0 || n > exposes.len() {
        c
    } else {
        let before = with_features(c, exposes, (n - 1) as nat);
        let own = exposes[n - 1];
        with_name(with_features(before, own.features@, own.features@.len()), own)
    }
}

/// Takes the capabilities that `exposes` tells into `info`.
pub fn parse_capabilities(exposes: &Vec<Expose>, info: &mut Z2mDeviceInfo)
    ensures
        capabilities_of(*final(info)) == with_features(
            capabilities_of(*old(info)),
            exposes@,
            exposes@.len(),
        ),
        final(info).ieee_address == old(info).ieee_address,
        final(info).friendly_name == old(info).friendly_name,
        final(info).supported == old(info).supported,
    decreases exposes,
{
    let ghost start = capabilities_of(*info);
    let mut i: usize = 0;
    while i < exposes.len()
        invariant
            i <= exposes@.len(),
            capabilities_of(*info) == with_features(start, exposes@, i as nat),
            info.ieee_address == old(info).ieee_address,
            info.friendly_name == old(info).friendly_name,
            info.supported == old(info).supported,
        decreases exposes.len() - i,
    {
        let expose = &exposes[i];
        proof {
            assert(decreases_to!(*exposes => exposes@[i as int]));
            assert(decreases_to!(exposes@[i as int] => exposes@[i as int].features));
        }
        parse_capabilities(&expose.features, info);
        if expose.is_called("brightness") {
            info.supports_brightness = true;
        } else if expose.is_called("color_temp") {
            info.supports_color_temp = true;
            if let Some(min) = expose.value_min {
                info.color_temp_min = Some((min % 65_536) as u16);
            }
            if let Some(max) = expose.value_max {
                info.color_temp_max = Some((max % 65_536) as u16);
            }
        } else if expose.is_called("color_xy") {
            info.supports_color_xy = true;
        } else if expose.is_called("color_hs") {
            info.supports_color_hs = true;
        }
        i = i + 1;
    }
}

/// A lamp that nothing is known of.
pub open spec fn no_capabilities() -> Capabilities {
    Capabilities {
        brightness: false,
        color_temp: false,
        color_temp_min: None,
        color_temp_max: None,
        color_xy: false,
        color_hs: false,
    }
}

/// The record is the one of a listed device.
pub open spec fn describes(info: Z2mDeviceInfo, device: Z2mDevice) -> bool {
    &&& info.ieee_address@ == device.ieee_address@
    &&& info.friendly_name@ == device.friendly_name@
    &&& info.supported == crate::config::defaults::pick(device.supported, true)
    &&& capabilities_of(info) == match device.exposes {
        Some(exposes) => with_features(no_capabilities(), exposes@, exposes@.len()),
        None => no_capabilities(),
    }
}

/// The map holds the devices by address, of two with one address the later.
pub open spec fn holds_devices(
    map: Map<Seq<char>, Z2mDeviceInfo>,
    devices: Seq<Z2mDevice>,
    n: int,
) -> bool {
    &&& forall|ieee: Seq<char>| #[trigger]
        map.contains_key(ieee) ==> exists|i: int|
            0 <= i < n && (#[trigger] devices[i]).ieee_address@ == ieee && describes(
                map[ieee],
                devices[i],
            ) && forall|j: int| i < j < n ==> (#[trigger] devices[j]).ieee_address@ != ieee
    &&& forall|i: int| 0 <= i < n ==> map.contains_key((#[trigger] devices[i]).ieee_address@)
}

fn device_record(device: &Z2mDevice) -> (r: Z2mDeviceInfo)
    ensures
        describes(r, *device),
{
    let mut info = Z2mDeviceInfo {
        ieee_address: device.ieee_address.clone(),
        friendly_name: device.friendly_name.clone(),
        supported: device.supported.unwrap_or(true),
        supports_brightness: false,
        supports_color_temp: false,
        color_temp_min: None,
        color_temp_max: None,
        supports_color_xy: false,
        supports_color_hs: false,
    };
    if let Some(exposes) = &device.exposes {
        parse_capabilities(exposes, &mut info);
    }
    info
}

/// The device list that the bridge published, as a command to the state. It is to be followed by
/// `DevicesUpdated` on the event bus.
pub fn handle_bridge_devices(devices: &Vec<Z2mDevice>) -> (r: StateCommand)
    ensures
        r matches StateCommand::UpdateDevices(map) && holds_devices(
            map@,
            devices@,
            devices@.len() as int,
        ),
{
    let mut map: NameMap<Z2mDeviceInfo> = NameMap::new();
    let mut i: usize = 0;
    while i < devices.len()
        invariant
            i <= devices@.len(),
            holds_devices(map@, devices@, i as int),
        decreases devices.len() - i,
    {
        let ghost before = map@;
        let info: Z2mDeviceInfo = device_record(&devices[i]);
        let ieee: String = devices[i].ieee_address.clone();
        map.insert(ieee, info);
        proof {
            let added = devices@[i as int].ieee_address@;
            assert forall|k: Seq<char>| #[trigger] map@.contains_key(k) implies exists|m: int|
                0 <= m < i + 1 && (#[trigger] devices@[m]).ieee_address@ == k && describes(
                    map@[k],
                    devices@[m],
                ) && forall|j: int| m < j < i + 1 ==> (#[trigger] devices@[j]).ieee_address@ != k by {
                if k == added {
                    assert(devices@[i as int].ieee_address@ == k);
                } else {
                    assert(before.contains_key(k));
                    let m = choose|m: int|
                        0 <= m < i && (#[trigger] devices@[m]).ieee_address@ == k && describes(
                            before[k],
                            devices@[m],
                        ) && forall|j: int|
                            m < j < i ==> (#[trigger] devices@[j]).ieee_address@ != k;
                    assert(devices@[m].ieee_address@ == k);
                }
            }
        }
        i = i + 1;
    }
    StateCommand::UpdateDevices(map)
}

/// The same group.
pub open spec fn describes_group(info: Z2mGroupInfo, group: Z2mGroup) -> bool {
    info.id == group.id && info.friendly_name@ == group.friendly_name@ && info.members
        == group.members && info.scenes == group.scenes
}

/// The map holds the groups by name, of two with one name the later.
pub open spec fn holds_groups(
    map: Map<Seq<char>, Z2mGroupInfo>,
    groups: Seq<Z2mGroup>,
    from: int,
) -> bool {
    &&& forall|name: Seq<char>| #[trigger]
        map.contains_key(name) ==> exists|i: int|
            from <= i < groups.len() && (#[trigger] groups[i]).friendly_name@ == name
                && describes_group(map[name], groups[i]) && forall|j: int|
                i < j < groups.len() ==> (#[trigger] groups[j]).friendly_name@ != name
    &&& forall|i: int|
        from <= i < groups.len() ==> map.contains_key((#[trigger] groups[i]).friendly_name@)
}

/// The group list that the bridge published, as a command to the state. It is to be followed by
/// `GroupsUpdated` on the event bus.
pub fn handle_bridge_groups(groups: Vec<Z2mGroup>) -> (r: StateCommand)
    ensures
        r matches StateCommand::UpdateGroups(map) && holds_groups(map@, groups@, 0),
{
    let ghost all = groups@;
    let mut rest: Vec<Z2mGroup> = groups;
    let mut map: NameMap<Z2mGroupInfo> = NameMap::new();
    while rest.len() > 0
        invariant
            rest@ == all.take(rest@.len() as int),
            rest@.len() <= all.len(),
            holds_groups(map@, all, rest@.len() as int),
        decreases rest.len(),
    {
        let ghost before = map@;
        let ghost n = rest@.len();
        let group: Z2mGroup = rest.pop().unwrap();
        proof {
            assert(group == all[n - 1]);
            assert(rest@ =~= all.take(n - 1));
        }
        if !map.contains_key(group.friendly_name.as_str()) {
            let key: String = group.friendly_name.clone();
            let ghost added = group;
            map.insert(
                key,
                Z2mGroupInfo {
                    id: group.id,
                    friendly_name: group.friendly_name,
                    members: group.members,
                    scenes: group.scenes,
                },
            );
            proof {
                let name = added.friendly_name@;
                assert(all[n - 1].friendly_name@ == name);
                assert forall|j: int| n - 1 < j < all.len() implies (
                #[trigger] all[j]).friendly_name@ != name by {
                    assert(before.contains_key(all[j].friendly_name@));
                }
                assert forall|k: Seq<char>| #[trigger] map@.contains_key(k) implies exists|i: int|
                    n - 1 <= i < all.len() && (#[trigger] all[i]).friendly_name@ == k
                        && describes_group(map@[k], all[i]) && forall|j: int|
                        i < j < all.len() ==> (#[trigger] all[j]).friendly_name@ != k by {
                    if k == name {
                        assert(describes_group(map@[k], all[n - 1]));
                    } else {
                        assert(before.contains_key(k));
                    }
                }
            }
        }
    }
    assert(rest@.len() == 0);
    StateCommand::UpdateGroups(map)
}

/// Where a message belongs. `S` is the type of its texts.
#[derive(Clone, Debug)]
pub enum Route<S = String> {
    /// Not below the base topic.
    Elsewhere,
    BridgeDevices,
    BridgeGroups,
    BridgeState,
    Availability { device_name: S },
    DeviceState { device_name: S },
}

impl View for Route<String> {
    type V = Route<Seq<char>>;

    open spec fn view(&self) -> Route<Seq<char>> {
        match self {
            Route::Elsewhere => Route::Elsewhere,
            Route::BridgeDevices => Route::BridgeDevices,
            Route::BridgeGroups => Route::BridgeGroups,
            Route::BridgeState => Route::BridgeState,
            Route::Availability { device_name } => Route::Availability { device_name: device_name@ },
            Route::DeviceState { device_name } => Route::DeviceState { device_name: device_name@ },
        }
    }
}

/// What stands behind the base topic and a slash.
pub open spec fn relative_topic(topic: Seq<char>, base: Seq<char>) -> Option<Seq<char>> {
    if begins_with(topic, base) && begins_with(topic.skip(base.len() as int), "/"@) {
        Some(topic.skip(base.len() as int).skip("/"@.len() as int))
    } else {
        None
    }
}

/// Where a message on a topic belongs.
pub open spec fn routed(topic: Seq<char>, base: Seq<char>) -> Route<Seq<char>> {
    match relative_topic(topic, base) {
        None => Route::Elsewhere,
        Some(relative) => if relative == "bridge/devices"@ {
            Route::BridgeDevices
        } else if relative == "bridge/groups"@ {
            Route::BridgeGroups
        } else if relative == "bridge/state"@ {
            Route::BridgeState
        } else if finishes_with(relative, "/availability"@) {
            Route::Availability {
                device_name: relative.take(relative.len() - "/availability"@.len()),
            }
        } else {
            Route::DeviceState { device_name: relative }
        },
    }
}

/// Where a message on a topic belongs.
pub fn route_message(topic: &str, base_topic: &str) -> (r: Route)
    ensures
        r@ == routed(topic@, base_topic@),
{
    let rest: String = match strip_prefix(topic, base_topic) {
        Some(rest) => rest,
        None => {
            return Route::Elsewhere;
        },
    };
    let relative: String = match strip_prefix(rest.as_str(), "/") {
        Some(relative) => relative,
        None => {
            return Route::Elsewhere;
        },
    };
    if same(relative.as_str(), "bridge/devices") {
        Route::BridgeDevices
    } else if same(relative.as_str(), "bridge/groups") {
        Route::BridgeGroups
    } else if same(relative.as_str(), "bridge/state") {
        Route::BridgeState
    } else {
        match strip_suffix(relative.as_str(), "/availability") {
            Some(device_name) => Route::Availability { device_name },
            None => Route::DeviceState { device_name: relative },
        }
    }
}

/// The payload says that something is online.
pub open spec fn says_online(payload: Seq<u8>) -> bool {
    has_part(decode_utf8(payload), "online"@)
}

/// Whether the bridge is online, as a command to the state; nothing where the payload is no text.
pub fn handle_bridge_state(payload: &[u8]) -> (r: Option<StateCommand>)
    ensures
        r is Some == valid_utf8(payload@),
        r matches Some(command) ==> command == StateCommand::SetZ2mOnline(says_online(payload@)),
{
    match decode_text(payload) {
        Some(text) => Some(StateCommand::SetZ2mOnline(contains(text.as_str(), "online"))),
        None => None,
    }
}

/// Whether a device is available, as a command to the state; nothing where the payload is no text.
/// The state resolves the friendly name and announces the change once it is visible.
pub fn handle_availability(device_name: &str, payload: &[u8]) -> (r: Option<StateCommand>)
    ensures
        r is Some == valid_utf8(payload@),
        r matches Some(command) ==> (command matches StateCommand::SetDeviceAvailability {
            friendly_name,
            available,
        } && friendly_name@ == device_name@ && available == says_online(payload@)),
{
    match decode_text(payload) {
        Some(text) => Some(
            StateCommand::SetDeviceAvailability {
                friendly_name: device_name.to_owned(),
                available: contains(text.as_str(), "online"),
            },
        ),
        None => None,
    }
}

/// A lamp can be dimmed, show color temperatures or show colors exactly where a feature of that name
/// is among its features, however deep.
pub proof fn law_features_make_capabilities(c: Capabilities, exposes: Seq<Expose>, n: nat)
    requires
        n <= exposes.len(),
    ensures
        ({
            let r = with_features(c, exposes, n);
            &&& r.brightness <==> c.brightness || offers(exposes, "brightness"@, n)
            &&& r.color_temp <==> c.color_temp || offers(exposes, "color_temp"@, n)
            &&& r.color_xy <==> c.color_xy || offers(exposes, "color_xy"@, n)
            &&& r.color_hs <==> c.color_hs || offers(exposes, "color_hs"@, n)
            &&& !offers(exposes, "color_temp"@, n) ==> r.color_temp_min == c.color_temp_min
                && r.color_temp_max == c.color_temp_max
        }),
    decreases exposes, n,
{
    if n > 0 {
        let own = exposes[n - 1];
        let before = with_features(c, exposes, (n - 1) as nat);
        law_features_make_capabilities(c, exposes, (n - 1) as nat);
        law_features_make_capabilities(before, own.features@, own.features@.len());
        lemma_feature_names_differ();
    }
}

proof fn lemma_feature_names_differ()
    ensures
        "brightness"@ != "color_temp"@,
        "brightness"@ != "color_xy"@,
        "brightness"@ != "color_hs"@,
        "color_temp"@ != "color_xy"@,
        "color_temp"@ != "color_hs"@,
        "color_xy"@ != "color_hs"@,
{
    reveal_strlit("brightness");
    reveal_strlit("color_temp");
    reveal_strlit("color_xy");
    reveal_strlit("color_hs");
    assert("brightness"@[0] == 'b' && "color_temp"@[0] == 'c' && "color_xy"@[0] == 'c'
        && "color_hs"@[0] == 'c');
    assert("color_temp"@.len() == 10 && "color_xy"@.len() == 8 && "color_hs"@.len() == 8);
    assert("color_xy"@[6] == 'x' && "color_hs"@[6] == 'h');
}

/// A lamp's range is the one that its color temperature feature tells, of several the last; a bound
/// that is left out there stays as it was.
pub proof fn law_the_last_range_counts(c: Capabilities, exposes: Seq<Expose>, own: Expose)
    requires
        own.features@.len() == 0,
        expose_name(own) == Some("color_temp"@),
        own.value_min matches Some(min) ==> min <= 65_535,
        own.value_max matches Some(max) ==> max <= 65_535,
    ensures
        ({
            let before = with_features(c, exposes, exposes.len());
            let r = with_features(c, exposes.push(own), exposes.len() + 1);
            &&& own.value_min is Some ==> r.color_temp_min == Some(own.value_min->0 as u16)
            &&& own.value_max is Some ==> r.color_temp_max == Some(own.value_max->0 as u16)
            &&& own.value_min is None ==> r.color_temp_min == before.color_temp_min
            &&& own.value_max is None ==> r.color_temp_max == before.color_temp_max
        }),
{
    lemma_feature_names_differ();
    lemma_features_before(c, exposes, own, exposes.len());
    assert(exposes.push(own)[exposes.len() as int] == own);
    let before = with_features(c, exposes.push(own), exposes.len());
    assert(with_features(before, own.features@, own.features@.len()) == before);
}

proof fn lemma_features_before(c: Capabilities, exposes: Seq<Expose>, own: Expose, n: nat)
    requires
        n <= exposes.len(),
    ensures
        with_features(c, exposes.push(own), n) == with_features(c, exposes, n),
    decreases n,
{
    if n > 0 {
        lemma_features_before(c, exposes, own, (n - 1) as nat);
        assert(exposes.push(own)[n - 1] == exposes[n - 1]);
    }
}

/// A listed device is recorded under its address, of several with one address the last, with its
/// name, and as supported unless it says otherwise.
pub proof fn law_listed_devices_are_recorded(
    map: Map<Seq<char>, Z2mDeviceInfo>,
    devices: Seq<Z2mDevice>,
    i: int,
)
    requires
        holds_devices(map, devices, devices.len() as int),
        0 <= i < devices.len(),
        forall|j: int|
            i < j < devices.len() ==> (#[trigger] devices[j]).ieee_address@
                != devices[i].ieee_address@,
    ensures
        map.contains_key(devices[i].ieee_address@),
        ({
            let info = map[devices[i].ieee_address@];
            &&& info.ieee_address@ == devices[i].ieee_address@
            &&& info.friendly_name@ == devices[i].friendly_name@
            &&& info.supported <==> devices[i].supported != Some(false)
            &&& devices[i].exposes is None ==> !info.supports_brightness
                && !info.supports_color_temp && info.color_temp_min is None && info.color_temp_max
                is None
            &&& devices[i].exposes matches Some(exposes) ==> (info.supports_brightness <==> offers(
                exposes@,
                "brightness"@,
                exposes@.len(),
            )) && (info.supports_color_temp <==> offers(exposes@, "color_temp"@, exposes@.len()))
        }),
{
    let ieee = devices[i].ieee_address@;
    assert(map.contains_key(ieee));
    let k = choose|k: int|
        0 <= k < devices.len() && (#[trigger] devices[k]).ieee_address@ == ieee && describes(
            map[ieee],
            devices[k],
        ) && forall|j: int| k < j < devices.len() ==> (#[trigger] devices[j]).ieee_address@ != ieee;
    if k < i {
        assert(devices[i].ieee_address@ != ieee);
    }
    if i < k {
        assert(devices[k].ieee_address@ != ieee);
    }
    if let Some(exposes) = devices[i].exposes {
        law_features_make_capabilities(no_capabilities(), exposes@, exposes@.len());
    }
}

/// Messages below the base topic are told apart by what stands behind it: what the bridge says of
/// itself, availability reports by their ending, and everything else as the state of what is named
/// there. Other messages are none of the daemon's.
pub proof fn law_messages_find_their_way(base: Seq<char>, name: Seq<char>, topic: Seq<char>)
    ensures
        !finishes_with(name, "/availability"@) && name != "bridge/devices"@ && name
            != "bridge/groups"@ && name != "bridge/state"@ ==> routed(base + "/"@ + name, base)
            == (Route::DeviceState { device_name: name }),
        name + "/availability"@ != "bridge/devices"@ && name + "/availability"@ != "bridge/groups"@
            && name + "/availability"@ != "bridge/state"@ ==> routed(
            base + "/"@ + name + "/availability"@,
            base,
        ) == (Route::Availability { device_name: name }),
        routed(base + "/"@ + "bridge/devices"@, base) is BridgeDevices,
        !begins_with(topic, base + "/"@) ==> routed(topic, base) is Elsewhere,
{
    reveal_strlit("/");
    let slash = "/"@;
    let t = base + slash + name;
    assert(t.take(base.len() as int) =~= base);
    assert(t.skip(base.len() as int) =~= slash + name);
    assert((slash + name).take(1) =~= slash);
    assert((slash + name).skip(1) =~= name);
    let a = "/availability"@;
    let u = base + slash + name + a;
    assert(u.take(base.len() as int) =~= base);
    assert(u.skip(base.len() as int) =~= slash + (name + a));
    assert((slash + (name + a)).take(1) =~= slash);
    assert((slash + (name + a)).skip(1) =~= name + a);
    assert((name + a).skip((name + a).len() - a.len()) =~= a);
    assert((name + a).take((name + a).len() - a.len()) =~= name);
    let d = "bridge/devices"@;
    let v = base + slash + d;
    assert(v.take(base.len() as int) =~= base);
    assert(v.skip(base.len() as int) =~= slash + d);
    assert((slash + d).take(1) =~= slash);
    assert((slash + d).skip(1) =~= d);
    if begins_with(topic, base) && begins_with(topic.skip(base.len() as int), slash) {
        assert(topic.take((base + slash).len() as int) =~= base + slash) by {
            assert(topic.take(base.len() as int) =~= base);
            assert(topic.skip(base.len() as int).take(1) =~= slash);
            assert(topic[base.len() as int] == topic.skip(base.len() as int).take(1)[0]);
            assert forall|i: int| 0 <= i < base.len() implies topic[i] == base[i] by {
                assert(topic.take(base.len() as int)[i] == base[i]);
            }
        }
    }
}

} // verus!
