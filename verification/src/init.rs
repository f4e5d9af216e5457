//! A first configuration, made from what Zigbee2MQTT knows.

use vstd::prelude::*;

use crate::mqtt::z2m::{expose_name, Expose, Z2mDevice, Z2mGroup};
use crate::names::NameMap;
use crate::naming::{lowercase, make_room_id, room_id_of, to_lowercase};
use crate::state::Z2mGroupMember;
use crate::text::{contains, ends_with, finishes_with, has_part, occurs_at, same};

verus! {

/// A device, as far as a first configuration goes.
#[derive(Clone, Debug)]
pub struct DeviceInfo {
    pub ieee_address: String,
    pub friendly_name: String,
    pub is_light: bool,
    pub is_motion_sensor: bool,
}

/// One of the first `n` features, or a feature that one of them is made of, is called `name`.
pub open spec fn offers(exposes: Seq<Expose>, name: Seq<char>, n: nat) -> bool
    decreases exposes, n,
{
    if n == 0 || n > exposes.len() {
        false
    } else {
        let own = exposes[n - 1];
        offers(exposes, name, (n - 1) as nat) || offers(
            own.features@,
            name,
            own.features@.len(),
        ) || expose_name(own) == Some(name)
    }
}

proof fn lemma_offers_more(exposes: Seq<Expose>, name: Seq<char>, n: nat, m: nat)
    requires
        n <= m <= exposes.len(),
        offers(exposes, name, n),
    ensures
        offers(exposes, name, m),
    decreases m - n,
{
    if n < m {
        lemma_offers_more(exposes, name, n, (m - 1) as nat);
    }
}

/// Whether a feature, or a feature that one is made of, is called `name`.
pub fn has_feature(exposes: &Vec<Expose>, name: &str) -> (r: bool)
    ensures
        r == offers(exposes@, name@, exposes@.len()),
    decreases exposes,
{
    let mut i: usize = 0;
    while i < exposes.len()
        invariant
            i <= exposes@.len(),
            !offers(exposes@, name@, i as nat),
        decreases exposes.len() - i,
    {
        let expose = &exposes[i];
        proof {
            assert(decreases_to!(*exposes => exposes@[i as int]));
            assert(decreases_to!(exposes@[i as int] => exposes@[i as int].features));
        }
        if has_feature(&expose.features, name) || expose.is_called(name) {
            proof {
                assert(offers(exposes@, name@, (i + 1) as nat));
                lemma_offers_more(exposes@, name@, (i + 1) as nat, exposes@.len());
            }
            return true;
        }
        i = i + 1;
    }
    false
}

/// The device exposes a feature of that name.
pub open spec fn exposes_feature(device: Z2mDevice, name: Seq<char>) -> bool {
    device.exposes matches Some(exposes) && offers(exposes@, name, exposes@.len())
}

/// The device coordinates the network.
pub open spec fn is_coordinator(device: Z2mDevice) -> bool {
    device.device_type matches Some(kind) && kind@ == "Coordinator"@
}

pub fn is_light_device(device: &Z2mDevice) -> (r: bool)
    ensures
        r == (!is_coordinator(*device) && exposes_feature(*device, "brightness"@)),
{
    if let Some(kind) = &device.device_type {
        if same(kind.as_str(), "Coordinator") {
            return false;
        }
    }
    match &device.exposes {
        Some(exposes) => has_feature(exposes, "brightness"),
        None => false,
    }
}

pub fn is_motion_device(device: &Z2mDevice) -> (r: bool)
    ensures
        r == exposes_feature(*device, "occupancy"@),
{
    match &device.exposes {
        Some(exposes) => has_feature(exposes, "occupancy"),
        None => false,
    }
}

/// What matters of a device.
pub open spec fn facts_of(device: Z2mDevice) -> DeviceInfo {
    DeviceInfo {
        ieee_address: device.ieee_address,
        friendly_name: device.friendly_name,
        is_light: !is_coordinator(device) && exposes_feature(device, "brightness"@),
        is_motion_sensor: exposes_feature(device, "occupancy"@),
    }
}

/// The supported ones among the first `n` devices, by address.
pub open spec fn supported_devices(devices: Seq<Z2mDevice>, n: int) -> Map<Seq<char>, DeviceInfo>
    decreases n,
{
    if n <= 0 {
        Map::empty()
    } else {
        let rest = supported_devices(devices, n - 1);
        let device = devices[n - 1];
        if device.supported == Some(false) {
            rest
        } else {
            rest.insert(device.ieee_address@, facts_of(device))
        }
    }
}

/// The supported devices, by address.
pub fn build_device_map(devices: &Vec<Z2mDevice>) -> (r: NameMap<DeviceInfo>)
    ensures
        r@ == supported_devices(devices@, devices@.len() as int),
{
    let mut map: NameMap<DeviceInfo> = NameMap::new();
    let mut i: usize = 0;
    while i < devices.len()
        invariant
            i <= devices@.len(),
            map@ == supported_devices(devices@, i as int),
        decreases devices.len() - i,
    {
        let device = &devices[i];
        if device.supported.unwrap_or(true) {
            map.insert(
                device.ieee_address.clone(),
                DeviceInfo {
                    ieee_address: device.ieee_address.clone(),
                    friendly_name: device.friendly_name.clone(),
                    is_light: is_light_device(device),
                    is_motion_sensor: is_motion_device(device),
                },
            );
        }
        i = i + 1;
    }
    map
}

/// The sensor's name and the group's share a pattern: one holds the other, in lower case.
pub open spec fn names_match(device: Seq<char>, group: Seq<char>) -> bool {
    has_part(lowercase(device), lowercase(group)) || has_part(lowercase(group), lowercase(device))
}

/// The address of the first motion sensor, from number `from` on, whose name matches the group's.
pub open spec fn sensor_for(devices: Seq<(String, DeviceInfo)>, group: Seq<char>, from: int) -> Option<
    String,
>
    decreases devices.len() - from,
{
    if from < 0 || from >= devices.len() {
        None
    } else {
        let device = devices[from].1;
        if device.is_motion_sensor && names_match(device.friendly_name@, group) {
            Some(device.ieee_address)
        } else {
            sensor_for(devices, group, from + 1)
        }
    }
}

/// Finds a motion sensor whose name matches the group's (e.g. "Kitchen Motion" for "Kitchen").
pub fn find_motion_sensor_for_group(group_name: &str, device_map: &NameMap<DeviceInfo>) -> (r: Option<
    String,
>)
    ensures
        r == sensor_for(device_map.entries_seq(), group_name@, 0),
{
    let group_lower: String = to_lowercase(group_name);
    let n: usize = device_map.len();
    let mut i: usize = 0;
    while i < n
        invariant
            i <= n == device_map.entries_seq().len(),
            group_lower@ == lowercase(group_name@),
            sensor_for(device_map.entries_seq(), group_name@, 0) == sensor_for(
                device_map.entries_seq(),
                group_name@,
                i as int,
            ),
        decreases n - i,
    {
        let device = device_map.value_at(i);
        if device.is_motion_sensor {
            let name_lower: String = to_lowercase(device.friendly_name.as_str());
            if contains(name_lower.as_str(), group_lower.as_str()) || contains(
                group_lower.as_str(),
                name_lower.as_str(),
            ) {
                return Some(device.ieee_address.clone());
            }
        }
        i = i + 1;
    }
    None
}

/// Some member of the group is a known light.
pub open spec fn has_known_light(
    members: Seq<Z2mGroupMember>,
    devices: NameMap<DeviceInfo>,
) -> bool {
    exists|i: int|
        0 <= i < members.len() && devices@.contains_key((#[trigger] members[i]).ieee_address@)
            && devices@[members[i].ieee_address@].is_light
}

fn any_known_light(members: &Vec<Z2mGroupMember>, devices: &NameMap<DeviceInfo>) -> (r: bool)
    ensures
        r == has_known_light(members@, *devices),
{
    let mut i: usize = 0;
    while i < members.len()
        invariant
            i <= members@.len(),
            forall|j: int|
                0 <= j < i ==> !(devices@.contains_key((#[trigger] members@[j]).ieee_address@)
                    && devices@[members@[j].ieee_address@].is_light),
        decreases members.len() - i,
    {
        if let Some(device) = devices.get(members[i].ieee_address.as_str()) {
            if device.is_light {
                return true;
            }
        }
        i = i + 1;
    }
    false
}

/// The section of a group that has lights.
pub open spec fn group_section(group: Seq<char>, devices: NameMap<DeviceInfo>) -> Seq<char> {
    "\n[rooms."@ + room_id_of(group) + "]\n"@ + "display_name = \""@ + group + "\"\n"@
        + "z2m_group = \""@ + group + "\"\n"@ + (match sensor_for(
        devices.entries_seq(),
        group,
        0,
    ) {
        Some(ieee) => "motion_sensor = \""@ + ieee@ + "\"\n"@,
        None => Seq::empty(),
    })
}

/// The sections of those of the first `n` groups that have lights.
pub open spec fn group_sections(groups: Seq<Z2mGroup>, devices: NameMap<DeviceInfo>, n: int) -> Seq<
    char,
>
    decreases n,
{
    if n <= 0 {
        Seq::empty()
    } else {
        let rest = group_sections(groups, devices, n - 1);
        if has_known_light(groups[n - 1].members@, devices) {
            rest + group_section(groups[n - 1].friendly_name@, devices)
        } else {
            rest
        }
    }
}

/// What stands before the rooms: the schema version, and the base topic where it is not the usual
/// one.
pub open spec fn config_head(base_topic: Seq<char>) -> Seq<char> {
    if base_topic == "zigbee2mqtt"@ {
        "schema_version = 1\n"@
    } else {
        "schema_version = 1\n"@ + "\n[mqtt]\nbase_topic = \""@ + base_topic + "\"\n"@
    }
}

/// Writes a configuration with a room for each group that has lights.
pub fn generate_config(
    groups: &Vec<Z2mGroup>,
    device_map: &NameMap<DeviceInfo>,
    base_topic: &str,
) -> (r: String)
    ensures
        r@ == config_head(base_topic@) + group_sections(
            groups@,
            *device_map,
            groups@.len() as int,
        ),
{
    let mut out: String = "schema_version = 1\n".to_owned();
    // Only include [mqtt] if non-default topic
    if !same(base_topic, "zigbee2mqtt") {
        out.append("\n[mqtt]\nbase_topic = \"");
        out.append(base_topic);
        out.append("\"\n");
    }
    let ghost head = config_head(base_topic@);
    assert(out@ =~= head);
    let mut i: usize = 0;
    assert(out@ =~= head + group_sections(groups@, *device_map, 0));
    while i < groups.len()
        invariant
            i <= groups@.len(),
            out@ == head + group_sections(groups@, *device_map, i as int),
        decreases groups.len() - i,
    {
        let group = &groups[i];
        let ghost before = out@;
        if any_known_light(&group.members, device_map) {
            let name: &str = group.friendly_name.as_str();
            out.append("\n[rooms.");
            out.append(make_room_id(name).as_str());
            out.append("]\n");
            out.append("display_name = \"");
            out.append(name);
            out.append("\"\n");
            out.append("z2m_group = \"");
            out.append(name);
            out.append("\"\n");
            if let Some(ieee) = find_motion_sensor_for_group(name, device_map) {
                out.append("motion_sensor = \"");
                out.append(ieee.as_str());
                out.append("\"\n");
            }
            assert(out@ =~= before + group_section(group.friendly_name@, *device_map));
        }
        i = i + 1;
        assert(out@ =~= head + group_sections(groups@, *device_map, i as int));
    }
    out
}

/// Something that happened while the lists were waited for.
#[derive(Clone, Copy, Debug)]
pub enum InitEvent<'a> {
    Connected,
    Message { topic: &'a str },
    Other,
}

/// What follows from it.
#[derive(Clone, Copy, Debug, PartialEq, Eq, Structural)]
pub enum InitStep {
    /// Subscribe to both lists.
    Subscribe,
    /// The message is the device list.
    KeepDevices,
    /// The message is the group list.
    KeepGroups,
    Nothing,
}

/// What is there yet of the two lists.
#[derive(Clone, Copy, Debug, PartialEq, Eq, Structural)]
pub struct InitProgress {
    pub subscribed: bool,
    pub has_devices: bool,
    pub has_groups: bool,
}

impl InitProgress {
    pub fn new() -> (r: Self)
        ensures
            r == (InitProgress { subscribed: false, has_devices: false, has_groups: false }),
    {
        InitProgress { subscribed: false, has_devices: false, has_groups: false }
    }

    pub open spec fn step(self, event: InitEvent) -> InitStep {
        match event {
            InitEvent::Connected => if self.subscribed {
                InitStep::Nothing
            } else {
                InitStep::Subscribe
            },
            InitEvent::Message { topic } => if finishes_with(topic@, "bridge/devices"@) {
                InitStep::KeepDevices
            } else if finishes_with(topic@, "bridge/groups"@) {
                InitStep::KeepGroups
            } else {
                InitStep::Nothing
            },
            InitEvent::Other => InitStep::Nothing,
        }
    }

    pub open spec fn after(self, step: InitStep) -> InitProgress {
        match step {
            InitStep::Subscribe => InitProgress { subscribed: true, ..self },
            InitStep::KeepDevices => InitProgress { has_devices: true, ..self },
            InitStep::KeepGroups => InitProgress { has_groups: true, ..self },
            InitStep::Nothing => self,
        }
    }

    /// Takes an event in.
    pub fn advance(&mut self, event: InitEvent) -> (r: InitStep)
        ensures
            r == old(self).step(event),
            *final(self) == old(self).after(r),
    {
        match event {
            InitEvent::Connected => {
                if self.subscribed {
                    InitStep::Nothing
                } else {
                    self.subscribed = true;
                    InitStep::Subscribe
                }
            },
            InitEvent::Message { topic } => {
                if ends_with(topic, "bridge/devices") {
                    self.has_devices = true;
                    InitStep::KeepDevices
                } else if ends_with(topic, "bridge/groups") {
                    self.has_groups = true;
                    InitStep::KeepGroups
                } else {
                    InitStep::Nothing
                }
            },
            InitEvent::Other => InitStep::Nothing,
        }
    }

    /// Both lists are there.
    pub fn is_complete(&self) -> (r: bool)
        ensures
            r == (self.has_devices && self.has_groups),
    {
        self.has_devices && self.has_groups
    }

    /// What is said when the time is up; nothing where both lists are there.
    pub fn timeout_error(&self) -> (r: Option<&'static str>)
        ensures
            r == (if !self.has_devices {
                Some(
                    "Timed out waiting for bridge/devices from Z2M. Is Zigbee2MQTT running?",
                )
            } else if !self.has_groups {
                Some("Timed out waiting for bridge/groups from Z2M.")
            } else {
                None
            }),
    {
        if !self.has_devices {
            Some("Timed out waiting for bridge/devices from Z2M. Is Zigbee2MQTT running?")
        } else if !self.has_groups {
            Some("Timed out waiting for bridge/groups from Z2M.")
        } else {
            None
        }
    }
}

proof fn lemma_supported_map(devices: Seq<Z2mDevice>, n: int, i: int)
    requires
        0 <= i < n <= devices.len(),
        devices[i].supported != Some(false),
        forall|j: int|
            i < j < n ==> (#[trigger] devices[j]).supported == Some(false)
                || devices[j].ieee_address@ != devices[i].ieee_address@,
    ensures
        supported_devices(devices, n).contains_key(devices[i].ieee_address@),
        supported_devices(devices, n)[devices[i].ieee_address@] == facts_of(devices[i]),
    decreases n,
{
    if i < n - 1 {
        lemma_supported_map(devices, n - 1, i);
        assert(devices[n - 1] == devices[n - 1]);
    }
}

/// Every device that is not said to be unsupported is known by its address: as a light where it can
/// be dimmed and does not coordinate the network, and as a motion sensor where it tells occupancy.
pub proof fn law_supported_devices_are_known(devices: Seq<Z2mDevice>, i: int)
    requires
        0 <= i < devices.len(),
        devices[i].supported != Some(false),
        forall|j: int|
            i < j < devices.len() ==> (#[trigger] devices[j]).supported == Some(false)
                || devices[j].ieee_address@ != devices[i].ieee_address@,
    ensures
        ({
            let map = supported_devices(devices, devices.len() as int);
            let d = devices[i];
            let known = map[d.ieee_address@];
            let offered = |name: Seq<char>|
                d.exposes is Some && offers(d.exposes->0@, name, d.exposes->0@.len());
            &&& map.contains_key(d.ieee_address@)
            &&& known.ieee_address@ == d.ieee_address@
            &&& known.friendly_name@ == d.friendly_name@
            &&& known.is_light <==> offered("brightness"@) && !(d.device_type is Some
                && d.device_type->0@ == "Coordinator"@)
            &&& known.is_motion_sensor <==> offered("occupancy"@)
        }),
{
    lemma_supported_map(devices, devices.len() as int, i);
}

/// A feature is offered exactly where one of the features is called so, or is made of one that is.
pub proof fn law_features_are_found(exposes: Seq<Expose>, name: Seq<char>, n: nat)
    requires
        n <= exposes.len(),
    ensures
        offers(exposes, name, n) <==> exists|i: int|
            0 <= i < n && ((#[trigger] expose_name(exposes[i])) == Some(name) || offers(
                exposes[i].features@,
                name,
                exposes[i].features@.len(),
            )),
    decreases n,
{
    if n > 0 {
        law_features_are_found(exposes, name, (n - 1) as nat);
        let own = expose_name(exposes[n - 1]);
    }
}

/// A group's motion sensor is a motion sensor whose name holds the group's, or the other way round,
/// in lower case, the first such; and there is none only where there is no such sensor.
pub proof fn law_sensors_are_found_by_name(
    devices: Seq<(String, DeviceInfo)>,
    group: Seq<char>,
    from: int,
)
    requires
        0 <= from <= devices.len(),
    ensures
        match sensor_for(devices, group, from) {
            Some(ieee) => exists|i: int|
                from <= i < devices.len() && (#[trigger] devices[i]).1.ieee_address == ieee
                    && fits_group(devices[i].1, group) && forall|j: int|
                    from <= j < i ==> !fits_group((#[trigger] devices[j]).1, group),
            None => forall|j: int|
                from <= j < devices.len() ==> !fits_group((#[trigger] devices[j]).1, group),
        },
    decreases devices.len() - from,
{
    if from < devices.len() {
        law_sensors_are_found_by_name(devices, group, from + 1);
        let own = devices[from].1;
        assert(fits_group(own, group) <==> own.is_motion_sensor && names_match(
            own.friendly_name@,
            group,
        ));
        if fits_group(own, group) {
            assert(devices[from].1.ieee_address == own.ieee_address);
        } else if sensor_for(devices, group, from + 1) is Some {
            let ieee = sensor_for(devices, group, from + 1)->0;
            let i = choose|i: int|
                from + 1 <= i < devices.len() && (#[trigger] devices[i]).1.ieee_address == ieee
                    && fits_group(devices[i].1, group) && forall|j: int|
                    from + 1 <= j < i ==> !fits_group((#[trigger] devices[j]).1, group);
            assert(devices[i].1.ieee_address == ieee);
            assert forall|j: int| from <= j < i implies !fits_group(
                (#[trigger] devices[j]).1,
                group,
            ) by {}
        }
    }
}

/// The device is a motion sensor, and of its name and the group's one holds the other, in lower
/// case.
pub open spec fn fits_group(device: DeviceInfo, group: Seq<char>) -> bool {
    let name = lowercase(device.friendly_name@);
    device.is_motion_sensor && (has_part(name, lowercase(group)) || has_part(
        lowercase(group),
        name,
    ))
}

/// Every group with a known light gets a room, and the room a motion sensor where one fits.
pub proof fn law_groups_with_lights_get_rooms(
    groups: Seq<Z2mGroup>,
    devices: NameMap<DeviceInfo>,
    n: int,
    i: int,
    k: int,
)
    requires
        0 <= i < n <= groups.len(),
        0 <= k < groups[i].members@.len(),
        devices@.contains_key(groups[i].members@[k].ieee_address@),
        devices@[groups[i].members@[k].ieee_address@].is_light,
    ensures
        ({
            let name = groups[i].friendly_name@;
            let head = "\n[rooms."@ + room_id_of(name) + "]\n"@ + "display_name = \""@ + name
                + "\"\n"@ + "z2m_group = \""@ + name + "\"\n"@;
            let sensor = sensor_for(devices.entries_seq(), name, 0);
            &&& has_part(group_sections(groups, devices, n), head)
            &&& sensor is Some ==> has_part(
                group_sections(groups, devices, n),
                head + ("motion_sensor = \""@ + sensor->0@ + "\"\n"@),
            )
        }),
    decreases n,
{
    let name = groups[i].friendly_name@;
    let head = "\n[rooms."@ + room_id_of(name) + "]\n"@ + "display_name = \""@ + name + "\"\n"@
        + "z2m_group = \""@ + name + "\"\n"@;
    let sensor = sensor_for(devices.entries_seq(), name, 0);
    let rest = group_sections(groups, devices, n - 1);
    let all = group_sections(groups, devices, n);
    if i == n - 1 {
        let own = group_section(name, devices);
        assert(all == rest + own);
        assert(all.subrange(rest.len() as int, (rest.len() + head.len()) as int) =~= head);
        assert(occurs_at(all, head, rest.len() as int));
        if sensor is Some {
            let full = head + ("motion_sensor = \""@ + sensor->0@ + "\"\n"@);
            assert(own =~= full);
            assert(all.subrange(rest.len() as int, (rest.len() + full.len()) as int) =~= full);
            assert(occurs_at(all, full, rest.len() as int));
        }
    } else {
        law_groups_with_lights_get_rooms(groups, devices, n - 1, i, k);
        lemma_part_stays(rest, all, head);
        if sensor is Some {
            lemma_part_stays(
                rest,
                all,
                head + ("motion_sensor = \""@ + sensor->0@ + "\"\n"@),
            );
        }
    }
}

proof fn lemma_part_stays(front: Seq<char>, all: Seq<char>, part: Seq<char>)
    requires
        has_part(front, part),
        front.len() <= all.len(),
        all.take(front.len() as int) =~= front,
    ensures
        has_part(all, part),
{
    let at = choose|at: int| #[trigger] occurs_at(front, part, at);
    assert forall|j: int| 0 <= j < front.len() implies all[j] == front[j] by {
        assert(all.take(front.len() as int)[j] == front[j]);
    }
    assert(all.subrange(at, (at + part.len()) as int) =~= front.subrange(
        at,
        (at + part.len()) as int,
    ));
    assert(occurs_at(all, part, at));
}

/// A group without a known light gets no room.
pub proof fn law_groups_without_lights_get_none(
    groups: Seq<Z2mGroup>,
    devices: NameMap<DeviceInfo>,
    n: int,
)
    requires
        0 <= n <= groups.len(),
        forall|i: int, k: int|
            0 <= i < n && 0 <= k < groups[i].members@.len() ==> !(devices@.contains_key(
                (#[trigger] groups[i].members@[k]).ieee_address@,
            ) && devices@[groups[i].members@[k].ieee_address@].is_light),
    ensures
        group_sections(groups, devices, n).len() == 0,
    decreases n,
{
    if n > 0 {
        law_groups_without_lights_get_none(groups, devices, n - 1);
        assert(!has_known_light(groups[n - 1].members@, devices));
    }
}

} // verus!
