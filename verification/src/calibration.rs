//! Per-lamp corrections of brightness and color temperature.

use vstd::prelude::*;

use crate::config::defaults::pick;
use crate::config::types::{AppConfig, LightCalibrationConfig};
use crate::names::{unref, NameMap};
use crate::state::{LightType, Z2mDeviceInfo, Z2mGroupInfo};

verus! {

/// `x` moved into the range from `lo` to `hi`.
pub open spec fn clamped(x: int, lo: int, hi: int) -> int {
    if x < lo {
        lo
    } else if x > hi {
        hi
    } else {
        x
    }
}

#[derive(Clone, Copy, Debug, PartialEq, Eq, Structural)]
pub struct ResolvedCalibration {
    pub color_temp_offset: i16,
    pub brightness_offset: i16,
}

/// The lowest mired value that a device is sent.
pub open spec fn min_mired(device: Option<Z2mDeviceInfo>) -> u16 {
    match device {
        Some(d) => pick(d.color_temp_min, 1),
        None => 1,
    }
}

/// The highest mired value that a device is sent.
pub open spec fn max_mired(device: Option<Z2mDeviceInfo>) -> u16 {
    match device {
        Some(d) => pick(d.color_temp_max, u16::MAX),
        None => u16::MAX,
    }
}

/// The color temperature range that a device reports is no empty one.
pub open spec fn range_ok(device: Z2mDeviceInfo) -> bool {
    min_mired(Some(device)) <= max_mired(Some(device))
}

impl ResolvedCalibration {
    /// No correction at all.
    pub fn neutral() -> (r: Self)
        ensures
            r.no_correction(),
    {
        ResolvedCalibration { color_temp_offset: 0, brightness_offset: 0 }
    }

    pub open spec fn no_correction(self) -> bool {
        self.color_temp_offset == 0 && self.brightness_offset == 0
    }

    pub fn is_neutral(&self) -> (r: bool)
        ensures
            r == self.no_correction(),
    {
        self.color_temp_offset == 0 && self.brightness_offset == 0
    }

    /// The sum of any brightness and the offset fits in 16 bits.
    pub open spec fn in_limits(self) -> bool {
        self.brightness_offset <= 32_512
    }

    pub open spec fn brightness(self, brightness: u8) -> u8 {
        clamped(brightness + self.brightness_offset, 1, 254) as u8
    }

    /// Apply brightness offset, clamping to 1-254.
    pub fn apply_brightness(&self, brightness: u8) -> (r: u8)
        requires
            self.in_limits(),
        ensures
            r == self.brightness(brightness),
            1 <= r <= 254,
    {
        let adjusted: i16 = brightness as i16 + self.brightness_offset;
        if adjusted < 1 {
            1
        } else if adjusted > 254 {
            254
        } else {
            adjusted as u8
        }
    }

    pub open spec fn color_temp(self, mired: u16, device: Option<Z2mDeviceInfo>) -> u16 {
        clamped(
            mired + self.color_temp_offset,
            min_mired(device) as int,
            max_mired(device) as int,
        ) as u16
    }

    /// Apply color_temp offset, clamping to the device's mired range.
    pub fn apply_color_temp(&self, mired: u16, device: Option<&Z2mDeviceInfo>) -> (r: u16)
        requires
            min_mired(unref(device)) <= max_mired(unref(device)),
        ensures
            r == self.color_temp(mired, unref(device)),
            min_mired(unref(device)) <= r <= max_mired(unref(device)),
    {
        let adjusted: i32 = mired as i32 + self.color_temp_offset as i32;
        let min: u16 = match device {
            Some(d) => d.color_temp_min.unwrap_or(1),
            None => 1,
        };
        let max: u16 = match device {
            Some(d) => d.color_temp_max.unwrap_or(u16::MAX),
            None => u16::MAX,
        };
        if adjusted < min as i32 {
            min
        } else if adjusted > max as i32 {
            max
        } else {
            adjusted as u16
        }
    }
}

/// A neutral calibration hands every brightness from 1 to 254 through unchanged.
pub proof fn law_neutral_keeps_brightness(cal: ResolvedCalibration, brightness: u8)
    requires
        cal.no_correction(),
        1 <= brightness <= 254,
    ensures
        cal.brightness(brightness) == brightness,
{
}

/// A neutral calibration hands every color temperature through that the device can show.
pub proof fn law_neutral_keeps_color_temp(
    cal: ResolvedCalibration,
    mired: u16,
    device: Option<Z2mDeviceInfo>,
)
    requires
        cal.no_correction(),
        min_mired(device) <= mired <= max_mired(device),
    ensures
        cal.color_temp(mired, device) == mired,
{
}

/// What a device gets for being an RGBW lamp.
pub open spec fn auto_calibration(
    config: LightCalibrationConfig,
    device: Option<Z2mDeviceInfo>,
) -> ResolvedCalibration {
    if config.auto_defaults && device is Some && device->0.spec_light_type() == LightType::Rgbw {
        ResolvedCalibration {
            color_temp_offset: config.rgbw_color_temp_offset,
            brightness_offset: config.rgbw_brightness_offset,
        }
    } else {
        ResolvedCalibration { color_temp_offset: 0, brightness_offset: 0 }
    }
}

/// Explicit override > auto-defaults for RGBW > neutral, offset by offset.
pub open spec fn resolved(
    ieee: Seq<char>,
    config: LightCalibrationConfig,
    device: Option<Z2mDeviceInfo>,
) -> ResolvedCalibration {
    let auto = auto_calibration(config, device);
    match config.overrides.lookup(ieee) {
        Some(own) => ResolvedCalibration {
            color_temp_offset: pick(own.color_temp_offset, auto.color_temp_offset),
            brightness_offset: pick(own.brightness_offset, auto.brightness_offset),
        },
        None => auto,
    }
}

/// Resolve calibration for a specific device.
/// Priority: explicit override > auto-defaults for RGBW > neutral.
pub fn resolve(
    ieee: &str,
    config: &LightCalibrationConfig,
    device_info: Option<&Z2mDeviceInfo>,
) -> (r: ResolvedCalibration)
    ensures
        r == resolved(ieee@, *config, unref(device_info)),
{
    let is_rgbw: bool = match device_info {
        Some(d) => d.light_type() == LightType::Rgbw,
        None => false,
    };
    let auto: ResolvedCalibration = if config.auto_defaults && is_rgbw {
        ResolvedCalibration {
            color_temp_offset: config.rgbw_color_temp_offset,
            brightness_offset: config.rgbw_brightness_offset,
        }
    } else {
        ResolvedCalibration::neutral()
    };
    match config.overrides.get(ieee) {
        Some(own) => ResolvedCalibration {
            color_temp_offset: own.color_temp_offset.unwrap_or(auto.color_temp_offset),
            brightness_offset: own.brightness_offset.unwrap_or(auto.brightness_offset),
        },
        None => auto,
    }
}

/// Some member of the group has a calibration that is not neutral.
pub open spec fn calibration_differs(
    group: Z2mGroupInfo,
    config: LightCalibrationConfig,
    devices: NameMap<Z2mDeviceInfo>,
) -> bool {
    exists|i: int|
        0 <= i < group.members@.len() && !resolved(
            (#[trigger] group.members@[i]).ieee_address@,
            config,
            devices.lookup(group.members@[i].ieee_address@),
        ).no_correction()
}

/// Returns true if any member of the group has non-neutral calibration, so that a single group
/// publish does not serve all its members.
pub fn group_needs_fanout(
    group: &Z2mGroupInfo,
    config: &LightCalibrationConfig,
    device_map: &NameMap<Z2mDeviceInfo>,
) -> (r: bool)
    ensures
        r == calibration_differs(*group, *config, *device_map),
{
    let mut i: usize = 0;
    while i < group.members.len()
        invariant
            i <= group.members@.len(),
            forall|j: int|
                0 <= j < i ==> resolved(
                    (#[trigger] group.members@[j]).ieee_address@,
                    *config,
                    device_map.lookup(group.members@[j].ieee_address@),
                ).no_correction(),
        decreases group.members.len() - i,
    {
        let ieee: &str = group.members[i].ieee_address.as_str();
        if !resolve(ieee, config, device_map.get(ieee)).is_neutral() {
            return true;
        }
        i = i + 1;
    }
    false
}

/// What a lamp can do, as far as a shared command is concerned: its light type and its color
/// temperature range.
pub open spec fn capability(device: Z2mDeviceInfo) -> (LightType, Option<u16>, Option<u16>) {
    (device.spec_light_type(), device.color_temp_min, device.color_temp_max)
}

/// Two known members of the group differ in light type or color temperature range.
pub open spec fn capabilities_differ(
    group: Z2mGroupInfo,
    devices: NameMap<Z2mDeviceInfo>,
) -> bool {
    exists|i: int, j: int|
        #![trigger group.members@[i], group.members@[j]]
        0 <= i < group.members@.len() && 0 <= j < group.members@.len() && devices@.contains_key(
            group.members@[i].ieee_address@,
        ) && devices@.contains_key(group.members@[j].ieee_address@) && capability(
            devices@[group.members@[i].ieee_address@],
        ) != capability(devices@[group.members@[j].ieee_address@])
}

fn same_bound(a: Option<u16>, b: Option<u16>) -> (r: bool)
    ensures
        r == (a == b),
{
    match (a, b) {
        (Some(x), Some(y)) => x == y,
        (None, None) => true,
        _ => false,
    }
}

/// Returns true if known members of the group differ in light type or color temperature range, so
/// that one value does not suit them all.
pub fn group_has_mixed_capabilities(
    group: &Z2mGroupInfo,
    device_map: &NameMap<Z2mDeviceInfo>,
) -> (r: bool)
    ensures
        r == capabilities_differ(*group, *device_map),
{
    let mut first: Option<&Z2mDeviceInfo> = None;
    let ghost mut at: int = 0;
    let mut i: usize = 0;
    while i < group.members.len()
        invariant
            i <= group.members@.len(),
            match first {
                Some(d) => 0 <= at < i && device_map@.contains_key(
                    group.members@[at].ieee_address@,
                ) && device_map@[group.members@[at].ieee_address@] == *d && forall|j: int|
                    0 <= j < i && device_map@.contains_key(
                        (#[trigger] group.members@[j]).ieee_address@,
                    ) ==> capability(device_map@[group.members@[j].ieee_address@]) == capability(
                        *d,
                    ),
                None => forall|j: int|
                    0 <= j < i ==> !device_map@.contains_key(
                        (#[trigger] group.members@[j]).ieee_address@,
                    ),
            },
        decreases group.members.len() - i,
    {
        if let Some(device) = device_map.get(group.members[i].ieee_address.as_str()) {
            match first {
                Some(d) => {
                    let same: bool = d.light_type() == device.light_type() && same_bound(
                        d.color_temp_min,
                        device.color_temp_min,
                    ) && same_bound(d.color_temp_max, device.color_temp_max);
                    if !same {
                        assert(capability(device_map@[group.members@[at].ieee_address@])
                            != capability(device_map@[group.members@[i as int].ieee_address@]));
                        return true;
                    }
                },
                None => {
                    first = Some(device);
                    proof {
                        at = i as int;
                    }
                },
            }
        }
        i = i + 1;
    }
    false
}

/// Convenience: resolve calibration for a device using the full configuration and device map.
pub fn resolve_for_device(
    ieee: &str,
    config: &AppConfig,
    device_map: &NameMap<Z2mDeviceInfo>,
) -> (r: ResolvedCalibration)
    ensures
        r == resolved(ieee@, config.light_calibration, device_map.lookup(ieee@)),
{
    resolve(ieee, &config.light_calibration, device_map.get(ieee))
}

/// A lamp's own offsets win, one by one. Where it has none, an RGBW lamp, one that can show both
/// color temperatures and colors, gets the offsets for such lamps, if these are switched on, and
/// every other lamp none.
pub proof fn law_own_offsets_win(
    ieee: Seq<char>,
    config: LightCalibrationConfig,
    device: Option<Z2mDeviceInfo>,
)
    ensures
        ({
            let rgbw = config.auto_defaults && (device matches Some(d) && d.supports_color_temp && (
            d.supports_color_xy || d.supports_color_hs));
            let r = resolved(ieee, config, device);
            let own = config.overrides@[ieee];
            let known = config.overrides@.contains_key(ieee);
            &&& known && own.color_temp_offset is Some ==> r.color_temp_offset
                == own.color_temp_offset->0
            &&& known && own.brightness_offset is Some ==> r.brightness_offset
                == own.brightness_offset->0
            &&& !(known && own.color_temp_offset is Some) ==> r.color_temp_offset == (if rgbw {
                config.rgbw_color_temp_offset
            } else {
                0
            })
            &&& !(known && own.brightness_offset is Some) ==> r.brightness_offset == (if rgbw {
                config.rgbw_brightness_offset
            } else {
                0
            })
        }),
{
}

/// A calibration moves a value by its offset, as far as the range allows: from 1 to 254 for a
/// brightness, and over what the lamp can show for a color temperature.
pub proof fn law_offsets_move_values(
    cal: ResolvedCalibration,
    brightness: u8,
    mired: u16,
    device: Option<Z2mDeviceInfo>,
    lo: int,
    hi: int,
)
    requires
        lo == (match device {
            Some(d) => match d.color_temp_min {
                Some(min) => min as int,
                None => 1,
            },
            None => 1,
        }),
        hi == (match device {
            Some(d) => match d.color_temp_max {
                Some(max) => max as int,
                None => 65_535,
            },
            None => 65_535,
        }),
        lo <= hi,
    ensures
        ({
            let moved = brightness + cal.brightness_offset;
            let b = cal.brightness(brightness) as int;
            &&& 1 <= moved <= 254 ==> b == moved
            &&& moved < 1 ==> b == 1
            &&& moved > 254 ==> b == 254
        }),
        ({
            let moved = mired + cal.color_temp_offset;
            let ct = cal.color_temp(mired, device) as int;
            &&& lo <= moved <= hi ==> ct == moved
            &&& moved < lo ==> ct == lo
            &&& moved > hi ==> ct == hi
        }),
{
}

/// A group needs single commands exactly where one of its members is to be moved by an offset.
pub proof fn law_fanout_is_for_offsets(
    group: Z2mGroupInfo,
    config: LightCalibrationConfig,
    devices: NameMap<Z2mDeviceInfo>,
)
    ensures
        !calibration_differs(group, config, devices) <==> forall|i: int|
            0 <= i < group.members@.len() ==> ({
                let ieee = (#[trigger] group.members@[i]).ieee_address@;
                let r = resolved(ieee, config, devices.lookup(ieee));
                r.color_temp_offset == 0 && r.brightness_offset == 0
            }),
{
}

/// A group counts as mixed as soon as two known members differ in a bound of their ranges, in
/// whether they can show color temperatures, or, where they can, in whether they can show colors.
pub proof fn law_different_members_are_mixed(
    group: Z2mGroupInfo,
    devices: NameMap<Z2mDeviceInfo>,
    i: int,
    j: int,
)
    requires
        0 <= i < group.members@.len(),
        0 <= j < group.members@.len(),
        devices@.contains_key(group.members@[i].ieee_address@),
        devices@.contains_key(group.members@[j].ieee_address@),
    ensures
        ({
            let a = devices@[group.members@[i].ieee_address@];
            let b = devices@[group.members@[j].ieee_address@];
            a.color_temp_min != b.color_temp_min || a.color_temp_max != b.color_temp_max
                || a.supports_color_temp != b.supports_color_temp || (a.supports_color_temp && (
            a.supports_color_xy || a.supports_color_hs) != (b.supports_color_xy
                || b.supports_color_hs)) || (!a.supports_color_temp && a.supports_brightness
                != b.supports_brightness) ==> capabilities_differ(group, devices)
        }),
{
    let a = devices@[group.members@[i].ieee_address@];
    let b = devices@[group.members@[j].ieee_address@];
    if !capabilities_differ(group, devices) {
        assert(capability(a) == capability(b));
    }
}

/// A group whose known members are all alike is not mixed.
pub proof fn law_alike_members_are_not_mixed(
    group: Z2mGroupInfo,
    devices: NameMap<Z2mDeviceInfo>,
    like: Z2mDeviceInfo,
)
    requires
        forall|i: int|
            0 <= i < group.members@.len() && devices@.contains_key(
                (#[trigger] group.members@[i]).ieee_address@,
            ) ==> ({
                let d = devices@[group.members@[i].ieee_address@];
                d.color_temp_min == like.color_temp_min && d.color_temp_max == like.color_temp_max
                    && d.supports_color_temp == like.supports_color_temp && d.supports_color_xy
                    == like.supports_color_xy && d.supports_color_hs == like.supports_color_hs
                    && d.supports_brightness == like.supports_brightness
            }),
    ensures
        !capabilities_differ(group, devices),
{
    assert forall|i: int|
        0 <= i < group.members@.len() && devices@.contains_key(
            (#[trigger] group.members@[i]).ieee_address@,
        ) implies capability(devices@[group.members@[i].ieee_address@]) == capability(like) by {}
}

} // verus!
