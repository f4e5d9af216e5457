//! What holds where the configuration is silent.

use vstd::prelude::*;

use crate::config::types::{
    CircadianDefaults, CircadianOverride, CircadianSection, CurveType, GeneralConfig,
    LightCalibrationConfig, LightCalibrationOverride, LightsOutConfig, McpConfig, MqttConfig,
    NightModeDefaults, NightModeSection, RoomConfig,
};
use crate::names::NameMap;
use crate::schedule::Schedule;

verus! {

impl Default for MqttConfig {
    fn default() -> (r: Self)
        ensures
            r.host@ == "localhost"@,
            r.port == 1883,
            r.base_topic@ == "zigbee2mqtt"@,
    {
        MqttConfig {
            host: "localhost".to_owned(),
            port: 1883,
            base_topic: "zigbee2mqtt".to_owned(),
        }
    }
}

impl Default for GeneralConfig {
    fn default() -> (r: Self)
        ensures
            r.timezone@ == "UTC"@,
            r.motion_timeout_secs == 300,
            r.external_brightness_tolerance == 15,
            r.external_color_temp_tolerance == 25,
            r.external_override_secs == 1800,
            r.remote_brightness_step == 25,
            r.illuminance_threshold == 50,
    {
        GeneralConfig {
            timezone: "UTC".to_owned(),
            motion_timeout_secs: 300,
            external_brightness_tolerance: 15,
            external_color_temp_tolerance: 25,
            external_override_secs: 1800,
            remote_brightness_step: 25,
            illuminance_threshold: 50,
        }
    }
}

impl CircadianDefaults {
    /// Cosine curve, 06:00-23:00, 2700K-4000K-2200K.
    pub open spec fn is_default(self) -> bool {
        &&& self.wake_time@ == "06:00"@
        &&& self.sleep_time@ == "23:00"@
        &&& self.start_temp_k == 2700
        &&& self.peak_temp_k == 4000
        &&& self.end_temp_k == 2200
        &&& self.start_brightness == 180
        &&& self.peak_brightness == 254
        &&& self.end_brightness == 120
        &&& self.ramp_duration_mins == 120
        &&& self.curve == CurveType::Cosine
        &&& self.transition_secs == 30
        &&& self.update_interval_secs == 60
    }
}

impl Default for CircadianDefaults {
    fn default() -> (r: Self)
        ensures
            r.is_default(),
    {
        CircadianDefaults {
            wake_time: "06:00".to_owned(),
            sleep_time: "23:00".to_owned(),
            start_temp_k: 2700,
            peak_temp_k: 4000,
            end_temp_k: 2200,
            start_brightness: 180,
            peak_brightness: 254,
            end_brightness: 120,
            ramp_duration_mins: 120,
            curve: CurveType::Cosine,
            transition_secs: 30,
            update_interval_secs: 60,
        }
    }
}

impl Default for CircadianSection {
    fn default() -> (r: Self)
        ensures
            r.defaults.is_default(),
    {
        CircadianSection { defaults: CircadianDefaults::default() }
    }
}

impl NightModeDefaults {
    pub open spec fn is_default(self) -> bool {
        self == (NightModeDefaults { color_temp_k: 2200, brightness: 20, motion_timeout_secs: 120 })
    }
}

impl Default for NightModeDefaults {
    fn default() -> (r: Self)
        ensures
            r.is_default(),
    {
        NightModeDefaults { color_temp_k: 2200, brightness: 20, motion_timeout_secs: 120 }
    }
}

impl Default for NightModeSection {
    fn default() -> (r: Self)
        ensures
            r.defaults.is_default(),
    {
        NightModeSection { defaults: NightModeDefaults::default() }
    }
}

impl Default for LightsOutConfig {
    fn default() -> (r: Self)
        ensures
            r.enabled,
            r.time@ == "01:00"@,
    {
        LightsOutConfig { enabled: true, time: "01:00".to_owned() }
    }
}

impl Default for McpConfig {
    fn default() -> (r: Self)
        ensures
            r.bind@ == "127.0.0.1:8420"@,
    {
        McpConfig { bind: "127.0.0.1:8420".to_owned() }
    }
}

impl Default for LightCalibrationConfig {
    fn default() -> (r: Self)
        ensures
            r.auto_defaults,
            r.rgbw_color_temp_offset == 15,
            r.rgbw_brightness_offset == 0,
            r.overrides@ == Map::<Seq<char>, LightCalibrationOverride>::empty(),
    {
        LightCalibrationConfig {
            auto_defaults: true,
            rgbw_color_temp_offset: 15,
            rgbw_brightness_offset: 0,
            overrides: NameMap::new(),
        }
    }
}

impl Default for RoomConfig {
    /// What a room section that is left empty amounts to.
    fn default() -> (r: Self)
        ensures
            r.display_name is None,
            r.z2m_group is None,
            r.lights@.len() == 0,
            r.motion_sensor is None,
            r.motion_timeout_secs is None,
            r.motion_schedule is None,
            !r.illuminance_gate,
            !r.illuminance_log_only,
            r.illuminance_threshold is None,
            r.remotes@.len() == 0,
            r.circadian_enabled,
            r.lights_out,
            r.circadian is None,
            r.night_mode is None,
    {
        RoomConfig {
            display_name: None,
            z2m_group: None,
            lights: Vec::new(),
            motion_sensor: None,
            motion_timeout_secs: None,
            motion_schedule: None,
            illuminance_gate: false,
            illuminance_log_only: false,
            illuminance_threshold: None,
            remotes: Vec::new(),
            circadian_enabled: true,
            lights_out: true,
            circadian: None,
            night_mode: None,
        }
    }
}

/// The night mode settings of a room: its own, and the defaults where it has none.
#[derive(Debug)]
pub struct EffectiveNightMode<'a> {
    pub schedule: Option<&'a Schedule>,
    pub color_temp_k: u16,
    pub brightness: u8,
    pub motion_timeout_secs: u64,
}

/// `own` where it holds a value, `default` otherwise.
pub open spec fn pick<T>(own: Option<T>, default: T) -> T {
    match own {
        Some(value) => value,
        None => default,
    }
}

/// Text version of [`pick`]: a copy of `own` where it holds a value, of `default` otherwise.
fn pick_text(own: &Option<String>, default: &String) -> (r: String)
    ensures
        r == pick(*own, *default),
{
    match own {
        Some(value) => value.clone(),
        None => default.clone(),
    }
}

/// The circadian settings with a room's own values in place of the defaults.
pub open spec fn overridden(own: CircadianOverride, d: CircadianDefaults) -> CircadianDefaults {
    CircadianDefaults {
        wake_time: pick(own.wake_time, d.wake_time),
        sleep_time: pick(own.sleep_time, d.sleep_time),
        start_temp_k: pick(own.start_temp_k, d.start_temp_k),
        peak_temp_k: pick(own.peak_temp_k, d.peak_temp_k),
        end_temp_k: pick(own.end_temp_k, d.end_temp_k),
        start_brightness: pick(own.start_brightness, d.start_brightness),
        peak_brightness: pick(own.peak_brightness, d.peak_brightness),
        end_brightness: pick(own.end_brightness, d.end_brightness),
        ramp_duration_mins: pick(own.ramp_duration_mins, d.ramp_duration_mins),
        curve: pick(own.curve, d.curve),
        transition_secs: pick(own.transition_secs, d.transition_secs),
        update_interval_secs: pick(own.update_interval_secs, d.update_interval_secs),
    }
}

impl RoomConfig {
    pub open spec fn motion_timeout(self, global_default: u64) -> Option<u64> {
        if self.motion_sensor is Some {
            Some(pick(self.motion_timeout_secs, global_default))
        } else {
            None
        }
    }

    /// Returns the effective motion timeout for this room, or None if the room has no motion
    /// sensor.
    pub fn effective_motion_timeout(&self, global_default: u64) -> (r: Option<u64>)
        ensures
            r == self.motion_timeout(global_default),
    {
        match self.motion_sensor {
            Some(_) => Some(self.motion_timeout_secs.unwrap_or(global_default)),
            None => None,
        }
    }

    /// Returns the lux threshold of the illuminance gate.
    pub fn effective_illuminance_threshold(&self, global_default: u16) -> (r: u16)
        ensures
            r == pick(self.illuminance_threshold, global_default),
    {
        self.illuminance_threshold.unwrap_or(global_default)
    }

    pub open spec fn circadian_settings(self, defaults: CircadianDefaults) -> CircadianDefaults {
        match self.circadian {
            Some(own) => overridden(own, defaults),
            None => defaults,
        }
    }

    pub fn effective_circadian(&self, defaults: &CircadianDefaults) -> (r: CircadianDefaults)
        ensures
            r == self.circadian_settings(*defaults),
    {
        match &self.circadian {
            Some(o) => CircadianDefaults {
                wake_time: pick_text(&o.wake_time, &defaults.wake_time),
                sleep_time: pick_text(&o.sleep_time, &defaults.sleep_time),
                start_temp_k: o.start_temp_k.unwrap_or(defaults.start_temp_k),
                peak_temp_k: o.peak_temp_k.unwrap_or(defaults.peak_temp_k),
                end_temp_k: o.end_temp_k.unwrap_or(defaults.end_temp_k),
                start_brightness: o.start_brightness.unwrap_or(defaults.start_brightness),
                peak_brightness: o.peak_brightness.unwrap_or(defaults.peak_brightness),
                end_brightness: o.end_brightness.unwrap_or(defaults.end_brightness),
                ramp_duration_mins: o.ramp_duration_mins.unwrap_or(defaults.ramp_duration_mins),
                curve: o.curve.unwrap_or(defaults.curve),
                transition_secs: o.transition_secs.unwrap_or(defaults.transition_secs),
                update_interval_secs: o.update_interval_secs.unwrap_or(
                    defaults.update_interval_secs,
                ),
            },
            None => CircadianDefaults {
                wake_time: defaults.wake_time.clone(),
                sleep_time: defaults.sleep_time.clone(),
                start_temp_k: defaults.start_temp_k,
                peak_temp_k: defaults.peak_temp_k,
                end_temp_k: defaults.end_temp_k,
                start_brightness: defaults.start_brightness,
                peak_brightness: defaults.peak_brightness,
                end_brightness: defaults.end_brightness,
                ramp_duration_mins: defaults.ramp_duration_mins,
                curve: defaults.curve,
                transition_secs: defaults.transition_secs,
                update_interval_secs: defaults.update_interval_secs,
            },
        }
    }

    /// The schedule on which night mode comes and goes by itself.
    pub open spec fn night_schedule(self) -> Option<Schedule> {
        match self.night_mode {
            Some(own) => own.schedule,
            None => None,
        }
    }

    /// The night mode values: the room's own, and the defaults where it has none.
    pub open spec fn night_values(self, defaults: NightModeDefaults) -> NightModeDefaults {
        match self.night_mode {
            Some(own) => NightModeDefaults {
                color_temp_k: pick(own.color_temp_k, defaults.color_temp_k),
                brightness: pick(own.brightness, defaults.brightness),
                motion_timeout_secs: pick(own.motion_timeout_secs, defaults.motion_timeout_secs),
            },
            None => defaults,
        }
    }

    pub fn effective_night_mode<'a>(&'a self, defaults: &NightModeDefaults) -> (r:
        EffectiveNightMode<'a>)
        ensures
            r.schedule is Some == self.night_schedule() is Some,
            r.schedule matches Some(schedule) ==> self.night_schedule() == Some(*schedule),
            r.color_temp_k == self.night_values(*defaults).color_temp_k,
            r.brightness == self.night_values(*defaults).brightness,
            r.motion_timeout_secs == self.night_values(*defaults).motion_timeout_secs,
    {
        match &self.night_mode {
            Some(own) => EffectiveNightMode {
                schedule: own.schedule.as_ref(),
                color_temp_k: own.color_temp_k.unwrap_or(defaults.color_temp_k),
                brightness: own.brightness.unwrap_or(defaults.brightness),
                motion_timeout_secs: own.motion_timeout_secs.unwrap_or(
                    defaults.motion_timeout_secs,
                ),
            },
            None => EffectiveNightMode {
                schedule: None,
                color_temp_k: defaults.color_temp_k,
                brightness: defaults.brightness,
                motion_timeout_secs: defaults.motion_timeout_secs,
            },
        }
    }
}

/// A room's own circadian settings win, one by one; what it leaves open is as for all rooms.
pub proof fn law_own_settings_win(room: RoomConfig, d: CircadianDefaults)
    ensures
        room.circadian_settings(d).wake_time == (match room.circadian {
            Some(own) => match own.wake_time {
                Some(value) => value,
                None => d.wake_time,
            },
            None => d.wake_time,
        }),
        room.circadian_settings(d).sleep_time == (match room.circadian {
            Some(own) => match own.sleep_time {
                Some(value) => value,
                None => d.sleep_time,
            },
            None => d.sleep_time,
        }),
        room.circadian_settings(d).start_temp_k == (match room.circadian {
            Some(own) => match own.start_temp_k {
                Some(value) => value,
                None => d.start_temp_k,
            },
            None => d.start_temp_k,
        }),
        room.circadian_settings(d).peak_temp_k == (match room.circadian {
            Some(own) => match own.peak_temp_k {
                Some(value) => value,
                None => d.peak_temp_k,
            },
            None => d.peak_temp_k,
        }),
        room.circadian_settings(d).end_temp_k == (match room.circadian {
            Some(own) => match own.end_temp_k {
                Some(value) => value,
                None => d.end_temp_k,
            },
            None => d.end_temp_k,
        }),
        room.circadian_settings(d).start_brightness == (match room.circadian {
            Some(own) => match own.start_brightness {
                Some(value) => value,
                None => d.start_brightness,
            },
            None => d.start_brightness,
        }),
        room.circadian_settings(d).peak_brightness == (match room.circadian {
            Some(own) => match own.peak_brightness {
                Some(value) => value,
                None => d.peak_brightness,
            },
            None => d.peak_brightness,
        }),
        room.circadian_settings(d).end_brightness == (match room.circadian {
            Some(own) => match own.end_brightness {
                Some(value) => value,
                None => d.end_brightness,
            },
            None => d.end_brightness,
        }),
        room.circadian_settings(d).ramp_duration_mins == (match room.circadian {
            Some(own) => match own.ramp_duration_mins {
                Some(value) => value,
                None => d.ramp_duration_mins,
            },
            None => d.ramp_duration_mins,
        }),
        room.circadian_settings(d).curve == (match room.circadian {
            Some(own) => match own.curve {
                Some(value) => value,
                None => d.curve,
            },
            None => d.curve,
        }),
        room.circadian_settings(d).transition_secs == (match room.circadian {
            Some(own) => match own.transition_secs {
                Some(value) => value,
                None => d.transition_secs,
            },
            None => d.transition_secs,
        }),
        room.circadian_settings(d).update_interval_secs == (match room.circadian {
            Some(own) => match own.update_interval_secs {
                Some(value) => value,
                None => d.update_interval_secs,
            },
            None => d.update_interval_secs,
        }),
{
}

/// A room's own night mode settings win, one by one; what it leaves open is as for all rooms. Only
/// a room of its own has a schedule.
pub proof fn law_own_night_settings_win(room: RoomConfig, d: NightModeDefaults)
    ensures
        room.night_values(d).color_temp_k == (match room.night_mode {
            Some(own) => match own.color_temp_k {
                Some(value) => value,
                None => d.color_temp_k,
            },
            None => d.color_temp_k,
        }),
        room.night_values(d).brightness == (match room.night_mode {
            Some(own) => match own.brightness {
                Some(value) => value,
                None => d.brightness,
            },
            None => d.brightness,
        }),
        room.night_values(d).motion_timeout_secs == (match room.night_mode {
            Some(own) => match own.motion_timeout_secs {
                Some(value) => value,
                None => d.motion_timeout_secs,
            },
            None => d.motion_timeout_secs,
        }),
        room.night_schedule() == (match room.night_mode {
            Some(own) => own.schedule,
            None => None,
        }),
{
}

/// A room has a motion timeout exactly where it has a motion sensor: its own, or the general one.
pub proof fn law_own_timeouts_win(room: RoomConfig, general: u64)
    ensures
        room.motion_timeout(general) is Some <==> room.motion_sensor is Some,
        room.motion_sensor is Some && room.motion_timeout_secs is Some ==> room.motion_timeout(
            general,
        ) == room.motion_timeout_secs,
        room.motion_sensor is Some && room.motion_timeout_secs is None ==> room.motion_timeout(
            general,
        ) == Some(general),
{
}

} // verus!
