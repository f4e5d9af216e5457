//! The shape of the configuration.

use vstd::prelude::*;

use crate::names::NameMap;
use crate::schedule::Schedule;

verus! {

#[derive(Debug)]
pub struct AppConfig {
    pub schema_version: u32,
    pub mqtt: MqttConfig,
    pub general: GeneralConfig,
    pub circadian: CircadianSection,
    pub night_mode: NightModeSection,
    pub lights_out: LightsOutConfig,
    pub mcp: McpConfig,
    pub light_calibration: LightCalibrationConfig,
    pub rooms: NameMap<RoomConfig>,
    pub automations: Vec<AutomationConfig>,
}

#[derive(Clone, Debug)]
pub struct MqttConfig {
    pub host: String,
    pub port: u16,
    pub base_topic: String,
}

#[derive(Clone, Debug)]
pub struct GeneralConfig {
    pub timezone: String,
    /// Default motion timeout for all rooms with motion sensors (seconds).
    pub motion_timeout_secs: u64,
    /// Brightness drift tolerance for external change detection (0-254).
    /// Echoes within this range are ignored. Default: 15.
    pub external_brightness_tolerance: u64,
    /// Color temp drift tolerance for external change detection (mired).
    /// Echoes within this range are ignored. Default: 25.
    pub external_color_temp_tolerance: u64,
    /// How long to pause circadian after detecting an external light change (seconds).
    /// Default: 1800 (30 minutes).
    pub external_override_secs: u64,
    /// Remote brightness step per click (1-254). Default: 25.
    pub remote_brightness_step: u8,
    /// Lux value above which a gated room counts as bright enough. Default: 50.
    pub illuminance_threshold: u16,
}

#[derive(Clone, Debug)]
pub struct CircadianSection {
    pub defaults: CircadianDefaults,
}

#[derive(Clone, Debug)]
pub struct CircadianDefaults {
    pub wake_time: String,
    pub sleep_time: String,
    pub start_temp_k: u16,
    pub peak_temp_k: u16,
    pub end_temp_k: u16,
    pub start_brightness: u8,
    pub peak_brightness: u8,
    pub end_brightness: u8,
    pub ramp_duration_mins: u32,
    pub curve: CurveType,
    pub transition_secs: u32,
    pub update_interval_secs: u64,
}

#[derive(Clone, Copy, Debug, PartialEq, Eq, Structural)]
pub enum CurveType {
    Cosine,
    Linear,
}

#[derive(Clone, Debug)]
pub struct NightModeSection {
    pub defaults: NightModeDefaults,
}

#[derive(Clone, Copy, Debug)]
pub struct NightModeDefaults {
    pub color_temp_k: u16,
    pub brightness: u8,
    pub motion_timeout_secs: u64,
}

#[derive(Clone, Debug)]
pub struct McpConfig {
    pub bind: String,
}

#[derive(Clone, Debug)]
pub struct LightsOutConfig {
    pub enabled: bool,
    pub time: String,
}

/// Corrections for lamps that render a value differently from the others.
#[derive(Clone, Debug)]
pub struct LightCalibrationConfig {
    /// Apply the RGBW offsets to every RGBW lamp. Default: true.
    pub auto_defaults: bool,
    /// Color temp offset of RGBW lamps (mired). Default: 15.
    pub rgbw_color_temp_offset: i16,
    /// Brightness offset of RGBW lamps. Default: 0.
    pub rgbw_brightness_offset: i16,
    /// IEEE address -> offsets of that lamp.
    pub overrides: NameMap<LightCalibrationOverride>,
}

#[derive(Clone, Copy, Debug)]
pub struct LightCalibrationOverride {
    pub color_temp_offset: Option<i16>,
    pub brightness_offset: Option<i16>,
}

#[derive(Debug)]
pub struct RoomConfig {
    pub display_name: Option<String>,
    pub z2m_group: Option<String>,
    pub lights: Vec<String>,
    pub motion_sensor: Option<String>,
    /// Per-room motion timeout override (seconds). When set alongside motion_sensor, lights turn
    /// on and off with motion without needing automations.
    pub motion_timeout_secs: Option<u64>,
    /// Schedule gate for built-in motion handling. When set, motion events are only processed when
    /// the current time matches this schedule.
    pub motion_schedule: Option<Schedule>,
    /// Set to true to leave the lights off on motion while the room is bright enough.
    pub illuminance_gate: bool,
    /// Set to true to only log what the illuminance gate would have done.
    pub illuminance_log_only: bool,
    /// Per-room lux threshold of the illuminance gate.
    pub illuminance_threshold: Option<u16>,
    /// Remote controls (IEEE addresses) bound to this room.
    /// Built-in handling: toggle on/off, dimming, arrow_right=night mode, arrow_left=day mode.
    pub remotes: Vec<String>,
    /// Set to false to disable circadian for this room entirely.
    pub circadian_enabled: bool,
    /// Set to false to exclude this room from automatic lights-out.
    pub lights_out: bool,
    pub circadian: Option<CircadianOverride>,
    pub night_mode: Option<NightModeOverride>,
}

#[derive(Clone, Debug)]
pub struct CircadianOverride {
    pub wake_time: Option<String>,
    pub sleep_time: Option<String>,
    pub start_temp_k: Option<u16>,
    pub peak_temp_k: Option<u16>,
    pub end_temp_k: Option<u16>,
    pub start_brightness: Option<u8>,
    pub peak_brightness: Option<u8>,
    pub end_brightness: Option<u8>,
    pub ramp_duration_mins: Option<u32>,
    pub curve: Option<CurveType>,
    pub transition_secs: Option<u32>,
    pub update_interval_secs: Option<u64>,
}

#[derive(Debug)]
pub struct NightModeOverride {
    /// Schedule predicate for automatic night mode activation/deactivation.
    pub schedule: Option<Schedule>,
    pub color_temp_k: Option<u16>,
    pub brightness: Option<u8>,
    pub motion_timeout_secs: Option<u64>,
}

#[derive(Debug)]
pub struct AutomationConfig {
    pub id: String,
    pub rooms: Vec<String>,
    pub trigger: TriggerConfig,
    pub action: ActionConfig,
    pub off_action: Option<ActionConfig>,
    /// Schedule gate: automation only fires when the current time matches.
    pub schedule: Option<Schedule>,
    pub conditions: Vec<ConditionConfig>,
}

#[derive(Clone, Copy, Debug, PartialEq, Eq, Structural)]
pub enum TriggerConfig {
    Motion,
    MotionCleared,
}

#[derive(Clone, Copy, Debug)]
pub enum ActionConfig {
    LightsOn {
        use_circadian: bool,
        brightness: Option<u8>,
        color_temp_k: Option<u16>,
        transition: Option<u32>,
    },
    LightsOff { delay_secs: u64, transition: Option<u32> },
    SetBrightness { brightness: u8, transition: Option<u32> },
    SetColorTemp { color_temp_k: u16, transition: Option<u32> },
}

/// What must hold of a room for an automation to fire.
#[derive(Clone, Debug)]
pub enum ConditionConfig {
    NightMode { room: String, active: bool },
    LightState { room: String, is_on: bool },
}

} // verus!
