//! What agents are told about the tools and their parameters.

use vstd::prelude::*;

verus! {

pub const GET_ROOMS: &'static str = "Get a summary of all rooms in the house with their current lighting state. Shows which lights are on/off, brightness levels, color temperature, circadian status (active/paused/snoozed), occupancy from motion sensors, and night mode. Use this to get the big picture before making changes.";

pub const GET_ROOM: &'static str = "Get detailed state for a specific room including light state, circadian rhythm status, and configuration. Use room_id (the short key like 'kitchen', 'living_room', 'hallway_downstairs').";
pub const GET_ROOM_ROOM_ID: &'static str = "Room identifier (e.g. 'kitchen', 'living_room', 'master_bedroom')";

pub const LIGHT_ON: &'static str = "Turn on lights in a room. If you specify brightness or color_temp_k, it becomes a manual override and circadian stops adjusting. Use override_ttl_mins to make the override auto-expire (e.g. 120 = circadian resumes in 2 hours). Without manual values, lights turn on at the current circadian target. Brightness: 1-254 (254=max). Color temp: 2000-6500K (lower=warmer/orange, higher=cooler/blue).";
pub const ROOM_ID: &'static str = "Room identifier";
pub const LIGHT_ON_BRIGHTNESS: &'static str = "Brightness level. 254=full, 127=half, 20=very dim nightlight";
pub const LIGHT_ON_COLOR_TEMP_K: &'static str = "Color temperature in Kelvin. 2200=warm candlelight, 2700=soft white, 4000=neutral, 5500=daylight, 6500=cool blue";
pub const LIGHT_ON_TRANSITION: &'static str = "Transition time in seconds (default: 3)";
pub const LIGHT_ON_OVERRIDE_TTL_MINS: &'static str = "Auto-expire the manual override after this many minutes and resume circadian (e.g. 30, 60, 120). Omit for indefinite override.";

pub const LIGHT_OFF: &'static str = "Turn off lights in a room. This does NOT affect the circadian pause state — if circadian was paused, it stays paused for when lights come back on.";
pub const LIGHT_OFF_TRANSITION: &'static str = "Fade-out time in seconds (default: 3)";

pub const PAUSE_CIRCADIAN: &'static str = "Pause the circadian rhythm for a room indefinitely. Lights stay at their current brightness and color temperature — jeha stops adjusting them. Use this for parties, movie night, or when someone wants manual control. The lights stay on as-is; this just stops the automatic adjustments. Use resume_circadian to re-enable.";

pub const RESUME_CIRCADIAN: &'static str = "Resume the circadian rhythm for a room. Lights will smoothly transition back to the current circadian target (appropriate brightness and color temp for the time of day). Also clears any manual override.";

pub const SNOOZE_CIRCADIAN: &'static str = "Pause the circadian rhythm for a room for a specific duration, then auto-resume. Perfect for 'keep the lights like this for the next 2 hours' or 'party mode for 4 hours'. When the snooze expires, circadian smoothly resumes.";
pub const SNOOZE_CIRCADIAN_HOURS: &'static str = "How many hours to snooze (supports decimals, e.g. 1.5 for 90 minutes)";

pub const SET_NIGHT_MODE: &'static str = "Toggle night mode for a room. Night mode uses very dim, warm lighting (brightness ~20, 2200K) — enough to see but not wake anyone up.";
pub const SET_NIGHT_MODE_ACTIVE: &'static str = "true to enable night mode, false to disable";

pub const SET_SCENE: &'static str = "Set a predefined lighting scene for a room. This pauses circadian and sets specific brightness and color temperature. Available scenes: 'bright' (full brightness, neutral white), 'relax' (dimmer, warm), 'movie' (very dim, warmest), 'energize' (bright, cool daylight), 'nightlight' (minimal, warm amber). Use override_ttl_mins to auto-resume circadian after a duration.";
pub const SET_SCENE_SCENE: &'static str = "Scene name";
pub const SET_SCENE_OVERRIDE_TTL_MINS: &'static str = "Auto-resume circadian after this many minutes. Omit for indefinite.";

pub const LIST_Z2M_SCENES: &'static str = "List all Z2M scenes available for a room's group. These are scenes stored on the Zigbee devices themselves (created via the Z2M frontend). Returns scene IDs and names that can be used with recall_z2m_scene.";

pub const RECALL_Z2M_SCENE: &'static str = "Activate a Z2M scene stored on the devices in a room's group. This sends a scene_recall command to Z2M and pauses circadian so jeha doesn't overwrite the scene. Use list_z2m_scenes to see available scenes first. Use override_ttl_mins to auto-resume circadian after a duration.";
pub const RECALL_Z2M_SCENE_SCENE_ID: &'static str = "Z2M scene ID (from list_z2m_scenes)";

pub const GET_CIRCADIAN_STATUS: &'static str = "Show the current circadian rhythm state for all rooms: what the target brightness and color temp should be right now, whether circadian is active/paused/snoozed per room, and time until any snoozes expire.";

pub const GET_SYSTEM_STATUS: &'static str = "Get system health: MQTT connection status, Zigbee2MQTT online status, uptime, and counts of discovered devices/groups/rooms.";

pub const RELOAD_CONFIG: &'static str = "Trigger a config reload from disk. Validates the new config first — if invalid, keeps running with the old config.";

} // verus!
