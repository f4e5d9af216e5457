//! When a configuration is in order, and what is said of one that is not.

use vstd::prelude::*;
use vstd::utf8::encode_utf8;

use crate::config::types::{
    AppConfig, AutomationConfig, CircadianDefaults, CircadianOverride, LightCalibrationConfig,
    LightCalibrationOverride, RoomConfig, TriggerConfig,
};
use crate::names::NameMap;
use crate::schedule::{
    hm_minutes, law_accepted_schedules_have_parts, no_empty_parts, schedule_error_text,
    schedule_problem, time_error_text, validate_schedule, EmptyComposite, Schedule, ScheduleError,
    TimeError, TimeOfDay, TimeProblem,
};
use crate::state::or_else;
use crate::text::{
    begins_with, cat2, cat3, cat5, chars_of, decimal, decimal_string, signed_decimal,
    signed_decimal_string, starts_with,
};

verus! {

/// What is wrong with a configuration.
#[derive(Clone, Debug)]
pub enum ConfigError {
    SchemaVersion { version: u32 },
    RoomWithoutLights { room_id: String },
    /// Not `0x` with 18 bytes in all.
    IeeeFormat { address: String, field: String },
    /// Something else than hex digits behind `0x`.
    IeeeDigits { address: String, field: String },
    Time { problem: TimeProblem, text: String, field: String },
    ColorTemp { temp: u16, field: String },
    Schedule { composite: EmptyComposite, field: String },
    CalibrationRange { field: String, offset: i16 },
    AutomationWithoutId,
    UnknownRoom { automation: String, room: String },
    RoomWithoutMotionSensor { automation: String, room: String },
}

/// [`ConfigError`], with its texts as sequences of characters.
pub enum ConfigProblem {
    SchemaVersion { version: u32 },
    RoomWithoutLights { room_id: Seq<char> },
    IeeeFormat { address: Seq<char>, field: Seq<char> },
    IeeeDigits { address: Seq<char>, field: Seq<char> },
    Time { problem: TimeProblem, text: Seq<char>, field: Seq<char> },
    ColorTemp { temp: u16, field: Seq<char> },
    Schedule { composite: EmptyComposite, field: Seq<char> },
    CalibrationRange { field: Seq<char>, offset: i16 },
    AutomationWithoutId,
    UnknownRoom { automation: Seq<char>, room: Seq<char> },
    RoomWithoutMotionSensor { automation: Seq<char>, room: Seq<char> },
}

impl View for ConfigError {
    type V = ConfigProblem;

    open spec fn view(&self) -> ConfigProblem {
        match self {
            ConfigError::SchemaVersion { version } => ConfigProblem::SchemaVersion {
                version: *version,
            },
            ConfigError::RoomWithoutLights { room_id } => ConfigProblem::RoomWithoutLights {
                room_id: room_id@,
            },
            ConfigError::IeeeFormat { address, field } => ConfigProblem::IeeeFormat {
                address: address@,
                field: field@,
            },
            ConfigError::IeeeDigits { address, field } => ConfigProblem::IeeeDigits {
                address: address@,
                field: field@,
            },
            ConfigError::Time { problem, text, field } => ConfigProblem::Time {
                problem: *problem,
                text: text@,
                field: field@,
            },
            ConfigError::ColorTemp { temp, field } => ConfigProblem::ColorTemp {
                temp: *temp,
                field: field@,
            },
            ConfigError::Schedule { composite, field } => ConfigProblem::Schedule {
                composite: *composite,
                field: field@,
            },
            ConfigError::CalibrationRange { field, offset } => ConfigProblem::CalibrationRange {
                field: field@,
                offset: *offset,
            },
            ConfigError::AutomationWithoutId => ConfigProblem::AutomationWithoutId,
            ConfigError::UnknownRoom { automation, room } => ConfigProblem::UnknownRoom {
                automation: automation@,
                room: room@,
            },
            ConfigError::RoomWithoutMotionSensor { automation, room } =>
                ConfigProblem::RoomWithoutMotionSensor { automation: automation@, room: room@ },
        }
    }
}

/// What is said of a problem.
pub open spec fn problem_text(problem: ConfigProblem) -> Seq<char> {
    match problem {
        ConfigProblem::SchemaVersion { version } => "Unsupported schema_version: "@ + decimal(
            version as nat,
        ) + ". Expected 1."@,
        ConfigProblem::RoomWithoutLights { room_id } => "Room '"@ + room_id
            + "' must have either z2m_group or lights (or both)."@,
        ConfigProblem::IeeeFormat { address, field } => "Invalid IEEE address '"@ + address
            + "' in "@ + field + ": must be 0x followed by 16 hex digits."@,
        ConfigProblem::IeeeDigits { address, field } => "Invalid IEEE address '"@ + address
            + "' in "@ + field + ": contains non-hex characters."@,
        ConfigProblem::Time { problem, text, field } => time_error_text(problem, text) + " in "@
            + field,
        ConfigProblem::ColorTemp { temp, field } => "Invalid color temperature "@ + decimal(
            temp as nat,
        ) + " in "@ + field + ": must be 1000-10000K."@,
        ConfigProblem::Schedule { composite, field } => schedule_error_text(composite, field),
        ConfigProblem::CalibrationRange { field, offset } => field
            + " must be between -100 and 100, got "@ + signed_decimal(offset as int),
        ConfigProblem::AutomationWithoutId => "Automation must have a non-empty id."@,
        ConfigProblem::UnknownRoom { automation, room } => "Automation '"@ + automation
            + "' references unknown room '"@ + room + "'."@,
        ConfigProblem::RoomWithoutMotionSensor { automation, room } => "Automation '"@ + automation
            + "' uses motion trigger but room '"@ + room + "' has no motion_sensor."@,
    }
}

impl ConfigError {
    pub fn message(&self) -> (r: String)
        ensures
            r@ == problem_text(self@),
    {
        match self {
            ConfigError::SchemaVersion { version } => cat3(
                "Unsupported schema_version: ",
                decimal_string(*version as u64).as_str(),
                ". Expected 1.",
            ),
            ConfigError::RoomWithoutLights { room_id } => cat3(
                "Room '",
                room_id.as_str(),
                "' must have either z2m_group or lights (or both).",
            ),
            ConfigError::IeeeFormat { address, field } => cat5(
                "Invalid IEEE address '",
                address.as_str(),
                "' in ",
                field.as_str(),
                ": must be 0x followed by 16 hex digits.",
            ),
            ConfigError::IeeeDigits { address, field } => cat5(
                "Invalid IEEE address '",
                address.as_str(),
                "' in ",
                field.as_str(),
                ": contains non-hex characters.",
            ),
            ConfigError::Time { problem, text, field } => {
                let error = TimeError { problem: *problem, text: text.clone() };
                cat3(error.message().as_str(), " in ", field.as_str())
            },
            ConfigError::ColorTemp { temp, field } => cat5(
                "Invalid color temperature ",
                decimal_string(*temp as u64).as_str(),
                " in ",
                field.as_str(),
                ": must be 1000-10000K.",
            ),
            ConfigError::Schedule { composite, field } => {
                let error = ScheduleError { composite: *composite, field: field.clone() };
                error.message()
            },
            ConfigError::CalibrationRange { field, offset } => cat3(
                field.as_str(),
                " must be between -100 and 100, got ",
                signed_decimal_string(*offset as i64).as_str(),
            ),
            ConfigError::AutomationWithoutId => "Automation must have a non-empty id.".to_owned(),
            ConfigError::UnknownRoom { automation, room } => cat5(
                "Automation '",
                automation.as_str(),
                "' references unknown room '",
                room.as_str(),
                "'.",
            ),
            ConfigError::RoomWithoutMotionSensor { automation, room } => cat5(
                "Automation '",
                automation.as_str(),
                "' uses motion trigger but room '",
                room.as_str(),
                "' has no motion_sensor.",
            ),
        }
    }
}

/// The outcome of a check: nothing, or one problem.
pub open spec fn outcome(r: Result<(), ConfigError>) -> Option<ConfigProblem> {
    match r {
        Ok(()) => None,
        Err(e) => Some(e@),
    }
}

/// The same for a check that hands back the error itself.
pub open spec fn found(r: Option<ConfigError>) -> Option<ConfigProblem> {
    match r {
        None => None,
        Some(e) => Some(e@),
    }
}

/// A hexadecimal digit.
pub open spec fn is_hex(c: char) -> bool {
    ('0' <= c && c <= '9') || ('a' <= c && c <= 'f') || ('A' <= c && c <= 'F')
}

/// What is wrong with an IEEE address.
pub open spec fn ieee_problem(address: Seq<char>, field: Seq<char>) -> Option<ConfigProblem> {
    if !begins_with(address, "0x"@) || encode_utf8(address).len() != 18 {
        Some(ConfigProblem::IeeeFormat { address, field })
    } else if exists|i: int| 2 <= i < address.len() && !is_hex(#[trigger] address[i]) {
        Some(ConfigProblem::IeeeDigits { address, field })
    } else {
        None
    }
}

/// `0x` followed by 16 hex digits.
pub open spec fn is_ieee(address: Seq<char>) -> bool {
    &&& address.len() == 18
    &&& address[0] == '0'
    &&& address[1] == 'x'
    &&& forall|i: int| 2 <= i < 18 ==> is_hex(#[trigger] address[i])
}

/// An address is accepted exactly where it is `0x` followed by 16 hex digits.
pub proof fn law_accepted_addresses(address: Seq<char>, field: Seq<char>)
    ensures
        ieee_problem(address, field) is None <==> is_ieee(address),
{
    reveal_strlit("0x");
    if begins_with(address, "0x"@) && (forall|i: int|
        2 <= i < address.len() ==> is_hex(#[trigger] address[i])) {
        assert(address.take(2)[0] == '0' && address.take(2)[1] == 'x');
        assert(vstd::utf8::is_ascii_chars(address));
        vstd::utf8::is_ascii_chars_encode_utf8(address);
    }
    if is_ieee(address) {
        assert(address.take(2) =~= "0x"@);
    }
}

pub fn validate_ieee(addr: &str, field: &str) -> (r: Result<(), ConfigError>)
    ensures
        outcome(r) == ieee_problem(addr@, field@),
{
    if !starts_with(addr, "0x") || addr.as_bytes().len() != 18 {
        return Err(ConfigError::IeeeFormat { address: addr.to_owned(), field: field.to_owned() });
    }
    let chars = chars_of(addr);
    let mut i: usize = 2;
    proof {
        reveal_strlit("0x");
    }
    while i < chars.len()
        invariant
            2 <= i <= chars@.len(),
            chars@ == addr@,
            forall|j: int| 2 <= j < i ==> is_hex(#[trigger] addr@[j]),
            begins_with(addr@, "0x"@),
            encode_utf8(addr@).len() == 18,
        decreases chars.len() - i,
    {
        let c: char = chars[i];
        if !(('0' <= c && c <= '9') || ('a' <= c && c <= 'f') || ('A' <= c && c <= 'F')) {
            assert(!is_hex(addr@[i as int]));
            return Err(
                ConfigError::IeeeDigits { address: addr.to_owned(), field: field.to_owned() },
            );
        }
        i = i + 1;
    }
    Ok(())
}

/// What is wrong with a time of day.
pub open spec fn time_problem(time: Seq<char>, field: Seq<char>) -> Option<ConfigProblem> {
    match hm_minutes(time) {
        Ok(_) => None,
        Err(problem) => Some(ConfigProblem::Time { problem, text: time, field }),
    }
}

pub fn validate_time_str(time: &str, field: &str) -> (r: Result<(), ConfigError>)
    ensures
        outcome(r) == time_problem(time@, field@),
{
    match TimeOfDay::from_hm_str(time) {
        Ok(_) => Ok(()),
        Err(e) => Err(
            ConfigError::Time { problem: e.problem, text: e.text, field: field.to_owned() },
        ),
    }
}

/// What is wrong with a color temperature.
pub open spec fn color_temp_problem(temp: u16, field: Seq<char>) -> Option<ConfigProblem> {
    if 1000 <= temp <= 10000 {
        None
    } else {
        Some(ConfigProblem::ColorTemp { temp, field })
    }
}

pub fn validate_color_temp(temp: u16, field: &str) -> (r: Result<(), ConfigError>)
    ensures
        outcome(r) == color_temp_problem(temp, field@),
{
    if temp < 1000 || temp > 10000 {
        return Err(ConfigError::ColorTemp { temp, field: field.to_owned() });
    }
    Ok(())
}

/// What is wrong with a schedule.
pub open spec fn schedule_config_problem(schedule: Schedule, field: Seq<char>) -> Option<
    ConfigProblem,
> {
    match schedule_problem(schedule, field) {
        None => None,
        Some((composite, path)) => Some(ConfigProblem::Schedule { composite, field: path }),
    }
}

fn check_schedule(schedule: &Schedule, field: &str) -> (r: Option<ConfigError>)
    ensures
        found(r) == schedule_config_problem(*schedule, field@),
{
    match validate_schedule(schedule, field) {
        Ok(()) => None,
        Err(e) => Some(ConfigError::Schedule { composite: e.composite, field: e.field }),
    }
}

/// `check` of the value, where there is one.
pub open spec fn if_set<T>(
    value: Option<T>,
    check: spec_fn(T) -> Option<ConfigProblem>,
) -> Option<ConfigProblem> {
    match value {
        Some(v) => check(v),
        None => None,
    }
}

/// `rooms.<room_id>.<rest>`.
pub open spec fn room_field(room_id: Seq<char>, rest: Seq<char>) -> Seq<char> {
    "rooms."@ + room_id + rest
}

/// The first problem among the addresses from number `from` on, all in one field.
pub open spec fn lights_problem(lights: Seq<String>, field: Seq<char>, from: int) -> Option<
    ConfigProblem,
>
    decreases lights.len() - from,
{
    if from < 0 || from >= lights.len() {
        None
    } else {
        or_else(ieee_problem(lights[from]@, field), lights_problem(lights, field, from + 1))
    }
}

fn check_lights(lights: &Vec<String>, field: &str) -> (r: Option<ConfigError>)
    ensures
        found(r) == lights_problem(lights@, field@, 0),
{
    let mut i: usize = 0;
    while i < lights.len()
        invariant
            i <= lights@.len(),
            lights_problem(lights@, field@, 0) == lights_problem(lights@, field@, i as int),
        decreases lights.len() - i,
    {
        if let Err(e) = validate_ieee(lights[i].as_str(), field) {
            return Some(e);
        }
        i = i + 1;
    }
    None
}

/// The first problem among the remotes from number `from` on, each in a numbered field.
pub open spec fn remotes_problem(remotes: Seq<String>, room_id: Seq<char>, from: int) -> Option<
    ConfigProblem,
>
    decreases remotes.len() - from,
{
    if from < 0 || from >= remotes.len() {
        None
    } else {
        or_else(
            ieee_problem(
                remotes[from]@,
                "rooms."@ + room_id + ".remotes["@ + decimal(from as nat) + "]"@,
            ),
            remotes_problem(remotes, room_id, from + 1),
        )
    }
}

fn check_remotes(remotes: &Vec<String>, room_id: &str) -> (r: Option<ConfigError>)
    ensures
        found(r) == remotes_problem(remotes@, room_id@, 0),
{
    let mut i: usize = 0;
    while i < remotes.len()
        invariant
            i <= remotes@.len(),
            remotes_problem(remotes@, room_id@, 0) == remotes_problem(
                remotes@,
                room_id@,
                i as int,
            ),
        decreases remotes.len() - i,
    {
        let field: String = cat5(
            "rooms.",
            room_id,
            ".remotes[",
            decimal_string(i as u64).as_str(),
            "]",
        );
        if let Err(e) = validate_ieee(remotes[i].as_str(), field.as_str()) {
            return Some(e);
        }
        i = i + 1;
    }
    None
}

/// The first problem of a room's own circadian settings.
pub open spec fn circadian_override_problem(own: CircadianOverride, room_id: Seq<char>) -> Option<
    ConfigProblem,
> {
    or_else(
        if_set(
            own.wake_time,
            |t: String| time_problem(t@, room_field(room_id, ".circadian.wake_time"@)),
        ),
        or_else(
            if_set(
                own.sleep_time,
                |t: String| time_problem(t@, room_field(room_id, ".circadian.sleep_time"@)),
            ),
            or_else(
                if_set(
                    own.start_temp_k,
                    |t: u16| color_temp_problem(t, room_field(room_id, ".circadian.start_temp_k"@)),
                ),
                or_else(
                    if_set(
                        own.peak_temp_k,
                        |t: u16|
                            color_temp_problem(t, room_field(room_id, ".circadian.peak_temp_k"@)),
                    ),
                    if_set(
                        own.end_temp_k,
                        |t: u16|
                            color_temp_problem(t, room_field(room_id, ".circadian.end_temp_k"@)),
                    ),
                ),
            ),
        ),
    )
}

fn check_circadian_override(own: &CircadianOverride, room_id: &str) -> (r: Option<ConfigError>)
    ensures
        found(r) == circadian_override_problem(*own, room_id@),
{
    if let Some(time) = &own.wake_time {
        let field: String = cat3("rooms.", room_id, ".circadian.wake_time");
        if let Err(e) = validate_time_str(time.as_str(), field.as_str()) {
            return Some(e);
        }
    }
    if let Some(time) = &own.sleep_time {
        let field: String = cat3("rooms.", room_id, ".circadian.sleep_time");
        if let Err(e) = validate_time_str(time.as_str(), field.as_str()) {
            return Some(e);
        }
    }
    if let Some(temp) = own.start_temp_k {
        let field: String = cat3("rooms.", room_id, ".circadian.start_temp_k");
        if let Err(e) = validate_color_temp(temp, field.as_str()) {
            return Some(e);
        }
    }
    if let Some(temp) = own.peak_temp_k {
        let field: String = cat3("rooms.", room_id, ".circadian.peak_temp_k");
        if let Err(e) = validate_color_temp(temp, field.as_str()) {
            return Some(e);
        }
    }
    if let Some(temp) = own.end_temp_k {
        let field: String = cat3("rooms.", room_id, ".circadian.end_temp_k");
        if let Err(e) = validate_color_temp(temp, field.as_str()) {
            return Some(e);
        }
    }
    None
}

/// The first problem of a room.
pub open spec fn room_problem(room_id: Seq<char>, room: RoomConfig) -> Option<ConfigProblem> {
    if room.z2m_group is None && room.lights@.len() == 0 {
        Some(ConfigProblem::RoomWithoutLights { room_id })
    } else {
        or_else(
            lights_problem(room.lights@, room_field(room_id, ".lights"@), 0),
            or_else(
                if_set(
                    room.motion_sensor,
                    |s: String| ieee_problem(s@, room_field(room_id, ".motion_sensor"@)),
                ),
                or_else(
                    remotes_problem(room.remotes@, room_id, 0),
                    or_else(
                        if_set(
                            room.motion_schedule,
                            |s: Schedule|
                                schedule_config_problem(s, room_field(room_id, ".motion_schedule"@)),
                        ),
                        or_else(
                            if_set(
                                room.circadian,
                                |c: CircadianOverride| circadian_override_problem(c, room_id),
                            ),
                            if_set(
                                room.night_schedule(),
                                |s: Schedule|
                                    schedule_config_problem(
                                        s,
                                        room_field(room_id, ".night_mode.schedule"@),
                                    ),
                            ),
                        ),
                    ),
                ),
            ),
        )
    }
}

fn check_room(room_id: &str, room: &RoomConfig) -> (r: Option<ConfigError>)
    ensures
        found(r) == room_problem(room_id@, *room),
{
    if room.z2m_group.is_none() && room.lights.len() == 0 {
        return Some(ConfigError::RoomWithoutLights { room_id: room_id.to_owned() });
    }
    let lights_field: String = cat3("rooms.", room_id, ".lights");
    if let Some(e) = check_lights(&room.lights, lights_field.as_str()) {
        return Some(e);
    }
    if let Some(sensor) = &room.motion_sensor {
        let field: String = cat3("rooms.", room_id, ".motion_sensor");
        if let Err(e) = validate_ieee(sensor.as_str(), field.as_str()) {
            return Some(e);
        }
    }
    if let Some(e) = check_remotes(&room.remotes, room_id) {
        return Some(e);
    }
    if let Some(schedule) = &room.motion_schedule {
        let field: String = cat3("rooms.", room_id, ".motion_schedule");
        if let Some(e) = check_schedule(schedule, field.as_str()) {
            return Some(e);
        }
    }
    if let Some(own) = &room.circadian {
        if let Some(e) = check_circadian_override(own, room_id) {
            return Some(e);
        }
    }
    if let Some(night_mode) = &room.night_mode {
        if let Some(schedule) = &night_mode.schedule {
            let field: String = cat3("rooms.", room_id, ".night_mode.schedule");
            if let Some(e) = check_schedule(schedule, field.as_str()) {
                return Some(e);
            }
        }
    }
    None
}

/// The first problem among the rooms from number `from` on.
pub open spec fn rooms_problem(rooms: Seq<(String, RoomConfig)>, from: int) -> Option<
    ConfigProblem,
>
    decreases rooms.len() - from,
{
    if from < 0 || from >= rooms.len() {
        None
    } else {
        or_else(room_problem(rooms[from].0@, rooms[from].1), rooms_problem(rooms, from + 1))
    }
}

fn check_rooms(rooms: &NameMap<RoomConfig>) -> (r: Option<ConfigError>)
    ensures
        found(r) == rooms_problem(rooms.entries_seq(), 0),
{
    let n: usize = rooms.len();
    let mut i: usize = 0;
    while i < n
        invariant
            i <= n == rooms.entries_seq().len(),
            rooms_problem(rooms.entries_seq(), 0) == rooms_problem(
                rooms.entries_seq(),
                i as int,
            ),
        decreases n - i,
    {
        if let Some(e) = check_room(rooms.key_at(i).as_str(), rooms.value_at(i)) {
            return Some(e);
        }
        i = i + 1;
    }
    None
}

/// The first problem of the circadian defaults.
pub open spec fn circadian_defaults_problem(d: CircadianDefaults) -> Option<ConfigProblem> {
    or_else(
        time_problem(d.wake_time@, "circadian.defaults.wake_time"@),
        or_else(
            time_problem(d.sleep_time@, "circadian.defaults.sleep_time"@),
            or_else(
                color_temp_problem(d.start_temp_k, "circadian.defaults.start_temp_k"@),
                or_else(
                    color_temp_problem(d.peak_temp_k, "circadian.defaults.peak_temp_k"@),
                    color_temp_problem(d.end_temp_k, "circadian.defaults.end_temp_k"@),
                ),
            ),
        ),
    )
}

fn check_circadian_defaults(d: &CircadianDefaults) -> (r: Option<ConfigError>)
    ensures
        found(r) == circadian_defaults_problem(*d),
{
    if let Err(e) = validate_time_str(d.wake_time.as_str(), "circadian.defaults.wake_time") {
        return Some(e);
    }
    if let Err(e) = validate_time_str(d.sleep_time.as_str(), "circadian.defaults.sleep_time") {
        return Some(e);
    }
    if let Err(e) = validate_color_temp(d.start_temp_k, "circadian.defaults.start_temp_k") {
        return Some(e);
    }
    if let Err(e) = validate_color_temp(d.peak_temp_k, "circadian.defaults.peak_temp_k") {
        return Some(e);
    }
    if let Err(e) = validate_color_temp(d.end_temp_k, "circadian.defaults.end_temp_k") {
        return Some(e);
    }
    None
}

/// A calibration offset lies between -100 and 100.
pub open spec fn offset_problem(offset: i16, field: Seq<char>) -> Option<ConfigProblem> {
    if -100 <= offset <= 100 {
        None
    } else {
        Some(ConfigProblem::CalibrationRange { field, offset })
    }
}

fn check_offset(offset: i16, field: &str) -> (r: Option<ConfigError>)
    ensures
        found(r) == offset_problem(offset, field@),
{
    if offset < -100 || offset > 100 {
        Some(ConfigError::CalibrationRange { field: field.to_owned(), offset })
    } else {
        None
    }
}

/// The first problem of one lamp's calibration.
pub open spec fn override_problem(ieee: Seq<char>, own: LightCalibrationOverride) -> Option<
    ConfigProblem,
> {
    let field = "light_calibration.overrides."@ + ieee;
    or_else(
        ieee_problem(ieee, field),
        or_else(
            if_set(
                own.color_temp_offset,
                |o: i16| offset_problem(o, field + ".color_temp_offset"@),
            ),
            if_set(
                own.brightness_offset,
                |o: i16| offset_problem(o, field + ".brightness_offset"@),
            ),
        ),
    )
}

/// The first problem among the calibrated lamps from number `from` on.
pub open spec fn overrides_problem(
    overrides: Seq<(String, LightCalibrationOverride)>,
    from: int,
) -> Option<ConfigProblem>
    decreases overrides.len() - from,
{
    if from < 0 || from >= overrides.len() {
        None
    } else {
        or_else(
            override_problem(overrides[from].0@, overrides[from].1),
            overrides_problem(overrides, from + 1),
        )
    }
}

/// The first problem of the calibration section.
pub open spec fn calibration_problem(c: LightCalibrationConfig) -> Option<ConfigProblem> {
    or_else(
        offset_problem(c.rgbw_color_temp_offset, "light_calibration.rgbw_color_temp_offset"@),
        or_else(
            offset_problem(c.rgbw_brightness_offset, "light_calibration.rgbw_brightness_offset"@),
            overrides_problem(c.overrides.entries_seq(), 0),
        ),
    )
}

fn check_override(ieee: &str, own: &LightCalibrationOverride) -> (r: Option<ConfigError>)
    ensures
        found(r) == override_problem(ieee@, *own),
{
    let field: String = cat2("light_calibration.overrides.", ieee);
    if let Err(e) = validate_ieee(ieee, field.as_str()) {
        return Some(e);
    }
    if let Some(offset) = own.color_temp_offset {
        let path: String = cat2(field.as_str(), ".color_temp_offset");
        if let Some(e) = check_offset(offset, path.as_str()) {
            return Some(e);
        }
    }
    if let Some(offset) = own.brightness_offset {
        let path: String = cat2(field.as_str(), ".brightness_offset");
        if let Some(e) = check_offset(offset, path.as_str()) {
            return Some(e);
        }
    }
    None
}

fn check_calibration(c: &LightCalibrationConfig) -> (r: Option<ConfigError>)
    ensures
        found(r) == calibration_problem(*c),
{
    if let Some(e) = check_offset(
        c.rgbw_color_temp_offset,
        "light_calibration.rgbw_color_temp_offset",
    ) {
        return Some(e);
    }
    if let Some(e) = check_offset(
        c.rgbw_brightness_offset,
        "light_calibration.rgbw_brightness_offset",
    ) {
        return Some(e);
    }
    let n: usize = c.overrides.len();
    let mut i: usize = 0;
    while i < n
        invariant
            i <= n == c.overrides.entries_seq().len(),
            overrides_problem(c.overrides.entries_seq(), 0) == overrides_problem(
                c.overrides.entries_seq(),
                i as int,
            ),
            calibration_problem(*c) == overrides_problem(c.overrides.entries_seq(), 0),
        decreases n - i,
    {
        if let Some(e) = check_override(c.overrides.key_at(i).as_str(), c.overrides.value_at(i)) {
            return Some(e);
        }
        i = i + 1;
    }
    None
}

/// The first room from number `from` on that an automation names and nobody configured.
pub open spec fn unknown_room_problem(
    automation: Seq<char>,
    named: Seq<String>,
    rooms: Map<Seq<char>, RoomConfig>,
    from: int,
) -> Option<ConfigProblem>
    decreases named.len() - from,
{
    if from < 0 || from >= named.len() {
        None
    } else if !rooms.contains_key(named[from]@) {
        Some(ConfigProblem::UnknownRoom { automation, room: named[from]@ })
    } else {
        unknown_room_problem(automation, named, rooms, from + 1)
    }
}

/// The first room from number `from` on that has no motion sensor.
pub open spec fn sensorless_room_problem(
    automation: Seq<char>,
    named: Seq<String>,
    rooms: Map<Seq<char>, RoomConfig>,
    from: int,
) -> Option<ConfigProblem>
    decreases named.len() - from,
{
    if from < 0 || from >= named.len() {
        None
    } else if rooms.contains_key(named[from]@) && rooms[named[from]@].motion_sensor is None {
        Some(ConfigProblem::RoomWithoutMotionSensor { automation, room: named[from]@ })
    } else {
        sensorless_room_problem(automation, named, rooms, from + 1)
    }
}

/// The first problem of an automation.
pub open spec fn automation_problem(
    automation: AutomationConfig,
    rooms: Map<Seq<char>, RoomConfig>,
) -> Option<ConfigProblem> {
    if automation.id@.len() == 0 {
        Some(ConfigProblem::AutomationWithoutId)
    } else {
        or_else(
            unknown_room_problem(automation.id@, automation.rooms@, rooms, 0),
            or_else(
                if automation.trigger == TriggerConfig::Motion {
                    sensorless_room_problem(automation.id@, automation.rooms@, rooms, 0)
                } else {
                    None
                },
                if_set(
                    automation.schedule,
                    |s: Schedule|
                        schedule_config_problem(
                            s,
                            "automations."@ + automation.id@ + ".schedule"@,
                        ),
                ),
            ),
        )
    }
}

fn check_known_rooms(
    automation: &String,
    named: &Vec<String>,
    rooms: &NameMap<RoomConfig>,
) -> (r: Option<ConfigError>)
    ensures
        found(r) == unknown_room_problem(automation@, named@, rooms@, 0),
{
    let mut i: usize = 0;
    while i < named.len()
        invariant
            i <= named@.len(),
            unknown_room_problem(automation@, named@, rooms@, 0) == unknown_room_problem(
                automation@,
                named@,
                rooms@,
                i as int,
            ),
        decreases named.len() - i,
    {
        if !rooms.contains_key(named[i].as_str()) {
            return Some(
                ConfigError::UnknownRoom { automation: automation.clone(), room: named[i].clone() },
            );
        }
        i = i + 1;
    }
    None
}

fn check_motion_sensors(
    automation: &String,
    named: &Vec<String>,
    rooms: &NameMap<RoomConfig>,
) -> (r: Option<ConfigError>)
    ensures
        found(r) == sensorless_room_problem(automation@, named@, rooms@, 0),
{
    let mut i: usize = 0;
    while i < named.len()
        invariant
            i <= named@.len(),
            sensorless_room_problem(automation@, named@, rooms@, 0) == sensorless_room_problem(
                automation@,
                named@,
                rooms@,
                i as int,
            ),
        decreases named.len() - i,
    {
        if let Some(room) = rooms.get(named[i].as_str()) {
            if room.motion_sensor.is_none() {
                return Some(
                    ConfigError::RoomWithoutMotionSensor {
                        automation: automation.clone(),
                        room: named[i].clone(),
                    },
                );
            }
        }
        i = i + 1;
    }
    None
}

fn check_automation(automation: &AutomationConfig, rooms: &NameMap<RoomConfig>) -> (r: Option<
    ConfigError,
>)
    ensures
        found(r) == automation_problem(*automation, rooms@),
{
    if automation.id.as_str().is_empty() {
        return Some(ConfigError::AutomationWithoutId);
    }
    if let Some(e) = check_known_rooms(&automation.id, &automation.rooms, rooms) {
        return Some(e);
    }
    if automation.trigger == TriggerConfig::Motion {
        if let Some(e) = check_motion_sensors(&automation.id, &automation.rooms, rooms) {
            return Some(e);
        }
    }
    if let Some(schedule) = &automation.schedule {
        let field: String = cat3("automations.", automation.id.as_str(), ".schedule");
        if let Some(e) = check_schedule(schedule, field.as_str()) {
            return Some(e);
        }
    }
    None
}

/// The first problem among the automations from number `from` on.
pub open spec fn automations_problem(
    automations: Seq<AutomationConfig>,
    rooms: Map<Seq<char>, RoomConfig>,
    from: int,
) -> Option<ConfigProblem>
    decreases automations.len() - from,
{
    if from < 0 || from >= automations.len() {
        None
    } else {
        or_else(
            automation_problem(automations[from], rooms),
            automations_problem(automations, rooms, from + 1),
        )
    }
}

/// The first problem of a configuration: its version, its rooms, the circadian defaults, the
/// calibration, and the automations, in this order.
pub open spec fn config_problem(config: AppConfig) -> Option<ConfigProblem> {
    if config.schema_version != 1 {
        Some(ConfigProblem::SchemaVersion { version: config.schema_version })
    } else {
        or_else(
            rooms_problem(config.rooms.entries_seq(), 0),
            or_else(
                circadian_defaults_problem(config.circadian.defaults),
                or_else(
                    calibration_problem(config.light_calibration),
                    automations_problem(config.automations@, config.rooms@, 0),
                ),
            ),
        )
    }
}

/// Accepts a configuration that is in order; otherwise tells its first problem.
pub fn validate_config(config: &AppConfig) -> (r: Result<(), ConfigError>)
    ensures
        outcome(r) == config_problem(*config),
{
    if config.schema_version != 1 {
        return Err(ConfigError::SchemaVersion { version: config.schema_version });
    }
    if let Some(e) = check_rooms(&config.rooms) {
        return Err(e);
    }
    if let Some(e) = check_circadian_defaults(&config.circadian.defaults) {
        return Err(e);
    }
    if let Some(e) = check_calibration(&config.light_calibration) {
        return Err(e);
    }
    let automations = &config.automations;
    let mut i: usize = 0;
    while i < automations.len()
        invariant
            i <= automations@.len(),
            *automations == config.automations,
            automations_problem(automations@, config.rooms@, 0) == automations_problem(
                automations@,
                config.rooms@,
                i as int,
            ),
            config_problem(*config) == automations_problem(automations@, config.rooms@, 0),
        decreases automations.len() - i,
    {
        if let Some(e) = check_automation(&automations[i], &config.rooms) {
            return Err(e);
        }
        i = i + 1;
    }
    Ok(())
}

proof fn lemma_lights_in_order(lights: Seq<String>, field: Seq<char>, from: int)
    requires
        0 <= from <= lights.len(),
        lights_problem(lights, field, from) is None,
    ensures
        forall|i: int| from <= i < lights.len() ==> is_ieee((#[trigger] lights[i])@),
    decreases lights.len() - from,
{
    if from < lights.len() {
        law_accepted_addresses(lights[from]@, field);
        lemma_lights_in_order(lights, field, from + 1);
    }
}

proof fn lemma_remotes_in_order(remotes: Seq<String>, room_id: Seq<char>, from: int)
    requires
        0 <= from <= remotes.len(),
        remotes_problem(remotes, room_id, from) is None,
    ensures
        forall|i: int| from <= i < remotes.len() ==> is_ieee((#[trigger] remotes[i])@),
    decreases remotes.len() - from,
{
    if from < remotes.len() {
        law_accepted_addresses(
            remotes[from]@,
            "rooms."@ + room_id + ".remotes["@ + decimal(from as nat) + "]"@,
        );
        lemma_remotes_in_order(remotes, room_id, from + 1);
    }
}

/// A room in order: it has something to light, every address is one, its own times and color
/// temperatures are valid, and no composite in its schedules is empty.
pub open spec fn room_in_order(room: RoomConfig) -> bool {
    &&& room.z2m_group is Some || room.lights@.len() > 0
    &&& forall|i: int| 0 <= i < room.lights@.len() ==> is_ieee((#[trigger] room.lights@[i])@)
    &&& room.motion_sensor matches Some(sensor) ==> is_ieee(sensor@)
    &&& forall|i: int| 0 <= i < room.remotes@.len() ==> is_ieee((#[trigger] room.remotes@[i])@)
    &&& room.circadian matches Some(own) ==> {
        &&& own.wake_time matches Some(time) ==> hm_minutes(time@) is Ok
        &&& own.sleep_time matches Some(time) ==> hm_minutes(time@) is Ok
        &&& own.start_temp_k matches Some(temp) ==> 1000 <= temp <= 10000
        &&& own.peak_temp_k matches Some(temp) ==> 1000 <= temp <= 10000
        &&& own.end_temp_k matches Some(temp) ==> 1000 <= temp <= 10000
    }
    &&& room.motion_schedule matches Some(schedule) ==> no_empty_parts(schedule)
    &&& room.night_schedule() matches Some(schedule) ==> no_empty_parts(schedule)
}

proof fn lemma_room_in_order(room_id: Seq<char>, room: RoomConfig)
    requires
        room_problem(room_id, room) is None,
    ensures
        room_in_order(room),
{
    lemma_lights_in_order(room.lights@, room_field(room_id, ".lights"@), 0);
    lemma_remotes_in_order(room.remotes@, room_id, 0);
    if let Some(sensor) = room.motion_sensor {
        law_accepted_addresses(sensor@, room_field(room_id, ".motion_sensor"@));
    }
    if let Some(schedule) = room.motion_schedule {
        law_accepted_schedules_have_parts(schedule, room_field(room_id, ".motion_schedule"@));
    }
    if let Some(schedule) = room.night_schedule() {
        law_accepted_schedules_have_parts(schedule, room_field(room_id, ".night_mode.schedule"@));
    }
}

proof fn lemma_rooms_in_order(rooms: Seq<(String, RoomConfig)>, from: int)
    requires
        0 <= from <= rooms.len(),
        rooms_problem(rooms, from) is None,
    ensures
        forall|i: int| from <= i < rooms.len() ==> room_in_order((#[trigger] rooms[i]).1),
    decreases rooms.len() - from,
{
    if from < rooms.len() {
        lemma_room_in_order(rooms[from].0@, rooms[from].1);
        lemma_rooms_in_order(rooms, from + 1);
    }
}

/// An override in order: its address is one, and its offsets lie between -100 and 100.
pub open spec fn override_in_order(entry: (String, LightCalibrationOverride)) -> bool {
    &&& is_ieee(entry.0@)
    &&& entry.1.color_temp_offset matches Some(offset) ==> -100 <= offset <= 100
    &&& entry.1.brightness_offset matches Some(offset) ==> -100 <= offset <= 100
}

proof fn lemma_overrides_in_order(overrides: Seq<(String, LightCalibrationOverride)>, from: int)
    requires
        0 <= from <= overrides.len(),
        overrides_problem(overrides, from) is None,
    ensures
        forall|i: int| from <= i < overrides.len() ==> override_in_order(#[trigger] overrides[i]),
    decreases overrides.len() - from,
{
    if from < overrides.len() {
        law_accepted_addresses(
            overrides[from].0@,
            "light_calibration.overrides."@ + overrides[from].0@,
        );
        lemma_overrides_in_order(overrides, from + 1);
    }
}

proof fn lemma_rooms_known(
    automation: Seq<char>,
    named: Seq<String>,
    rooms: Map<Seq<char>, RoomConfig>,
    from: int,
)
    requires
        0 <= from <= named.len(),
        unknown_room_problem(automation, named, rooms, from) is None,
    ensures
        forall|i: int| from <= i < named.len() ==> rooms.contains_key((#[trigger] named[i])@),
    decreases named.len() - from,
{
    if from < named.len() {
        lemma_rooms_known(automation, named, rooms, from + 1);
    }
}

proof fn lemma_sensors_known(
    automation: Seq<char>,
    named: Seq<String>,
    rooms: Map<Seq<char>, RoomConfig>,
    from: int,
)
    requires
        0 <= from <= named.len(),
        sensorless_room_problem(automation, named, rooms, from) is None,
    ensures
        forall|i: int|
            from <= i < named.len() && rooms.contains_key((#[trigger] named[i])@)
                ==> rooms[named[i]@].motion_sensor is Some,
    decreases named.len() - from,
{
    if from < named.len() {
        lemma_sensors_known(automation, named, rooms, from + 1);
    }
}

/// An automation in order: it has an id, its rooms are configured, with a motion trigger they have a
/// motion sensor, and no composite in its schedule is empty.
pub open spec fn automation_in_order(
    automation: AutomationConfig,
    rooms: Map<Seq<char>, RoomConfig>,
) -> bool {
    &&& automation.id@.len() > 0
    &&& forall|i: int|
        0 <= i < automation.rooms@.len() ==> rooms.contains_key(
            (#[trigger] automation.rooms@[i])@,
        )
    &&& automation.trigger == TriggerConfig::Motion ==> forall|i: int|
        0 <= i < automation.rooms@.len() ==> rooms[(
        #[trigger] automation.rooms@[i])@].motion_sensor is Some
    &&& automation.schedule matches Some(schedule) ==> no_empty_parts(schedule)
}

proof fn lemma_automations_in_order(
    automations: Seq<AutomationConfig>,
    rooms: Map<Seq<char>, RoomConfig>,
    from: int,
)
    requires
        0 <= from <= automations.len(),
        automations_problem(automations, rooms, from) is None,
    ensures
        forall|i: int|
            from <= i < automations.len() ==> automation_in_order(
                #[trigger] automations[i],
                rooms,
            ),
    decreases automations.len() - from,
{
    if from < automations.len() {
        let a = automations[from];
        assert(automation_problem(a, rooms) is None);
        lemma_rooms_known(a.id@, a.rooms@, rooms, 0);
        if a.trigger == TriggerConfig::Motion {
            lemma_sensors_known(a.id@, a.rooms@, rooms, 0);
        }
        if let Some(schedule) = a.schedule {
            law_accepted_schedules_have_parts(schedule, "automations."@ + a.id@ + ".schedule"@);
        }
        lemma_automations_in_order(automations, rooms, from + 1);
    }
}

/// A configuration that is accepted holds no dangling reference, no malformed address or time, no
/// value out of range, and no empty composite in a schedule.
pub proof fn law_accepted_configurations_are_in_order(config: AppConfig)
    requires
        config_problem(config) is None,
    ensures
        config.schema_version == 1,
        forall|i: int|
            0 <= i < config.rooms.entries_seq().len() ==> room_in_order(
                (#[trigger] config.rooms.entries_seq()[i]).1,
            ),
        hm_minutes(config.circadian.defaults.wake_time@) is Ok,
        hm_minutes(config.circadian.defaults.sleep_time@) is Ok,
        1000 <= config.circadian.defaults.start_temp_k <= 10000,
        1000 <= config.circadian.defaults.peak_temp_k <= 10000,
        1000 <= config.circadian.defaults.end_temp_k <= 10000,
        -100 <= config.light_calibration.rgbw_color_temp_offset <= 100,
        -100 <= config.light_calibration.rgbw_brightness_offset <= 100,
        forall|i: int|
            0 <= i < config.light_calibration.overrides.entries_seq().len() ==> override_in_order(
                #[trigger] config.light_calibration.overrides.entries_seq()[i],
            ),
        forall|i: int|
            0 <= i < config.automations@.len() ==> automation_in_order(
                #[trigger] config.automations@[i],
                config.rooms@,
            ),
{
    lemma_rooms_in_order(config.rooms.entries_seq(), 0);
    lemma_overrides_in_order(config.light_calibration.overrides.entries_seq(), 0);
    lemma_automations_in_order(config.automations@, config.rooms@, 0);
}

proof fn lemma_orderly_lights(lights: Seq<String>, field: Seq<char>, from: int)
    requires
        0 <= from <= lights.len(),
        forall|i: int| from <= i < lights.len() ==> is_ieee((#[trigger] lights[i])@),
    ensures
        lights_problem(lights, field, from) is None,
    decreases lights.len() - from,
{
    if from < lights.len() {
        law_accepted_addresses(lights[from]@, field);
        lemma_orderly_lights(lights, field, from + 1);
    }
}

proof fn lemma_orderly_remotes(remotes: Seq<String>, room_id: Seq<char>, from: int)
    requires
        0 <= from <= remotes.len(),
        forall|i: int| from <= i < remotes.len() ==> is_ieee((#[trigger] remotes[i])@),
    ensures
        remotes_problem(remotes, room_id, from) is None,
    decreases remotes.len() - from,
{
    if from < remotes.len() {
        law_accepted_addresses(
            remotes[from]@,
            "rooms."@ + room_id + ".remotes["@ + decimal(from as nat) + "]"@,
        );
        lemma_orderly_remotes(remotes, room_id, from + 1);
    }
}

proof fn lemma_orderly_rooms(rooms: Seq<(String, RoomConfig)>, from: int)
    requires
        0 <= from <= rooms.len(),
        forall|i: int| from <= i < rooms.len() ==> room_in_order((#[trigger] rooms[i]).1),
    ensures
        rooms_problem(rooms, from) is None,
    decreases rooms.len() - from,
{
    if from < rooms.len() {
        let room_id = rooms[from].0@;
        let room = rooms[from].1;
        lemma_orderly_lights(room.lights@, room_field(room_id, ".lights"@), 0);
        lemma_orderly_remotes(room.remotes@, room_id, 0);
        if let Some(sensor) = room.motion_sensor {
            law_accepted_addresses(sensor@, room_field(room_id, ".motion_sensor"@));
        }
        if let Some(schedule) = room.motion_schedule {
            law_accepted_schedules_have_parts(schedule, room_field(room_id, ".motion_schedule"@));
        }
        if let Some(schedule) = room.night_schedule() {
            law_accepted_schedules_have_parts(
                schedule,
                room_field(room_id, ".night_mode.schedule"@),
            );
        }
        assert(room_problem(room_id, room) is None);
        lemma_orderly_rooms(rooms, from + 1);
    }
}

proof fn lemma_orderly_overrides(overrides: Seq<(String, LightCalibrationOverride)>, from: int)
    requires
        0 <= from <= overrides.len(),
        forall|i: int| from <= i < overrides.len() ==> override_in_order(#[trigger] overrides[i]),
    ensures
        overrides_problem(overrides, from) is None,
    decreases overrides.len() - from,
{
    if from < overrides.len() {
        law_accepted_addresses(
            overrides[from].0@,
            "light_calibration.overrides."@ + overrides[from].0@,
        );
        assert(override_in_order(overrides[from]));
        lemma_orderly_overrides(overrides, from + 1);
    }
}

proof fn lemma_orderly_names(
    automation: Seq<char>,
    named: Seq<String>,
    rooms: Map<Seq<char>, RoomConfig>,
    from: int,
)
    requires
        0 <= from <= named.len(),
        forall|i: int| 0 <= i < named.len() ==> rooms.contains_key((#[trigger] named[i])@),
    ensures
        unknown_room_problem(automation, named, rooms, from) is None,
        (forall|i: int|
            0 <= i < named.len() ==> rooms[(#[trigger] named[i])@].motion_sensor is Some)
            ==> sensorless_room_problem(automation, named, rooms, from) is None,
    decreases named.len() - from,
{
    if from < named.len() {
        lemma_orderly_names(automation, named, rooms, from + 1);
        assert(rooms.contains_key(named[from]@));
    }
}

proof fn lemma_orderly_automations(
    automations: Seq<AutomationConfig>,
    rooms: Map<Seq<char>, RoomConfig>,
    from: int,
)
    requires
        0 <= from <= automations.len(),
        forall|i: int|
            from <= i < automations.len() ==> automation_in_order(#[trigger] automations[i], rooms),
    ensures
        automations_problem(automations, rooms, from) is None,
    decreases automations.len() - from,
{
    if from < automations.len() {
        let a = automations[from];
        lemma_orderly_names(a.id@, a.rooms@, rooms, 0);
        if let Some(schedule) = a.schedule {
            law_accepted_schedules_have_parts(schedule, "automations."@ + a.id@ + ".schedule"@);
        }
        lemma_orderly_automations(automations, rooms, from + 1);
    }
}

/// A configuration that is in order is accepted.
pub proof fn law_orderly_configurations_are_accepted(config: AppConfig)
    requires
        config.schema_version == 1,
        forall|i: int|
            0 <= i < config.rooms.entries_seq().len() ==> room_in_order(
                (#[trigger] config.rooms.entries_seq()[i]).1,
            ),
        hm_minutes(config.circadian.defaults.wake_time@) is Ok,
        hm_minutes(config.circadian.defaults.sleep_time@) is Ok,
        1000 <= config.circadian.defaults.start_temp_k <= 10000,
        1000 <= config.circadian.defaults.peak_temp_k <= 10000,
        1000 <= config.circadian.defaults.end_temp_k <= 10000,
        -100 <= config.light_calibration.rgbw_color_temp_offset <= 100,
        -100 <= config.light_calibration.rgbw_brightness_offset <= 100,
        forall|i: int|
            0 <= i < config.light_calibration.overrides.entries_seq().len() ==> override_in_order(
                #[trigger] config.light_calibration.overrides.entries_seq()[i],
            ),
        forall|i: int|
            0 <= i < config.automations@.len() ==> automation_in_order(
                #[trigger] config.automations@[i],
                config.rooms@,
            ),
    ensures
        config_problem(config) is None,
{
    lemma_orderly_rooms(config.rooms.entries_seq(), 0);
    lemma_orderly_overrides(config.light_calibration.overrides.entries_seq(), 0);
    lemma_orderly_automations(config.automations@, config.rooms@, 0);
}

/// What a problem speaks of is really wrong.
pub open spec fn is_real(problem: ConfigProblem, config: AppConfig) -> bool {
    match problem {
        ConfigProblem::SchemaVersion { version } => version == config.schema_version && version
            != 1,
        ConfigProblem::RoomWithoutLights { room_id } => exists|i: int|
            0 <= i < config.rooms.entries_seq().len() && (
            #[trigger] config.rooms.entries_seq()[i]).0@ == room_id
                && config.rooms.entries_seq()[i].1.z2m_group is None
                && config.rooms.entries_seq()[i].1.lights@.len() == 0,
        ConfigProblem::IeeeFormat { address, field } => !is_ieee(address),
        ConfigProblem::IeeeDigits { address, field } => !is_ieee(address),
        ConfigProblem::Time { problem, text, field } => hm_minutes(text) == Err::<nat, TimeProblem>(
            problem,
        ),
        ConfigProblem::ColorTemp { temp, field } => temp < 1000 || temp > 10000,
        ConfigProblem::Schedule { composite, field } => true,
        ConfigProblem::CalibrationRange { field, offset } => offset < -100 || offset > 100,
        ConfigProblem::AutomationWithoutId => exists|i: int|
            0 <= i < config.automations@.len() && (#[trigger] config.automations@[i]).id@.len()
                == 0,
        ConfigProblem::UnknownRoom { automation, room } => !config.rooms@.contains_key(room),
        ConfigProblem::RoomWithoutMotionSensor { automation, room } => config.rooms@.contains_key(
            room,
        ) && config.rooms@[room].motion_sensor is None,
    }
}

proof fn lemma_real_addresses(
    lights: Seq<String>,
    field: Seq<char>,
    room_id: Seq<char>,
    from: int,
    config: AppConfig,
)
    requires
        0 <= from <= lights.len(),
    ensures
        lights_problem(lights, field, from) matches Some(p) ==> is_real(p, config),
        remotes_problem(lights, room_id, from) matches Some(p) ==> is_real(p, config),
    decreases lights.len() - from,
{
    if from < lights.len() {
        law_accepted_addresses(lights[from]@, field);
        law_accepted_addresses(
            lights[from]@,
            "rooms."@ + room_id + ".remotes["@ + decimal(from as nat) + "]"@,
        );
        lemma_real_addresses(lights, field, room_id, from + 1, config);
    }
}

proof fn lemma_real_rooms(config: AppConfig, from: int)
    requires
        0 <= from <= config.rooms.entries_seq().len(),
    ensures
        rooms_problem(config.rooms.entries_seq(), from) matches Some(p) ==> is_real(p, config),
    decreases config.rooms.entries_seq().len() - from,
{
    let rooms = config.rooms.entries_seq();
    if from < rooms.len() {
        let room_id = rooms[from].0@;
        let room = rooms[from].1;
        lemma_real_addresses(room.lights@, room_field(room_id, ".lights"@), room_id, 0, config);
        lemma_real_addresses(room.remotes@, room_field(room_id, ".lights"@), room_id, 0, config);
        if let Some(sensor) = room.motion_sensor {
            law_accepted_addresses(sensor@, room_field(room_id, ".motion_sensor"@));
        }
        assert(room_problem(room_id, room) matches Some(p) ==> is_real(p, config));
        lemma_real_rooms(config, from + 1);
    }
}

proof fn lemma_real_overrides(config: AppConfig, from: int)
    requires
        0 <= from <= config.light_calibration.overrides.entries_seq().len(),
    ensures
        overrides_problem(
            config.light_calibration.overrides.entries_seq(),
            from,
        ) matches Some(p) ==> is_real(p, config),
    decreases config.light_calibration.overrides.entries_seq().len() - from,
{
    let overrides = config.light_calibration.overrides.entries_seq();
    if from < overrides.len() {
        law_accepted_addresses(
            overrides[from].0@,
            "light_calibration.overrides."@ + overrides[from].0@,
        );
        lemma_real_overrides(config, from + 1);
    }
}

proof fn lemma_real_names(
    automation: Seq<char>,
    named: Seq<String>,
    config: AppConfig,
    from: int,
)
    requires
        0 <= from <= named.len(),
    ensures
        unknown_room_problem(automation, named, config.rooms@, from) matches Some(p) ==> is_real(
            p,
            config,
        ),
        sensorless_room_problem(automation, named, config.rooms@, from) matches Some(p) ==> is_real(
            p,
            config,
        ),
    decreases named.len() - from,
{
    if from < named.len() {
        lemma_real_names(automation, named, config, from + 1);
    }
}

proof fn lemma_real_automations(config: AppConfig, from: int)
    requires
        0 <= from <= config.automations@.len(),
    ensures
        automations_problem(config.automations@, config.rooms@, from) matches Some(p) ==> is_real(
            p,
            config,
        ),
    decreases config.automations@.len() - from,
{
    if from < config.automations@.len() {
        let a = config.automations@[from];
        lemma_real_names(a.id@, a.rooms@, config, 0);
        lemma_real_automations(config, from + 1);
    }
}

/// A configuration is refused only for something that is really wrong with it.
pub proof fn law_refusals_have_a_reason(config: AppConfig)
    ensures
        config_problem(config) matches Some(problem) ==> is_real(problem, config),
{
    lemma_real_rooms(config, 0);
    lemma_real_overrides(config, 0);
    lemma_real_automations(config, 0);
}

} // verus!
