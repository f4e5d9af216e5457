//! From events to tasks: built-in motion and remote handling, and the automations of the
//! configuration.

use vstd::prelude::*;

use crate::automation::action::{action_effects, execute_action};
use crate::automation::condition::{all_hold, condition_holds, evaluate_all};
use crate::automation::remote::{classify_remote_action, remote_action, RemoteActionType};
use crate::automation::trigger::{matches_trigger, triggers};
use crate::circadian::engine::{contains_light, lists_light};
use crate::config::defaults::pick;
use crate::config::types::{
    ActionConfig, AppConfig, AutomationConfig, ConditionConfig, RoomConfig, TriggerConfig,
};
use crate::effect::{lemma_in_either, updates, Effect, LightCommand, Plan};
use crate::event::{Event, Illuminance};
use crate::names::NameMap;
use crate::naming::{lowercase, to_lowercase};
use crate::schedule::{LocalNow, Schedule};
use crate::state::{RoomStateUpdate, SystemState, UpdateSource};

verus! {

#[derive(Clone, Copy, Debug, PartialEq, Eq, Structural)]
pub enum AutomationState {
    Running,
    Disabled,
    Faulted,
}

/// An automation of the configuration and whether it runs.
#[derive(Clone, Copy, Debug)]
pub struct AutomationInfo<'a> {
    pub config: &'a AutomationConfig,
    pub state: AutomationState,
}

/// Something to be done in a room, apart from the engine. `S` is the type of its texts.
#[derive(Clone, Debug)]
pub enum Task<S = String> {
    /// Call off the pending motion-off timer, if there is one.
    CancelMotionOff { room_id: S },
    /// Wait, then run [`motion_off_action`], unless called off.
    ScheduleMotionOff { room_id: S, after_secs: u64 },
    /// Run an action, then the action that follows it.
    Run { room_id: S, action: ActionConfig, off_action: Option<ActionConfig> },
    /// Set the brightness by hand.
    SetBrightness { room_id: S, brightness: u8 },
    /// Dim step by step until called off; replaces dimming that is under way.
    StartDimming { room_id: S, up: bool },
    /// Call off dimming, if it is under way.
    StopDimming { room_id: S },
    ActivateNightMode { room_id: S },
    DeactivateNightMode { room_id: S },
}

impl View for Task<String> {
    type V = Task<Seq<char>>;

    open spec fn view(&self) -> Task<Seq<char>> {
        match self {
            Task::CancelMotionOff { room_id } => Task::CancelMotionOff { room_id: room_id@ },
            Task::ScheduleMotionOff { room_id, after_secs } => Task::ScheduleMotionOff {
                room_id: room_id@,
                after_secs: *after_secs,
            },
            Task::Run { room_id, action, off_action } => Task::Run {
                room_id: room_id@,
                action: *action,
                off_action: *off_action,
            },
            Task::SetBrightness { room_id, brightness } => Task::SetBrightness {
                room_id: room_id@,
                brightness: *brightness,
            },
            Task::StartDimming { room_id, up } => Task::StartDimming { room_id: room_id@, up: *up },
            Task::StopDimming { room_id } => Task::StopDimming { room_id: room_id@ },
            Task::ActivateNightMode { room_id } => Task::ActivateNightMode { room_id: room_id@ },
            Task::DeactivateNightMode { room_id } => Task::DeactivateNightMode { room_id: room_id@ },
        }
    }
}

/// The views of several tasks.
pub open spec fn task_views(tasks: Seq<Task>) -> Seq<Task<Seq<char>>> {
    tasks.map_values(|t: Task| t@)
}

/// The views of several texts.
pub open spec fn text_views(texts: Seq<String>) -> Seq<Seq<char>> {
    texts.map_values(|s: String| s@)
}

fn add_task(tasks: &mut Vec<Task>, task: Task)
    ensures
        task_views(final(tasks)@) == task_views(old(tasks)@).push(task@),
{
    tasks.push(task);
    assert(task_views(tasks@) =~= task_views(old(tasks)@).push(task@));
}

/// Gives every automation of the configuration to the engine, running. Where two share an id, the
/// later one counts.
pub open spec fn loaded(automations: Seq<AutomationConfig>, n: int) -> Map<
    Seq<char>,
    (AutomationConfig, AutomationState),
>
    decreases n,
{
    if n <= 0 {
        Map::empty()
    } else {
        loaded(automations, n - 1).insert(
            automations[n - 1].id@,
            (automations[n - 1], AutomationState::Running),
        )
    }
}

/// What the engine holds of its automations.
pub open spec fn held(automations: NameMap<AutomationInfo>) -> Map<
    Seq<char>,
    (AutomationConfig, AutomationState),
> {
    automations@.map_values(|info: AutomationInfo| (*info.config, info.state))
}

pub fn load_automations<'a>(config: &'a AppConfig) -> (r: NameMap<AutomationInfo<'a>>)
    ensures
        held(r) == loaded(config.automations@, config.automations@.len() as int),
{
    let mut automations: NameMap<AutomationInfo<'a>> = NameMap::new();
    assert(held(automations) =~= loaded(config.automations@, 0));
    let mut i: usize = 0;
    while i < config.automations.len()
        invariant
            i <= config.automations@.len(),
            held(automations) == loaded(config.automations@, i as int),
        decreases config.automations.len() - i,
    {
        let ghost before = automations;
        let automation = &config.automations[i];
        automations.insert(
            automation.id.clone(),
            AutomationInfo { config: automation, state: AutomationState::Running },
        );
        i = i + 1;
        assert(held(automations) =~= held(before).insert(
            automation.id@,
            (*automation, AutomationState::Running),
        ));
    }
    automations
}

/// A schedule lets an event pass where there is none, and where it holds.
pub open spec fn passes(schedule: Option<Schedule>, local: LocalNow) -> bool {
    match schedule {
        Some(s) => s.holds(local),
        None => true,
    }
}

fn schedule_passes(schedule: &Option<Schedule>, local: &LocalNow) -> (r: bool)
    ensures
        r == passes(*schedule, *local),
{
    match schedule {
        Some(s) => s.matches(local),
        None => true,
    }
}

/// The sensor says that there is enough light already.
pub open spec fn bright_enough(illuminance: Option<Illuminance>, threshold: u16) -> bool {
    match illuminance {
        Some(Illuminance::AboveThreshold(above)) => above,
        Some(Illuminance::Lux(lux)) => lux >= threshold,
        None => false,
    }
}

/// The illuminance gate keeps a room's lights off. A gate that only logs keeps nothing off.
pub open spec fn gated(config: AppConfig, room: RoomConfig, illuminance: Option<Illuminance>) -> bool {
    room.illuminance_gate && !room.illuminance_log_only && bright_enough(
        illuminance,
        pick(room.illuminance_threshold, config.general.illuminance_threshold),
    )
}

fn is_gated(config: &AppConfig, room_config: &RoomConfig, illuminance: Option<Illuminance>) -> (r:
    bool)
    ensures
        r == gated(*config, *room_config, illuminance),
{
    if !room_config.illuminance_gate || room_config.illuminance_log_only {
        return false;
    }
    let threshold: u16 = room_config.effective_illuminance_threshold(
        config.general.illuminance_threshold,
    );
    match illuminance {
        Some(Illuminance::AboveThreshold(above)) => above,
        Some(Illuminance::Lux(lux)) => lux >= threshold,
        None => false,
    }
}

/// The room's lights are known to be on.
pub open spec fn is_lit(state: SystemState, id: Seq<char>) -> bool {
    state.rooms@.contains_key(id) && state.rooms@[id].lights_on
}

/// The room is known to be in night mode.
pub open spec fn is_night(state: SystemState, id: Seq<char>) -> bool {
    state.rooms@.contains_key(id) && state.rooms@[id].night_mode_active
}

pub fn lights_on(state: &SystemState, room_id: &str) -> (r: bool)
    ensures
        r == is_lit(*state, room_id@),
{
    match state.rooms.get(room_id) {
        Some(rs) => rs.lights_on,
        None => false,
    }
}

pub fn night_mode_active(state: &SystemState, room_id: &str) -> (r: bool)
    ensures
        r == is_night(*state, room_id@),
{
    match state.rooms.get(room_id) {
        Some(rs) => rs.night_mode_active,
        None => false,
    }
}

/// How motion turns a dark room's lights on: with the night mode values at night, with the curve's
/// otherwise.
pub open spec fn motion_action(config: AppConfig, room: RoomConfig, night: bool) -> ActionConfig {
    if night {
        ActionConfig::LightsOn {
            use_circadian: false,
            brightness: Some(room.night_values(config.night_mode.defaults).brightness),
            color_temp_k: Some(room.night_values(config.night_mode.defaults).color_temp_k),
            transition: Some(1),
        }
    } else {
        ActionConfig::LightsOn {
            use_circadian: true,
            brightness: None,
            color_temp_k: None,
            transition: None,
        }
    }
}

/// How long a room stays lit without motion.
pub open spec fn clear_timeout(config: AppConfig, room: RoomConfig, night: bool) -> u64 {
    if night {
        room.night_values(config.night_mode.defaults).motion_timeout_secs
    } else {
        pick(room.motion_timeout_secs, config.general.motion_timeout_secs)
    }
}

/// The sensor is the one of this room.
pub open spec fn is_sensor_of(room: RoomConfig, sensor: Seq<char>) -> bool {
    room.motion_sensor matches Some(own) && own@ == sensor
}

/// What a room does by itself about motion; nothing where the event does not concern it or a gate
/// holds it back. Motion calls the pending timer off and lights a dark room; the end of motion
/// starts the timer anew.
pub open spec fn motion_response(
    config: AppConfig,
    state: SystemState,
    local: LocalNow,
    event: Event<Seq<char>>,
    id: Seq<char>,
    room: RoomConfig,
) -> Option<Seq<Task<Seq<char>>>> {
    match event {
        Event::MotionDetected { room_id, sensor_ieee, illuminance } => if !is_sensor_of(
            room,
            sensor_ieee,
        ) || !passes(room.motion_schedule, local) || gated(config, room, illuminance) {
            None
        } else if is_lit(state, id) {
            Some(seq![Task::CancelMotionOff { room_id: id }])
        } else {
            Some(
                seq![
                    Task::CancelMotionOff { room_id: id },
                    Task::Run {
                        room_id: id,
                        action: motion_action(config, room, is_night(state, id)),
                        off_action: None,
                    },
                ],
            )
        },
        Event::MotionCleared { room_id, sensor_ieee } => if !is_sensor_of(room, sensor_ieee)
            || !passes(room.motion_schedule, local) {
            None
        } else {
            Some(
                seq![
                    Task::CancelMotionOff { room_id: id },
                    Task::ScheduleMotionOff {
                        room_id: id,
                        after_secs: clear_timeout(config, room, is_night(state, id)),
                    },
                ],
            )
        },
        _ => None,
    }
}

/// What the first `n` rooms do by themselves about motion.
pub open spec fn motion_tasks(
    config: AppConfig,
    state: SystemState,
    local: LocalNow,
    event: Event<Seq<char>>,
    n: int,
) -> Seq<Task<Seq<char>>>
    decreases n,
{
    if n <= 0 {
        Seq::empty()
    } else {
        let (id, room) = config.rooms.entries_seq()[n - 1];
        let rest = motion_tasks(config, state, local, event, n - 1);
        match motion_response(config, state, local, event, id@, room) {
            Some(tasks) => rest + tasks,
            None => rest,
        }
    }
}

/// The rooms among the first `n` that do something by themselves about motion.
pub open spec fn motion_handled(
    config: AppConfig,
    state: SystemState,
    local: LocalNow,
    event: Event<Seq<char>>,
    n: int,
) -> Seq<Seq<char>>
    decreases n,
{
    if n <= 0 {
        Seq::empty()
    } else {
        let (id, room) = config.rooms.entries_seq()[n - 1];
        let rest = motion_handled(config, state, local, event, n - 1);
        match motion_response(config, state, local, event, id@, room) {
            Some(tasks) => rest.push(id@),
            None => rest,
        }
    }
}

fn room_has_sensor(room_config: &RoomConfig, sensor_ieee: &String) -> (r: bool)
    ensures
        r == is_sensor_of(*room_config, sensor_ieee@),
{
    match &room_config.motion_sensor {
        Some(own) => *own == *sensor_ieee,
        None => false,
    }
}

fn respond_to_motion(
    config: &AppConfig,
    state: &SystemState,
    local: &LocalNow,
    event: &Event,
    room_id: &String,
    room_config: &RoomConfig,
    tasks: &mut Vec<Task>,
) -> (handled: bool)
    ensures
        handled == motion_response(
            *config,
            *state,
            *local,
            event@,
            room_id@,
            *room_config,
        ) is Some,
        match motion_response(*config, *state, *local, event@, room_id@, *room_config) {
            Some(own) => task_views(final(tasks)@) == task_views(old(tasks)@) + own,
            None => final(tasks)@ == old(tasks)@,
        },
{
    let ghost before = task_views(tasks@);
    match event {
        Event::MotionDetected { room_id: _, sensor_ieee, illuminance } => {
            if !room_has_sensor(room_config, sensor_ieee) || !schedule_passes(
                &room_config.motion_schedule,
                local,
            ) || is_gated(config, room_config, *illuminance) {
                return false;
            }
            add_task(tasks, Task::CancelMotionOff { room_id: room_id.clone() });
            if !lights_on(state, room_id.as_str()) {
                let action: ActionConfig = if night_mode_active(state, room_id.as_str()) {
                    let enm = room_config.effective_night_mode(&config.night_mode.defaults);
                    ActionConfig::LightsOn {
                        use_circadian: false,
                        brightness: Some(enm.brightness),
                        color_temp_k: Some(enm.color_temp_k),
                        transition: Some(1),
                    }
                } else {
                    ActionConfig::LightsOn {
                        use_circadian: true,
                        brightness: None,
                        color_temp_k: None,
                        transition: None,
                    }
                };
                add_task(tasks, Task::Run { room_id: room_id.clone(), action, off_action: None });
            }
            assert(task_views(tasks@) =~= before + motion_response(
                *config,
                *state,
                *local,
                event@,
                room_id@,
                *room_config,
            )->0);
            true
        },
        Event::MotionCleared { room_id: _, sensor_ieee } => {
            if !room_has_sensor(room_config, sensor_ieee) || !schedule_passes(
                &room_config.motion_schedule,
                local,
            ) {
                return false;
            }
            let after_secs: u64 = if night_mode_active(state, room_id.as_str()) {
                room_config.effective_night_mode(&config.night_mode.defaults).motion_timeout_secs
            } else {
                room_config.motion_timeout_secs.unwrap_or(config.general.motion_timeout_secs)
            };
            add_task(tasks, Task::CancelMotionOff { room_id: room_id.clone() });
            add_task(tasks, Task::ScheduleMotionOff { room_id: room_id.clone(), after_secs });
            assert(task_views(tasks@) =~= before + motion_response(
                *config,
                *state,
                *local,
                event@,
                room_id@,
                *room_config,
            )->0);
            true
        },
        _ => false,
    }
}

/// Handle built-in motion for rooms with a motion sensor. Returns the rooms that were handled, so
/// that the automations of the configuration can skip them.
pub fn handle_builtin_motion(
    config: &AppConfig,
    state: &SystemState,
    local: &LocalNow,
    event: &Event,
    tasks: &mut Vec<Task>,
) -> (handled: Vec<String>)
    ensures
        task_views(final(tasks)@) == task_views(old(tasks)@) + motion_tasks(
            *config,
            *state,
            *local,
            event@,
            config.rooms.entries_seq().len() as int,
        ),
        text_views(handled@) == motion_handled(
            *config,
            *state,
            *local,
            event@,
            config.rooms.entries_seq().len() as int,
        ),
{
    let mut handled: Vec<String> = Vec::new();
    let ghost before = task_views(tasks@);
    let n: usize = config.rooms.len();
    let mut i: usize = 0;
    assert(task_views(tasks@) =~= before + Seq::<Task<Seq<char>>>::empty());
    assert(text_views(handled@) =~= Seq::<Seq<char>>::empty());
    while i < n
        invariant
            i <= n == config.rooms.entries_seq().len(),
            task_views(tasks@) == before + motion_tasks(
                *config,
                *state,
                *local,
                event@,
                i as int,
            ),
            text_views(handled@) == motion_handled(*config, *state, *local, event@, i as int),
        decreases n - i,
    {
        let room_id = config.rooms.key_at(i);
        let room_config = config.rooms.value_at(i);
        let ghost done = handled@;
        if respond_to_motion(config, state, local, event, room_id, room_config, tasks) {
            handled.push(room_id.clone());
            assert(text_views(handled@) =~= text_views(done).push(room_id@));
        }
        i = i + 1;
        assert(task_views(tasks@) =~= before + motion_tasks(
            *config,
            *state,
            *local,
            event@,
            i as int,
        ));
    }
    handled
}

/// The brightness one step up or down, between 1 and 254.
pub open spec fn stepped(current: u8, step: u8, up: bool) -> u8 {
    if up {
        if current + step > 254 {
            254
        } else {
            (current + step) as u8
        }
    } else {
        if current - step < 1 {
            1
        } else {
            (current - step) as u8
        }
    }
}

fn step_from(current: u8, step: u8, up: bool) -> (r: u8)
    ensures
        r == stepped(current, step, up),
{
    if up {
        let sum: u8 = current.saturating_add(step);
        if sum > 254 {
            254
        } else {
            sum
        }
    } else {
        let difference: u8 = current.saturating_sub(step);
        if difference < 1 {
            1
        } else {
            difference
        }
    }
}

/// A step stays between 1 and 254, and moves as asked until it gets there.
pub proof fn law_steps_stay_in_range(current: u8, step: u8)
    requires
        step > 0,
    ensures
        1 <= stepped(current, step, true) <= 254,
        1 <= stepped(current, step, false) <= 254,
        current < 254 ==> stepped(current, step, true) > current,
        current > 1 ==> stepped(current, step, false) < current,
        stepped(254, step, true) == 254,
        stepped(1, step, false) == 1,
{
}

/// The brightness that a room is taken to have.
pub open spec fn known_brightness(state: SystemState, id: Seq<char>) -> u8 {
    match state.rooms.lookup(id) {
        Some(rs) => pick(rs.current_brightness, 128),
        None => 128,
    }
}

fn brightness_of(state: &SystemState, room_id: &str) -> (r: u8)
    ensures
        r == known_brightness(*state, room_id@),
{
    match state.rooms.get(room_id) {
        Some(rs) => rs.current_brightness.unwrap_or(128),
        None => 128,
    }
}

/// Lights on along the curve, with a transition of one second.
pub open spec fn remote_on() -> ActionConfig {
    ActionConfig::LightsOn {
        use_circadian: true,
        brightness: None,
        color_temp_k: None,
        transition: Some(1),
    }
}

/// Lights off, with a transition of one second.
pub open spec fn remote_off() -> ActionConfig {
    ActionConfig::LightsOff { delay_secs: 0, transition: Some(1) }
}

/// What a room does about a button. Brightness buttons do nothing while the lights are off, and an
/// on button nothing while they are on.
pub open spec fn remote_response(
    config: AppConfig,
    state: SystemState,
    id: Seq<char>,
    button: RemoteActionType,
) -> Seq<Task<Seq<char>>> {
    let lit = is_lit(state, id);
    let step = config.general.remote_brightness_step;
    let current = known_brightness(state, id);
    match button {
        RemoteActionType::Toggle => seq![
            Task::Run {
                room_id: id,
                action: if lit {
                    remote_off()
                } else {
                    remote_on()
                },
                off_action: None,
            },
        ],
        RemoteActionType::On => if lit {
            Seq::empty()
        } else {
            seq![Task::Run { room_id: id, action: remote_on(), off_action: None }]
        },
        RemoteActionType::Off => seq![
            Task::Run { room_id: id, action: remote_off(), off_action: None },
        ],
        RemoteActionType::BrightnessUpStep => if lit {
            seq![Task::SetBrightness { room_id: id, brightness: stepped(current, step, true) }]
        } else {
            Seq::empty()
        },
        RemoteActionType::BrightnessDownStep => if lit {
            seq![Task::SetBrightness { room_id: id, brightness: stepped(current, step, false) }]
        } else {
            Seq::empty()
        },
        RemoteActionType::BrightnessUpHold => if lit {
            seq![Task::StartDimming { room_id: id, up: true }]
        } else {
            Seq::empty()
        },
        RemoteActionType::BrightnessDownHold => if lit {
            seq![Task::StartDimming { room_id: id, up: false }]
        } else {
            Seq::empty()
        },
        RemoteActionType::NightMode => seq![Task::ActivateNightMode { room_id: id }],
        RemoteActionType::DayMode => seq![Task::DeactivateNightMode { room_id: id }],
        RemoteActionType::BrightnessStop => seq![Task::StopDimming { room_id: id }],
    }
}

fn respond_to_button(
    config: &AppConfig,
    state: &SystemState,
    room_id: &String,
    button: RemoteActionType,
    tasks: &mut Vec<Task>,
)
    ensures
        task_views(final(tasks)@) == task_views(old(tasks)@) + remote_response(
            *config,
            *state,
            room_id@,
            button,
        ),
{
    let ghost before = task_views(tasks@);
    let lit: bool = lights_on(state, room_id.as_str());
    let step: u8 = config.general.remote_brightness_step;
    let current: u8 = brightness_of(state, room_id.as_str());
    let on = ActionConfig::LightsOn {
        use_circadian: true,
        brightness: None,
        color_temp_k: None,
        transition: Some(1),
    };
    let off = ActionConfig::LightsOff { delay_secs: 0, transition: Some(1) };
    match button {
        RemoteActionType::Toggle => {
            let action: ActionConfig = if lit {
                off
            } else {
                on
            };
            add_task(tasks, Task::Run { room_id: room_id.clone(), action, off_action: None });
        },
        RemoteActionType::On => {
            if !lit {
                add_task(
                    tasks,
                    Task::Run { room_id: room_id.clone(), action: on, off_action: None },
                );
            }
        },
        RemoteActionType::Off => {
            add_task(tasks, Task::Run { room_id: room_id.clone(), action: off, off_action: None });
        },
        RemoteActionType::BrightnessUpStep => {
            if lit {
                let brightness: u8 = step_from(current, step, true);
                add_task(tasks, Task::SetBrightness { room_id: room_id.clone(), brightness });
            }
        },
        RemoteActionType::BrightnessDownStep => {
            if lit {
                let brightness: u8 = step_from(current, step, false);
                add_task(tasks, Task::SetBrightness { room_id: room_id.clone(), brightness });
            }
        },
        RemoteActionType::BrightnessUpHold => {
            if lit {
                add_task(tasks, Task::StartDimming { room_id: room_id.clone(), up: true });
            }
        },
        RemoteActionType::BrightnessDownHold => {
            if lit {
                add_task(tasks, Task::StartDimming { room_id: room_id.clone(), up: false });
            }
        },
        RemoteActionType::NightMode => {
            add_task(tasks, Task::ActivateNightMode { room_id: room_id.clone() });
        },
        RemoteActionType::DayMode => {
            add_task(tasks, Task::DeactivateNightMode { room_id: room_id.clone() });
        },
        RemoteActionType::BrightnessStop => {
            add_task(tasks, Task::StopDimming { room_id: room_id.clone() });
        },
    }
    assert(task_views(tasks@) =~= before + remote_response(*config, *state, room_id@, button));
}

/// What the rooms among the first `n` that the remote is bound to do about a button.
pub open spec fn button_tasks(
    config: AppConfig,
    state: SystemState,
    remote_ieee: Seq<char>,
    button: RemoteActionType,
    n: int,
) -> Seq<Task<Seq<char>>>
    decreases n,
{
    if n <= 0 {
        Seq::empty()
    } else {
        let (id, room) = config.rooms.entries_seq()[n - 1];
        let rest = button_tasks(config, state, remote_ieee, button, n - 1);
        if lists_light(room.remotes@, remote_ieee) {
            rest + remote_response(config, state, id@, button)
        } else {
            rest
        }
    }
}

/// What the rooms do about a button of a remote that are bound to it.
pub fn handle_button(
    config: &AppConfig,
    state: &SystemState,
    remote_ieee: &str,
    button: RemoteActionType,
    tasks: &mut Vec<Task>,
)
    ensures
        task_views(final(tasks)@) == task_views(old(tasks)@) + button_tasks(
            *config,
            *state,
            remote_ieee@,
            button,
            config.rooms.entries_seq().len() as int,
        ),
{
    let ghost before = task_views(tasks@);
    let n: usize = config.rooms.len();
    let mut i: usize = 0;
    assert(task_views(tasks@) =~= before + Seq::<Task<Seq<char>>>::empty());
    while i < n
        invariant
            i <= n == config.rooms.entries_seq().len(),
            task_views(tasks@) == before + button_tasks(
                *config,
                *state,
                remote_ieee@,
                button,
                i as int,
            ),
        decreases n - i,
    {
        let room_id = config.rooms.key_at(i);
        let room_config = config.rooms.value_at(i);
        if contains_light(&room_config.remotes, remote_ieee) {
            respond_to_button(config, state, room_id, button, tasks);
        }
        i = i + 1;
        assert(task_views(tasks@) =~= before + button_tasks(
            *config,
            *state,
            remote_ieee@,
            button,
            i as int,
        ));
    }
}

/// What the rooms do about a remote: nothing for a button that has no built-in meaning.
pub open spec fn remote_tasks(config: AppConfig, state: SystemState, event: Event<Seq<char>>) -> Seq<
    Task<Seq<char>>,
> {
    match event {
        Event::RemoteAction { remote_ieee, action } => match remote_action(lowercase(action)) {
            Some(button) => button_tasks(
                config,
                state,
                remote_ieee,
                button,
                config.rooms.entries_seq().len() as int,
            ),
            None => Seq::empty(),
        },
        _ => Seq::empty(),
    }
}

/// Handle built-in remote control actions:
/// - toggle/on/off: light control (circadian-aware)
/// - brightness up/down (click or move): step brightness, pause circadian
/// - arrow right: night mode on
/// - arrow left: night mode off, resume circadian
pub fn handle_builtin_remote(
    config: &AppConfig,
    state: &SystemState,
    event: &Event,
    tasks: &mut Vec<Task>,
)
    ensures
        task_views(final(tasks)@) == task_views(old(tasks)@) + remote_tasks(
            *config,
            *state,
            event@,
        ),
{
    let ghost before = task_views(tasks@);
    assert(before + Seq::<Task<Seq<char>>>::empty() =~= before);
    if let Event::RemoteAction { remote_ieee, action } = event {
        let lower: String = to_lowercase(action.as_str());
        if let Some(button) = classify_remote_action(lower.as_str()) {
            handle_button(config, state, remote_ieee.as_str(), button, tasks);
        }
    }
}

/// The automation fires in a room: the room is known, the event triggers it there, its schedule
/// lets it pass, and its conditions hold. Rooms that handled the motion by themselves are skipped.
pub open spec fn fires(
    automation: AutomationConfig,
    room_id: Seq<char>,
    handled: Seq<Seq<char>>,
    config: AppConfig,
    state: SystemState,
    local: LocalNow,
    event: Event<Seq<char>>,
) -> bool {
    &&& !handled.contains(room_id)
    &&& config.rooms@.contains_key(room_id)
    &&& triggers(
        automation.trigger,
        event,
        match config.rooms@[room_id].motion_sensor {
            Some(sensor) => Some(sensor@),
            None => None,
        },
    )
    &&& passes(automation.schedule, local)
    &&& all_hold(automation.conditions@, state)
}

/// What an automation does in the first `n` of its rooms.
pub open spec fn automation_tasks(
    automation: AutomationConfig,
    handled: Seq<Seq<char>>,
    config: AppConfig,
    state: SystemState,
    local: LocalNow,
    event: Event<Seq<char>>,
    n: int,
) -> Seq<Task<Seq<char>>>
    decreases n,
{
    if n <= 0 {
        Seq::empty()
    } else {
        let rest = automation_tasks(automation, handled, config, state, local, event, n - 1);
        let room_id = automation.rooms@[n - 1]@;
        if fires(automation, room_id, handled, config, state, local, event) {
            rest.push(
                Task::Run {
                    room_id,
                    action: automation.action,
                    off_action: automation.off_action,
                },
            )
        } else {
            rest
        }
    }
}

fn contains_text(texts: &Vec<String>, text: &String) -> (r: bool)
    ensures
        r == text_views(texts@).contains(text@),
{
    let mut i: usize = 0;
    while i < texts.len()
        invariant
            i <= texts@.len(),
            forall|j: int| 0 <= j < i ==> text_views(texts@)[j] != text@,
        decreases texts.len() - i,
    {
        if texts[i] == *text {
            assert(text_views(texts@)[i as int] == text@);
            return true;
        }
        assert(text_views(texts@)[i as int] != text@);
        i = i + 1;
    }
    false
}

fn run_automation(
    automation: &AutomationConfig,
    handled: &Vec<String>,
    config: &AppConfig,
    state: &SystemState,
    local: &LocalNow,
    event: &Event,
    tasks: &mut Vec<Task>,
)
    ensures
        task_views(final(tasks)@) == task_views(old(tasks)@) + automation_tasks(
            *automation,
            text_views(handled@),
            *config,
            *state,
            *local,
            event@,
            automation.rooms@.len() as int,
        ),
{
    let ghost before = task_views(tasks@);
    let ghost skip = text_views(handled@);
    let mut i: usize = 0;
    assert(task_views(tasks@) =~= before + Seq::<Task<Seq<char>>>::empty());
    while i < automation.rooms.len()
        invariant
            i <= automation.rooms@.len(),
            skip == text_views(handled@),
            task_views(tasks@) == before + automation_tasks(
                *automation,
                skip,
                *config,
                *state,
                *local,
                event@,
                i as int,
            ),
        decreases automation.rooms.len() - i,
    {
        let room_id = &automation.rooms[i];
        if !contains_text(handled, room_id) {
            if let Some(room_config) = config.rooms.get(room_id.as_str()) {
                let sensor: Option<&str> = match &room_config.motion_sensor {
                    Some(sensor) => Some(sensor.as_str()),
                    None => None,
                };
                if matches_trigger(&automation.trigger, event, sensor) && schedule_passes(
                    &automation.schedule,
                    local,
                ) && evaluate_all(&automation.conditions, state) {
                    add_task(
                        tasks,
                        Task::Run {
                            room_id: room_id.clone(),
                            action: automation.action,
                            off_action: automation.off_action,
                        },
                    );
                }
            }
        }
        i = i + 1;
        assert(task_views(tasks@) =~= before + automation_tasks(
            *automation,
            skip,
            *config,
            *state,
            *local,
            event@,
            i as int,
        ));
    }
}

/// What the running automations among the first `n` do.
pub open spec fn automations_tasks(
    automations: Seq<(String, AutomationInfo)>,
    handled: Seq<Seq<char>>,
    config: AppConfig,
    state: SystemState,
    local: LocalNow,
    event: Event<Seq<char>>,
    n: int,
) -> Seq<Task<Seq<char>>>
    decreases n,
{
    if n <= 0 {
        Seq::empty()
    } else {
        let rest = automations_tasks(automations, handled, config, state, local, event, n - 1);
        let info = automations[n - 1].1;
        if info.state == AutomationState::Running {
            rest + automation_tasks(
                *info.config,
                handled,
                config,
                state,
                local,
                event,
                info.config.rooms@.len() as int,
            )
        } else {
            rest
        }
    }
}

/// What is done about an event: first by the remotes, then by built-in motion, then by the
/// automations.
pub open spec fn event_tasks(
    automations: Seq<(String, AutomationInfo)>,
    config: AppConfig,
    state: SystemState,
    local: LocalNow,
    event: Event<Seq<char>>,
) -> Seq<Task<Seq<char>>> {
    let n = config.rooms.entries_seq().len() as int;
    remote_tasks(config, state, event) + motion_tasks(config, state, local, event, n)
        + automations_tasks(
        automations,
        motion_handled(config, state, local, event, n),
        config,
        state,
        local,
        event,
        automations.len() as int,
    )
}

/// What is done about an event.
pub fn handle_event<'a>(
    automations: &NameMap<AutomationInfo<'a>>,
    config: &AppConfig,
    state: &SystemState,
    local: &LocalNow,
    event: &Event,
) -> (tasks: Vec<Task>)
    ensures
        task_views(tasks@) == event_tasks(
            automations.entries_seq(),
            *config,
            *state,
            *local,
            event@,
        ),
{
    let mut tasks: Vec<Task> = Vec::new();
    assert(task_views(tasks@) =~= Seq::<Task<Seq<char>>>::empty());
    handle_builtin_remote(config, state, event, &mut tasks);
    let handled: Vec<String> = handle_builtin_motion(config, state, local, event, &mut tasks);
    let ghost before = task_views(tasks@);
    let ghost skip = text_views(handled@);
    let ghost entries = automations.entries_seq();
    let n: usize = automations.len();
    let mut i: usize = 0;
    assert(task_views(tasks@) =~= before + Seq::<Task<Seq<char>>>::empty());
    while i < n
        invariant
            i <= n == entries.len(),
            entries == automations.entries_seq(),
            skip == text_views(handled@),
            task_views(tasks@) == before + automations_tasks(
                entries,
                skip,
                *config,
                *state,
                *local,
                event@,
                i as int,
            ),
        decreases n - i,
    {
        let info = automations.value_at(i);
        if info.state == AutomationState::Running {
            run_automation(info.config, &handled, config, state, local, event, &mut tasks);
        }
        i = i + 1;
        assert(task_views(tasks@) =~= before + automations_tasks(
            entries,
            skip,
            *config,
            *state,
            *local,
            event@,
            i as int,
        ));
    }
    assert(task_views(tasks@) =~= event_tasks(entries, *config, *state, *local, event@));
    tasks
}

/// Lights on at a brightness set by hand.
pub open spec fn manual_action(brightness: u8, transition: u32) -> ActionConfig {
    ActionConfig::LightsOn {
        use_circadian: false,
        brightness: Some(brightness),
        color_temp_k: None,
        transition: Some(transition),
    }
}

/// What is done once nobody has moved for long enough: the lights fade out over three seconds.
pub fn motion_off_action() -> (r: ActionConfig)
    ensures
        r == (ActionConfig::LightsOff { delay_secs: 0, transition: Some(3) }),
{
    ActionConfig::LightsOff { delay_secs: 0, transition: Some(3) }
}

/// The curve is held back until further notice.
pub open spec fn pause_effect(id: Seq<char>) -> Effect<Seq<char>> {
    updates(id, RoomStateUpdate::CircadianPause { paused: true, until: None })
}

/// Setting the brightness by hand pauses the curve. It does nothing while the lights are off.
pub open spec fn manual_brightness_effects(
    state: SystemState,
    id: Seq<char>,
    room: RoomConfig,
    brightness: u8,
) -> Seq<Effect<Seq<char>>> {
    if is_lit(state, id) {
        seq![pause_effect(id)] + action_effects(manual_action(brightness, 1), id, room, None)
    } else {
        Seq::empty()
    }
}

/// Set brightness manually, pausing circadian. No-op when lights are off.
pub fn set_manual_brightness(
    state: &SystemState,
    room_id: &str,
    room_config: &RoomConfig,
    brightness: u8,
) -> (plan: Plan)
    ensures
        plan@ == manual_brightness_effects(*state, room_id@, *room_config, brightness),
{
    let mut plan: Plan = Plan::new();
    if !lights_on(state, room_id) {
        return plan;
    }
    plan.update(room_id, RoomStateUpdate::CircadianPause { paused: true, until: None });
    let action = ActionConfig::LightsOn {
        use_circadian: false,
        brightness: Some(brightness),
        color_temp_k: None,
        transition: Some(1),
    };
    let rest: Plan = execute_action(&action, room_id, room_config, None);
    plan.append(rest);
    assert(plan@ =~= manual_brightness_effects(*state, room_id@, *room_config, brightness));
    plan
}

/// Dimming that starts pauses the curve once, up front.
pub fn start_continuous_dimming(room_id: &str) -> (plan: Plan)
    ensures
        plan@ == seq![pause_effect(room_id@)],
{
    let mut plan: Plan = Plan::new();
    plan.update(room_id, RoomStateUpdate::CircadianPause { paused: true, until: None });
    assert(plan@ =~= seq![pause_effect(room_id@)]);
    plan
}

/// Milliseconds between two steps of dimming.
pub const DIMMING_INTERVAL_MS: u64 = 300;

/// One step of dimming: nothing once the end of the range is reached, which ends it.
pub open spec fn dimming_step(
    config: AppConfig,
    state: SystemState,
    id: Seq<char>,
    room: RoomConfig,
    up: bool,
) -> Option<Seq<Effect<Seq<char>>>> {
    let current = known_brightness(state, id);
    let next = stepped(current, config.general.remote_brightness_step, up);
    if next == current {
        None
    } else {
        Some(action_effects(manual_action(next, 0), id, room, None))
    }
}

/// One step of dimming; dimming ends where there is none.
pub fn dim_once(
    config: &AppConfig,
    state: &SystemState,
    room_id: &str,
    room_config: &RoomConfig,
    up: bool,
) -> (r: Option<Plan>)
    ensures
        match r {
            Some(plan) => dimming_step(*config, *state, room_id@, *room_config, up) == Some(plan@),
            None => dimming_step(*config, *state, room_id@, *room_config, up) is None,
        },
{
    let current: u8 = brightness_of(state, room_id);
    let next: u8 = step_from(current, config.general.remote_brightness_step, up);
    if next == current {
        return None;
    }
    let action = ActionConfig::LightsOn {
        use_circadian: false,
        brightness: Some(next),
        color_temp_k: None,
        transition: Some(0),
    };
    Some(execute_action(&action, room_id, room_config, None))
}

/// A room that handles the motion by itself is left alone by every automation.
pub proof fn law_handled_rooms_skip_automations(
    automation: AutomationConfig,
    handled: Seq<Seq<char>>,
    config: AppConfig,
    state: SystemState,
    local: LocalNow,
    event: Event<Seq<char>>,
    n: int,
    task: Task<Seq<char>>,
)
    requires
        0 <= n <= automation.rooms@.len(),
        automation_tasks(automation, handled, config, state, local, event, n).contains(task),
    ensures
        task is Run,
        !handled.contains(task->Run_room_id),
    decreases n,
{
    if n > 0 {
        let rest = automation_tasks(automation, handled, config, state, local, event, n - 1);
        let all = automation_tasks(automation, handled, config, state, local, event, n);
        let k = all.index_of(task);
        assert(all[k] == task);
        if k < rest.len() {
            assert(rest[k] == task);
            law_handled_rooms_skip_automations(
                automation,
                handled,
                config,
                state,
                local,
                event,
                n - 1,
                task,
            );
        }
    }
}

/// Motion in a room whose lights are on changes nothing but the timer.
pub proof fn law_motion_in_a_lit_room_only_resets_the_timer(
    config: AppConfig,
    state: SystemState,
    local: LocalNow,
    sensor: Seq<char>,
    illuminance: Option<Illuminance>,
    id: Seq<char>,
    room: RoomConfig,
)
    requires
        is_lit(state, id),
    ensures
        ({
            let event = Event::MotionDetected {
                room_id: Seq::empty(),
                sensor_ieee: sensor,
                illuminance,
            };
            motion_response(config, state, local, event, id, room) matches Some(tasks) ==> tasks
                == seq![Task::CancelMotionOff { room_id: id }]
        }),
{
}

/// A brightness button does nothing in a dark room.
pub proof fn law_dark_rooms_are_not_dimmed(
    config: AppConfig,
    state: SystemState,
    id: Seq<char>,
    room: RoomConfig,
    brightness: u8,
)
    requires
        !is_lit(state, id),
    ensures
        remote_response(config, state, id, RemoteActionType::BrightnessUpStep).len() == 0,
        remote_response(config, state, id, RemoteActionType::BrightnessDownStep).len() == 0,
        remote_response(config, state, id, RemoteActionType::BrightnessUpHold).len() == 0,
        remote_response(config, state, id, RemoteActionType::BrightnessDownHold).len() == 0,
        manual_brightness_effects(state, id, room, brightness).len() == 0,
{
}

/// The event is motion, or the end of motion, that the sensor `sensor` tells of.
pub open spec fn is_motion_of(event: Event<Seq<char>>, sensor: Seq<char>) -> bool {
    match event {
        Event::MotionDetected { sensor_ieee, .. } => sensor_ieee == sensor,
        Event::MotionCleared { sensor_ieee, .. } => sensor_ieee == sensor,
        _ => false,
    }
}

/// A room answers only to its own motion sensor, and only while its motion schedule, if it has one,
/// holds.
pub proof fn law_rooms_answer_to_their_own_sensor(
    config: AppConfig,
    state: SystemState,
    local: LocalNow,
    event: Event<Seq<char>>,
    id: Seq<char>,
    room: RoomConfig,
)
    ensures
        motion_response(config, state, local, event, id, room) is Some ==> room.motion_sensor is Some
            && is_motion_of(event, room.motion_sensor->0@) && (room.motion_schedule matches Some(
            schedule,
        ) ==> schedule.holds(local)),
{
}

/// The illuminance gate: in a room with a gate that does more than log, motion is answered exactly
/// where it is darker than the room's own threshold, or than the general one where it has none. A
/// sensor that compares by itself is believed, and without a reading nothing is held back.
pub proof fn law_bright_rooms_stay_dark(
    config: AppConfig,
    state: SystemState,
    local: LocalNow,
    id: Seq<char>,
    room: RoomConfig,
    nowhere: Seq<char>,
    lux: u16,
    above: bool,
)
    requires
        room.motion_sensor is Some,
        room.motion_schedule matches Some(schedule) ==> schedule.holds(local),
        room.illuminance_gate && !room.illuminance_log_only,
    ensures
        ({
            let motion = |reading: Option<Illuminance>|
                motion_response(
                    config,
                    state,
                    local,
                    Event::MotionDetected {
                        room_id: nowhere,
                        sensor_ieee: room.motion_sensor->0@,
                        illuminance: reading,
                    },
                    id,
                    room,
                );
            &&& room.illuminance_threshold is None ==> (motion(Some(Illuminance::Lux(lux))) is Some
                <==> lux < config.general.illuminance_threshold)
            &&& room.illuminance_threshold matches Some(own) ==> (motion(
                Some(Illuminance::Lux(lux)),
            ) is Some <==> lux < own)
            &&& motion(Some(Illuminance::AboveThreshold(above))) is Some <==> !above
            &&& motion(None) is Some
        }),
{
}

/// Without a gate, or with one that only logs, motion is answered however bright it is.
pub proof fn law_open_gates_let_motion_pass(
    config: AppConfig,
    state: SystemState,
    local: LocalNow,
    id: Seq<char>,
    room: RoomConfig,
    nowhere: Seq<char>,
    reading: Option<Illuminance>,
)
    requires
        room.motion_sensor is Some,
        room.motion_schedule matches Some(schedule) ==> schedule.holds(local),
        !room.illuminance_gate || room.illuminance_log_only,
    ensures
        motion_response(
            config,
            state,
            local,
            Event::MotionDetected {
                room_id: nowhere,
                sensor_ieee: room.motion_sensor->0@,
                illuminance: reading,
            },
            id,
            room,
        ) is Some,
{
}

/// Motion that is answered calls the timer off, and lights a room that is not lit: with the room's
/// night mode values over one second in night mode, along the curve otherwise.
pub proof fn law_motion_lights_dark_rooms(
    config: AppConfig,
    state: SystemState,
    local: LocalNow,
    id: Seq<char>,
    room: RoomConfig,
    nowhere: Seq<char>,
    sensor: Seq<char>,
    reading: Option<Illuminance>,
)
    ensures
        ({
            let known = state.rooms@.contains_key(id);
            let lit = known && state.rooms@[id].lights_on;
            let night = known && state.rooms@[id].night_mode_active;
            let values = room.night_values(config.night_mode.defaults);
            motion_response(
                config,
                state,
                local,
                Event::MotionDetected {
                    room_id: nowhere,
                    sensor_ieee: sensor,
                    illuminance: reading,
                },
                id,
                room,
            ) matches Some(tasks) ==> {
                &&& tasks.len() == (if lit {
                    1int
                } else {
                    2
                })
                &&& tasks[0] == (Task::CancelMotionOff { room_id: id })
                &&& !lit && night ==> tasks[1] == (Task::Run {
                    room_id: id,
                    action: ActionConfig::LightsOn {
                        use_circadian: false,
                        brightness: Some(values.brightness),
                        color_temp_k: Some(values.color_temp_k),
                        transition: Some(1),
                    },
                    off_action: None,
                })
                &&& !lit && !night ==> tasks[1] == (Task::Run {
                    room_id: id,
                    action: ActionConfig::LightsOn {
                        use_circadian: true,
                        brightness: None,
                        color_temp_k: None,
                        transition: None,
                    },
                    off_action: None,
                })
            }
        }),
{
}

/// The end of motion starts the timer anew: for the night mode timeout in night mode, and otherwise
/// for the room's own timeout, or the general one where it has none. No gate holds that back.
pub proof fn law_timers_run_from_the_end_of_motion(
    config: AppConfig,
    state: SystemState,
    local: LocalNow,
    id: Seq<char>,
    room: RoomConfig,
    nowhere: Seq<char>,
)
    requires
        room.motion_sensor is Some,
        room.motion_schedule matches Some(schedule) ==> schedule.holds(local),
    ensures
        ({
            let night = state.rooms@.contains_key(id) && state.rooms@[id].night_mode_active;
            let after_secs = if night {
                room.night_values(config.night_mode.defaults).motion_timeout_secs
            } else {
                match room.motion_timeout_secs {
                    Some(own) => own,
                    None => config.general.motion_timeout_secs,
                }
            };
            motion_response(
                config,
                state,
                local,
                Event::MotionCleared { room_id: nowhere, sensor_ieee: room.motion_sensor->0@ },
                id,
                room,
            ) == Some(
                seq![
                    Task::CancelMotionOff { room_id: id },
                    Task::ScheduleMotionOff { room_id: id, after_secs },
                ],
            )
        }),
{
}

/// Every room that a motion event concerns answers it, and only such rooms do; exactly these are
/// left out by the automations.
pub proof fn law_every_room_answers_to_motion(
    config: AppConfig,
    state: SystemState,
    local: LocalNow,
    event: Event<Seq<char>>,
    n: int,
    task: Task<Seq<char>>,
    id: Seq<char>,
)
    requires
        0 <= n <= config.rooms.entries_seq().len(),
    ensures
        motion_tasks(config, state, local, event, n).contains(task) <==> exists|j: int|
            0 <= j < n && (motion_response(
                config,
                state,
                local,
                event,
                (#[trigger] config.rooms.entries_seq()[j]).0@,
                config.rooms.entries_seq()[j].1,
            ) matches Some(own) && own.contains(task)),
        motion_handled(config, state, local, event, n).contains(id) <==> exists|j: int|
            0 <= j < n && (#[trigger] config.rooms.entries_seq()[j]).0@ == id && motion_response(
                config,
                state,
                local,
                event,
                id,
                config.rooms.entries_seq()[j].1,
            ) is Some,
    decreases n,
{
    if n > 0 {
        law_every_room_answers_to_motion(config, state, local, event, n - 1, task, id);
        let (name, room) = config.rooms.entries_seq()[n - 1];
        let rest = motion_tasks(config, state, local, event, n - 1);
        let before = motion_handled(config, state, local, event, n - 1);
        match motion_response(config, state, local, event, name@, room) {
            Some(own) => {
                lemma_in_either(rest, own, task);
                lemma_in_either(before, seq![name@], id);
                assert(before.push(name@) =~= before + seq![name@]);
                assert(seq![name@].contains(id) <==> name@ == id) by {
                    assert(seq![name@][0] == name@);
                }
                if own.contains(task) {
                    assert(config.rooms.entries_seq()[n - 1] == (name, room));
                }
                if name@ == id {
                    assert(config.rooms.entries_seq()[n - 1] == (name, room));
                }
            },
            None => {},
        }
    }
}

/// What is done about an event is what the remotes, the rooms' own motion handling and the
/// automations do about it, and nothing else.
pub proof fn law_events_are_dealt_with_once(
    automations: Seq<(String, AutomationInfo)>,
    config: AppConfig,
    state: SystemState,
    local: LocalNow,
    event: Event<Seq<char>>,
    task: Task<Seq<char>>,
)
    ensures
        ({
            let n = config.rooms.entries_seq().len() as int;
            let remote = remote_tasks(config, state, event);
            let motion = motion_tasks(config, state, local, event, n);
            let own = automations_tasks(
                automations,
                motion_handled(config, state, local, event, n),
                config,
                state,
                local,
                event,
                automations.len() as int,
            );
            let all = event_tasks(automations, config, state, local, event);
            &&& all.contains(task) <==> remote.contains(task) || motion.contains(task)
                || own.contains(task)
            &&& all.len() == remote.len() + motion.len() + own.len()
        }),
{
    let n = config.rooms.entries_seq().len() as int;
    let remote = remote_tasks(config, state, event);
    let motion = motion_tasks(config, state, local, event, n);
    let own = automations_tasks(
        automations,
        motion_handled(config, state, local, event, n),
        config,
        state,
        local,
        event,
        automations.len() as int,
    );
    lemma_in_either(remote + motion, own, task);
    lemma_in_either(remote, motion, task);
}

/// A running automation fires in a room that it names, knows, and that did not deal with the motion
/// by itself, exactly where the event is the one it waits for, from the room's own sensor, its
/// schedule, if it has one, holds, and every condition is met.
pub proof fn law_automations_fire_when_all_is_met(
    automation: AutomationConfig,
    room_id: Seq<char>,
    handled: Seq<Seq<char>>,
    config: AppConfig,
    state: SystemState,
    local: LocalNow,
    event: Event<Seq<char>>,
)
    ensures
        fires(automation, room_id, handled, config, state, local, event) <==> {
            &&& config.rooms@.contains_key(room_id)
            &&& !handled.contains(room_id)
            &&& config.rooms@[room_id].motion_sensor is Some
            &&& match automation.trigger {
                TriggerConfig::Motion => event is MotionDetected
                    && event->MotionDetected_sensor_ieee
                    == config.rooms@[room_id].motion_sensor->0@,
                TriggerConfig::MotionCleared => event is MotionCleared
                    && event->MotionCleared_sensor_ieee
                    == config.rooms@[room_id].motion_sensor->0@,
            }
            &&& automation.schedule matches Some(schedule) ==> schedule.holds(local)
            &&& forall|i: int|
                0 <= i < automation.conditions@.len() ==> match #[trigger] automation.conditions@[i] {
                    ConditionConfig::NightMode { room, active } => state.rooms@.contains_key(room@)
                        && state.rooms@[room@].night_mode_active == active,
                    ConditionConfig::LightState { room, is_on } => state.rooms@.contains_key(room@)
                        && state.rooms@[room@].lights_on == is_on,
                }
        },
{
    if fires(automation, room_id, handled, config, state, local, event) {
        assert forall|i: int| 0 <= i < automation.conditions@.len() implies condition_holds(
            #[trigger] automation.conditions@[i],
            state,
        ) by {}
    }
}

/// An automation runs its action, and then its off action, once for each place in which it names a
/// room where it fires.
pub proof fn law_automations_run_where_they_fire(
    automation: AutomationConfig,
    handled: Seq<Seq<char>>,
    config: AppConfig,
    state: SystemState,
    local: LocalNow,
    event: Event<Seq<char>>,
    n: int,
    task: Task<Seq<char>>,
)
    requires
        0 <= n <= automation.rooms@.len(),
    ensures
        automation_tasks(automation, handled, config, state, local, event, n).contains(task)
            <==> exists|j: int|
            0 <= j < n && fires(
                automation,
                (#[trigger] automation.rooms@[j])@,
                handled,
                config,
                state,
                local,
                event,
            ) && task == (Task::Run {
                room_id: automation.rooms@[j]@,
                action: automation.action,
                off_action: automation.off_action,
            }),
    decreases n,
{
    if n > 0 {
        law_automations_run_where_they_fire(
            automation,
            handled,
            config,
            state,
            local,
            event,
            n - 1,
            task,
        );
        let rest = automation_tasks(automation, handled, config, state, local, event, n - 1);
        let room_id = automation.rooms@[n - 1]@;
        let own = Task::Run {
            room_id,
            action: automation.action,
            off_action: automation.off_action,
        };
        if fires(automation, room_id, handled, config, state, local, event) {
            lemma_in_either(rest, seq![own], task);
            assert(rest.push(own) =~= rest + seq![own]);
            assert(seq![own].contains(task) <==> own == task) by {
                assert(seq![own][0] == own);
            }
            assert(automation.rooms@[n - 1]@ == room_id);
        }
    }
}

/// Every running automation is looked at, and no other.
pub proof fn law_running_automations_are_looked_at(
    automations: Seq<(String, AutomationInfo)>,
    handled: Seq<Seq<char>>,
    config: AppConfig,
    state: SystemState,
    local: LocalNow,
    event: Event<Seq<char>>,
    n: int,
    task: Task<Seq<char>>,
)
    requires
        0 <= n <= automations.len(),
    ensures
        automations_tasks(automations, handled, config, state, local, event, n).contains(task)
            <==> exists|j: int|
            0 <= j < n && (#[trigger] automations[j]).1.state == AutomationState::Running
                && automation_tasks(
                *automations[j].1.config,
                handled,
                config,
                state,
                local,
                event,
                automations[j].1.config.rooms@.len() as int,
            ).contains(task),
    decreases n,
{
    if n > 0 {
        law_running_automations_are_looked_at(
            automations,
            handled,
            config,
            state,
            local,
            event,
            n - 1,
            task,
        );
        let rest = automations_tasks(automations, handled, config, state, local, event, n - 1);
        let info = automations[n - 1].1;
        lemma_in_either(
            rest,
            automation_tasks(
                *info.config,
                handled,
                config,
                state,
                local,
                event,
                info.config.rooms@.len() as int,
            ),
            task,
        );
    }
}

/// The engine starts with every automation of the configuration, running; of several with one id the
/// last counts.
pub proof fn law_all_automations_are_loaded(automations: Seq<AutomationConfig>, n: int, i: int)
    requires
        0 <= i < n <= automations.len(),
        forall|j: int| i < j < n ==> (#[trigger] automations[j]).id@ != automations[i].id@,
    ensures
        loaded(automations, n).contains_key(automations[i].id@),
        loaded(automations, n)[automations[i].id@] == (automations[i], AutomationState::Running),
    decreases n,
{
    if i < n - 1 {
        law_all_automations_are_loaded(automations, n - 1, i);
        assert(automations[n - 1].id@ != automations[i].id@);
    }
}

/// Every room that a remote is bound to does what the button asks for, and no other room does.
pub proof fn law_remotes_reach_their_rooms(
    config: AppConfig,
    state: SystemState,
    remote: Seq<char>,
    button: RemoteActionType,
    n: int,
    task: Task<Seq<char>>,
)
    requires
        0 <= n <= config.rooms.entries_seq().len(),
    ensures
        button_tasks(config, state, remote, button, n).contains(task) <==> exists|j: int|
            0 <= j < n && (exists|k: int|
                0 <= k < config.rooms.entries_seq()[j].1.remotes@.len() && (
                #[trigger] config.rooms.entries_seq()[j].1.remotes@[k])@ == remote)
                && remote_response(
                config,
                state,
                (#[trigger] config.rooms.entries_seq()[j]).0@,
                button,
            ).contains(task),
    decreases n,
{
    if n > 0 {
        law_remotes_reach_their_rooms(config, state, remote, button, n - 1, task);
        let (id, room) = config.rooms.entries_seq()[n - 1];
        let rest = button_tasks(config, state, remote, button, n - 1);
        lemma_in_either(rest, remote_response(config, state, id@, button), task);
        if lists_light(room.remotes@, remote) {
            let k = choose|k: int| 0 <= k < room.remotes@.len() && (#[trigger] room.remotes@[k])@ == remote;
            assert(config.rooms.entries_seq()[n - 1].1.remotes@[k]@ == remote);
        }
        if exists|k: int|
            0 <= k < config.rooms.entries_seq()[n - 1].1.remotes@.len() && (
            #[trigger] config.rooms.entries_seq()[n - 1].1.remotes@[k])@ == remote {
            assert(lists_light(room.remotes@, remote));
        }
    }
}

/// What the buttons do in a room: a toggle turns a lit room off and another one on, an on button
/// lights a room that is not lit and leaves a lit one, an off button always turns off. On goes along
/// the curve, and both take one second.
pub proof fn law_switches_switch(config: AppConfig, state: SystemState, id: Seq<char>)
    ensures
        ({
            let lit = state.rooms@.contains_key(id) && state.rooms@[id].lights_on;
            let on = seq![
                Task::Run {
                    room_id: id,
                    action: ActionConfig::LightsOn {
                        use_circadian: true,
                        brightness: None,
                        color_temp_k: None,
                        transition: Some(1),
                    },
                    off_action: None,
                },
            ];
            let off = seq![
                Task::Run {
                    room_id: id,
                    action: ActionConfig::LightsOff { delay_secs: 0, transition: Some(1) },
                    off_action: None,
                },
            ];
            let does = |button: RemoteActionType| remote_response(config, state, id, button);
            &&& lit ==> does(RemoteActionType::Toggle) == off
            &&& !lit ==> does(RemoteActionType::Toggle) == on
            &&& lit ==> does(RemoteActionType::On).len() == 0
            &&& !lit ==> does(RemoteActionType::On) == on
            &&& does(RemoteActionType::Off) == off
            &&& does(RemoteActionType::NightMode) == seq![Task::ActivateNightMode { room_id: id }]
            &&& does(RemoteActionType::DayMode) == seq![Task::DeactivateNightMode { room_id: id }]
            &&& does(RemoteActionType::BrightnessStop) == seq![Task::StopDimming { room_id: id }]
            &&& lit ==> does(RemoteActionType::BrightnessUpHold) == seq![
                Task::StartDimming { room_id: id, up: true },
            ]
            &&& lit ==> does(RemoteActionType::BrightnessDownHold) == seq![
                Task::StartDimming { room_id: id, up: false },
            ]
        }),
{
}

/// A brightness button moves a lit room by one configured step from where it is, or from the middle
/// where that is not known, and not beyond 1 and 254. A step up and a step down that do not hit an
/// end undo each other.
pub proof fn law_brightness_buttons_take_one_step(
    config: AppConfig,
    state: SystemState,
    id: Seq<char>,
    current: int,
)
    requires
        state.rooms@.contains_key(id),
        state.rooms@[id].lights_on,
        current == (match state.rooms@[id].current_brightness {
            Some(b) => b as int,
            None => 128,
        }),
    ensures
        ({
            let step = config.general.remote_brightness_step as int;
            let up = remote_response(config, state, id, RemoteActionType::BrightnessUpStep);
            let down = remote_response(config, state, id, RemoteActionType::BrightnessDownStep);
            &&& up.len() == 1 && up[0] is SetBrightness && up[0]->SetBrightness_room_id == id
            &&& down.len() == 1 && down[0] is SetBrightness && down[0]->SetBrightness_room_id == id
            &&& current + step <= 254 ==> up[0]->SetBrightness_brightness == current + step
            &&& current + step > 254 ==> up[0]->SetBrightness_brightness == 254
            &&& current - step >= 1 ==> down[0]->SetBrightness_brightness == current - step
            &&& current - step < 1 ==> down[0]->SetBrightness_brightness == 1
        }),
{
}

/// Setting the brightness by hand in a lit room pauses the curve until further notice first, and
/// then does what turning the lights on at that brightness does, over one second.
pub proof fn law_manual_brightness_pauses_the_curve(
    state: SystemState,
    id: Seq<char>,
    room: RoomConfig,
    brightness: u8,
)
    requires
        state.rooms@.contains_key(id),
        state.rooms@[id].lights_on,
    ensures
        ({
            let effects = manual_brightness_effects(state, id, room, brightness);
            &&& effects.len() >= 2
            &&& effects[0] == (Effect::Update {
                room_id: id,
                update: RoomStateUpdate::CircadianPause { paused: true, until: None },
            })
            &&& effects[1] == (Effect::Update {
                room_id: id,
                update: RoomStateUpdate::LightsOnWithPush {
                    brightness: Some(brightness),
                    color_temp_mired: None,
                    source: UpdateSource::Automation,
                },
            })
            &&& room.z2m_group matches Some(group) ==> effects.len() == 3 && effects[2]
                == (Effect::Publish {
                command: LightCommand::TurnOnGroup {
                    group: group@,
                    brightness: Some(brightness),
                    color_temp_mired: None,
                    transition: Some(1),
                },
                required: true,
            })
            &&& room.z2m_group is None ==> effects.len() == 2 + room.lights@.len()
        }),
{
}

/// Dimming goes on step by step in its direction, without a transition, until the end of the range.
pub proof fn law_dimming_goes_on_to_the_end(
    config: AppConfig,
    state: SystemState,
    id: Seq<char>,
    room: RoomConfig,
    up: bool,
    current: int,
)
    requires
        config.general.remote_brightness_step > 0,
        current == (if state.rooms@.contains_key(id) {
            match state.rooms@[id].current_brightness {
                Some(b) => b as int,
                None => 128,
            }
        } else {
            128
        }),
        1 <= current <= 254,
    ensures
        dimming_step(config, state, id, room, up) is None <==> current == (if up {
            254int
        } else {
            1
        }),
        dimming_step(config, state, id, room, up) matches Some(effects) ==> ({
            let step = config.general.remote_brightness_step as int;
            let next = if up {
                if current + step <= 254 {
                    current + step
                } else {
                    254
                }
            } else {
                if current - step >= 1 {
                    current - step
                } else {
                    1
                }
            };
            effects.len() >= 1 && effects[0] == (Effect::Update {
                room_id: id,
                update: RoomStateUpdate::LightsOnWithPush {
                    brightness: Some(next as u8),
                    color_temp_mired: None,
                    source: UpdateSource::Automation,
                },
            }) && (room.z2m_group matches Some(group) ==> effects.len() == 2 && effects[1]
                == (Effect::Publish {
                command: LightCommand::TurnOnGroup {
                    group: group@,
                    brightness: Some(next as u8),
                    color_temp_mired: None,
                    transition: Some(0),
                },
                required: true,
            }))
        }),
{
}

} // verus!
