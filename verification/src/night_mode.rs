//! Night mode: what switching it on and off does, and when it switches by itself.

use vstd::prelude::*;

use crate::automation::engine::{is_lit, is_night, lights_on, night_mode_active, pause_effect};
use crate::circadian::curve::{
    kelvin_to_mired, mired, minutes_or_zero, parse_time_to_minutes, CircadianTarget,
};
use crate::config::types::{AppConfig, RoomConfig};
use crate::effect::{emits, turn_on_all, updates, Effect, LightCommand, Plan};
use crate::event::Event;
use crate::names::{distinct_keys, NameSet};
use crate::schedule::{hm_minutes, LocalNow, TimeProblem};
use crate::state::{RoomStateUpdate, SystemState, UpdateSource};
use crate::time::{Duration, Instant};

verus! {

/// The room's night mode color temperature can be converted.
pub open spec fn night_ok(config: AppConfig, room: RoomConfig) -> bool {
    room.night_values(config.night_mode.defaults).color_temp_k > 0
}

/// Whether the room's night mode color temperature can be converted.
pub fn check_night(config: &AppConfig, room_config: &RoomConfig) -> (r: bool)
    ensures
        r == night_ok(*config, *room_config),
{
    room_config.effective_night_mode(&config.night_mode.defaults).color_temp_k > 0
}

/// What is written down once a room's lamps were told `brightness` and `color_temp_mired`.
pub open spec fn told_record(
    id: Seq<char>,
    brightness: u8,
    color_temp_mired: u16,
    source: UpdateSource,
) -> Seq<Effect<Seq<char>>> {
    seq![
        updates(
            id,
            RoomStateUpdate::LightsOn {
                brightness: Some(brightness),
                color_temp_mired: Some(color_temp_mired),
                source,
            },
        ),
        updates(
            id,
            RoomStateUpdate::JehaPush {
                brightness: Some(brightness),
                color_temp_mired: Some(color_temp_mired),
            },
        ),
    ]
}

/// A room's lamps are told new values over three seconds: the group by one command, or each lamp.
/// Only a failing group command can be required to succeed.
pub open spec fn tell_room(
    room: RoomConfig,
    brightness: u8,
    color_temp_mired: u16,
    group_required: bool,
) -> Seq<Effect<Seq<char>>> {
    match room.z2m_group {
        Some(group) => seq![
            Effect::Publish {
                command: LightCommand::TurnOnGroup {
                    group: group@,
                    brightness: Some(brightness),
                    color_temp_mired: Some(color_temp_mired),
                    transition: Some(3),
                },
                required: group_required,
            },
        ],
        None => turn_on_all(
            room.lights@,
            Some(brightness),
            Some(color_temp_mired),
            Some(3),
            false,
        ),
    }
}

fn plan_tell_room(
    room_config: &RoomConfig,
    brightness: u8,
    color_temp_mired: u16,
    group_required: bool,
    plan: &mut Plan,
)
    ensures
        final(plan)@ == old(plan)@ + tell_room(
            *room_config,
            brightness,
            color_temp_mired,
            group_required,
        ),
{
    match &room_config.z2m_group {
        Some(group) => {
            let command = LightCommand::TurnOnGroup {
                group: group.clone(),
                brightness: Some(brightness),
                color_temp_mired: Some(color_temp_mired),
                transition: Some(3),
            };
            plan.push(Effect::Publish { command, required: group_required });
        },
        None => {
            plan.turn_on_each(
                &room_config.lights,
                Some(brightness),
                Some(color_temp_mired),
                Some(3),
                false,
            );
        },
    }
    assert(plan@ =~= old(plan)@ + tell_room(
        *room_config,
        brightness,
        color_temp_mired,
        group_required,
    ));
}

/// What switching night mode on does: the flag is set and the curve paused; a lit room is told the
/// night mode values.
pub open spec fn activation(
    config: AppConfig,
    state: SystemState,
    id: Seq<char>,
    room: RoomConfig,
) -> Seq<Effect<Seq<char>>> {
    let night = room.night_values(config.night_mode.defaults);
    let ct = mired(night.color_temp_k);
    seq![updates(id, RoomStateUpdate::NightMode(true)), pause_effect(id)] + (if is_lit(state, id) {
        tell_room(room, night.brightness, ct, true) + told_record(
            id,
            night.brightness,
            ct,
            UpdateSource::Automation,
        )
    } else {
        Seq::empty()
    }) + seq![emits(Event::NightModeChanged { room_id: id, active: true })]
}

/// Activate night mode for a room: set the flag, pause circadian, push the night mode values.
/// Only pushes values if the lights are on.
pub fn activate_night_mode(
    room_id: &str,
    room_config: &RoomConfig,
    config: &AppConfig,
    state: &SystemState,
) -> (plan: Plan)
    requires
        night_ok(*config, *room_config),
    ensures
        plan@ == activation(*config, *state, room_id@, *room_config),
{
    let mut plan: Plan = Plan::new();
    let enm = room_config.effective_night_mode(&config.night_mode.defaults);
    let ct: u16 = kelvin_to_mired(enm.color_temp_k);
    plan.update(room_id, RoomStateUpdate::NightMode(true));
    plan.update(room_id, RoomStateUpdate::CircadianPause { paused: true, until: None });
    if lights_on(state, room_id) {
        plan_tell_room(room_config, enm.brightness, ct, true, &mut plan);
        plan.update(
            room_id,
            RoomStateUpdate::LightsOn {
                brightness: Some(enm.brightness),
                color_temp_mired: Some(ct),
                source: UpdateSource::Automation,
            },
        );
        plan.update(
            room_id,
            RoomStateUpdate::JehaPush {
                brightness: Some(enm.brightness),
                color_temp_mired: Some(ct),
            },
        );
    }
    plan.emit(Event::NightModeChanged { room_id: room_id.to_owned(), active: true });
    assert(plan@ =~= activation(*config, *state, room_id@, *room_config));
    plan
}

/// What switching night mode off does: the flag is cleared and the curve resumed; a lit room goes
/// back to the curve, at once where the curve's values are at hand.
pub open spec fn deactivation(
    state: SystemState,
    id: Seq<char>,
    room: RoomConfig,
    target: Option<CircadianTarget>,
) -> Seq<Effect<Seq<char>>> {
    seq![
        updates(id, RoomStateUpdate::NightMode(false)),
        updates(id, RoomStateUpdate::CircadianPause { paused: false, until: None }),
    ] + (if is_lit(state, id) {
        seq![
            updates(
                id,
                RoomStateUpdate::LightsOn {
                    brightness: None,
                    color_temp_mired: None,
                    source: UpdateSource::Circadian,
                },
            ),
        ] + match target {
            Some(t) => tell_room(room, t.brightness, t.color_temp_mired, false) + told_record(
                id,
                t.brightness,
                t.color_temp_mired,
                UpdateSource::Circadian,
            ),
            None => Seq::empty(),
        }
    } else {
        Seq::empty()
    }) + seq![emits(Event::NightModeChanged { room_id: id, active: false })]
}

/// Deactivate night mode for a room: clear the flag, resume circadian, push circadian values.
/// `target` is where the room's curve is now, where it follows one.
pub fn deactivate_night_mode(
    room_id: &str,
    room_config: &RoomConfig,
    state: &SystemState,
    target: Option<CircadianTarget>,
) -> (plan: Plan)
    ensures
        plan@ == deactivation(*state, room_id@, *room_config, target),
{
    let mut plan: Plan = Plan::new();
    plan.update(room_id, RoomStateUpdate::NightMode(false));
    plan.update(room_id, RoomStateUpdate::CircadianPause { paused: false, until: None });
    if lights_on(state, room_id) {
        plan.update(
            room_id,
            RoomStateUpdate::LightsOn {
                brightness: None,
                color_temp_mired: None,
                source: UpdateSource::Circadian,
            },
        );
        if let Some(t) = target {
            plan_tell_room(room_config, t.brightness, t.color_temp_mired, false, &mut plan);
            plan.update(
                room_id,
                RoomStateUpdate::LightsOn {
                    brightness: Some(t.brightness),
                    color_temp_mired: Some(t.color_temp_mired),
                    source: UpdateSource::Circadian,
                },
            );
            plan.update(
                room_id,
                RoomStateUpdate::JehaPush {
                    brightness: Some(t.brightness),
                    color_temp_mired: Some(t.color_temp_mired),
                },
            );
        }
    }
    plan.emit(Event::NightModeChanged { room_id: room_id.to_owned(), active: false });
    assert(plan@ =~= deactivation(*state, room_id@, *room_config, target));
    plan
}

/// Switching night mode in a dark room sends no command.
pub proof fn law_dark_rooms_get_no_command(
    config: AppConfig,
    state: SystemState,
    id: Seq<char>,
    room: RoomConfig,
    target: Option<CircadianTarget>,
)
    requires
        !is_lit(state, id),
    ensures
        forall|i: int|
            0 <= i < activation(config, state, id, room).len() ==> !((#[trigger] activation(
                config,
                state,
                id,
                room,
            )[i]) is Publish),
        forall|i: int|
            0 <= i < deactivation(state, id, room, target).len() ==> !((#[trigger] deactivation(
                state,
                id,
                room,
                target,
            )[i]) is Publish),
{
}

/// A switch of night mode that is due in a room.
#[derive(Clone, Debug)]
pub struct NightSwitch<S = String> {
    pub room_id: S,
    pub active: bool,
}

impl View for NightSwitch<String> {
    type V = NightSwitch<Seq<char>>;

    open spec fn view(&self) -> NightSwitch<Seq<char>> {
        NightSwitch { room_id: self.room_id@, active: self.active }
    }
}

/// The views of several switches.
pub open spec fn switch_views(switches: Seq<NightSwitch>) -> Seq<NightSwitch<Seq<char>>> {
    switches.map_values(|s: NightSwitch| s@)
}

fn add_switch(switches: &mut Vec<NightSwitch>, room_id: &String, active: bool)
    ensures
        switch_views(final(switches)@) == switch_views(old(switches)@).push(
            NightSwitch { room_id: room_id@, active },
        ),
{
    switches.push(NightSwitch { room_id: room_id.clone(), active });
    assert(switch_views(switches@) =~= switch_views(old(switches)@).push(
        NightSwitch { room_id: room_id@, active },
    ));
}

/// What the scheduler remembers, and the switches it has found due.
pub struct SchedulerState {
    /// Rooms in which night mode was switched off during the current schedule window; it does not
    /// come back there by itself.
    pub suppressed: Set<Seq<char>>,
    /// Rooms that were before their wake time when last looked at.
    pub pre_wake: Set<Seq<char>>,
    pub switches: Seq<NightSwitch<Seq<char>>>,
}

impl SchedulerState {
    pub open spec fn switched(self, id: Seq<char>, active: bool) -> SchedulerState {
        SchedulerState {
            switches: self.switches.push(NightSwitch { room_id: id, active }),
            ..self
        }
    }

    pub open spec fn suppress(self, id: Seq<char>) -> SchedulerState {
        SchedulerState { suppressed: self.suppressed.insert(id), ..self }
    }
}

/// A room's schedule switches night mode on inside its window, unless that is suppressed, and off
/// outside. Outside, the suppression ends.
pub open spec fn by_schedule(
    s: SchedulerState,
    state: SystemState,
    local: LocalNow,
    id: Seq<char>,
    room: RoomConfig,
) -> SchedulerState {
    match room.night_schedule() {
        None => s,
        Some(schedule) => if schedule.holds(local) {
            if !is_night(state, id) && !s.suppressed.contains(id) {
                s.switched(id, true)
            } else {
                s
            }
        } else {
            let t = if is_night(state, id) {
                s.switched(id, false)
            } else {
                s
            };
            SchedulerState { suppressed: t.suppressed.remove(id), ..t }
        },
    }
}

/// When a room's day begins.
pub open spec fn wake_minutes(config: AppConfig, room: RoomConfig) -> u32 {
    minutes_or_zero(room.circadian_settings(config.circadian.defaults).wake_time@)
}

/// Whether night mode ends because wake time was just crossed.
pub open spec fn crossed_wake(
    pre_wake: Set<Seq<char>>,
    id: Seq<char>,
    wake: u32,
    now: u32,
    active: bool,
) -> bool {
    now >= wake && pre_wake.contains(id) && active
}

/// The rooms before their wake time, once this one was looked at.
pub open spec fn pre_wake_after(
    pre_wake: Set<Seq<char>>,
    id: Seq<char>,
    wake: u32,
    now: u32,
) -> Set<Seq<char>> {
    if now < wake {
        pre_wake.insert(id)
    } else {
        pre_wake.remove(id)
    }
}

/// Night mode ends when wake time is crossed.
pub open spec fn by_wake_time(
    s: SchedulerState,
    config: AppConfig,
    state: SystemState,
    local: LocalNow,
    id: Seq<char>,
    room: RoomConfig,
) -> SchedulerState {
    if !room.circadian_enabled {
        s
    } else {
        let wake = wake_minutes(config, room);
        let now = local.minutes as u32;
        let t = SchedulerState { pre_wake: pre_wake_after(s.pre_wake, id, wake, now), ..s };
        if crossed_wake(s.pre_wake, id, wake, now, is_night(state, id)) {
            t.suppress(id).switched(id, false)
        } else {
            t
        }
    }
}

/// Night mode was switched on more than two hours ago.
pub open spec fn is_stale(state: SystemState, id: Seq<char>, now: Instant) -> bool {
    state.rooms@.contains_key(id) && (state.rooms@[id].night_mode_since matches Some(since)
        && now.since(since) > Duration::secs_nanos(7200))
}

/// Night mode that should have ended ends in the hour after wake time.
pub open spec fn by_fallback(
    s: SchedulerState,
    config: AppConfig,
    state: SystemState,
    local: LocalNow,
    now: Instant,
    id: Seq<char>,
    room: RoomConfig,
) -> SchedulerState {
    let wake = wake_minutes(config, room);
    if room.circadian_enabled && is_night(state, id) && wake <= local.minutes <= wake + 60
        && is_stale(state, id, now) {
        s.suppress(id).switched(id, false)
    } else {
        s
    }
}

pub open spec fn schedule_pass(
    s: SchedulerState,
    rooms: Seq<(String, RoomConfig)>,
    state: SystemState,
    local: LocalNow,
    n: int,
) -> SchedulerState
    decreases n,
{
    if n <= 0 {
        s
    } else {
        by_schedule(
            schedule_pass(s, rooms, state, local, n - 1),
            state,
            local,
            rooms[n - 1].0@,
            rooms[n - 1].1,
        )
    }
}

pub open spec fn wake_pass(
    s: SchedulerState,
    config: AppConfig,
    state: SystemState,
    local: LocalNow,
    n: int,
) -> SchedulerState
    decreases n,
{
    if n <= 0 {
        s
    } else {
        by_wake_time(
            wake_pass(s, config, state, local, n - 1),
            config,
            state,
            local,
            config.rooms.entries_seq()[n - 1].0@,
            config.rooms.entries_seq()[n - 1].1,
        )
    }
}

pub open spec fn fallback_pass(
    s: SchedulerState,
    config: AppConfig,
    state: SystemState,
    local: LocalNow,
    now: Instant,
    n: int,
) -> SchedulerState
    decreases n,
{
    if n <= 0 {
        s
    } else {
        by_fallback(
            fallback_pass(s, config, state, local, now, n - 1),
            config,
            state,
            local,
            now,
            config.rooms.entries_seq()[n - 1].0@,
            config.rooms.entries_seq()[n - 1].1,
        )
    }
}

/// One look at all rooms: their schedules, then their wake times, then what both missed.
pub open spec fn scheduler_round(
    s: SchedulerState,
    config: AppConfig,
    state: SystemState,
    local: LocalNow,
    now: Instant,
) -> SchedulerState {
    let n = config.rooms.entries_seq().len() as int;
    fallback_pass(
        wake_pass(
            schedule_pass(s, config.rooms.entries_seq(), state, local, n),
            config,
            state,
            local,
            n,
        ),
        config,
        state,
        local,
        now,
        n,
    )
}

/// Scheduled night mode activation and deactivation.
#[derive(Debug)]
pub struct NightModeScheduler {
    /// Rooms manually deactivated during the current schedule window (no re-activation).
    pub suppressed: NameSet,
    /// Rooms that were before wake_time on the previous tick (edge detection).
    pub pre_wake: NameSet,
}

impl NightModeScheduler {
    /// What the scheduler remembers, beside `switches`.
    pub open spec fn with(self, switches: Seq<NightSwitch>) -> SchedulerState {
        SchedulerState {
            suppressed: self.suppressed@,
            pre_wake: self.pre_wake@,
            switches: switch_views(switches),
        }
    }

    pub fn new() -> (r: Self)
        ensures
            r.suppressed@ == Set::<Seq<char>>::empty(),
            r.pre_wake@ == Set::<Seq<char>>::empty(),
    {
        NightModeScheduler { suppressed: NameSet::new(), pre_wake: NameSet::new() }
    }

    /// Remembers that night mode was switched off in a room, so that its schedule does not switch
    /// it on again.
    pub fn note_event(&mut self, event: &Event)
        ensures
            final(self).pre_wake == old(self).pre_wake,
            final(self).suppressed@ == (match event@ {
                Event::NightModeChanged { room_id, active } => if active {
                    old(self).suppressed@
                } else {
                    old(self).suppressed@.insert(room_id)
                },
                _ => old(self).suppressed@,
            }),
    {
        if let Event::NightModeChanged { room_id, active } = event {
            if !*active {
                self.suppressed.insert(room_id.clone());
            }
        }
    }

    fn pass_schedules(
        &mut self,
        config: &AppConfig,
        state: &SystemState,
        local: &LocalNow,
        switches: &mut Vec<NightSwitch>,
    )
        ensures
            final(self).with(final(switches)@) == schedule_pass(
                old(self).with(old(switches)@),
                config.rooms.entries_seq(),
                *state,
                *local,
                config.rooms.entries_seq().len() as int,
            ),
    {
        let ghost start = self.with(switches@);
        let ghost entries = config.rooms.entries_seq();
        let n: usize = config.rooms.len();
        let mut i: usize = 0;
        while i < n
            invariant
                i <= n == entries.len(),
                entries == config.rooms.entries_seq(),
                self.with(switches@) == schedule_pass(start, entries, *state, *local, i as int),
            decreases n - i,
        {
            let room_id = config.rooms.key_at(i);
            let room_config = config.rooms.value_at(i);
            let enm = room_config.effective_night_mode(&config.night_mode.defaults);
            if let Some(schedule) = enm.schedule {
                let in_window: bool = schedule.matches(local);
                let is_active: bool = night_mode_active(state, room_id.as_str());
                if in_window && !is_active && !self.suppressed.contains(room_id.as_str()) {
                    add_switch(switches, room_id, true);
                } else if !in_window && is_active {
                    add_switch(switches, room_id, false);
                }
                if !in_window {
                    self.suppressed.remove(room_id.as_str());
                }
            }
            i = i + 1;
        }
    }

    fn pass_wake_times(
        &mut self,
        config: &AppConfig,
        state: &SystemState,
        local: &LocalNow,
        switches: &mut Vec<NightSwitch>,
    )
        ensures
            final(self).with(final(switches)@) == wake_pass(
                old(self).with(old(switches)@),
                *config,
                *state,
                *local,
                config.rooms.entries_seq().len() as int,
            ),
    {
        let ghost start = self.with(switches@);
        let n: usize = config.rooms.len();
        let mut i: usize = 0;
        while i < n
            invariant
                i <= n == config.rooms.entries_seq().len(),
                self.with(switches@) == wake_pass(start, *config, *state, *local, i as int),
            decreases n - i,
        {
            let room_id = config.rooms.key_at(i);
            let room_config = config.rooms.value_at(i);
            if room_config.circadian_enabled {
                let defaults = room_config.effective_circadian(&config.circadian.defaults);
                let wake: u32 = parse_time_to_minutes(defaults.wake_time.as_str());
                let is_active: bool = night_mode_active(state, room_id.as_str());
                if should_wake_deactivate(
                    &mut self.pre_wake,
                    room_id.as_str(),
                    wake,
                    local.minutes as u32,
                    is_active,
                ) {
                    self.suppressed.insert(room_id.clone());
                    add_switch(switches, room_id, false);
                }
            }
            i = i + 1;
        }
    }

    fn pass_fallback(
        &mut self,
        config: &AppConfig,
        state: &SystemState,
        local: &LocalNow,
        now: Instant,
        switches: &mut Vec<NightSwitch>,
    )
        ensures
            final(self).with(final(switches)@) == fallback_pass(
                old(self).with(old(switches)@),
                *config,
                *state,
                *local,
                now,
                config.rooms.entries_seq().len() as int,
            ),
    {
        let ghost start = self.with(switches@);
        let n: usize = config.rooms.len();
        let mut i: usize = 0;
        while i < n
            invariant
                i <= n == config.rooms.entries_seq().len(),
                self.with(switches@) == fallback_pass(
                    start,
                    *config,
                    *state,
                    *local,
                    now,
                    i as int,
                ),
            decreases n - i,
        {
            let room_id = config.rooms.key_at(i);
            let room_config = config.rooms.value_at(i);
            if room_config.circadian_enabled {
                let defaults = room_config.effective_circadian(&config.circadian.defaults);
                let wake: u32 = parse_time_to_minutes(defaults.wake_time.as_str());
                let minutes: u32 = local.minutes as u32;
                let in_catchup: bool = minutes >= wake && minutes <= wake + 60;
                let stale: bool = match state.rooms.get(room_id.as_str()) {
                    Some(rs) => rs.night_mode_active && match rs.night_mode_since {
                        Some(since) => now.duration_since(since).nanos > 7200 * 1_000_000_000,
                        None => false,
                    },
                    None => false,
                };
                if in_catchup && stale {
                    self.suppressed.insert(room_id.clone());
                    add_switch(switches, room_id, false);
                }
            }
            i = i + 1;
        }
    }

    /// One look at all rooms. The switches are due in this order.
    pub fn check_schedules(
        &mut self,
        config: &AppConfig,
        state: &SystemState,
        local: &LocalNow,
        now: Instant,
    ) -> (switches: Vec<NightSwitch>)
        ensures
            final(self).with(switches@) == scheduler_round(
                old(self).with(Seq::empty()),
                *config,
                *state,
                *local,
                now,
            ),
    {
        let mut switches: Vec<NightSwitch> = Vec::new();
        self.pass_schedules(config, state, local, &mut switches);
        self.pass_wake_times(config, state, local, &mut switches);
        self.pass_fallback(config, state, local, now, &mut switches);
        switches
    }
}

/// The scheduler has something to look at: a night mode schedule or a room that follows the curve.
pub fn should_run(config: &AppConfig) -> (r: bool)
    ensures
        r == exists|i: int|
            0 <= i < config.rooms.entries_seq().len() && ((
            #[trigger] config.rooms.entries_seq()[i]).1.night_schedule() is Some
                || config.rooms.entries_seq()[i].1.circadian_enabled),
{
    let n: usize = config.rooms.len();
    let mut i: usize = 0;
    while i < n
        invariant
            i <= n == config.rooms.entries_seq().len(),
            forall|j: int|
                0 <= j < i ==> !((#[trigger] config.rooms.entries_seq()[j]).1.night_schedule() is Some
                    || config.rooms.entries_seq()[j].1.circadian_enabled),
        decreases n - i,
    {
        let room_config = config.rooms.value_at(i);
        let enm = room_config.effective_night_mode(&config.night_mode.defaults);
        if enm.schedule.is_some() || room_config.circadian_enabled {
            return true;
        }
        i = i + 1;
    }
    false
}

/// Wake-time edge detection: returns true if night mode should be deactivated because wake time
/// was just crossed.
pub fn should_wake_deactivate(
    pre_wake: &mut NameSet,
    room_id: &str,
    wake_minutes: u32,
    current_minutes: u32,
    night_mode_active: bool,
) -> (r: bool)
    ensures
        r == crossed_wake(
            old(pre_wake)@,
            room_id@,
            wake_minutes,
            current_minutes,
            night_mode_active,
        ),
        final(pre_wake)@ == pre_wake_after(
            old(pre_wake)@,
            room_id@,
            wake_minutes,
            current_minutes,
        ),
{
    if current_minutes < wake_minutes {
        // Before wake_time: record that we're in pre-wake state
        pre_wake.insert(room_id.to_owned());
        false
    } else {
        let was_before: bool = pre_wake.remove(room_id);
        was_before && night_mode_active
    }
}

/// Wake time is crossed once: a second look after it finds nothing to do, until the room was seen
/// before its wake time again.
pub proof fn law_wake_time_is_crossed_once(
    pre_wake: Set<Seq<char>>,
    id: Seq<char>,
    wake: u32,
    first: u32,
    second: u32,
    active: bool,
)
    requires
        first >= wake,
    ensures
        !crossed_wake(pre_wake_after(pre_wake, id, wake, first), id, wake, second, active),
{
}

/// A look at one room leaves what is remembered of the others alone.
pub proof fn law_rooms_wake_independently(
    pre_wake: Set<Seq<char>>,
    id: Seq<char>,
    other: Seq<char>,
    wake: u32,
    now: u32,
)
    requires
        id != other,
    ensures
        pre_wake_after(pre_wake, id, wake, now).contains(other) == pre_wake.contains(other),
{
}

/// While night mode is suppressed in a room, its schedule does not switch it on.
pub proof fn law_suppressed_rooms_stay_off(
    s: SchedulerState,
    state: SystemState,
    local: LocalNow,
    id: Seq<char>,
    room: RoomConfig,
)
    requires
        s.suppressed.contains(id),
    ensures
        ({
            let t = by_schedule(s, state, local, id, room);
            t.switches == s.switches || t.switches == s.switches.push(
                NightSwitch { room_id: id, active: false },
            )
        }),
{
}

/// What the scheduler has in mind of one room: whether night mode is suppressed there, whether it
/// was before wake time when last looked at, and which switches it has found due.
pub struct RoomNight {
    pub suppressed: bool,
    pub pre_wake: bool,
    pub switch_on: bool,
    pub switch_off: bool,
}

impl SchedulerState {
    pub open spec fn about(self, id: Seq<char>) -> RoomNight {
        RoomNight {
            suppressed: self.suppressed.contains(id),
            pre_wake: self.pre_wake.contains(id),
            switch_on: self.switches.contains(NightSwitch { room_id: id, active: true }),
            switch_off: self.switches.contains(NightSwitch { room_id: id, active: false }),
        }
    }
}

proof fn lemma_switched(s: SchedulerState, to: Seq<char>, active: bool, id: Seq<char>)
    ensures
        s.switched(to, active).about(id) == (RoomNight {
            switch_on: s.about(id).switch_on || (to == id && active),
            switch_off: s.about(id).switch_off || (to == id && !active),
            ..s.about(id)
        }),
{
    let added = NightSwitch { room_id: to, active };
    let after = s.switches.push(added);
    assert(after[after.len() - 1] == added);
    assert forall|x: NightSwitch<Seq<char>>|
        after.contains(x) == (s.switches.contains(x) || x == added) by {
        if s.switches.contains(x) {
            let k = s.switches.index_of(x);
            assert(after[k] == x);
        }
        if after.contains(x) {
            let k = after.index_of(x);
            assert(after[k] == x);
            if k < s.switches.len() {
                assert(s.switches[k] == x);
            }
        }
    }
}

proof fn lemma_schedule_pass(
    s: SchedulerState,
    rooms: Seq<(String, RoomConfig)>,
    state: SystemState,
    local: LocalNow,
    n: int,
    i: int,
)
    requires
        0 <= i < rooms.len(),
        0 <= n <= rooms.len(),
        distinct_keys(rooms),
    ensures
        ({
            let id = rooms[i].0@;
            let before = s.about(id);
            let night = state.rooms@.contains_key(id) && state.rooms@[id].night_mode_active;
            let scheduled = rooms[i].1.night_schedule();
            let inside = scheduled matches Some(schedule) && schedule.holds(local);
            let outside = scheduled is Some && !inside;
            schedule_pass(s, rooms, state, local, n).about(id) == if n <= i {
                before
            } else {
                RoomNight {
                    suppressed: before.suppressed && !outside,
                    pre_wake: before.pre_wake,
                    switch_on: before.switch_on || (inside && !night && !before.suppressed),
                    switch_off: before.switch_off || (outside && night),
                }
            }
        }),
    decreases n,
{
    if n > 0 {
        lemma_schedule_pass(s, rooms, state, local, n - 1, i);
        let t = schedule_pass(s, rooms, state, local, n - 1);
        let id = rooms[i].0@;
        let to = rooms[n - 1].0@;
        if i < n - 1 {
            assert(rooms[i].0@ != rooms[n - 1].0@);
        }
        if n - 1 < i {
            assert(rooms[n - 1].0@ != rooms[i].0@);
        }
        lemma_switched(t, to, true, id);
        lemma_switched(t, to, false, id);
    }
}

proof fn lemma_wake_pass(
    s: SchedulerState,
    config: AppConfig,
    state: SystemState,
    local: LocalNow,
    n: int,
    i: int,
    m: nat,
)
    requires
        0 <= i < config.rooms.entries_seq().len(),
        0 <= n <= config.rooms.entries_seq().len(),
        config.rooms.wf(),
        wakes_at(config, config.rooms.entries_seq()[i].1, m),
    ensures
        ({
            let (name, room) = config.rooms.entries_seq()[i];
            let before = s.about(name@);
            let night = state.rooms@.contains_key(name@) && state.rooms@[name@].night_mode_active;
            let crossed = room.circadian_enabled && before.pre_wake && local.minutes >= m && night;
            wake_pass(s, config, state, local, n).about(name@) == if n <= i {
                before
            } else {
                RoomNight {
                    suppressed: before.suppressed || crossed,
                    pre_wake: if room.circadian_enabled {
                        local.minutes < m
                    } else {
                        before.pre_wake
                    },
                    switch_on: before.switch_on,
                    switch_off: before.switch_off || crossed,
                }
            }
        }),
    decreases n,
{
    if n > 0 {
        lemma_wake_pass(s, config, state, local, n - 1, i, m);
        let rooms = config.rooms.entries_seq();
        let t = wake_pass(s, config, state, local, n - 1);
        let id = rooms[i].0@;
        let (name, room) = rooms[n - 1];
        if i < n - 1 {
            assert(rooms[i].0@ != rooms[n - 1].0@);
        }
        if n - 1 < i {
            assert(rooms[n - 1].0@ != rooms[i].0@);
        }
        let wake = wake_minutes(config, room);
        let now = local.minutes as u32;
        let u = SchedulerState { pre_wake: pre_wake_after(t.pre_wake, name@, wake, now), ..t };
        lemma_switched(u.suppress(name@), name@, false, id);
    }
}

proof fn lemma_fallback_pass(
    s: SchedulerState,
    config: AppConfig,
    state: SystemState,
    local: LocalNow,
    now: Instant,
    n: int,
    i: int,
    m: nat,
)
    requires
        0 <= i < config.rooms.entries_seq().len(),
        0 <= n <= config.rooms.entries_seq().len(),
        config.rooms.wf(),
        wakes_at(config, config.rooms.entries_seq()[i].1, m),
    ensures
        ({
            let (name, room) = config.rooms.entries_seq()[i];
            let before = s.about(name@);
            let late = room.circadian_enabled && m <= local.minutes <= m + 60
                && has_been_night_for_long(state, name@, now);
            fallback_pass(s, config, state, local, now, n).about(name@) == if n <= i {
                before
            } else {
                RoomNight {
                    suppressed: before.suppressed || late,
                    switch_off: before.switch_off || late,
                    ..before
                }
            }
        }),
    decreases n,
{
    if n > 0 {
        lemma_fallback_pass(s, config, state, local, now, n - 1, i, m);
        let rooms = config.rooms.entries_seq();
        let t = fallback_pass(s, config, state, local, now, n - 1);
        if i < n - 1 {
            assert(rooms[i].0@ != rooms[n - 1].0@);
        }
        if n - 1 < i {
            assert(rooms[n - 1].0@ != rooms[i].0@);
        }
        lemma_switched(t.suppress(rooms[n - 1].0@), rooms[n - 1].0@, false, rooms[i].0@);
    }
}

/// The room's day begins at minute `m`: that is what its own wake time says, or what the default one
/// says where it has none.
pub open spec fn wakes_at(config: AppConfig, room: RoomConfig, m: nat) -> bool {
    let text = match room.circadian {
        Some(own) => match own.wake_time {
            Some(time) => time@,
            None => config.circadian.defaults.wake_time@,
        },
        None => config.circadian.defaults.wake_time@,
    };
    hm_minutes(text) == Ok::<nat, TimeProblem>(m) && m < 1440
}

/// The room is in night mode and has been for more than two hours.
pub open spec fn has_been_night_for_long(state: SystemState, id: Seq<char>, now: Instant) -> bool {
    state.rooms@.contains_key(id) && state.rooms@[id].night_mode_active && (
    state.rooms@[id].night_mode_since matches Some(since) && now.nanos > since.nanos
        + 7_200_000_000_000)
}

/// One look of the scheduler, as far as one room goes.
///
/// Night mode is switched on exactly where the room's schedule holds, night mode is not on already,
/// and it is not suppressed. It is switched off exactly where it is on and the room has a schedule
/// that does not hold, or where the room follows the curve and either its own wake time was crossed
/// since the last look, or it is within the hour after that and night mode has been on for more than
/// two hours.
///
/// A switch-off for the sake of the wake time suppresses night mode; the end of the schedule's
/// window ends that. The scheduler remembers whether the room's own wake time is still to come.
pub proof fn law_night_mode_comes_and_goes(
    s: SchedulerState,
    config: AppConfig,
    state: SystemState,
    local: LocalNow,
    now: Instant,
    i: int,
    m: nat,
)
    requires
        config.rooms.wf(),
        0 <= i < config.rooms.entries_seq().len(),
        wakes_at(config, config.rooms.entries_seq()[i].1, m),
        s.switches.len() == 0,
    ensures
        ({
            let (name, room) = config.rooms.entries_seq()[i];
            let id = name@;
            let night = state.rooms@.contains_key(id) && state.rooms@[id].night_mode_active;
            let scheduled = room.night_schedule();
            let inside = scheduled matches Some(schedule) && schedule.holds(local);
            let outside = scheduled is Some && !inside;
            let crossed = room.circadian_enabled && night && s.pre_wake.contains(id)
                && local.minutes >= m;
            let late = room.circadian_enabled && m <= local.minutes <= m + 60
                && has_been_night_for_long(state, id, now);
            let after = scheduler_round(s, config, state, local, now);
            &&& after.switches.contains(NightSwitch { room_id: id, active: true }) <==> inside
                && !night && !s.suppressed.contains(id)
            &&& after.switches.contains(NightSwitch { room_id: id, active: false }) <==> (outside
                && night) || crossed || late
            &&& after.suppressed.contains(id) <==> (s.suppressed.contains(id) && !outside)
                || crossed || late
            &&& room.circadian_enabled ==> (after.pre_wake.contains(id) <==> local.minutes < m)
        }),
{
    let n = config.rooms.entries_seq().len() as int;
    let rooms = config.rooms.entries_seq();
    let id = rooms[i].0@;
    let a = schedule_pass(s, rooms, state, local, n);
    let b = wake_pass(a, config, state, local, n);
    assert(!s.about(id).switch_on && !s.about(id).switch_off);
    lemma_schedule_pass(s, rooms, state, local, n, i);
    lemma_wake_pass(a, config, state, local, n, i, m);
    lemma_fallback_pass(b, config, state, local, now, n, i, m);
    assert(scheduler_round(s, config, state, local, now).about(id) == fallback_pass(
        b,
        config,
        state,
        local,
        now,
        n,
    ).about(id));
}

/// Night mode that nobody switches off by hand ends at the room's own wake time: after a look before
/// that time, the first look at or after it switches night mode off, and no look before it does,
/// as long as the room has no schedule.
pub proof fn law_night_mode_ends_at_the_rooms_wake_time(
    s: SchedulerState,
    config: AppConfig,
    state: SystemState,
    earlier: LocalNow,
    later: LocalNow,
    then: Instant,
    now: Instant,
    i: int,
    m: nat,
)
    requires
        config.rooms.wf(),
        0 <= i < config.rooms.entries_seq().len(),
        wakes_at(config, config.rooms.entries_seq()[i].1, m),
        config.rooms.entries_seq()[i].1.circadian_enabled,
        config.rooms.entries_seq()[i].1.night_schedule() is None,
        state.rooms@.contains_key(config.rooms.entries_seq()[i].0@),
        state.rooms@[config.rooms.entries_seq()[i].0@].night_mode_active,
        s.switches.len() == 0,
        earlier.minutes < m,
    ensures
        ({
            let id = config.rooms.entries_seq()[i].0@;
            let off = NightSwitch { room_id: id, active: false };
            let first = scheduler_round(s, config, state, earlier, then);
            let second = scheduler_round(
                SchedulerState { switches: Seq::empty(), ..first },
                config,
                state,
                later,
                now,
            );
            &&& !first.switches.contains(off)
            &&& second.switches.contains(off) <==> later.minutes >= m
        }),
{
    let first = scheduler_round(s, config, state, earlier, then);
    let again = SchedulerState { switches: Seq::empty(), ..first };
    law_night_mode_comes_and_goes(s, config, state, earlier, then, i, m);
    law_night_mode_comes_and_goes(again, config, state, later, now, i, m);
}

/// What switching night mode on tells a lit room: the group, or each of its lamps, the room's night
/// mode values, over three seconds; that is written down as the automation's. In every room the flag
/// is set and the curve paused first, and the switch announced last.
pub proof fn law_lit_rooms_are_told_the_night_values(
    config: AppConfig,
    state: SystemState,
    id: Seq<char>,
    room: RoomConfig,
    k: int,
)
    ensures
        ({
            let effects = activation(config, state, id, room);
            let values = room.night_values(config.night_mode.defaults);
            let ct = mired(values.color_temp_k);
            let lit = state.rooms@.contains_key(id) && state.rooms@[id].lights_on;
            let lamps = if room.z2m_group is Some {
                1
            } else {
                room.lights@.len() as int
            };
            &&& effects[0] == (Effect::Update {
                room_id: id,
                update: RoomStateUpdate::NightMode(true),
            })
            &&& effects[1] == (Effect::Update {
                room_id: id,
                update: RoomStateUpdate::CircadianPause { paused: true, until: None },
            })
            &&& effects.last() == (Effect::Emit {
                event: Event::NightModeChanged { room_id: id, active: true },
            })
            &&& !lit ==> effects.len() == 3
            &&& lit ==> effects.len() == 5 + lamps
            &&& lit && room.z2m_group is Some ==> effects[2] == (Effect::Publish {
                command: LightCommand::TurnOnGroup {
                    group: room.z2m_group->0@,
                    brightness: Some(values.brightness),
                    color_temp_mired: Some(ct),
                    transition: Some(3),
                },
                required: true,
            })
            &&& lit && room.z2m_group is None && 0 <= k < room.lights@.len() ==> effects[2 + k]
                == (Effect::Publish {
                command: LightCommand::TurnOnIeee {
                    ieee: room.lights@[k]@,
                    brightness: Some(values.brightness),
                    color_temp_mired: Some(ct),
                    transition: Some(3),
                },
                required: false,
            })
            &&& lit ==> effects[2 + lamps] == (Effect::Update {
                room_id: id,
                update: RoomStateUpdate::LightsOn {
                    brightness: Some(values.brightness),
                    color_temp_mired: Some(ct),
                    source: UpdateSource::Automation,
                },
            })
            &&& lit ==> effects[3 + lamps] == (Effect::Update {
                room_id: id,
                update: RoomStateUpdate::JehaPush {
                    brightness: Some(values.brightness),
                    color_temp_mired: Some(ct),
                },
            })
        }),
{
}

/// What switching night mode off tells a lit room: the group, or each of its lamps, where the curve
/// is, over three seconds, where that is known. In every room the flag is cleared and the pause
/// lifted first, and the switch announced last.
pub proof fn law_lit_rooms_go_back_to_the_curve(
    state: SystemState,
    id: Seq<char>,
    room: RoomConfig,
    target: Option<CircadianTarget>,
    k: int,
)
    ensures
        ({
            let effects = deactivation(state, id, room, target);
            let lit = state.rooms@.contains_key(id) && state.rooms@[id].lights_on;
            let lamps = if room.z2m_group is Some {
                1
            } else {
                room.lights@.len() as int
            };
            &&& effects[0] == (Effect::Update {
                room_id: id,
                update: RoomStateUpdate::NightMode(false),
            })
            &&& effects[1] == (Effect::Update {
                room_id: id,
                update: RoomStateUpdate::CircadianPause { paused: false, until: None },
            })
            &&& effects.last() == (Effect::Emit {
                event: Event::NightModeChanged { room_id: id, active: false },
            })
            &&& !lit ==> effects.len() == 3
            &&& lit && target is None ==> effects.len() == 4
            &&& lit ==> effects[2] == (Effect::Update {
                room_id: id,
                update: RoomStateUpdate::LightsOn {
                    brightness: None,
                    color_temp_mired: None,
                    source: UpdateSource::Circadian,
                },
            })
            &&& lit && target is Some ==> effects.len() == 6 + lamps
            &&& lit && target is Some && room.z2m_group is Some ==> effects[3] == (
            Effect::Publish {
                command: LightCommand::TurnOnGroup {
                    group: room.z2m_group->0@,
                    brightness: Some(target->0.brightness),
                    color_temp_mired: Some(target->0.color_temp_mired),
                    transition: Some(3),
                },
                required: false,
            })
            &&& lit && target is Some && room.z2m_group is None && 0 <= k < room.lights@.len()
                ==> effects[3 + k] == (Effect::Publish {
                command: LightCommand::TurnOnIeee {
                    ieee: room.lights@[k]@,
                    brightness: Some(target->0.brightness),
                    color_temp_mired: Some(target->0.color_temp_mired),
                    transition: Some(3),
                },
                required: false,
            })
            &&& lit && target is Some ==> effects[4 + lamps] == (Effect::Update {
                room_id: id,
                update: RoomStateUpdate::JehaPush {
                    brightness: Some(target->0.brightness),
                    color_temp_mired: Some(target->0.color_temp_mired),
                },
            })
        }),
{
}

} // verus!
