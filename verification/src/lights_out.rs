//! Everything off at a fixed time of the night.

use vstd::prelude::*;

use crate::automation::engine::{is_lit, lights_on};
use crate::clock::{MAX_SECONDS, MIN_SECONDS};
use crate::config::types::{AppConfig, RoomConfig};
use crate::effect::{
    lemma_in_either, publishes, turn_off_all, updates, Effect, LightCommand, Plan,
};
use crate::schedule::LocalNow;
use crate::state::{RoomStateUpdate, SystemState};
use crate::text::{halves, parse_unsigned, parsed, split_in_two};

verus! {

/// The minutes since midnight that a time stands for. An hour that cannot be read counts as 1, a
/// minute as 0; a text of another shape stands for 01:00.
pub open spec fn lights_out_minutes(time: Seq<char>) -> nat {
    match halves(time, ':') {
        Some((h, m)) => {
            let hour: nat = match parsed(h, u32::MAX as nat) {
                Some(hour) => hour,
                None => 1,
            };
            let minute: nat = match parsed(m, u32::MAX as nat) {
                Some(minute) => minute,
                None => 0,
            };
            hour * 60 + minute
        },
        None => 60,
    }
}

/// The minutes since midnight that a time stands for, where they fit in 32 bits.
pub fn try_parse_time_to_minutes(time: &str) -> (r: Option<u32>)
    ensures
        match r {
            Some(minutes) => minutes == lights_out_minutes(time@),
            None => lights_out_minutes(time@) > u32::MAX,
        },
{
    match split_in_two(time, ':') {
        Some((h, m)) => {
            let hour: u64 = match parse_unsigned(h.as_str(), u32::MAX as u64) {
                Some(hour) => hour,
                None => 1,
            };
            let minute: u64 = match parse_unsigned(m.as_str(), u32::MAX as u64) {
                Some(minute) => minute,
                None => 0,
            };
            let minutes: u64 = hour * 60 + minute;
            if minutes <= u32::MAX as u64 {
                Some(minutes as u32)
            } else {
                None
            }
        },
        None => Some(60),
    }
}

pub fn parse_time_to_minutes(time: &str) -> (r: u32)
    requires
        lights_out_minutes(time@) <= u32::MAX,
    ensures
        r == lights_out_minutes(time@),
{
    match try_parse_time_to_minutes(time) {
        Some(minutes) => minutes,
        None => 60,
    }
}

/// The minute of the day in a time zone.
pub fn current_minutes(timezone: &str) -> (r: u32)
    ensures
        r < 1440,
        exists|seconds: i64|
            MIN_SECONDS <= seconds <= MAX_SECONDS && r == LocalNow::reading(
                #[trigger] crate::schedule::clock_or_utc(seconds, timezone@),
            ).minutes,
{
    LocalNow::now(timezone).minutes as u32
}

/// How far two minutes of the day lie apart, not reckoning over midnight.
pub open spec fn distance(a: u32, b: u32) -> int {
    if a >= b {
        a - b
    } else {
        b - a
    }
}

/// Remembers whether the lights were put out around the target time.
#[derive(Clone, Copy, Debug, PartialEq, Eq, Structural)]
pub struct LightsOutTask {
    pub fired_today: bool,
}

impl LightsOutTask {
    pub fn new() -> (r: Self)
        ensures
            !r.fired_today,
    {
        LightsOutTask { fired_today: false }
    }

    /// Whether a look at minute `now` puts the lights out.
    pub open spec fn fires(self, target: u32, now: u32) -> bool {
        now == target && !self.fired_today
    }

    /// What is remembered after a look at minute `now`.
    pub open spec fn after(self, target: u32, now: u32) -> LightsOutTask {
        LightsOutTask {
            fired_today: if now == target {
                true
            } else {
                self.fired_today && distance(now, target) <= 2
            },
        }
    }

    /// One look at the clock: returns true if the lights are to be put out.
    pub fn tick(&mut self, target_minutes: u32, now_minutes: u32) -> (r: bool)
        ensures
            r == old(self).fires(target_minutes, now_minutes),
            *final(self) == old(self).after(target_minutes, now_minutes),
    {
        let apart: u32 = if now_minutes >= target_minutes {
            now_minutes - target_minutes
        } else {
            target_minutes - now_minutes
        };
        // Reset the flag when we move past the target window
        if apart > 2 {
            self.fired_today = false;
        }
        // Fire if we're within the target minute and haven't fired yet
        if !self.fired_today && now_minutes == target_minutes {
            self.fired_today = true;
            true
        } else {
            false
        }
    }
}

/// Once the lights were put out, no look puts them out again before the clock was seen more than
/// two minutes away from the target.
pub proof fn law_fires_once_per_window(task: LightsOutTask, target: u32, first: u32, second: u32)
    requires
        task.after(target, first).fired_today,
    ensures
        !task.after(target, first).fires(target, second),
        distance(second, target) <= 2 ==> task.after(target, first).after(
            target,
            second,
        ).fired_today,
{
}

/// What putting a room's lights out does. Rooms that are excluded or already dark are left alone.
pub open spec fn room_lights_out(state: SystemState, id: Seq<char>, room: RoomConfig) -> Seq<
    Effect<Seq<char>>,
> {
    if room.lights_out && is_lit(state, id) {
        (match room.z2m_group {
            Some(group) => seq![
                publishes(LightCommand::TurnOffGroup { group: group@, transition: Some(5) }),
            ],
            None => turn_off_all(room.lights@, Some(5), false),
        }) + seq![updates(id, RoomStateUpdate::LightsOff)]
    } else {
        Seq::empty()
    }
}

/// What putting the lights of the first `n` rooms out does.
pub open spec fn lights_out_effects(config: AppConfig, state: SystemState, n: int) -> Seq<
    Effect<Seq<char>>,
>
    decreases n,
{
    if n <= 0 {
        Seq::empty()
    } else {
        lights_out_effects(config, state, n - 1) + room_lights_out(
            state,
            config.rooms.entries_seq()[n - 1].0@,
            config.rooms.entries_seq()[n - 1].1,
        )
    }
}

/// Puts the lights of all rooms out.
pub fn turn_off_all_rooms(config: &AppConfig, state: &SystemState) -> (plan: Plan)
    ensures
        plan@ == lights_out_effects(
            *config,
            *state,
            config.rooms.entries_seq().len() as int,
        ),
{
    let mut plan: Plan = Plan::new();
    let n: usize = config.rooms.len();
    let mut i: usize = 0;
    while i < n
        invariant
            i <= n == config.rooms.entries_seq().len(),
            plan@ == lights_out_effects(*config, *state, i as int),
        decreases n - i,
    {
        let room_id = config.rooms.key_at(i);
        let room_config = config.rooms.value_at(i);
        if room_config.lights_out && lights_on(state, room_id.as_str()) {
            match &room_config.z2m_group {
                Some(group) => {
                    plan.publish(
                        LightCommand::TurnOffGroup { group: group.clone(), transition: Some(5) },
                    );
                },
                None => {
                    plan.turn_off_each(&room_config.lights, Some(5), false);
                },
            }
            plan.update(room_id.as_str(), RoomStateUpdate::LightsOff);
        }
        i = i + 1;
        assert(plan@ =~= lights_out_effects(*config, *state, i as int));
    }
    plan
}

/// Every room that is lit and not left out goes dark, over five seconds and with all its lamps, and
/// no other room is touched.
pub proof fn law_all_rooms_go_dark(
    config: AppConfig,
    state: SystemState,
    n: int,
    effect: Effect<Seq<char>>,
)
    requires
        0 <= n <= config.rooms.entries_seq().len(),
    ensures
        lights_out_effects(config, state, n).contains(effect) <==> exists|i: int|
            0 <= i < n && goes_dark_by(
                state,
                (#[trigger] config.rooms.entries_seq()[i]).0@,
                config.rooms.entries_seq()[i].1,
                effect,
            ),
    decreases n,
{
    if n > 0 {
        law_all_rooms_go_dark(config, state, n - 1, effect);
        let (name, room) = config.rooms.entries_seq()[n - 1];
        let rest = lights_out_effects(config, state, n - 1);
        let own = room_lights_out(state, name@, room);
        lemma_in_either(rest, own, effect);
        let off = updates(name@, RoomStateUpdate::LightsOff);
        let lamps = own.drop_last();
        if own.len() > 0 {
            assert(own =~= lamps + seq![off]);
            lemma_in_either(lamps, seq![off], effect);
            assert(seq![off][0] == off);
            if room.z2m_group is Some {
                assert(lamps =~= seq![own[0]]);
                assert(lamps[0] == own[0]);
            } else {
                assert forall|k: int| 0 <= k < room.lights@.len() implies lamps[k] == (
                Effect::Publish {
                    command: LightCommand::TurnOffIeee {
                        ieee: (#[trigger] room.lights@[k])@,
                        transition: Some(5),
                    },
                    required: false,
                }) by {}
                if lamps.contains(effect) {
                    let k = lamps.index_of(effect);
                    assert(lamps[k] == effect);
                    assert(room.lights@[k] == room.lights@[k]);
                }
            }
        }
        assert(own.contains(effect) <==> goes_dark_by(state, name@, room, effect));
        assert(config.rooms.entries_seq()[n - 1] == (name, room));
    }
}

/// The effect is one by which a lit room that is not left out goes dark: its group is told to, or
/// each of its lamps, and it is written down.
pub open spec fn goes_dark_by(
    state: SystemState,
    id: Seq<char>,
    room: RoomConfig,
    effect: Effect<Seq<char>>,
) -> bool {
    &&& room.lights_out
    &&& state.rooms@.contains_key(id)
    &&& state.rooms@[id].lights_on
    &&& effect == (Effect::Update { room_id: id, update: RoomStateUpdate::LightsOff }) || (
    room.z2m_group matches Some(group) && effect == (Effect::Publish {
        command: LightCommand::TurnOffGroup { group: group@, transition: Some(5) },
        required: true,
    })) || (room.z2m_group is None && exists|k: int|
        0 <= k < room.lights@.len() && effect == (Effect::Publish {
            command: LightCommand::TurnOffIeee {
                ieee: (#[trigger] room.lights@[k])@,
                transition: Some(5),
            },
            required: false,
        }))
}

/// The lights are put out at the target minute and at no other, and after a look more than two
/// minutes away from it they can be put out again.
pub proof fn law_lights_go_out_at_the_target(
    task: LightsOutTask,
    target: u32,
    away: u32,
    now: u32,
)
    requires
        away + 2 < target || target + 2 < away,
    ensures
        task.fires(target, now) ==> now == target,
        !task.fired_today ==> task.fires(target, target),
        task.after(target, target).fired_today,
        task.after(target, away).fires(target, now) <==> now == target,
{
}

/// A time of day stands for its minutes since midnight, and a text without a colon for one o'clock.
pub proof fn law_lights_out_times_are_read(minutes: nat, text: Seq<char>)
    requires
        minutes < 1440,
        forall|i: int| 0 <= i < text.len() ==> text[i] != ':',
    ensures
        lights_out_minutes(crate::schedule::hm_text(minutes)) == minutes,
        lights_out_minutes(text) == 60,
{
    crate::schedule::law_time_of_day_round_trip(minutes);
    let s = crate::schedule::hm_text(minutes);
    let (h, m) = halves(s, ':')->0;
    assert(parsed(h, 65_535) is Some && parsed(m, 65_535) is Some);
    if exists|p: int| crate::text::only_at(text, ':', p) {
        let p = choose|p: int| crate::text::only_at(text, ':', p);
        assert(text[p] == ':');
    }
}

} // verus!
