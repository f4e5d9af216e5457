//! What the parts promise together.

use vstd::prelude::*;

use crate::api::{recall_effects, resumption, scene_effects, snoozing};
use crate::automation::action::action_effects;
use crate::automation::engine::{is_lit, pause_effect};
use crate::calibration::{max_mired, min_mired, range_ok};
use crate::circadian::curve::{CircadianTarget, Eased};
use crate::circadian::engine::{
    is_followed, lemma_taker, newcomer_ready, override_end, published_color_temp, push_record,
    room_params, room_pushes, room_ready, room_round, room_round_ready, room_target, round_ready,
    snooze_end, taker,
};
use crate::config::types::{ActionConfig, AppConfig, RoomConfig};
use crate::config::validate::{
    config_problem, law_accepted_configurations_are_in_order, override_in_order, room_in_order,
};
use crate::control::{
    calibrated_lamps_on, lamps_off, lamps_on, light_on_record, pause_until, span_fits, ttl_end,
    ttl_fits, wanted_values, OverrideTtl, Scene, Snooze,
};
use crate::effect::{updates, Effect, LightCommand};
use crate::mcp::tools::light_on_effects;
use crate::mqtt::device_state::{is_external_change, DeviceReport};
use crate::mqtt::publish::{can_correct, device_brightness, device_color_temp};
use crate::names::NameMap;
use crate::night_mode::{activation, deactivation, tell_room, told_record};
use crate::state::{RoomState, RoomStateUpdate, SystemState, UpdateSource, Z2mDeviceInfo};
use crate::time::{Duration, Instant};

verus! {

/// What is known of the room `id` once the effects were carried out at `now`.
pub open spec fn room_after(
    rs: RoomState,
    id: Seq<char>,
    effects: Seq<Effect<Seq<char>>>,
    now: Instant,
) -> RoomState
    decreases effects.len(),
{
    if effects.len() == 0 {
        rs
    } else {
        let before = room_after(rs, id, effects.drop_last(), now);
        match effects.last() {
            Effect::Update { room_id, update } => if room_id == id {
                before.updated(update, now)
            } else {
                before
            },
            _ => before,
        }
    }
}

proof fn lemma_after_both(
    rs: RoomState,
    id: Seq<char>,
    a: Seq<Effect<Seq<char>>>,
    b: Seq<Effect<Seq<char>>>,
    now: Instant,
)
    ensures
        room_after(rs, id, a + b, now) == room_after(room_after(rs, id, a, now), id, b, now),
    decreases b.len(),
{
    if b.len() == 0 {
        assert(a + b =~= a);
    } else {
        lemma_after_both(rs, id, a, b.drop_last(), now);
        assert((a + b).drop_last() =~= a + b.drop_last());
        assert((a + b).last() == b.last());
    }
}

proof fn lemma_after_commands(
    rs: RoomState,
    id: Seq<char>,
    commands: Seq<Effect<Seq<char>>>,
    now: Instant,
)
    requires
        forall|i: int| 0 <= i < commands.len() ==> (#[trigger] commands[i]) is Publish,
    ensures
        room_after(rs, id, commands, now) == rs,
    decreases commands.len(),
{
    if commands.len() > 0 {
        let front = commands.drop_last();
        assert forall|i: int| 0 <= i < front.len() implies (#[trigger] front[i]) is Publish by {
            assert(front[i] == commands[i]);
        }
        lemma_after_commands(rs, id, front, now);
        assert(commands[commands.len() - 1] is Publish);
    }
}

proof fn lemma_after_one(rs: RoomState, id: Seq<char>, update: RoomStateUpdate, now: Instant)
    ensures
        room_after(rs, id, seq![updates(id, update)], now) == rs.updated(update, now),
{
    let s = seq![updates(id, update)];
    assert(s.drop_last() =~= Seq::<Effect<Seq<char>>>::empty());
    assert(room_after(rs, id, s.drop_last(), now) == rs);
}

proof fn lemma_after_two(
    rs: RoomState,
    id: Seq<char>,
    first: RoomStateUpdate,
    second: RoomStateUpdate,
    now: Instant,
)
    ensures
        room_after(rs, id, seq![updates(id, first), updates(id, second)], now) == rs.updated(
            first,
            now,
        ).updated(second, now),
{
    let s = seq![updates(id, first), updates(id, second)];
    lemma_after_one(rs, id, first, now);
    assert(s.drop_last() =~= seq![updates(id, first)]);
}

/// An action that turns lights on leaves the room lit, and one that turns them off leaves it dark.
pub proof fn law_actions_switch_the_room(
    action: ActionConfig,
    id: Seq<char>,
    room: RoomConfig,
    target: Option<CircadianTarget>,
    rs: RoomState,
    now: Instant,
)
    ensures
        room_after(rs, id, action_effects(action, id, room, target), now).lights_on == !(
        action is LightsOff),
{
    let effects = action_effects(action, id, room, target);
    let first = seq![effects[0]];
    let commands = effects.skip(1);
    assert(effects =~= first + commands);
    lemma_after_both(rs, id, first, commands, now);
    let update = effects[0]->update;
    assert(first =~= seq![updates(id, update)]);
    lemma_after_one(rs, id, update, now);
    assert forall|i: int| 0 <= i < commands.len() implies (#[trigger] commands[i]) is Publish by {
        assert(commands[i] == effects[i + 1]);
    }
    lemma_after_commands(rs.updated(update, now), id, commands, now);
}

/// Resuming the curve frees a room of every pause and every manual override.
pub proof fn law_resumption_frees_the_room(rs: RoomState, id: Seq<char>, now: Instant, t: Instant)
    ensures
        !room_after(rs, id, resumption(id), now).circadian_paused_at(t),
        !room_after(rs, id, resumption(id), now).manual_override_at(t),
{
    lemma_after_two(
        rs,
        id,
        RoomStateUpdate::CircadianPause { paused: false, until: None },
        RoomStateUpdate::LightsOn {
            brightness: None,
            color_temp_mired: None,
            source: UpdateSource::Circadian,
        },
        now,
    );
}

/// A pause holds until it is lifted, however late.
pub proof fn law_pauses_hold(rs: RoomState, id: Seq<char>, now: Instant, t: Instant)
    ensures
        room_after(rs, id, seq![pause_effect(id)], now).circadian_paused_at(t),
{
    lemma_after_one(rs, id, RoomStateUpdate::CircadianPause { paused: true, until: None }, now);
}

/// A snooze holds for exactly its time.
pub proof fn law_snoozes_end(
    rs: RoomState,
    id: Seq<char>,
    snooze: Snooze,
    now: Instant,
    t: Instant,
)
    requires
        span_fits(now, snooze.after),
    ensures
        room_after(rs, id, snoozing(id, now, snooze), now).circadian_paused_at(t) <==> t.nanos
            < now.nanos + snooze.after.nanos,
{
    let until = Instant { nanos: (now.nanos + snooze.after.nanos) as u128 };
    lemma_after_one(
        rs,
        id,
        RoomStateUpdate::CircadianPause { paused: true, until: Some(until) },
        now,
    );
}

/// Lights turned on with values that somebody asked for are under a manual override, with a time
/// limit for exactly its time; lights turned on without any are the curve's.
pub proof fn law_requested_values_override(
    rs: RoomState,
    id: Seq<char>,
    brightness: Option<u8>,
    color_temp_mired: Option<u16>,
    manual: bool,
    until: Option<Instant>,
    now: Instant,
    t: Instant,
)
    ensures
        ({
            let after = room_after(
                rs,
                id,
                light_on_record(id, brightness, color_temp_mired, manual, until),
                now,
            );
            &&& after.lights_on
            &&& after.manual_override_at(t) == (manual && match until {
                Some(end) => t.nanos < end.nanos,
                None => true,
            })
            &&& after.circadian_paused == rs.circadian_paused
            &&& after.circadian_paused_until == rs.circadian_paused_until
            &&& !manual ==> after.update_source == UpdateSource::Circadian
        }),
{
    let source = if manual {
        UpdateSource::Manual
    } else {
        UpdateSource::Circadian
    };
    let on = RoomStateUpdate::LightsOn { brightness, color_temp_mired, source };
    let push = RoomStateUpdate::JehaPush { brightness, color_temp_mired };
    let ttl = RoomStateUpdate::ManualOverrideTtl { until };
    let head = seq![updates(id, on), updates(id, push)];
    lemma_after_two(rs, id, on, push, now);
    let effects = light_on_record(id, brightness, color_temp_mired, manual, until);
    if manual {
        assert(effects =~= head + seq![updates(id, ttl)]);
        lemma_after_both(rs, id, head, seq![updates(id, ttl)], now);
        lemma_after_one(room_after(rs, id, head, now), id, ttl, now);
    } else {
        assert(effects =~= head);
    }
}

/// Lights that an agent turns on without values show where the room's curve is, and the curve has
/// the room.
pub proof fn law_plain_light_on_follows_the_curve(
    config: AppConfig,
    now: Instant,
    target: CircadianTarget,
    id: Seq<char>,
    transition: Option<u32>,
    ttl: Option<OverrideTtl>,
    rs: RoomState,
    i: int,
)
    requires
        0 <= i < lamps_on(
            config.rooms@[id],
            Some(target.brightness),
            Some(target.color_temp_mired),
            transition,
        ).len(),
    ensures
        ({
            let effects = light_on_effects(
                config,
                now,
                id,
                wanted_values(None, None, Some(target)),
                false,
                transition,
                ttl,
            );
            let after = room_after(rs, id, effects, now);
            &&& effects[i] matches Effect::Publish { command, required } && match command {
                LightCommand::TurnOnGroup { brightness, color_temp_mired, .. } => brightness
                    == Some(target.brightness) && color_temp_mired == Some(
                    target.color_temp_mired,
                ),
                LightCommand::TurnOnIeee { brightness, color_temp_mired, .. } => brightness == Some(
                    target.brightness,
                ) && color_temp_mired == Some(target.color_temp_mired),
                _ => false,
            }
            &&& after.lights_on
            &&& after.update_source == UpdateSource::Circadian
        }),
{
    let b = Some(target.brightness);
    let ct = Some(target.color_temp_mired);
    let commands = lamps_on(config.rooms@[id], b, ct, transition);
    let until = ttl_end(now, ttl);
    let record = light_on_record(id, b, ct, false, until);
    let effects = light_on_effects(config, now, id, (b, ct), false, transition, ttl);
    assert(effects =~= commands + record);
    assert(effects[i] == commands[i]);
    lemma_after_both(rs, id, commands, record, now);
    lemma_after_commands(rs, id, commands, now);
    law_requested_values_override(rs, id, b, ct, false, until, now, now);
}

/// Lights that an agent asked to go off leave the pause as it was, for when they come back on.
pub proof fn law_requested_off_keeps_the_pause(
    rs: RoomState,
    id: Seq<char>,
    room: RoomConfig,
    transition: Option<u32>,
    now: Instant,
)
    ensures
        ({
            let after = room_after(
                rs,
                id,
                lamps_off(room, transition).push(
                    updates(id, RoomStateUpdate::LightsOffByRequest),
                ),
                now,
            );
            &&& !after.lights_on
            &&& after.circadian_paused == rs.circadian_paused
            &&& after.circadian_paused_until == rs.circadian_paused_until
            &&& after.manual_override_until == rs.manual_override_until
            &&& after.update_source == rs.update_source
        }),
{
    let commands = lamps_off(room, transition);
    let off = RoomStateUpdate::LightsOffByRequest;
    let last = seq![updates(id, off)];
    assert(commands.push(updates(id, off)) =~= commands + last);
    lemma_after_both(rs, id, commands, last, now);
    lemma_after_commands(rs, id, commands, now);
    lemma_after_one(rs, id, off, now);
}

/// The room is held back, as paused and as overridden, until exactly `until`.
pub open spec fn is_held_until(rs: RoomState, until: Option<Instant>, t: Instant) -> bool {
    let held = match until {
        Some(end) => t.nanos < end.nanos,
        None => true,
    };
    rs.circadian_paused_at(t) == held && rs.manual_override_at(t) == held
}

proof fn lemma_scene_holds(
    rs: RoomState,
    id: Seq<char>,
    commands: Seq<Effect<Seq<char>>>,
    brightness: u8,
    color_temp_mired: u16,
    until: Option<Instant>,
    now: Instant,
    t: Instant,
)
    requires
        forall|i: int| 0 <= i < commands.len() ==> (#[trigger] commands[i]) is Publish,
    ensures
        is_held_until(
            room_after(
                rs,
                id,
                seq![pause_until(id, until)] + (commands + light_on_record(
                    id,
                    Some(brightness),
                    Some(color_temp_mired),
                    true,
                    until,
                )),
                now,
            ),
            until,
            t,
        ),
{
    let b = Some(brightness);
    let ct = Some(color_temp_mired);
    let record = light_on_record(id, b, ct, true, until);
    let pause = RoomStateUpdate::CircadianPause { paused: true, until };
    let first = seq![pause_until(id, until)];
    assert(first =~= seq![updates(id, pause)]);
    lemma_after_both(rs, id, first, commands + record, now);
    lemma_after_one(rs, id, pause, now);
    let r1 = rs.updated(pause, now);
    lemma_after_both(r1, id, commands, record, now);
    lemma_after_commands(r1, id, commands, now);
    law_requested_values_override(r1, id, b, ct, true, until, now, t);
}

/// A scene with a time limit holds the curve back for exactly its time: after that, neither a pause
/// nor an override is left. Without a time limit it holds until further notice.
pub proof fn law_scenes_end(
    config: AppConfig,
    state: SystemState,
    id: Seq<char>,
    scene: Scene,
    ttl: Option<OverrideTtl>,
    rs: RoomState,
    now: Instant,
    t: Instant,
)
    requires
        ttl_fits(now, ttl),
    ensures
        is_held_until(
            room_after(rs, id, scene_effects(config, state, now, id, scene, ttl), now),
            ttl_end(now, ttl),
            t,
        ),
{
    let ct = crate::circadian::curve::mired(scene.color_temp_k);
    let commands = calibrated_lamps_on(
        config,
        state,
        config.rooms@[id],
        Some(scene.brightness),
        Some(ct),
        Some(3),
    );
    let until = ttl_end(now, ttl);
    lemma_scene_holds(rs, id, commands, scene.brightness, ct, until, now, t);
    assert(scene_effects(config, state, now, id, scene, ttl) =~= seq![pause_until(id, until)] + (
    commands + light_on_record(id, Some(scene.brightness), Some(ct), true, until)));
}

/// [`law_scenes_end`] for the scenes that agents set.
pub proof fn law_scenes_of_agents_end(
    config: AppConfig,
    id: Seq<char>,
    scene: Scene,
    ttl: Option<OverrideTtl>,
    rs: RoomState,
    now: Instant,
    t: Instant,
)
    requires
        ttl_fits(now, ttl),
    ensures
        is_held_until(
            room_after(rs, id, crate::mcp::tools::scene_effects(config, now, id, scene, ttl), now),
            ttl_end(now, ttl),
            t,
        ),
{
    let ct = crate::circadian::curve::mired(scene.color_temp_k);
    let commands = lamps_on(config.rooms@[id], Some(scene.brightness), Some(ct), Some(3));
    let until = ttl_end(now, ttl);
    lemma_scene_holds(rs, id, commands, scene.brightness, ct, until, now, t);
    assert(crate::mcp::tools::scene_effects(config, now, id, scene, ttl) =~= seq![
        pause_until(id, until),
    ] + (commands + light_on_record(id, Some(scene.brightness), Some(ct), true, until)));
}

/// A recalled scene with a time limit holds the curve back for exactly its time, and one without
/// until further notice.
pub proof fn law_recalled_scenes_end(
    id: Seq<char>,
    group: Seq<char>,
    scene_id: u16,
    until: Option<Instant>,
    rs: RoomState,
    now: Instant,
    t: Instant,
)
    ensures
        is_held_until(
            room_after(rs, id, recall_effects(id, group, scene_id, until), now),
            until,
            t,
        ),
{
    let pause = RoomStateUpdate::CircadianPause { paused: true, until };
    let on = RoomStateUpdate::LightsOn {
        brightness: None,
        color_temp_mired: None,
        source: UpdateSource::Manual,
    };
    let ttl = RoomStateUpdate::ManualOverrideTtl { until };
    let push = RoomStateUpdate::JehaPush { brightness: None, color_temp_mired: None };
    let effects = recall_effects(id, group, scene_id, until);
    let head = seq![updates(id, pause), updates(id, on)];
    let mid = seq![updates(id, ttl)];
    let command = seq![effects[3]];
    let last = seq![updates(id, push)];
    assert(effects =~= head + (mid + (command + last)));
    lemma_after_two(rs, id, pause, on, now);
    lemma_after_both(rs, id, head, mid + (command + last), now);
    let r1 = rs.updated(pause, now).updated(on, now);
    lemma_after_both(r1, id, mid, command + last, now);
    lemma_after_one(r1, id, ttl, now);
    let r2 = r1.updated(ttl, now);
    lemma_after_both(r2, id, command, last, now);
    lemma_after_commands(r2, id, command, now);
    lemma_after_one(r2, id, push, now);
}

proof fn lemma_after_told(
    rs: RoomState,
    id: Seq<char>,
    brightness: u8,
    color_temp_mired: u16,
    source: UpdateSource,
    now: Instant,
)
    ensures
        ({
            let after = room_after(
                rs,
                id,
                told_record(id, brightness, color_temp_mired, source),
                now,
            );
            &&& after.night_mode_active == rs.night_mode_active
            &&& after.circadian_paused == rs.circadian_paused
            &&& after.circadian_paused_until == rs.circadian_paused_until
            &&& after.update_source == source
            &&& after.intended_brightness == Some(brightness)
            &&& after.intended_color_temp_mired == Some(color_temp_mired)
            &&& after.last_jeha_push == Some(now)
        }),
{
    lemma_after_two(
        rs,
        id,
        RoomStateUpdate::LightsOn {
            brightness: Some(brightness),
            color_temp_mired: Some(color_temp_mired),
            source,
        },
        RoomStateUpdate::JehaPush {
            brightness: Some(brightness),
            color_temp_mired: Some(color_temp_mired),
        },
        now,
    );
}

/// Switching night mode on leaves the room in night mode and the curve paused, lit or not.
pub proof fn law_activation_sets_night_mode(
    config: AppConfig,
    state: SystemState,
    id: Seq<char>,
    room: RoomConfig,
    rs: RoomState,
    now: Instant,
    t: Instant,
)
    ensures
        room_after(rs, id, activation(config, state, id, room), now).night_mode_active,
        room_after(rs, id, activation(config, state, id, room), now).circadian_paused_at(t),
{
    let effects = activation(config, state, id, room);
    let night = room.night_values(config.night_mode.defaults);
    let ct = crate::circadian::curve::mired(night.color_temp_k);
    let on = RoomStateUpdate::NightMode(true);
    let pause = RoomStateUpdate::CircadianPause { paused: true, until: None };
    let head = seq![updates(id, on), updates(id, pause)];
    let last = seq![effects.last()];
    lemma_after_two(rs, id, on, pause, now);
    let r1 = rs.updated(on, now).updated(pause, now);
    if is_lit(state, id) {
        let told = tell_room(room, night.brightness, ct, true);
        let record = told_record(id, night.brightness, ct, UpdateSource::Automation);
        assert(effects =~= head + (told + (record + last)));
        lemma_after_both(rs, id, head, told + (record + last), now);
        lemma_after_both(r1, id, told, record + last, now);
        lemma_after_commands(r1, id, told, now);
        lemma_after_both(r1, id, record, last, now);
        lemma_after_told(r1, id, night.brightness, ct, UpdateSource::Automation, now);
        lemma_after_last(room_after(r1, id, record, now), id, last, now);
    } else {
        assert(effects =~= head + last);
        lemma_after_both(rs, id, head, last, now);
        lemma_after_last(r1, id, last, now);
    }
}

proof fn lemma_after_last(
    rs: RoomState,
    id: Seq<char>,
    last: Seq<Effect<Seq<char>>>,
    now: Instant,
)
    requires
        last.len() == 1,
        last[0] is Emit,
    ensures
        room_after(rs, id, last, now) == rs,
{
    assert(last.drop_last() =~= Seq::<Effect<Seq<char>>>::empty());
    assert(room_after(rs, id, last.drop_last(), now) == rs);
}

/// Switching night mode off leaves the room out of night mode and the curve unpaused; a lit room
/// is the curve's again.
pub proof fn law_deactivation_clears_night_mode(
    state: SystemState,
    id: Seq<char>,
    room: RoomConfig,
    target: Option<CircadianTarget>,
    rs: RoomState,
    now: Instant,
    t: Instant,
)
    ensures
        ({
            let after = room_after(rs, id, deactivation(state, id, room, target), now);
            &&& !after.night_mode_active
            &&& !after.circadian_paused_at(t)
            &&& is_lit(state, id) ==> !after.manual_override_at(t)
        }),
{
    let effects = deactivation(state, id, room, target);
    let off = RoomStateUpdate::NightMode(false);
    let resume = RoomStateUpdate::CircadianPause { paused: false, until: None };
    let head = seq![updates(id, off), updates(id, resume)];
    let last = seq![effects.last()];
    lemma_after_two(rs, id, off, resume, now);
    let r1 = rs.updated(off, now).updated(resume, now);
    if is_lit(state, id) {
        let back = RoomStateUpdate::LightsOn {
            brightness: None,
            color_temp_mired: None,
            source: UpdateSource::Circadian,
        };
        let mid = seq![updates(id, back)];
        lemma_after_one(r1, id, back, now);
        let r2 = r1.updated(back, now);
        match target {
            Some(tg) => {
                let told = tell_room(room, tg.brightness, tg.color_temp_mired, false);
                let record = told_record(
                    id,
                    tg.brightness,
                    tg.color_temp_mired,
                    UpdateSource::Circadian,
                );
                assert(effects =~= head + (mid + (told + (record + last))));
                lemma_after_both(rs, id, head, mid + (told + (record + last)), now);
                lemma_after_both(r1, id, mid, told + (record + last), now);
                lemma_after_both(r2, id, told, record + last, now);
                lemma_after_commands(r2, id, told, now);
                lemma_after_both(r2, id, record, last, now);
                lemma_after_told(
                    r2,
                    id,
                    tg.brightness,
                    tg.color_temp_mired,
                    UpdateSource::Circadian,
                    now,
                );
                lemma_after_last(room_after(r2, id, record, now), id, last, now);
            },
            None => {
                assert(effects =~= head + (mid + last));
                lemma_after_both(rs, id, head, mid + last, now);
                lemma_after_both(r1, id, mid, last, now);
                lemma_after_last(r2, id, last, now);
            },
        }
    } else {
        assert(effects =~= head + last);
        lemma_after_both(rs, id, head, last, now);
        lemma_after_last(r1, id, last, now);
    }
}

/// While a change that somebody else made holds a room, the engine sends the room no command.
pub proof fn law_external_changes_hold_the_curve_back(
    config: AppConfig,
    state: SystemState,
    minutes: u32,
    eased: NameMap<Eased>,
    id: Seq<char>,
    room: RoomConfig,
    rs: RoomState,
    ttl_secs: u64,
    at: Instant,
    now: Instant,
)
    requires
        at.can_advance(ttl_secs),
        now.nanos < at.nanos + Duration::secs_nanos(ttl_secs),
        state.rooms@.contains_key(id),
        state.rooms@[id] == rs.updated(RoomStateUpdate::ExternalChange { ttl_secs }, at),
    ensures
        forall|i: int|
            0 <= i < room_round(config, state, now, minutes, eased, id, room).len() ==> !((
            #[trigger] room_round(config, state, now, minutes, eased, id, room)[i]) is Publish),
{
    crate::circadian::engine::law_overridden_rooms_get_no_command(
        config,
        state,
        now,
        minutes,
        eased,
        id,
        room,
    );
}

/// Once a manual override has run out, the next round takes the room back: it tells the lamps
/// where the curve is, and writes down that the curve has the room.
pub proof fn law_expired_overrides_hand_the_room_back(
    config: AppConfig,
    state: SystemState,
    now: Instant,
    minutes: u32,
    eased: NameMap<Eased>,
    id: Seq<char>,
    room: RoomConfig,
)
    requires
        is_followed(state, id, room),
        !state.rooms@[id].circadian_paused_at(now),
        !state.rooms@[id].manual_override_at(now),
    ensures
        ({
            let rs = state.rooms@[id];
            let target = room_target(config, id, room, minutes, eased);
            let after = room_after(
                rs,
                id,
                room_round(config, state, now, minutes, eased, id, room),
                now,
            );
            &&& after.update_source == UpdateSource::Circadian
            &&& !after.circadian_paused
            &&& after.intended_brightness == Some(target.brightness)
            &&& after.intended_color_temp_mired == Some(published_color_temp(state, room, target))
            &&& after.last_jeha_push == Some(now)
        }),
{
    let rs = state.rooms@[id];
    let target = room_target(config, id, room, minutes, eased);
    let transition = room.circadian_settings(config.circadian.defaults).transition_secs;
    let s = snooze_end(id, rs);
    let o = override_end(id, rs);
    let p = room_pushes(config, state, room, target, transition);
    let ct = published_color_temp(state, room, target);
    let r = push_record(id, target.brightness, ct);
    let round = room_round(config, state, now, minutes, eased, id, room);
    assert(round =~= s + (o + (p + r)));
    lemma_after_both(rs, id, s, o + (p + r), now);
    let r1 = room_after(rs, id, s, now);
    if rs.circadian_paused {
        lemma_after_one(
            rs,
            id,
            RoomStateUpdate::CircadianPause { paused: false, until: None },
            now,
        );
    }
    assert(!r1.circadian_paused);
    lemma_after_both(r1, id, o, p + r, now);
    let r2 = room_after(r1, id, o, now);
    if rs.update_source == UpdateSource::Manual {
        lemma_after_two(
            r1,
            id,
            RoomStateUpdate::LightsOn {
                brightness: None,
                color_temp_mired: None,
                source: UpdateSource::Circadian,
            },
            RoomStateUpdate::ManualOverrideTtl { until: None },
            now,
        );
    }
    assert(!r2.circadian_paused);
    lemma_after_both(r2, id, p, r, now);
    lemma_pushes_are_commands(config, state, room, target, transition);
    lemma_after_commands(r2, id, p, now);
    assert(r =~= told_record(id, target.brightness, ct, UpdateSource::Circadian));
    lemma_after_told(r2, id, target.brightness, ct, UpdateSource::Circadian, now);
}

proof fn lemma_pushes_are_commands(
    config: AppConfig,
    state: SystemState,
    room: RoomConfig,
    target: CircadianTarget,
    transition: u32,
)
    ensures
        forall|i: int|
            0 <= i < room_pushes(config, state, room, target, transition).len() ==> (
            #[trigger] room_pushes(config, state, room, target, transition)[i]) is Publish,
{
    if room.z2m_group is Some {
        crate::circadian::engine::law_groups_come_first(config, state, room, target, transition);
    }
}

/// What a lamp is sent lies in its range, whatever was asked for.
pub proof fn law_lamps_are_sent_values_they_can_show(
    ieee: Seq<char>,
    brightness: u8,
    mired: u16,
    config: AppConfig,
    devices: NameMap<Z2mDeviceInfo>,
)
    requires
        devices@.contains_key(ieee) ==> range_ok(devices@[ieee]),
    ensures
        1 <= device_brightness(ieee, brightness, config, devices) <= 254,
        min_mired(devices.lookup(ieee)) <= device_color_temp(ieee, mired, config, devices)
            <= max_mired(devices.lookup(ieee)),
{
}

/// A configuration that was accepted has offsets that can be added to every brightness: every
/// command can be sent to every lamp whose color temperature range is no empty one.
pub proof fn law_accepted_offsets_can_be_applied(
    config: AppConfig,
    ieee: Seq<char>,
    brightness: bool,
    color_temp: bool,
    devices: NameMap<Z2mDeviceInfo>,
)
    requires
        config_problem(config) is None,
        config.light_calibration.overrides.wf(),
        devices@.contains_key(ieee) ==> range_ok(devices@[ieee]),
    ensures
        can_correct(ieee, brightness, color_temp, config, devices),
{
    law_accepted_configurations_are_in_order(config);
    let overrides = config.light_calibration.overrides;
    if overrides@.contains_key(ieee) {
        let j = crate::names::key_position(overrides.entries_seq(), ieee);
        overrides.lemma_entry(j);
        assert(override_in_order(overrides.entries_seq()[j]));
    }
}

/// In a configuration that was accepted, every room's curve can be reckoned with at every minute,
/// as long as its ramp takes no more minutes than 32 bits hold beside a time of day, and a ramp is
/// handed in with its values.
pub proof fn law_accepted_curves_can_be_reckoned_with(
    config: AppConfig,
    i: int,
    minutes: u32,
    eased: NameMap<Eased>,
)
    requires
        config_problem(config) is None,
        0 <= i < config.rooms.entries_seq().len(),
        room_params(config, config.rooms.entries_seq()[i].1).ramp_duration_mins <= u32::MAX - 1440,
        room_params(config, config.rooms.entries_seq()[i].1).phase(minutes) is Ramp
            ==> eased@.contains_key(config.rooms.entries_seq()[i].0@)
            && eased@[config.rooms.entries_seq()[i].0@].temp_k > 0,
    ensures
        room_ready(
            config,
            config.rooms.entries_seq()[i].1,
            config.rooms.entries_seq()[i].0@,
            minutes,
            eased,
        ),
{
    law_accepted_configurations_are_in_order(config);
    let room = config.rooms.entries_seq()[i].1;
    assert(room_in_order(room));
    let d = room.circadian_settings(config.circadian.defaults);
    lemma_time_within_a_day(d.wake_time@);
}

proof fn lemma_time_within_a_day(time: Seq<char>)
    ensures
        crate::circadian::curve::minutes_or_zero(time) < 1440,
{
}

/// Within the time that a push's echoes are expected, no report counts as a change that somebody
/// else made.
pub proof fn law_echoes_are_no_changes(
    report: DeviceReport<Seq<char>>,
    room_id: Option<String>,
    state: SystemState,
    config: AppConfig,
    now: Instant,
)
    requires
        room_id is Some,
        state.rooms@.contains_key(room_id->0@),
        state.rooms@[room_id->0@].last_jeha_push is Some,
        now.since(state.rooms@[room_id->0@].last_jeha_push->0)
            <= crate::mqtt::device_state::quiet_secs(config, room_id->0@) * 1_000_000_000,
    ensures
        !is_external_change(report, room_id, state, config, now),
{
}

/// With a configuration that was accepted, a round can be worked out, and so can what a newcomer is
/// told, as long as every ramp is handed in with its values and takes no more minutes than 32 bits
/// hold beside a time of day, and no known device has an empty color temperature range.
pub proof fn law_rounds_can_be_worked_out(
    config: AppConfig,
    state: SystemState,
    now: Instant,
    minutes: u32,
    eased: NameMap<Eased>,
    ieee: Seq<char>,
)
    requires
        config_problem(config) is None,
        forall|i: int|
            0 <= i < config.rooms.entries_seq().len() ==> ({
                let (name, room) = #[trigger] config.rooms.entries_seq()[i];
                let params = room_params(config, room);
                &&& params.ramp_duration_mins <= u32::MAX - 1440
                &&& params.phase(minutes) is Ramp ==> eased@.contains_key(name@)
                    && eased@[name@].temp_k > 0
            }),
        forall|k: Seq<char>| #[trigger]
            state.device_map@.contains_key(k) ==> range_ok(state.device_map@[k]),
    ensures
        round_ready(config, state, now, minutes, eased),
        newcomer_ready(config, state, now, minutes, eased, ieee),
{
    assert forall|i: int| 0 <= i < config.rooms.entries_seq().len() implies room_round_ready(
        config,
        state,
        now,
        minutes,
        eased,
        (#[trigger] config.rooms.entries_seq()[i]).0@,
        config.rooms.entries_seq()[i].1,
    ) by {
        law_accepted_curves_can_be_reckoned_with(config, i, minutes, eased);
    }
    if taker(config, state, now, ieee, 0) is Some {
        lemma_taker(config, state, now, ieee, 0);
        let i = taker(config, state, now, ieee, 0)->0;
        law_accepted_curves_can_be_reckoned_with(config, i, minutes, eased);
    }
}

} // verus!
