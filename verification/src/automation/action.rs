//! What an action does to a room.

use vstd::prelude::*;

use crate::circadian::curve::{kelvin_to_mired, mired, CircadianTarget};
use crate::config::defaults::pick;
use crate::config::types::{ActionConfig, RoomConfig};
use crate::effect::{publishes, turn_off_all, turn_on_all, updates, Effect, LightCommand, Plan};
use crate::state::{or_else, RoomStateUpdate, UpdateSource};

verus! {

/// The color temperatures that the action names can be converted.
pub open spec fn action_ok(action: ActionConfig) -> bool {
    match action {
        ActionConfig::LightsOn { use_circadian, brightness, color_temp_k, transition } =>
            use_circadian || color_temp_k != Some(0u16),
        ActionConfig::SetColorTemp { color_temp_k, transition } => color_temp_k > 0,
        _ => true,
    }
}

/// Whether the color temperatures that the action names can be converted.
pub fn check_action(action: &ActionConfig) -> (r: bool)
    ensures
        r == action_ok(*action),
{
    match action {
        ActionConfig::LightsOn { use_circadian, brightness: _, color_temp_k, transition: _ } =>
            *use_circadian || match color_temp_k {
                Some(k) => *k != 0,
                None => true,
            },
        ActionConfig::SetColorTemp { color_temp_k, transition: _ } => *color_temp_k > 0,
        _ => true,
    }
}

/// How long an action waits before it starts (seconds).
pub open spec fn delay_of(action: ActionConfig) -> u64 {
    match action {
        ActionConfig::LightsOff { delay_secs, transition } => delay_secs,
        _ => 0,
    }
}

/// How long an action waits before it starts (seconds).
pub fn action_delay(action: &ActionConfig) -> (r: u64)
    ensures
        r == delay_of(*action),
{
    match action {
        ActionConfig::LightsOff { delay_secs, transition: _ } => *delay_secs,
        _ => 0,
    }
}

/// A room's lights go on: its group by one command, or each of its lamps.
pub open spec fn switch_on(
    room: RoomConfig,
    brightness: Option<u8>,
    color_temp_mired: Option<u16>,
    transition: Option<u32>,
) -> Seq<Effect<Seq<char>>> {
    match room.z2m_group {
        Some(group) => seq![
            publishes(
                LightCommand::TurnOnGroup {
                    group: group@,
                    brightness,
                    color_temp_mired,
                    transition,
                },
            ),
        ],
        None => turn_on_all(room.lights@, brightness, color_temp_mired, transition, true),
    }
}

/// A room's lights go off: its group by one command, or each of its lamps.
pub open spec fn switch_off(room: RoomConfig, transition: Option<u32>) -> Seq<Effect<Seq<char>>> {
    match room.z2m_group {
        Some(group) => seq![
            publishes(LightCommand::TurnOffGroup { group: group@, transition }),
        ],
        None => turn_off_all(room.lights@, transition, true),
    }
}

/// The brightness that a lights-on action asks for.
pub open spec fn action_brightness(
    use_circadian: bool,
    brightness: Option<u8>,
    target: Option<CircadianTarget>,
) -> u8 {
    if use_circadian && target is Some {
        pick(brightness, target->0.brightness)
    } else {
        pick(brightness, 254)
    }
}

/// The color temperature that a lights-on action asks for.
pub open spec fn action_color_temp(
    use_circadian: bool,
    color_temp_k: Option<u16>,
    target: Option<CircadianTarget>,
) -> Option<u16> {
    if use_circadian {
        match target {
            Some(t) => Some(t.color_temp_mired),
            None => None,
        }
    } else {
        match color_temp_k {
            Some(k) => Some(mired(k)),
            None => None,
        }
    }
}

/// What an action does, once its delay is over. The state is changed before the command is sent,
/// so that nobody sees the room dark in between.
pub open spec fn action_effects(
    action: ActionConfig,
    id: Seq<char>,
    room: RoomConfig,
    target: Option<CircadianTarget>,
) -> Seq<Effect<Seq<char>>> {
    match action {
        ActionConfig::LightsOn { use_circadian, brightness, color_temp_k, transition } => {
            let b = action_brightness(use_circadian, brightness, target);
            let ct = action_color_temp(use_circadian, color_temp_k, target);
            seq![
                updates(
                    id,
                    RoomStateUpdate::LightsOnWithPush {
                        brightness: Some(b),
                        color_temp_mired: ct,
                        source: UpdateSource::Automation,
                    },
                ),
            ] + switch_on(room, Some(b), ct, or_else(transition, Some(3)))
        },
        ActionConfig::LightsOff { delay_secs, transition } => seq![
            updates(id, RoomStateUpdate::LightsOff),
        ] + switch_off(room, or_else(transition, Some(3))),
        ActionConfig::SetBrightness { brightness, transition } => seq![
            updates(
                id,
                RoomStateUpdate::LightsOnWithPush {
                    brightness: Some(brightness),
                    color_temp_mired: None,
                    source: UpdateSource::Manual,
                },
            ),
        ] + switch_on(room, Some(brightness), None, or_else(transition, Some(3))),
        ActionConfig::SetColorTemp { color_temp_k, transition } => seq![
            updates(
                id,
                RoomStateUpdate::LightsOnWithPush {
                    brightness: None,
                    color_temp_mired: Some(mired(color_temp_k)),
                    source: UpdateSource::Manual,
                },
            ),
        ] + switch_on(room, None, Some(mired(color_temp_k)), or_else(transition, Some(3))),
    }
}

fn plan_switch_on(
    room_config: &RoomConfig,
    brightness: Option<u8>,
    color_temp_mired: Option<u16>,
    transition: Option<u32>,
    plan: &mut Plan,
)
    ensures
        final(plan)@ == old(plan)@ + switch_on(
            *room_config,
            brightness,
            color_temp_mired,
            transition,
        ),
{
    match &room_config.z2m_group {
        Some(group) => {
            plan.publish(
                LightCommand::TurnOnGroup {
                    group: group.clone(),
                    brightness,
                    color_temp_mired,
                    transition,
                },
            );
        },
        None => {
            plan.turn_on_each(&room_config.lights, brightness, color_temp_mired, transition, true);
        },
    }
    assert(plan@ =~= old(plan)@ + switch_on(
        *room_config,
        brightness,
        color_temp_mired,
        transition,
    ));
}

fn plan_switch_off(room_config: &RoomConfig, transition: Option<u32>, plan: &mut Plan)
    ensures
        final(plan)@ == old(plan)@ + switch_off(*room_config, transition),
{
    match &room_config.z2m_group {
        Some(group) => {
            plan.publish(LightCommand::TurnOffGroup { group: group.clone(), transition });
        },
        None => {
            plan.turn_off_each(&room_config.lights, transition, true);
        },
    }
    assert(plan@ =~= old(plan)@ + switch_off(*room_config, transition));
}

fn or_three(transition: Option<u32>) -> (r: Option<u32>)
    ensures
        r == or_else(transition, Some(3)),
{
    match transition {
        Some(secs) => Some(secs),
        None => Some(3),
    }
}

/// What an action does to a room. `target` is where the room's curve is now, where it follows one.
/// The action's delay has to be waited for first.
pub fn execute_action(
    action: &ActionConfig,
    room_id: &str,
    room_config: &RoomConfig,
    target: Option<CircadianTarget>,
) -> (plan: Plan)
    requires
        action_ok(*action),
    ensures
        plan@ == action_effects(*action, room_id@, *room_config, target),
{
    let mut plan: Plan = Plan::new();
    match action {
        ActionConfig::LightsOn { use_circadian, brightness, color_temp_k, transition } => {
            let (bright, ct): (u8, Option<u16>) = if *use_circadian {
                match target {
                    Some(t) => (brightness.unwrap_or(t.brightness), Some(t.color_temp_mired)),
                    None => (brightness.unwrap_or(254), None),
                }
            } else {
                let ct: Option<u16> = match color_temp_k {
                    Some(k) => Some(kelvin_to_mired(*k)),
                    None => None,
                };
                (brightness.unwrap_or(254), ct)
            };
            plan.update(
                room_id,
                RoomStateUpdate::LightsOnWithPush {
                    brightness: Some(bright),
                    color_temp_mired: ct,
                    source: UpdateSource::Automation,
                },
            );
            plan_switch_on(room_config, Some(bright), ct, or_three(*transition), &mut plan);
        },
        ActionConfig::LightsOff { delay_secs: _, transition } => {
            plan.update(room_id, RoomStateUpdate::LightsOff);
            plan_switch_off(room_config, or_three(*transition), &mut plan);
        },
        ActionConfig::SetBrightness { brightness, transition } => {
            plan.update(
                room_id,
                RoomStateUpdate::LightsOnWithPush {
                    brightness: Some(*brightness),
                    color_temp_mired: None,
                    source: UpdateSource::Manual,
                },
            );
            plan_switch_on(
                room_config,
                Some(*brightness),
                None,
                or_three(*transition),
                &mut plan,
            );
        },
        ActionConfig::SetColorTemp { color_temp_k, transition } => {
            let ct: u16 = kelvin_to_mired(*color_temp_k);
            plan.update(
                room_id,
                RoomStateUpdate::LightsOnWithPush {
                    brightness: None,
                    color_temp_mired: Some(ct),
                    source: UpdateSource::Manual,
                },
            );
            plan_switch_on(room_config, None, Some(ct), or_three(*transition), &mut plan);
        },
    }
    assert(plan@ =~= action_effects(*action, room_id@, *room_config, target));
    plan
}

/// An action first changes what is known of its room, and only then talks to the lamps.
pub proof fn law_state_changes_before_commands(
    action: ActionConfig,
    id: Seq<char>,
    room: RoomConfig,
    target: Option<CircadianTarget>,
)
    ensures
        ({
            let effects = action_effects(action, id, room, target);
            &&& effects.len() >= 1
            &&& effects[0] matches Effect::Update { room_id, update } && room_id == id
            &&& forall|i: int|
                1 <= i < effects.len() ==> (#[trigger] effects[i] matches Effect::Publish {
                    command,
                    required,
                } && required)
        }),
{
}

/// What a lights-on action asks for: its own brightness, else the curve's where it follows the
/// curve, else 254; and the curve's color temperature where it follows the curve, else its own. It
/// is written down as the automation's before the room's group, or each of its lamps, is told, over
/// the action's transition or three seconds.
pub proof fn law_lights_on_actions(
    use_circadian: bool,
    brightness: Option<u8>,
    color_temp_k: Option<u16>,
    transition: Option<u32>,
    id: Seq<char>,
    room: RoomConfig,
    target: Option<CircadianTarget>,
    b: u8,
    ct: Option<u16>,
)
    requires
        brightness matches Some(own) ==> b == own,
        brightness is None && use_circadian && target is Some ==> b == target->0.brightness,
        brightness is None && !(use_circadian && target is Some) ==> b == 254,
        use_circadian && target is Some ==> ct == Some(target->0.color_temp_mired),
        use_circadian && target is None ==> ct is None,
        !use_circadian && color_temp_k is Some ==> ct == Some(mired(color_temp_k->0)),
        !use_circadian && color_temp_k is None ==> ct is None,
    ensures
        ({
            let effects = action_effects(
                ActionConfig::LightsOn { use_circadian, brightness, color_temp_k, transition },
                id,
                room,
                target,
            );
            &&& effects.len() >= 1
            &&& effects[0] == (Effect::Update {
                room_id: id,
                update: RoomStateUpdate::LightsOnWithPush {
                    brightness: Some(b),
                    color_temp_mired: ct,
                    source: UpdateSource::Automation,
                },
            })
            &&& tells_on(effects.skip(1), room, Some(b), ct, transition)
        }),
{
    let effects = action_effects(
        ActionConfig::LightsOn { use_circadian, brightness, color_temp_k, transition },
        id,
        room,
        target,
    );
    assert(effects.skip(1) =~= switch_on(room, Some(b), ct, or_else(transition, Some(3))));
}

/// The effects tell a room's group, or each of its lamps in order, to go on with these values, over
/// the transition or three seconds.
pub open spec fn tells_on(
    effects: Seq<Effect<Seq<char>>>,
    room: RoomConfig,
    brightness: Option<u8>,
    color_temp_mired: Option<u16>,
    transition: Option<u32>,
) -> bool {
    let over = match transition {
        Some(secs) => Some(secs),
        None => Some(3),
    };
    match room.z2m_group {
        Some(group) => effects.len() == 1 && effects[0] == (Effect::Publish {
            command: LightCommand::TurnOnGroup {
                group: group@,
                brightness,
                color_temp_mired,
                transition: over,
            },
            required: true,
        }),
        None => effects.len() == room.lights@.len() && forall|i: int|
            0 <= i < effects.len() ==> #[trigger] effects[i] == (Effect::Publish {
                command: LightCommand::TurnOnIeee {
                    ieee: room.lights@[i]@,
                    brightness,
                    color_temp_mired,
                    transition: over,
                },
                required: true,
            }),
    }
}

/// What the other actions do: lights off is written down and the room's group, or each of its
/// lamps, told to go off; a set brightness or color temperature is written down as set by hand and
/// told, and the other value left as it is.
pub proof fn law_other_actions(
    delay_secs: u64,
    brightness: u8,
    color_temp_k: u16,
    transition: Option<u32>,
    id: Seq<char>,
    room: RoomConfig,
    target: Option<CircadianTarget>,
    i: int,
)
    ensures
        ({
            let over = match transition {
                Some(secs) => Some(secs),
                None => Some(3u32),
            };
            let off = action_effects(
                ActionConfig::LightsOff { delay_secs, transition },
                id,
                room,
                target,
            );
            let dim = action_effects(
                ActionConfig::SetBrightness { brightness, transition },
                id,
                room,
                target,
            );
            let tint = action_effects(
                ActionConfig::SetColorTemp { color_temp_k, transition },
                id,
                room,
                target,
            );
            &&& off[0] == (Effect::Update { room_id: id, update: RoomStateUpdate::LightsOff })
            &&& room.z2m_group matches Some(group) ==> off.len() == 2 && off[1] == (
            Effect::Publish {
                command: LightCommand::TurnOffGroup { group: group@, transition: over },
                required: true,
            })
            &&& room.z2m_group is None ==> off.len() == 1 + room.lights@.len()
            &&& room.z2m_group is None && 0 <= i < room.lights@.len() ==> off[i + 1] == (
            Effect::Publish {
                command: LightCommand::TurnOffIeee {
                    ieee: room.lights@[i]@,
                    transition: over,
                },
                required: true,
            })
            &&& dim[0] == (Effect::Update {
                room_id: id,
                update: RoomStateUpdate::LightsOnWithPush {
                    brightness: Some(brightness),
                    color_temp_mired: None,
                    source: UpdateSource::Manual,
                },
            })
            &&& tells_on(dim.skip(1), room, Some(brightness), None, transition)
            &&& tint[0] == (Effect::Update {
                room_id: id,
                update: RoomStateUpdate::LightsOnWithPush {
                    brightness: None,
                    color_temp_mired: Some(mired(color_temp_k)),
                    source: UpdateSource::Manual,
                },
            })
            &&& tells_on(tint.skip(1), room, None, Some(mired(color_temp_k)), transition)
        }),
{
    let over = or_else(transition, Some(3));
    let dim = action_effects(
        ActionConfig::SetBrightness { brightness, transition },
        id,
        room,
        target,
    );
    let tint = action_effects(
        ActionConfig::SetColorTemp { color_temp_k, transition },
        id,
        room,
        target,
    );
    assert(dim.skip(1) =~= switch_on(room, Some(brightness), None, over));
    assert(tint.skip(1) =~= switch_on(room, None, Some(mired(color_temp_k)), over));
}

} // verus!
