//! The tools: what agents are told about them, and what each call comes to.

use vstd::prelude::*;

use crate::api::{
    granted_pause, granted_recall, granted_resumption, granted_snooze, no_group_text,
    paused_answer, recall_answer, recall_effects, resumed_answer, resumption, snoozed_answer,
    snoozing,
};
use crate::automation::engine::pause_effect;
use crate::circadian::curve::{kelvin_to_mired, mired};
use crate::circadian::engine::{find_target, known_target, CurveNow};
use crate::config::types::AppConfig;
use crate::control::{
    choose_values, describe_light_on, describe_unknown_scene, display_name, find_scene, grant,
    grant_scene, granted, lamps_off, lamps_on, light_on_record, light_on_text, opt_mired, opt_view,
    override_end_at, pause_until, plan_lamps_off, plan_lamps_on, record_light_on, scene_granted,
    scene_named, shown_name, span_fits, to_mired, ttl_end, ttl_fits, unknown_room_text,
    unknown_scene_text, validate_room, wanted_values, Granted, OverrideTtl, Scene, Snooze,
};
use crate::effect::{updates, Effect, LightCommand, Plan};
use crate::mcp::texts::{
    GET_CIRCADIAN_STATUS, GET_ROOM, GET_ROOMS, GET_ROOM_ROOM_ID, GET_SYSTEM_STATUS, LIGHT_OFF,
    LIGHT_OFF_TRANSITION, LIGHT_ON, LIGHT_ON_BRIGHTNESS, LIGHT_ON_COLOR_TEMP_K,
    LIGHT_ON_OVERRIDE_TTL_MINS, LIGHT_ON_TRANSITION, LIST_Z2M_SCENES, PAUSE_CIRCADIAN,
    RECALL_Z2M_SCENE, RECALL_Z2M_SCENE_SCENE_ID, RELOAD_CONFIG, RESUME_CIRCADIAN, ROOM_ID,
    SET_NIGHT_MODE, SET_NIGHT_MODE_ACTIVE, SET_SCENE, SET_SCENE_OVERRIDE_TTL_MINS,
    SET_SCENE_SCENE, SNOOZE_CIRCADIAN, SNOOZE_CIRCADIAN_HOURS,
};
use crate::mqtt::device_state::{low16, low8};
use crate::report::{
    by_name, describe_unknown_scene_id, get_circadian_status, get_rooms, get_system_status,
    group_of, law_scenes_are_found_by_id, list_scenes, lists_scenes, room_detail, scene_name, scene_name_from, stored_scenes,
    summary_of, summary_views, tells, tells_system, unknown_scene_id_text, RoomDetail, RoomSummary,
    SceneList, SystemStatus,
};
use crate::state::{RoomStateUpdate, SystemState, UpdateSource};
use crate::text::{cat2, cat3, same};
use crate::time::Instant;

verus! {

/// What a parameter of a tool may be.
#[derive(Clone, Copy, Debug, PartialEq, Eq, Structural)]
pub enum ParamKind {
    Text,
    Integer,
    Number,
    Flag,
    /// The name of a predefined scene.
    Scene,
}

/// A parameter of a tool.
#[derive(Clone, Copy, Debug)]
pub struct ToolParam {
    pub name: &'static str,
    pub kind: ParamKind,
    pub minimum: Option<u32>,
    pub maximum: Option<u32>,
    pub description: &'static str,
    pub required: bool,
}

/// What an agent is told about a tool.
#[derive(Clone, Debug)]
pub struct ToolDefinition {
    pub name: &'static str,
    pub description: &'static str,
    pub params: Vec<ToolParam>,
}

/// [`ToolDefinition`], with its parameters as a sequence.
#[verifier::ext_equal]
pub struct ToolModel {
    pub name: &'static str,
    pub description: &'static str,
    pub params: Seq<ToolParam>,
}

impl View for ToolDefinition {
    type V = ToolModel;

    open spec fn view(&self) -> ToolModel {
        ToolModel { name: self.name, description: self.description, params: self.params@ }
    }
}

/// The views of several definitions.
pub open spec fn tool_views(list: Seq<ToolDefinition>) -> Seq<ToolModel> {
    list.map_values(|t: ToolDefinition| t@)
}

/// A parameter of a tool.
pub open spec fn param(
    name: &'static str,
    kind: ParamKind,
    minimum: Option<u32>,
    maximum: Option<u32>,
    description: &'static str,
    required: bool,
) -> ToolParam {
    ToolParam { name, kind, minimum, maximum, description, required }
}

fn make_param(
    name: &'static str,
    kind: ParamKind,
    minimum: Option<u32>,
    maximum: Option<u32>,
    description: &'static str,
    required: bool,
) -> (r: ToolParam)
    ensures
        r == param(name, kind, minimum, maximum, description, required),
{
    ToolParam { name, kind, minimum, maximum, description, required }
}

/// What an agent is told about the tools.
pub open spec fn tools() -> Seq<ToolModel> {
    seq![
        ToolModel {
            name: "get_rooms",
            description: GET_ROOMS,
            params: Seq::empty(),
        },
        ToolModel {
            name: "get_room",
            description: GET_ROOM,
            params: seq![
                param("room_id", ParamKind::Text, None, None, GET_ROOM_ROOM_ID, true),
            ],
        },
        ToolModel {
            name: "light_on",
            description: LIGHT_ON,
            params: seq![
                param("room_id", ParamKind::Text, None, None, ROOM_ID, true),
                param("brightness", ParamKind::Integer, Some(1), Some(254), LIGHT_ON_BRIGHTNESS, false),
                param("color_temp_k", ParamKind::Integer, Some(2000), Some(6500), LIGHT_ON_COLOR_TEMP_K, false),
                param("transition", ParamKind::Integer, None, None, LIGHT_ON_TRANSITION, false),
                param("override_ttl_mins", ParamKind::Number, None, None, LIGHT_ON_OVERRIDE_TTL_MINS, false),
            ],
        },
        ToolModel {
            name: "light_off",
            description: LIGHT_OFF,
            params: seq![
                param("room_id", ParamKind::Text, None, None, ROOM_ID, true),
                param("transition", ParamKind::Integer, None, None, LIGHT_OFF_TRANSITION, false),
            ],
        },
        ToolModel {
            name: "pause_circadian",
            description: PAUSE_CIRCADIAN,
            params: seq![
                param("room_id", ParamKind::Text, None, None, ROOM_ID, true),
            ],
        },
        ToolModel {
            name: "resume_circadian",
            description: RESUME_CIRCADIAN,
            params: seq![
                param("room_id", ParamKind::Text, None, None, ROOM_ID, true),
            ],
        },
        ToolModel {
            name: "snooze_circadian",
            description: SNOOZE_CIRCADIAN,
            params: seq![
                param("room_id", ParamKind::Text, None, None, ROOM_ID, true),
                param("hours", ParamKind::Number, None, None, SNOOZE_CIRCADIAN_HOURS, true),
            ],
        },
        ToolModel {
            name: "set_night_mode",
            description: SET_NIGHT_MODE,
            params: seq![
                param("room_id", ParamKind::Text, None, None, ROOM_ID, true),
                param("active", ParamKind::Flag, None, None, SET_NIGHT_MODE_ACTIVE, true),
            ],
        },
        ToolModel {
            name: "set_scene",
            description: SET_SCENE,
            params: seq![
                param("room_id", ParamKind::Text, None, None, ROOM_ID, true),
                param("scene", ParamKind::Scene, None, None, SET_SCENE_SCENE, true),
                param("override_ttl_mins", ParamKind::Number, None, None, SET_SCENE_OVERRIDE_TTL_MINS, false),
            ],
        },
        ToolModel {
            name: "list_z2m_scenes",
            description: LIST_Z2M_SCENES,
            params: seq![
                param("room_id", ParamKind::Text, None, None, ROOM_ID, true),
            ],
        },
        ToolModel {
            name: "recall_z2m_scene",
            description: RECALL_Z2M_SCENE,
            params: seq![
                param("room_id", ParamKind::Text, None, None, ROOM_ID, true),
                param("scene_id", ParamKind::Integer, None, None, RECALL_Z2M_SCENE_SCENE_ID, true),
                param("override_ttl_mins", ParamKind::Number, None, None, SET_SCENE_OVERRIDE_TTL_MINS, false),
            ],
        },
        ToolModel {
            name: "get_circadian_status",
            description: GET_CIRCADIAN_STATUS,
            params: Seq::empty(),
        },
        ToolModel {
            name: "get_system_status",
            description: GET_SYSTEM_STATUS,
            params: Seq::empty(),
        },
        ToolModel {
            name: "reload_config",
            description: RELOAD_CONFIG,
            params: Seq::empty(),
        },
    ]
}

/// How long an agent asks to snooze.
#[derive(Clone, Copy, Debug, PartialEq, Eq, Structural)]
pub enum HoursArg {
    /// No number was given.
    Missing,
    /// Not between 0 and 24.
    OutOfRange,
    Given(Snooze),
}

/// The arguments of a call, as far as any tool looks at them. `S` is the type of its texts.
#[derive(Clone, Debug)]
pub struct ToolArgs<S = String> {
    pub room_id: Option<S>,
    pub brightness: Option<u64>,
    pub color_temp_k: Option<u64>,
    pub transition: Option<u64>,
    pub active: Option<bool>,
    pub scene: Option<S>,
    pub scene_id: Option<u64>,
    pub override_ttl: Option<OverrideTtl>,
    pub hours: HoursArg,
}

impl View for ToolArgs<String> {
    type V = ToolArgs<Seq<char>>;

    open spec fn view(&self) -> ToolArgs<Seq<char>> {
        ToolArgs {
            room_id: opt_view(self.room_id),
            brightness: self.brightness,
            color_temp_k: self.color_temp_k,
            transition: self.transition,
            active: self.active,
            scene: opt_view(self.scene),
            scene_id: self.scene_id,
            override_ttl: self.override_ttl,
            hours: self.hours,
        }
    }
}

/// The low 32 bits of a number.
pub open spec fn low32(value: Option<u64>) -> Option<u32> {
    match value {
        Some(v) => Some((v % 0x1_0000_0000) as u32),
        None => None,
    }
}

fn take8(value: Option<u64>) -> (r: Option<u8>)
    ensures
        r == low8(value),
{
    match value {
        Some(v) => Some((v % 256) as u8),
        None => None,
    }
}

fn take16(value: Option<u64>) -> (r: Option<u16>)
    ensures
        r == low16(value),
{
    match value {
        Some(v) => Some((v % 65_536) as u16),
        None => None,
    }
}

fn take32(value: Option<u64>) -> (r: Option<u32>)
    ensures
        r == low32(value),
{
    match value {
        Some(v) => Some((v % 0x1_0000_0000) as u32),
        None => None,
    }
}

/// What a call answers with.
#[derive(Clone, Debug)]
pub enum ToolReply {
    Rooms(Vec<RoomSummary>),
    Room(RoomDetail),
    /// Nothing is known of the room; said in an answer, not as a failure.
    UnseenRoom { error: String },
    Done(Granted),
    Scenes(SceneList),
    CircadianStatus(Vec<RoomSummary>),
    System(SystemStatus),
    /// A bare status text, and what it means.
    Status { status: String, description: String },
}

/// What a call comes to: a plan, and an answer or a failure.
#[derive(Debug)]
pub struct ToolOutcome {
    pub plan: Plan,
    pub result: Result<ToolReply, String>,
}

impl ToolOutcome {
    /// The call fails with this message and does nothing.
    pub open spec fn fails(self, message: Seq<char>) -> bool {
        self.fails_after(Seq::empty(), message)
    }

    /// The call fails with this message, after this was done.
    pub open spec fn fails_after(self, effects: Seq<Effect<Seq<char>>>, message: Seq<char>) -> bool {
        self.plan@ == effects && (self.result matches Err(e) && e@ == message)
    }

    /// The call is granted with exactly this plan and answer.
    pub open spec fn grants(
        self,
        effects: Seq<Effect<Seq<char>>>,
        answer: Granted<Seq<char>>,
    ) -> bool {
        self.plan@ == effects && (self.result matches Ok(ToolReply::Done(reply)) && reply@ == answer)
    }

    /// The call does nothing but answer.
    pub open spec fn only_answers(self) -> bool {
        self.plan@ == Seq::<Effect<Seq<char>>>::empty() && self.result is Ok
    }
}

fn failure(message: String) -> (r: ToolOutcome)
    ensures
        r.fails(message@),
{
    ToolOutcome { plan: Plan::new(), result: Err(message) }
}

fn done(outcome: (Plan, Granted)) -> (r: ToolOutcome)
    ensures
        r.grants(outcome.0@, outcome.1@),
{
    ToolOutcome { plan: outcome.0, result: Ok(ToolReply::Done(outcome.1)) }
}

fn answer(reply: ToolReply) -> (r: ToolOutcome)
    ensures
        r.only_answers(),
        r.result == Ok::<ToolReply, String>(reply),
{
    ToolOutcome { plan: Plan::new(), result: Ok(reply) }
}

/// What is said about a room that nothing is known of.
pub open spec fn unseen_text(room_id: Seq<char>) -> Seq<char> {
    "Room '"@ + room_id + "' not found. Use get_rooms to see available room IDs."@
}

/// What `get_room` comes to.
pub open spec fn room_outcome(
    o: ToolOutcome,
    config: AppConfig,
    state: SystemState,
    now: Instant,
    id: Seq<char>,
) -> bool {
    o.only_answers() && if state.rooms@.contains_key(id) {
        o.result matches Ok(ToolReply::Room(detail)) && detail.settings is None && tells(
            detail,
            config,
            id,
            summary_of(config, id, state.rooms@[id], now, None),
        )
    } else {
        o.result matches Ok(ToolReply::UnseenRoom { error }) && error@ == unseen_text(id)
    }
}

fn get_room(config: &AppConfig, state: &SystemState, now: Instant, room_id: &str) -> (r: ToolOutcome)
    ensures
        room_outcome(r, *config, *state, now, room_id@),
{
    match room_detail(config, state, now, room_id) {
        Some(detail) => answer(ToolReply::Room(detail)),
        None => answer(
            ToolReply::UnseenRoom {
                error: cat3(
                    "Room '",
                    room_id,
                    "' not found. Use get_rooms to see available room IDs.",
                ),
            },
        ),
    }
}

/// What turning a configured room's lights on with these values does. `manual` tells whether
/// somebody asked for them.
pub open spec fn light_on_effects(
    config: AppConfig,
    now: Instant,
    id: Seq<char>,
    values: (Option<u8>, Option<u16>),
    manual: bool,
    transition: Option<u32>,
    ttl: Option<OverrideTtl>,
) -> Seq<Effect<Seq<char>>> {
    lamps_on(config.rooms@[id], values.0, values.1, transition) + light_on_record(
        id,
        values.0,
        values.1,
        manual,
        ttl_end(now, ttl),
    )
}

fn plan_light_on(
    config: &AppConfig,
    now: Instant,
    room_id: &str,
    values: (Option<u8>, Option<u16>),
    manual: bool,
    transition: Option<u32>,
    ttl: Option<OverrideTtl>,
    plan: &mut Plan,
)
    requires
        config.rooms@.contains_key(room_id@),
        ttl_fits(now, ttl),
    ensures
        final(plan)@ == old(plan)@ + light_on_effects(
            *config,
            now,
            room_id@,
            values,
            manual,
            transition,
            ttl,
        ),
{
    if let Some(room_config) = config.rooms.get(room_id) {
        plan_lamps_on(plan, room_config, values.0, values.1, transition);
    }
    record_light_on(plan, room_id, values.0, values.1, manual, override_end_at(now, ttl));
    assert(plan@ =~= old(plan)@ + light_on_effects(
        *config,
        now,
        room_id@,
        values,
        manual,
        transition,
        ttl,
    ));
}

/// The seconds that a transition takes: three where nothing else is asked for.
pub open spec fn transition_of(value: Option<u64>) -> Option<u32> {
    match value {
        Some(v) => low32(Some(v)),
        None => Some(3),
    }
}

fn take_transition(value: Option<u64>) -> (r: Option<u32>)
    ensures
        r == transition_of(value),
{
    match value {
        Some(v) => take32(Some(v)),
        None => Some(3),
    }
}

/// What `light_on` comes to: lights at the values that were asked for, and without any where the
/// room's curve is.
pub open spec fn light_on_outcome(
    o: ToolOutcome,
    config: AppConfig,
    now: Instant,
    curve: CurveNow,
    id: Seq<char>,
    args: ToolArgs<Seq<char>>,
) -> bool {
    let brightness = low8(args.brightness);
    let color_temp_k = low16(args.color_temp_k);
    if config.rooms@.contains_key(id) {
        o.grants(
            light_on_effects(
                config,
                now,
                id,
                wanted_values(brightness, opt_mired(color_temp_k), known_target(config, id, curve)),
                brightness is Some || color_temp_k is Some,
                transition_of(args.transition),
                args.override_ttl,
            ),
            granted(
                id,
                light_on_text(
                    shown_name(config, id),
                    brightness,
                    color_temp_k,
                    args.override_ttl,
                ),
            ),
        )
    } else {
        o.fails(unknown_room_text(config, id))
    }
}

fn light_on(
    config: &AppConfig,
    now: Instant,
    curve: CurveNow,
    room_id: &str,
    args: &ToolArgs,
) -> (r: ToolOutcome)
    requires
        config.rooms@.contains_key(room_id@) ==> low16(args.color_temp_k) != Some(0u16),
        ttl_fits(now, args.override_ttl),
    ensures
        light_on_outcome(r, *config, now, curve, room_id@, args@),
{
    if let Some(message) = validate_room(config, room_id) {
        return failure(message);
    }
    let brightness: Option<u8> = take8(args.brightness);
    let color_temp_k: Option<u16> = take16(args.color_temp_k);
    let values: (Option<u8>, Option<u16>) = choose_values(
        brightness,
        to_mired(color_temp_k),
        find_target(config, room_id, curve),
    );
    let manual: bool = brightness.is_some() || color_temp_k.is_some();
    let mut plan: Plan = Plan::new();
    let ghost empty = plan@;
    plan_light_on(
        config,
        now,
        room_id,
        values,
        manual,
        take_transition(args.transition),
        args.override_ttl,
        &mut plan,
    );
    let description: String = describe_light_on(
        display_name(config, room_id).as_str(),
        brightness,
        color_temp_k,
        args.override_ttl,
    );
    proof {
        let effects = light_on_effects(
            *config,
            now,
            room_id@,
            values,
            manual,
            transition_of(args.transition),
            args.override_ttl,
        );
        assert(empty + effects =~= effects);
    }
    done((plan, grant(room_id, description)))
}

/// What `light_off` comes to. A pause stays for when the lights come back on.
pub open spec fn light_off_outcome(
    o: ToolOutcome,
    config: AppConfig,
    id: Seq<char>,
    args: ToolArgs<Seq<char>>,
) -> bool {
    if config.rooms@.contains_key(id) {
        o.grants(
            lamps_off(config.rooms@[id], transition_of(args.transition)).push(
                updates(id, RoomStateUpdate::LightsOffByRequest),
            ),
            granted(id, shown_name(config, id) + " lights turned off"@),
        )
    } else {
        o.fails(unknown_room_text(config, id))
    }
}

fn light_off(config: &AppConfig, room_id: &str, args: &ToolArgs) -> (r: ToolOutcome)
    ensures
        light_off_outcome(r, *config, room_id@, args@),
{
    if let Some(message) = validate_room(config, room_id) {
        return failure(message);
    }
    let mut plan: Plan = Plan::new();
    let transition: Option<u32> = take_transition(args.transition);
    if let Some(room_config) = config.rooms.get(room_id) {
        plan_lamps_off(&mut plan, room_config, transition);
    }
    plan.update(room_id, RoomStateUpdate::LightsOffByRequest);
    assert(plan@ =~= lamps_off(config.rooms@[room_id@], transition).push(
        updates(room_id@, RoomStateUpdate::LightsOffByRequest),
    ));
    let description: String = cat2(display_name(config, room_id).as_str(), " lights turned off");
    done((plan, grant(room_id, description)))
}

/// What `snooze_circadian` comes to.
pub open spec fn snooze_outcome(
    o: ToolOutcome,
    config: AppConfig,
    now: Instant,
    id: Seq<char>,
    hours: HoursArg,
) -> bool {
    match hours {
        HoursArg::Missing => o.fails("hours is required (number)"@),
        _ => if !config.rooms@.contains_key(id) {
            o.fails(unknown_room_text(config, id))
        } else {
            match hours {
                HoursArg::Given(snooze) => o.grants(
                    snoozing(id, now, snooze),
                    snoozed_answer(config, id, snooze),
                ),
                _ => o.fails("Hours must be between 0 and 24"@),
            }
        },
    }
}

fn snooze_circadian(config: &AppConfig, now: Instant, room_id: &str, hours: HoursArg) -> (r:
    ToolOutcome)
    requires
        hours matches HoursArg::Given(snooze) ==> span_fits(now, snooze.after),
    ensures
        snooze_outcome(r, *config, now, room_id@, hours),
{
    match hours {
        HoursArg::Missing => {
            return failure("hours is required (number)".to_owned());
        },
        _ => {},
    }
    if let Some(message) = validate_room(config, room_id) {
        return failure(message);
    }
    match hours {
        HoursArg::Given(snooze) => done(granted_snooze(config, now, room_id, snooze)),
        _ => failure("Hours must be between 0 and 24".to_owned()),
    }
}

/// What setting a scene in a configured room does. With a time limit the curve is held back until
/// then, and otherwise until further notice.
pub open spec fn scene_effects(
    config: AppConfig,
    now: Instant,
    id: Seq<char>,
    scene: Scene,
    ttl: Option<OverrideTtl>,
) -> Seq<Effect<Seq<char>>> {
    seq![pause_until(id, ttl_end(now, ttl))] + light_on_effects(
        config,
        now,
        id,
        (Some(scene.brightness), Some(mired(scene.color_temp_k))),
        true,
        Some(3),
        ttl,
    )
}

/// What `set_scene` comes to. The curve is paused before the room is looked for.
pub open spec fn scene_outcome(
    o: ToolOutcome,
    config: AppConfig,
    now: Instant,
    id: Seq<char>,
    name: Seq<char>,
    ttl: Option<OverrideTtl>,
) -> bool {
    match scene_named(name) {
        None => o.fails(unknown_scene_text(name)),
        Some(scene) => if config.rooms@.contains_key(id) {
            o.grants(
                scene_effects(config, now, id, scene, ttl),
                scene_granted(config, id, name, scene, ttl),
            )
        } else {
            o.fails_after(
                seq![pause_until(id, ttl_end(now, ttl))],
                unknown_room_text(config, id),
            )
        },
    }
}

fn set_scene(
    config: &AppConfig,
    now: Instant,
    room_id: &str,
    name: &str,
    ttl: Option<OverrideTtl>,
) -> (r: ToolOutcome)
    requires
        ttl_fits(now, ttl),
    ensures
        scene_outcome(r, *config, now, room_id@, name@, ttl),
{
    let scene: Scene = match find_scene(name) {
        Some(scene) => scene,
        None => {
            return failure(describe_unknown_scene(name));
        },
    };
    let mut plan: Plan = Plan::new();
    let until: Option<Instant> = override_end_at(now, ttl);
    plan.update(room_id, RoomStateUpdate::CircadianPause { paused: true, until });
    assert(plan@ =~= seq![pause_until(room_id@, until)]);
    if let Some(message) = validate_room(config, room_id) {
        return ToolOutcome { plan, result: Err(message) };
    }
    plan_light_on(
        config,
        now,
        room_id,
        (Some(scene.brightness), Some(kelvin_to_mired(scene.color_temp_k))),
        true,
        Some(3),
        ttl,
        &mut plan,
    );
    done((plan, grant_scene(config, room_id, name, scene, ttl)))
}

/// What `recall_z2m_scene` comes to.
pub open spec fn recall_outcome(
    o: ToolOutcome,
    config: AppConfig,
    state: SystemState,
    now: Instant,
    id: Seq<char>,
    scene_id: u16,
    ttl: Option<OverrideTtl>,
) -> bool {
    if !config.rooms@.contains_key(id) {
        o.fails(unknown_room_text(config, id))
    } else {
        match group_of(config, id) {
            None => o.fails(no_group_text(id)),
            Some(group) => match scene_name_from(stored_scenes(state, group), scene_id, 0) {
                None => o.fails(unknown_scene_id_text(state, group, scene_id)),
                Some(scene) => o.grants(
                    recall_effects(id, group, scene_id, ttl_end(now, ttl)),
                    recall_answer(config, id, scene, scene_id, ttl),
                ),
            },
        }
    }
}

fn recall_z2m_scene(
    config: &AppConfig,
    state: &SystemState,
    now: Instant,
    room_id: &str,
    scene_id: u16,
    ttl: Option<OverrideTtl>,
) -> (r: ToolOutcome)
    requires
        ttl_fits(now, ttl),
    ensures
        recall_outcome(r, *config, *state, now, room_id@, scene_id, ttl),
{
    if let Some(message) = validate_room(config, room_id) {
        return failure(message);
    }
    let mut group: Option<String> = None;
    if let Some(room_config) = config.rooms.get(room_id) {
        if let Some(name) = &room_config.z2m_group {
            group = Some(name.clone());
        }
    }
    let group: String = match group {
        Some(group) => group,
        None => {
            return failure(cat3("Room '", room_id, "' has no Z2M group — cannot recall scene"));
        },
    };
    match scene_name(state, group.as_str(), scene_id) {
        Some(scene) => done(
            granted_recall(
                config,
                now,
                room_id,
                group.as_str(),
                scene.as_str(),
                scene_id,
                ttl,
            ),
        ),
        None => failure(describe_unknown_scene_id(state, group.as_str(), scene_id)),
    }
}

/// The answer to a switch of the night mode flag.
pub open spec fn night_flag_answer(config: AppConfig, id: Seq<char>, active: bool) -> Granted<
    Seq<char>,
> {
    Granted {
        night_mode: Some(active),
        ..granted(
            id,
            shown_name(config, id) + (if active {
                ": night mode on"@
            } else {
                ": night mode off"@
            }),
        )
    }
}

fn set_night_mode(config: &AppConfig, room_id: &str, active: bool) -> (r: ToolOutcome)
    ensures
        r.grants(
            seq![updates(room_id@, RoomStateUpdate::NightMode(active))],
            night_flag_answer(*config, room_id@, active),
        ),
{
    let mut plan: Plan = Plan::new();
    plan.update(room_id, RoomStateUpdate::NightMode(active));
    assert(plan@ =~= seq![updates(room_id@, RoomStateUpdate::NightMode(active))]);
    let description: String = cat2(
        display_name(config, room_id).as_str(),
        if active {
            ": night mode on"
        } else {
            ": night mode off"
        },
    );
    let mut reply: Granted = grant(room_id, description);
    reply.night_mode = Some(active);
    done((plan, reply))
}

/// What a call with a room comes to, for the tools that need one.
pub open spec fn room_tool_outcome(
    o: ToolOutcome,
    config: AppConfig,
    state: SystemState,
    now: Instant,
    curve: CurveNow,
    name: Seq<char>,
    id: Seq<char>,
    args: ToolArgs<Seq<char>>,
) -> bool {
    if name == "get_room"@ {
        room_outcome(o, config, state, now, id)
    } else if name == "light_on"@ {
        light_on_outcome(o, config, now, curve, id, args)
    } else if name == "light_off"@ {
        light_off_outcome(o, config, id, args)
    } else if name == "pause_circadian"@ {
        if config.rooms@.contains_key(id) {
            o.grants(seq![pause_effect(id)], paused_answer(config, id))
        } else {
            o.fails(unknown_room_text(config, id))
        }
    } else if name == "resume_circadian"@ {
        if config.rooms@.contains_key(id) {
            o.grants(resumption(id), resumed_answer(config, id))
        } else {
            o.fails(unknown_room_text(config, id))
        }
    } else if name == "snooze_circadian"@ {
        snooze_outcome(o, config, now, id, args.hours)
    } else if name == "set_night_mode"@ {
        match args.active {
            None => o.fails("active is required"@),
            Some(active) => o.grants(
                seq![updates(id, RoomStateUpdate::NightMode(active))],
                night_flag_answer(config, id, active),
            ),
        }
    } else if name == "set_scene"@ {
        match args.scene {
            None => o.fails("scene is required"@),
            Some(scene) => scene_outcome(o, config, now, id, scene, args.override_ttl),
        }
    } else if name == "list_z2m_scenes"@ {
        if config.rooms@.contains_key(id) {
            o.only_answers() && (o.result matches Ok(ToolReply::Scenes(list)) && lists_scenes(
                list,
                config,
                state,
                id,
            ))
        } else {
            o.fails(unknown_room_text(config, id))
        }
    } else {
        match args.scene_id {
            None => o.fails("scene_id is required (integer)"@),
            Some(scene_id) => recall_outcome(
                o,
                config,
                state,
                now,
                id,
                (scene_id % 65_536) as u16,
                args.override_ttl,
            ),
        }
    }
}

/// The tools that need a room.
pub open spec fn needs_room(name: Seq<char>) -> bool {
    name == "get_room"@ || name == "light_on"@ || name == "light_off"@ || name
        == "pause_circadian"@ || name == "resume_circadian"@ || name == "snooze_circadian"@ || name
        == "set_night_mode"@ || name == "set_scene"@ || name == "list_z2m_scenes"@ || name
        == "recall_z2m_scene"@
}

/// What a call comes to.
pub open spec fn tool_outcome(
    o: ToolOutcome,
    config: AppConfig,
    state: SystemState,
    now: Instant,
    curve: CurveNow,
    name: Seq<char>,
    args: ToolArgs<Seq<char>>,
) -> bool {
    let rooms = state.rooms.entries_seq();
    if needs_room(name) {
        match args.room_id {
            None => o.fails("room_id is required"@),
            Some(id) => room_tool_outcome(o, config, state, now, curve, name, id, args),
        }
    } else if name == "get_rooms"@ {
        o.only_answers() && (o.result matches Ok(ToolReply::Rooms(list)) && summary_views(list@)
            == by_name(config, rooms, now, None, rooms.len() as int))
    } else if name == "get_circadian_status"@ {
        o.only_answers() && (o.result matches Ok(ToolReply::CircadianStatus(list))
            && summary_views(list@) == by_name(
            config,
            rooms,
            now,
            Some(curve),
            rooms.len() as int,
        ))
    } else if name == "get_system_status"@ {
        o.only_answers() && (o.result matches Ok(ToolReply::System(status)) && tells_system(
            status,
            state,
            now,
        ))
    } else if name == "reload_config"@ {
        o.only_answers() && (o.result matches Ok(ToolReply::Status { status, description })
            && status@ == "reload not yet implemented at runtime"@ && description@
            == "The config is read at startup. Restart jeha to apply changes."@)
    } else {
        o.fails("Unknown tool: "@ + name)
    }
}

fn call_room_tool(
    config: &AppConfig,
    state: &SystemState,
    now: Instant,
    curve: CurveNow,
    name: &str,
    room_id: &str,
    args: &ToolArgs,
) -> (r: ToolOutcome)
    requires
        needs_room(name@),
        name@ == "light_on"@ && config.rooms@.contains_key(room_id@) ==> low16(args.color_temp_k)
            != Some(0u16),
        ttl_fits(now, args.override_ttl),
        args.hours matches HoursArg::Given(snooze) ==> span_fits(now, snooze.after),
    ensures
        room_tool_outcome(r, *config, *state, now, curve, name@, room_id@, args@),
{
    if same(name, "get_room") {
        return get_room(config, state, now, room_id);
    }
    if same(name, "light_on") {
        return light_on(config, now, curve, room_id, args);
    }
    if same(name, "light_off") {
        return light_off(config, room_id, args);
    }
    if same(name, "pause_circadian") {
        return match validate_room(config, room_id) {
            Some(message) => failure(message),
            None => done(granted_pause(config, room_id)),
        };
    }
    if same(name, "resume_circadian") {
        return match validate_room(config, room_id) {
            Some(message) => failure(message),
            None => done(granted_resumption(config, room_id)),
        };
    }
    if same(name, "snooze_circadian") {
        return snooze_circadian(config, now, room_id, args.hours);
    }
    if same(name, "set_night_mode") {
        return match args.active {
            Some(active) => set_night_mode(config, room_id, active),
            None => failure("active is required".to_owned()),
        };
    }
    if same(name, "set_scene") {
        return match &args.scene {
            Some(scene) => set_scene(config, now, room_id, scene.as_str(), args.override_ttl),
            None => failure("scene is required".to_owned()),
        };
    }
    if same(name, "list_z2m_scenes") {
        return match validate_room(config, room_id) {
            Some(message) => failure(message),
            None => answer(ToolReply::Scenes(list_scenes(config, state, room_id))),
        };
    }
    match args.scene_id {
        Some(scene_id) => recall_z2m_scene(
            config,
            state,
            now,
            room_id,
            (scene_id % 65_536) as u16,
            args.override_ttl,
        ),
        None => failure("scene_id is required (integer)".to_owned()),
    }
}

fn is_room_tool(name: &str) -> (r: bool)
    ensures
        r == needs_room(name@),
{
    same(name, "get_room") || same(name, "light_on") || same(name, "light_off") || same(
        name,
        "pause_circadian",
    ) || same(name, "resume_circadian") || same(name, "snooze_circadian") || same(
        name,
        "set_night_mode",
    ) || same(name, "set_scene") || same(name, "list_z2m_scenes") || same(
        name,
        "recall_z2m_scene",
    )
}

/// The color temperature that lights are to be turned on with can be converted.
pub open spec fn convertible(config: AppConfig, name: Seq<char>, args: ToolArgs<Seq<char>>) -> bool {
    name == "light_on"@ && args.room_id is Some && config.rooms@.contains_key(args.room_id->0)
        ==> low16(args.color_temp_k) != Some(0u16)
}

/// Whether the color temperature that lights are to be turned on with can be converted.
pub fn check_convertible(config: &AppConfig, name: &str, args: &ToolArgs) -> (r: bool)
    ensures
        r == convertible(*config, name@, args@),
{
    if !same(name, "light_on") {
        return true;
    }
    match (&args.room_id, take16(args.color_temp_k)) {
        (Some(room_id), Some(k)) => k != 0 || !config.rooms.contains_key(room_id.as_str()),
        _ => true,
    }
}

/// Answers the calls of agents.
#[derive(Clone, Copy)]
pub struct McpToolHandler<'a> {
    pub config: &'a AppConfig,
    pub state: &'a SystemState,
}

impl<'a> McpToolHandler<'a> {
    pub fn new(config: &'a AppConfig, state: &'a SystemState) -> (r: Self)
        ensures
            r.config == config,
            r.state == state,
    {
        McpToolHandler { config, state }
    }

    /// What an agent is told about the tools.
    pub fn tool_definitions(&self) -> (r: Vec<ToolDefinition>)
        ensures
            tool_views(r@) == tools(),
    {
        let mut list: Vec<ToolDefinition> = Vec::new();
        list.push(
            ToolDefinition {
                name: "get_rooms",
                description: GET_ROOMS,
                params: Vec::new(),
            },
        );
        list.push(
            ToolDefinition {
                name: "get_room",
                description: GET_ROOM,
                params: vec![
                    make_param("room_id", ParamKind::Text, None, None, GET_ROOM_ROOM_ID, true),
                ],
            },
        );
        list.push(
            ToolDefinition {
                name: "light_on",
                description: LIGHT_ON,
                params: vec![
                    make_param("room_id", ParamKind::Text, None, None, ROOM_ID, true),
                    make_param("brightness", ParamKind::Integer, Some(1), Some(254), LIGHT_ON_BRIGHTNESS, false),
                    make_param("color_temp_k", ParamKind::Integer, Some(2000), Some(6500), LIGHT_ON_COLOR_TEMP_K, false),
                    make_param("transition", ParamKind::Integer, None, None, LIGHT_ON_TRANSITION, false),
                    make_param("override_ttl_mins", ParamKind::Number, None, None, LIGHT_ON_OVERRIDE_TTL_MINS, false),
                ],
            },
        );
        list.push(
            ToolDefinition {
                name: "light_off",
                description: LIGHT_OFF,
                params: vec![
                    make_param("room_id", ParamKind::Text, None, None, ROOM_ID, true),
                    make_param("transition", ParamKind::Integer, None, None, LIGHT_OFF_TRANSITION, false),
                ],
            },
        );
        list.push(
            ToolDefinition {
                name: "pause_circadian",
                description: PAUSE_CIRCADIAN,
                params: vec![
                    make_param("room_id", ParamKind::Text, None, None, ROOM_ID, true),
                ],
            },
        );
        list.push(
            ToolDefinition {
                name: "resume_circadian",
                description: RESUME_CIRCADIAN,
                params: vec![
                    make_param("room_id", ParamKind::Text, None, None, ROOM_ID, true),
                ],
            },
        );
        list.push(
            ToolDefinition {
                name: "snooze_circadian",
                description: SNOOZE_CIRCADIAN,
                params: vec![
                    make_param("room_id", ParamKind::Text, None, None, ROOM_ID, true),
                    make_param("hours", ParamKind::Number, None, None, SNOOZE_CIRCADIAN_HOURS, true),
                ],
            },
        );
        list.push(
            ToolDefinition {
                name: "set_night_mode",
                description: SET_NIGHT_MODE,
                params: vec![
                    make_param("room_id", ParamKind::Text, None, None, ROOM_ID, true),
                    make_param("active", ParamKind::Flag, None, None, SET_NIGHT_MODE_ACTIVE, true),
                ],
            },
        );
        list.push(
            ToolDefinition {
                name: "set_scene",
                description: SET_SCENE,
                params: vec![
                    make_param("room_id", ParamKind::Text, None, None, ROOM_ID, true),
                    make_param("scene", ParamKind::Scene, None, None, SET_SCENE_SCENE, true),
                    make_param("override_ttl_mins", ParamKind::Number, None, None, SET_SCENE_OVERRIDE_TTL_MINS, false),
                ],
            },
        );
        list.push(
            ToolDefinition {
                name: "list_z2m_scenes",
                description: LIST_Z2M_SCENES,
                params: vec![
                    make_param("room_id", ParamKind::Text, None, None, ROOM_ID, true),
                ],
            },
        );
        list.push(
            ToolDefinition {
                name: "recall_z2m_scene",
                description: RECALL_Z2M_SCENE,
                params: vec![
                    make_param("room_id", ParamKind::Text, None, None, ROOM_ID, true),
                    make_param("scene_id", ParamKind::Integer, None, None, RECALL_Z2M_SCENE_SCENE_ID, true),
                    make_param("override_ttl_mins", ParamKind::Number, None, None, SET_SCENE_OVERRIDE_TTL_MINS, false),
                ],
            },
        );
        list.push(
            ToolDefinition {
                name: "get_circadian_status",
                description: GET_CIRCADIAN_STATUS,
                params: Vec::new(),
            },
        );
        list.push(
            ToolDefinition {
                name: "get_system_status",
                description: GET_SYSTEM_STATUS,
                params: Vec::new(),
            },
        );
        list.push(
            ToolDefinition {
                name: "reload_config",
                description: RELOAD_CONFIG,
                params: Vec::new(),
            },
        );
        assert(tool_views(list@) =~~= tools());
        list
    }

    /// Calls a tool by its name. `curve` tells where the rooms' curves are now.
    pub fn call_tool(
        &self,
        now: Instant,
        curve: CurveNow,
        name: &str,
        args: &ToolArgs,
    ) -> (r: ToolOutcome)
        requires
            convertible(*self.config, name@, args@),
            ttl_fits(now, args.override_ttl),
            args.hours matches HoursArg::Given(snooze) ==> span_fits(now, snooze.after),
        ensures
            tool_outcome(r, *self.config, *self.state, now, curve, name@, args@),
    {
        let config = self.config;
        let state = self.state;
        if is_room_tool(name) {
            return match &args.room_id {
                Some(room_id) => call_room_tool(
                    config,
                    state,
                    now,
                    curve,
                    name,
                    room_id.as_str(),
                    args,
                ),
                None => failure("room_id is required".to_owned()),
            };
        }
        if same(name, "get_rooms") {
            return answer(ToolReply::Rooms(get_rooms(config, state, now)));
        }
        if same(name, "get_circadian_status") {
            return answer(
                ToolReply::CircadianStatus(get_circadian_status(config, state, now, curve)),
            );
        }
        if same(name, "get_system_status") {
            return answer(ToolReply::System(get_system_status(state, now)));
        }
        if same(name, "reload_config") {
            return answer(
                ToolReply::Status {
                    status: "reload not yet implemented at runtime".to_owned(),
                    description:
                        "The config is read at startup. Restart jeha to apply changes.".to_owned(),
                },
            );
        }
        failure(cat2("Unknown tool: ", name))
    }
}

/// The name is that of a tool that agents are told about.
pub open spec fn is_tool(name: Seq<char>) -> bool {
    exists|i: int| 0 <= i < tools().len() && (#[trigger] tools()[i]).name@ == name
}

/// A call is answered as unknown exactly where agents were not told about the tool.
pub proof fn law_every_tool_is_answered(
    o: ToolOutcome,
    config: AppConfig,
    state: SystemState,
    now: Instant,
    curve: CurveNow,
    name: Seq<char>,
    args: ToolArgs<Seq<char>>,
)
    requires
        tool_outcome(o, config, state, now, curve, name, args),
    ensures
        !is_tool(name) ==> o.fails("Unknown tool: "@ + name),
        is_tool(name) ==> needs_room(name) || name == "get_rooms"@ || name
            == "get_circadian_status"@ || name == "get_system_status"@ || name == "reload_config"@,
{
    let t = tools();
    assert(t.len() == 14);
    assert(t[0].name@ == "get_rooms"@);
    assert(t[1].name@ == "get_room"@);
    assert(t[2].name@ == "light_on"@);
    assert(t[3].name@ == "light_off"@);
    assert(t[4].name@ == "pause_circadian"@);
    assert(t[5].name@ == "resume_circadian"@);
    assert(t[6].name@ == "snooze_circadian"@);
    assert(t[7].name@ == "set_night_mode"@);
    assert(t[8].name@ == "set_scene"@);
    assert(t[9].name@ == "list_z2m_scenes"@);
    assert(t[10].name@ == "recall_z2m_scene"@);
    assert(t[11].name@ == "get_circadian_status"@);
    assert(t[12].name@ == "get_system_status"@);
    assert(t[13].name@ == "reload_config"@);
}

proof fn lemma_room_tools_differ()
    ensures
        "get_room"@ != "light_on"@,
        "get_room"@.len() == 8 && "light_on"@.len() == 8,
        "light_off"@.len() == 9 && "set_scene"@.len() == 9,
        "light_off"@ != "set_scene"@,
        "set_night_mode"@.len() == 14,
        "pause_circadian"@.len() == 15 && "list_z2m_scenes"@.len() == 15,
        "pause_circadian"@ != "list_z2m_scenes"@,
        "resume_circadian"@.len() == 16 && "snooze_circadian"@.len() == 16
            && "recall_z2m_scene"@.len() == 16,
        "resume_circadian"@ != "snooze_circadian"@,
        "recall_z2m_scene"@ != "snooze_circadian"@,
        "recall_z2m_scene"@ != "resume_circadian"@,
{
    reveal_strlit("get_room");
    reveal_strlit("light_on");
    reveal_strlit("light_off");
    reveal_strlit("set_scene");
    reveal_strlit("set_night_mode");
    reveal_strlit("pause_circadian");
    reveal_strlit("list_z2m_scenes");
    reveal_strlit("resume_circadian");
    reveal_strlit("snooze_circadian");
    reveal_strlit("recall_z2m_scene");
    assert("get_room"@[0] == 'g' && "light_on"@[0] == 'l');
    assert("light_off"@[0] == 'l' && "set_scene"@[0] == 's');
    assert("pause_circadian"@[0] == 'p' && "list_z2m_scenes"@[0] == 'l');
    assert("resume_circadian"@[0] == 'r' && "snooze_circadian"@[0] == 's');
    assert("recall_z2m_scene"@[2] == 'c' && "resume_circadian"@[2] == 's');
    assert("recall_z2m_scene"@[0] == 'r');
}

/// What the tools do to a configured room: a pause pauses the curve until further notice, a snooze
/// for its time, and resuming lifts the pause and gives the room back to the curve; the night mode
/// tool sets the flag.
pub proof fn law_tools_hold_and_free_the_curve(
    o: ToolOutcome,
    config: AppConfig,
    state: SystemState,
    now: Instant,
    curve: CurveNow,
    name: Seq<char>,
    args: ToolArgs<Seq<char>>,
    id: Seq<char>,
)
    requires
        tool_outcome(o, config, state, now, curve, name, args),
        args.room_id == Some(id),
        config.rooms@.contains_key(id),
    ensures
        name == "pause_circadian"@ ==> o.result is Ok && o.plan@.len() == 1 && o.plan@[0] == (
        Effect::Update {
            room_id: id,
            update: RoomStateUpdate::CircadianPause { paused: true, until: None },
        }),
        name == "resume_circadian"@ ==> o.result is Ok && o.plan@.len() == 2 && o.plan@[0] == (
        Effect::Update {
            room_id: id,
            update: RoomStateUpdate::CircadianPause { paused: false, until: None },
        }) && o.plan@[1] == (Effect::Update {
            room_id: id,
            update: RoomStateUpdate::LightsOn {
                brightness: None,
                color_temp_mired: None,
                source: UpdateSource::Circadian,
            },
        }),
        name == "snooze_circadian"@ && args.hours is Given && span_fits(
            now,
            args.hours->Given_0.after,
        ) ==> o.result is Ok && o.plan@.len() == 1 && o.plan@[0] == (Effect::Update {
            room_id: id,
            update: RoomStateUpdate::CircadianPause {
                paused: true,
                until: Some(
                    Instant { nanos: (now.nanos + args.hours->Given_0.after.nanos) as u128 },
                ),
            },
        }),
        name == "snooze_circadian"@ && !(args.hours is Given) ==> o.result is Err && o.plan@.len()
            == 0,
        name == "set_night_mode"@ && args.active is Some ==> o.result is Ok && o.plan@.len() == 1
            && o.plan@[0] == (Effect::Update {
            room_id: id,
            update: RoomStateUpdate::NightMode(args.active->0),
        }),
{
    lemma_room_tools_differ();
}

/// What the light tools do to a configured room with a group: its group is told the values that were
/// asked for, or where the curve is without any, over the transition that was asked for or three
/// seconds. A tool that cannot tell anything fails and does nothing.
pub proof fn law_light_tools_tell_the_group(
    o: ToolOutcome,
    config: AppConfig,
    state: SystemState,
    now: Instant,
    curve: CurveNow,
    name: Seq<char>,
    args: ToolArgs<Seq<char>>,
    id: Seq<char>,
)
    requires
        tool_outcome(o, config, state, now, curve, name, args),
        args.room_id == Some(id),
        config.rooms@.contains_key(id),
        config.rooms@[id].z2m_group is Some,
        args.brightness matches Some(b) ==> b <= 255,
        args.color_temp_k matches Some(k) ==> k <= 65_535,
        args.transition matches Some(secs) ==> secs <= u32::MAX,
    ensures
        ({
            let group = config.rooms@[id].z2m_group->0@;
            let over = match args.transition {
                Some(secs) => Some(secs as u32),
                None => Some(3u32),
            };
            let asked = args.brightness is Some || args.color_temp_k is Some;
            let target = known_target(config, id, curve);
            let b = if asked {
                match args.brightness {
                    Some(b) => Some(b as u8),
                    None => None,
                }
            } else {
                match target {
                    Some(t) => Some(t.brightness),
                    None => None,
                }
            };
            let ct = if asked {
                match args.color_temp_k {
                    Some(k) => Some(mired(k as u16)),
                    None => None,
                }
            } else {
                match target {
                    Some(t) => Some(t.color_temp_mired),
                    None => None,
                }
            };
            &&& name == "light_on"@ ==> o.result is Ok && o.plan@.len() >= 2 && o.plan@[0] == (
            Effect::Publish {
                command: LightCommand::TurnOnGroup {
                    group,
                    brightness: b,
                    color_temp_mired: ct,
                    transition: over,
                },
                required: true,
            }) && o.plan@[1] == (Effect::Update {
                room_id: id,
                update: RoomStateUpdate::LightsOn {
                    brightness: b,
                    color_temp_mired: ct,
                    source: if asked {
                        UpdateSource::Manual
                    } else {
                        UpdateSource::Circadian
                    },
                },
            })
            &&& name == "light_off"@ ==> o.result is Ok && o.plan@.len() == 2 && o.plan@[0] == (
            Effect::Publish {
                command: LightCommand::TurnOffGroup { group, transition: over },
                required: true,
            }) && o.plan@[1] == (Effect::Update {
                room_id: id,
                update: RoomStateUpdate::LightsOffByRequest,
            })
            &&& name == "set_scene"@ && args.scene is Some && scene_named(args.scene->0) is Some
                ==> o.result is Ok && o.plan@.len() == 5 && o.plan@[0] == (Effect::Update {
                room_id: id,
                update: RoomStateUpdate::CircadianPause {
                    paused: true,
                    until: ttl_end(now, args.override_ttl),
                },
            }) && o.plan@[1] == (Effect::Publish {
                command: LightCommand::TurnOnGroup {
                    group,
                    brightness: Some(scene_named(args.scene->0)->0.brightness),
                    color_temp_mired: Some(mired(scene_named(args.scene->0)->0.color_temp_k)),
                    transition: Some(3),
                },
                required: true,
            })
        }),
{
    lemma_room_tools_differ();
}

/// A stored scene is recalled where the room's group has one with the id: the curve is held back, the
/// room counts as set by hand until the same time, and the group is told the scene.
pub proof fn law_stored_scenes_are_recalled(
    o: ToolOutcome,
    config: AppConfig,
    state: SystemState,
    now: Instant,
    curve: CurveNow,
    args: ToolArgs<Seq<char>>,
    id: Seq<char>,
    group: Seq<char>,
    i: int,
)
    requires
        tool_outcome(o, config, state, now, curve, "recall_z2m_scene"@, args),
        args.room_id == Some(id),
        config.rooms@.contains_key(id),
        config.rooms@[id].z2m_group is Some,
        config.rooms@[id].z2m_group->0@ == group,
        state.group_map@.contains_key(group),
        0 <= i < state.group_map@[group].scenes@.len(),
        args.scene_id == Some(state.group_map@[group].scenes@[i].id as u64),
    ensures
        ({
            let scene_id = state.group_map@[group].scenes@[i].id;
            let until = ttl_end(now, args.override_ttl);
            &&& o.result is Ok
            &&& o.plan@.len() == 5
            &&& o.plan@[0] == (Effect::Update {
                room_id: id,
                update: RoomStateUpdate::CircadianPause { paused: true, until },
            })
            &&& o.plan@[2] == (Effect::Update {
                room_id: id,
                update: RoomStateUpdate::ManualOverrideTtl { until },
            })
            &&& o.plan@[3] == (Effect::Publish {
                command: LightCommand::RecallSceneGroup { group, scene_id },
                required: true,
            })
        }),
{
    lemma_room_tools_differ();
    let scenes = state.group_map@[group].scenes@;
    law_scenes_are_found_by_id(scenes, scenes[i].id, 0);
    assert(scenes[i].id == scenes[i].id);
    assert(scene_name_from(stored_scenes(state, group), scenes[i].id, 0) is Some);
}

/// A tool that acts on a room, apart from the night mode tool and from a scene's pause, does nothing
/// for a room that nobody configured, and fails.
pub proof fn law_unknown_rooms_are_refused(
    o: ToolOutcome,
    config: AppConfig,
    state: SystemState,
    now: Instant,
    curve: CurveNow,
    name: Seq<char>,
    args: ToolArgs<Seq<char>>,
    id: Seq<char>,
)
    requires
        tool_outcome(o, config, state, now, curve, name, args),
        args.room_id == Some(id),
        !config.rooms@.contains_key(id),
        name == "light_on"@ || name == "light_off"@ || name == "pause_circadian"@ || name
            == "resume_circadian"@ || name == "list_z2m_scenes"@ || (name == "snooze_circadian"@
            && !(args.hours is Missing)) || (name == "recall_z2m_scene"@ && args.scene_id is Some),
    ensures
        o.result is Err,
        o.plan@.len() == 0,
{
    lemma_room_tools_differ();
}

} // verus!
