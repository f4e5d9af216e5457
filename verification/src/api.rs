//! What the HTTP interface grants, room by room.

use vstd::prelude::*;

use crate::automation::engine::pause_effect;
use crate::circadian::curve::{kelvin_to_mired, mired, CircadianTarget};
use crate::config::types::{AppConfig, RoomConfig};
use crate::control::{
    calibrated_lamps_on, describe_light_on, describe_unknown_scene, display_name, find_scene,
    grant, grant_scene, granted, lamps_off, light_on_record, light_on_text, opt_mired,
    override_end_at, pause_until, plan_calibrated_lamps_on, plan_lamps_off, record_light_on,
    scene_granted, scene_named, shown_name, snooze_duration_text, snooze_text, span_fits, to_mired,
    ttl_end, ttl_fits, unknown_room_text, unknown_scene_text, validate_room, Granted, OverrideTtl,
    Scene, Snooze,
};
use crate::effect::{publishes, updates, Effect, LightCommand, Plan};
use crate::night_mode::{
    activate_night_mode, activation, deactivate_night_mode, deactivation, night_ok,
};
use crate::report::{
    describe_unknown_scene_id, group_of, list_scenes, lists_scenes, long_summary,
    room_detail_with_settings, scene_name, scene_name_from, stored_scenes, tells, tells_settings,
    unknown_scene_id_text, RoomDetail, SceneList,
};
use crate::state::{RoomStateUpdate, SystemState, UpdateSource};
use crate::text::{cat2, cat3, cat5, decimal, decimal_string};
use crate::time::Instant;

verus! {

/// Why a request was not granted. `S` is the type of its texts.
#[derive(Clone, Debug)]
pub enum ApiError<S = String> {
    BadRequest(S),
    NotFound(S),
    /// A required command could not be sent.
    Internal(S),
}

impl View for ApiError<String> {
    type V = ApiError<Seq<char>>;

    open spec fn view(&self) -> ApiError<Seq<char>> {
        match self {
            ApiError::BadRequest(message) => ApiError::BadRequest(message@),
            ApiError::NotFound(message) => ApiError::NotFound(message@),
            ApiError::Internal(message) => ApiError::Internal(message@),
        }
    }
}

impl ApiError {
    /// The HTTP status that tells the error.
    pub fn status(&self) -> (r: u16)
        ensures
            r == (match *self {
                ApiError::BadRequest(message) => 400u16,
                ApiError::NotFound(message) => 404u16,
                ApiError::Internal(message) => 500u16,
            }),
    {
        match self {
            ApiError::BadRequest(_) => 400,
            ApiError::NotFound(_) => 404,
            ApiError::Internal(_) => 500,
        }
    }
}

#[derive(Clone, Copy, Debug)]
pub struct LightOnRequest {
    pub brightness: Option<u8>,
    pub color_temp_k: Option<u16>,
    pub transition: Option<u32>,
    pub override_ttl: Option<OverrideTtl>,
}

#[derive(Clone, Copy, Debug)]
pub struct LightOffRequest {
    pub transition: Option<u32>,
}

/// How long to snooze; nothing where the hours asked for are not between 0 and 24.
#[derive(Clone, Copy, Debug)]
pub struct SnoozeRequest {
    pub snooze: Option<Snooze>,
}

#[derive(Clone, Debug)]
pub struct SetSceneRequest {
    pub scene: String,
    pub override_ttl: Option<OverrideTtl>,
}

#[derive(Clone, Copy, Debug)]
pub struct RecallZ2mSceneRequest {
    pub scene_id: u16,
    pub override_ttl: Option<OverrideTtl>,
}

#[derive(Clone, Copy, Debug)]
pub struct SetNightModeRequest {
    pub active: bool,
}

/// What a request comes to: a plan and an answer, or an error.
pub type Handled = Result<(Plan, Granted), ApiError>;

/// The request is granted with exactly this plan and answer.
pub open spec fn grants(r: Handled, effects: Seq<Effect<Seq<char>>>, answer: Granted<Seq<char>>) -> bool {
    r matches Ok((plan, reply)) && plan@ == effects && reply@ == answer
}

/// The request is refused with exactly this error.
pub open spec fn refuses(r: Handled, error: ApiError<Seq<char>>) -> bool {
    r matches Err(e) && e@ == error
}

/// The error about a room that nobody configured.
pub open spec fn no_such_room(config: AppConfig, room_id: Seq<char>) -> ApiError<Seq<char>> {
    ApiError::NotFound(unknown_room_text(config, room_id))
}

/// The request asks for values of its own.
pub open spec fn asks_for_values(body: LightOnRequest) -> bool {
    body.brightness is Some || body.color_temp_k is Some
}

/// What turning a configured room's lights on does.
pub open spec fn light_on_effects(
    config: AppConfig,
    state: SystemState,
    now: Instant,
    id: Seq<char>,
    body: LightOnRequest,
) -> Seq<Effect<Seq<char>>> {
    let ct = opt_mired(body.color_temp_k);
    calibrated_lamps_on(config, state, config.rooms@[id], body.brightness, ct, body.transition)
        + light_on_record(
        id,
        body.brightness,
        ct,
        asks_for_values(body),
        ttl_end(now, body.override_ttl),
    )
}

/// Turns a room's lights on, with the values that were asked for.
pub fn light_on(
    config: &AppConfig,
    state: &SystemState,
    now: Instant,
    room_id: &str,
    body: &LightOnRequest,
) -> (r: Handled)
    requires
        config.rooms@.contains_key(room_id@) ==> body.color_temp_k != Some(0u16),
        asks_for_values(*body) ==> ttl_fits(now, body.override_ttl),
    ensures
        config.rooms@.contains_key(room_id@) ==> grants(
            r,
            light_on_effects(*config, *state, now, room_id@, *body),
            granted(
                room_id@,
                light_on_text(
                    shown_name(*config, room_id@),
                    body.brightness,
                    body.color_temp_k,
                    body.override_ttl,
                ),
            ),
        ),
        !config.rooms@.contains_key(room_id@) ==> refuses(r, no_such_room(*config, room_id@)),
{
    if let Some(message) = validate_room(config, room_id) {
        return Err(ApiError::NotFound(message));
    }
    let mut plan: Plan = Plan::new();
    let manual: bool = body.brightness.is_some() || body.color_temp_k.is_some();
    let ct: Option<u16> = to_mired(body.color_temp_k);
    let until: Option<Instant> = if manual {
        override_end_at(now, body.override_ttl)
    } else {
        None
    };
    if let Some(room_config) = config.rooms.get(room_id) {
        plan_calibrated_lamps_on(
            &mut plan,
            config,
            state,
            room_config,
            body.brightness,
            ct,
            body.transition,
        );
    }
    record_light_on(&mut plan, room_id, body.brightness, ct, manual, until);
    let description: String = describe_light_on(
        display_name(config, room_id).as_str(),
        body.brightness,
        body.color_temp_k,
        body.override_ttl,
    );
    assert(plan@ =~= light_on_effects(*config, *state, now, room_id@, *body));
    Ok((plan, grant(room_id, description)))
}

/// Turns a room's lights off, which ends a pause.
pub fn light_off(config: &AppConfig, room_id: &str, body: &LightOffRequest) -> (r: Handled)
    ensures
        config.rooms@.contains_key(room_id@) ==> grants(
            r,
            lamps_off(config.rooms@[room_id@], body.transition).push(
                updates(room_id@, RoomStateUpdate::LightsOff),
            ),
            granted(room_id@, shown_name(*config, room_id@) + " lights turned off"@),
        ),
        !config.rooms@.contains_key(room_id@) ==> refuses(r, no_such_room(*config, room_id@)),
{
    if let Some(message) = validate_room(config, room_id) {
        return Err(ApiError::NotFound(message));
    }
    let mut plan: Plan = Plan::new();
    if let Some(room_config) = config.rooms.get(room_id) {
        plan_lamps_off(&mut plan, room_config, body.transition);
    }
    plan.update(room_id, RoomStateUpdate::LightsOff);
    let description: String = cat2(display_name(config, room_id).as_str(), " lights turned off");
    assert(plan@ =~= lamps_off(config.rooms@[room_id@], body.transition).push(
        updates(room_id@, RoomStateUpdate::LightsOff),
    ));
    Ok((plan, grant(room_id, description)))
}

/// The answer to a pause.
pub open spec fn paused_answer(config: AppConfig, id: Seq<char>) -> Granted<Seq<char>> {
    Granted {
        circadian: Some("paused"@),
        ..granted(
            id,
            "Circadian rhythm paused for "@ + shown_name(config, id)
                + ". Lights will stay at their current state — jeha won't adjust them. Use resume_circadian when done."@,
        )
    }
}

/// The answer to a resumption.
pub open spec fn resumed_answer(config: AppConfig, id: Seq<char>) -> Granted<Seq<char>> {
    Granted {
        circadian: Some("active"@),
        ..granted(
            id,
            "Circadian rhythm resumed for "@ + shown_name(config, id)
                + ". Lights will smoothly transition to the appropriate setting for the current time of day."@,
        )
    }
}

/// The answer to a snooze.
pub open spec fn snoozed_answer(config: AppConfig, id: Seq<char>, snooze: Snooze) -> Granted<
    Seq<char>,
> {
    let text = snooze_text(snooze);
    Granted {
        circadian: Some("snoozed"@),
        duration: Some(text),
        ..granted(
            id,
            "Circadian rhythm snoozed for "@ + shown_name(config, id) + " in "@ + text
                + ". Lights stay as-is. Auto-resumes in "@ + text + "."@,
        )
    }
}

/// What resuming the curve does: the pause is lifted, and the curve has the room again.
pub open spec fn resumption(id: Seq<char>) -> Seq<Effect<Seq<char>>> {
    seq![
        updates(id, RoomStateUpdate::CircadianPause { paused: false, until: None }),
        updates(
            id,
            RoomStateUpdate::LightsOn {
                brightness: None,
                color_temp_mired: None,
                source: UpdateSource::Circadian,
            },
        ),
    ]
}

/// The granted pause of a configured room.
pub fn granted_pause(config: &AppConfig, room_id: &str) -> (r: (Plan, Granted))
    ensures
        r.0@ == seq![pause_effect(room_id@)],
        r.1@ == paused_answer(*config, room_id@),
{
    let mut plan: Plan = Plan::new();
    plan.update(room_id, RoomStateUpdate::CircadianPause { paused: true, until: None });
    let description: String = cat3(
        "Circadian rhythm paused for ",
        display_name(config, room_id).as_str(),
        ". Lights will stay at their current state — jeha won't adjust them. Use resume_circadian when done.",
    );
    let mut reply: Granted = grant(room_id, description);
    reply.circadian = Some("paused".to_owned());
    assert(plan@ =~= seq![pause_effect(room_id@)]);
    (plan, reply)
}

/// The granted resumption of a configured room.
pub fn granted_resumption(config: &AppConfig, room_id: &str) -> (r: (Plan, Granted))
    ensures
        r.0@ == resumption(room_id@),
        r.1@ == resumed_answer(*config, room_id@),
{
    let mut plan: Plan = Plan::new();
    plan.update(room_id, RoomStateUpdate::CircadianPause { paused: false, until: None });
    plan.update(
        room_id,
        RoomStateUpdate::LightsOn {
            brightness: None,
            color_temp_mired: None,
            source: UpdateSource::Circadian,
        },
    );
    let description: String = cat3(
        "Circadian rhythm resumed for ",
        display_name(config, room_id).as_str(),
        ". Lights will smoothly transition to the appropriate setting for the current time of day.",
    );
    let mut reply: Granted = grant(room_id, description);
    reply.circadian = Some("active".to_owned());
    assert(plan@ =~= resumption(room_id@));
    (plan, reply)
}

/// What a snooze does: the curve is paused until it ends.
pub open spec fn snoozing(id: Seq<char>, now: Instant, snooze: Snooze) -> Seq<Effect<Seq<char>>> {
    seq![
        updates(
            id,
            RoomStateUpdate::CircadianPause {
                paused: true,
                until: Some(Instant { nanos: (now.nanos + snooze.after.nanos) as u128 }),
            },
        ),
    ]
}

/// The granted snooze of a configured room.
pub fn granted_snooze(config: &AppConfig, now: Instant, room_id: &str, snooze: Snooze) -> (r: (
    Plan,
    Granted,
))
    requires
        span_fits(now, snooze.after),
    ensures
        r.0@ == snoozing(room_id@, now, snooze),
        r.1@ == snoozed_answer(*config, room_id@, snooze),
{
    let mut plan: Plan = Plan::new();
    let until = Instant { nanos: now.nanos + snooze.after.nanos };
    plan.update(room_id, RoomStateUpdate::CircadianPause { paused: true, until: Some(until) });
    let text: String = snooze_duration_text(snooze);
    let mut description: String = cat5(
        "Circadian rhythm snoozed for ",
        display_name(config, room_id).as_str(),
        " in ",
        text.as_str(),
        ". Lights stay as-is. Auto-resumes in ",
    );
    description.append(text.as_str());
    description.append(".");
    let mut reply: Granted = grant(room_id, description);
    reply.circadian = Some("snoozed".to_owned());
    reply.duration = Some(text);
    assert(plan@ =~= snoozing(room_id@, now, snooze));
    (plan, reply)
}

/// Pauses the curve in a room until further notice.
pub fn pause_circadian(config: &AppConfig, room_id: &str) -> (r: Handled)
    ensures
        config.rooms@.contains_key(room_id@) ==> grants(
            r,
            seq![pause_effect(room_id@)],
            paused_answer(*config, room_id@),
        ),
        !config.rooms@.contains_key(room_id@) ==> refuses(r, no_such_room(*config, room_id@)),
{
    if let Some(message) = validate_room(config, room_id) {
        return Err(ApiError::NotFound(message));
    }
    Ok(granted_pause(config, room_id))
}

/// Resumes the curve in a room.
pub fn resume_circadian(config: &AppConfig, room_id: &str) -> (r: Handled)
    ensures
        config.rooms@.contains_key(room_id@) ==> grants(
            r,
            resumption(room_id@),
            resumed_answer(*config, room_id@),
        ),
        !config.rooms@.contains_key(room_id@) ==> refuses(r, no_such_room(*config, room_id@)),
{
    if let Some(message) = validate_room(config, room_id) {
        return Err(ApiError::NotFound(message));
    }
    Ok(granted_resumption(config, room_id))
}

/// Pauses the curve in a room for a while.
pub fn snooze_circadian(
    config: &AppConfig,
    now: Instant,
    room_id: &str,
    body: &SnoozeRequest,
) -> (r: Handled)
    requires
        body.snooze matches Some(snooze) ==> span_fits(now, snooze.after),
    ensures
        !config.rooms@.contains_key(room_id@) ==> refuses(r, no_such_room(*config, room_id@)),
        config.rooms@.contains_key(room_id@) && body.snooze is None ==> refuses(
            r,
            ApiError::BadRequest("Hours must be between 0 and 24"@),
        ),
        config.rooms@.contains_key(room_id@) && body.snooze is Some ==> grants(
            r,
            snoozing(room_id@, now, body.snooze->0),
            snoozed_answer(*config, room_id@, body.snooze->0),
        ),
{
    if let Some(message) = validate_room(config, room_id) {
        return Err(ApiError::NotFound(message));
    }
    match body.snooze {
        Some(snooze) => Ok(granted_snooze(config, now, room_id, snooze)),
        None => Err(ApiError::BadRequest("Hours must be between 0 and 24".to_owned())),
    }
}

/// What setting a scene in a configured room does. With a time limit the curve is held back until
/// then, and otherwise until further notice.
pub open spec fn scene_effects(
    config: AppConfig,
    state: SystemState,
    now: Instant,
    id: Seq<char>,
    scene: Scene,
    ttl: Option<OverrideTtl>,
) -> Seq<Effect<Seq<char>>> {
    seq![pause_until(id, ttl_end(now, ttl))] + calibrated_lamps_on(
        config,
        state,
        config.rooms@[id],
        Some(scene.brightness),
        Some(mired(scene.color_temp_k)),
        Some(3),
    ) + light_on_record(
        id,
        Some(scene.brightness),
        Some(mired(scene.color_temp_k)),
        true,
        ttl_end(now, ttl),
    )
}

/// Sets a predefined scene in a room.
pub fn set_scene(
    config: &AppConfig,
    state: &SystemState,
    now: Instant,
    room_id: &str,
    body: &SetSceneRequest,
) -> (r: Handled)
    requires
        config.rooms@.contains_key(room_id@) && scene_named(body.scene@) is Some ==> ttl_fits(
            now,
            body.override_ttl,
        ),
    ensures
        !config.rooms@.contains_key(room_id@) ==> refuses(r, no_such_room(*config, room_id@)),
        config.rooms@.contains_key(room_id@) && scene_named(body.scene@) is None ==> refuses(
            r,
            ApiError::BadRequest(unknown_scene_text(body.scene@)),
        ),
        config.rooms@.contains_key(room_id@) && scene_named(body.scene@) is Some ==> ({
            let scene = scene_named(body.scene@)->0;
            grants(
                r,
                scene_effects(*config, *state, now, room_id@, scene, body.override_ttl),
                scene_granted(*config, room_id@, body.scene@, scene, body.override_ttl),
            )
        }),
{
    if let Some(message) = validate_room(config, room_id) {
        return Err(ApiError::NotFound(message));
    }
    let scene: Scene = match find_scene(body.scene.as_str()) {
        Some(scene) => scene,
        None => {
            return Err(ApiError::BadRequest(describe_unknown_scene(body.scene.as_str())));
        },
    };
    let mut plan: Plan = Plan::new();
    let ct: u16 = kelvin_to_mired(scene.color_temp_k);
    let until: Option<Instant> = override_end_at(now, body.override_ttl);
    plan.update(room_id, RoomStateUpdate::CircadianPause { paused: true, until });
    if let Some(room_config) = config.rooms.get(room_id) {
        plan_calibrated_lamps_on(
            &mut plan,
            config,
            state,
            room_config,
            Some(scene.brightness),
            Some(ct),
            Some(3),
        );
    }
    record_light_on(&mut plan, room_id, Some(scene.brightness), Some(ct), true, until);
    let reply: Granted = grant_scene(
        config,
        room_id,
        body.scene.as_str(),
        scene,
        body.override_ttl,
    );
    assert(plan@ =~= scene_effects(*config, *state, now, room_id@, scene, body.override_ttl));
    Ok((plan, reply))
}

/// Lists the scenes that a room's group has stored.
pub fn list_z2m_scenes(config: &AppConfig, state: &SystemState, room_id: &str) -> (r: Result<
    SceneList,
    ApiError,
>)
    ensures
        match r {
            Ok(list) => config.rooms@.contains_key(room_id@) && lists_scenes(
                list,
                *config,
                *state,
                room_id@,
            ),
            Err(e) => !config.rooms@.contains_key(room_id@) && e@ == no_such_room(
                *config,
                room_id@,
            ),
        },
{
    if let Some(message) = validate_room(config, room_id) {
        return Err(ApiError::NotFound(message));
    }
    Ok(list_scenes(config, state, room_id))
}

/// What recalling a stored scene does: the curve is held back, with a time limit until then, the
/// room counts as set by hand, and the group is told the scene.
pub open spec fn recall_effects(
    id: Seq<char>,
    group: Seq<char>,
    scene_id: u16,
    until: Option<Instant>,
) -> Seq<Effect<Seq<char>>> {
    seq![
        pause_until(id, until),
        updates(
            id,
            RoomStateUpdate::LightsOn {
                brightness: None,
                color_temp_mired: None,
                source: UpdateSource::Manual,
            },
        ),
        updates(id, RoomStateUpdate::ManualOverrideTtl { until }),
        publishes(LightCommand::RecallSceneGroup { group, scene_id }),
        updates(id, RoomStateUpdate::JehaPush { brightness: None, color_temp_mired: None }),
    ]
}

/// The answer to a recalled scene.
pub open spec fn recall_answer(
    config: AppConfig,
    id: Seq<char>,
    scene: Seq<char>,
    scene_id: u16,
    ttl: Option<OverrideTtl>,
) -> Granted<Seq<char>> {
    Granted {
        z2m_scene: Some(scene),
        scene_id: Some(scene_id),
        ..granted(
            id,
            shown_name(config, id) + ": recalled Z2M scene '"@ + scene + "'. Circadian paused."@ + (
            match ttl {
                Some(t) => " Auto-resumes circadian in "@ + decimal(t.rounded_mins as nat) + "m."@,
                None => " Use resume_circadian to go back to automatic."@,
            }),
        )
    }
}

/// The granted recall of a scene of a room's group.
pub fn granted_recall(
    config: &AppConfig,
    now: Instant,
    room_id: &str,
    group: &str,
    scene: &str,
    scene_id: u16,
    ttl: Option<OverrideTtl>,
) -> (r: (Plan, Granted))
    requires
        ttl_fits(now, ttl),
    ensures
        r.0@ == recall_effects(room_id@, group@, scene_id, ttl_end(now, ttl)),
        r.1@ == recall_answer(*config, room_id@, scene@, scene_id, ttl),
{
    let mut plan: Plan = Plan::new();
    let until: Option<Instant> = override_end_at(now, ttl);
    plan.update(room_id, RoomStateUpdate::CircadianPause { paused: true, until });
    plan.update(
        room_id,
        RoomStateUpdate::LightsOn {
            brightness: None,
            color_temp_mired: None,
            source: UpdateSource::Manual,
        },
    );
    plan.update(room_id, RoomStateUpdate::ManualOverrideTtl { until });
    plan.publish(LightCommand::RecallSceneGroup { group: group.to_owned(), scene_id });
    plan.update(room_id, RoomStateUpdate::JehaPush { brightness: None, color_temp_mired: None });
    assert(plan@ =~= recall_effects(room_id@, group@, scene_id, until));
    let end: String = match ttl {
        Some(t) => cat3(
            " Auto-resumes circadian in ",
            decimal_string(t.rounded_mins as u64).as_str(),
            "m.",
        ),
        None => " Use resume_circadian to go back to automatic.".to_owned(),
    };
    let description: String = cat5(
        display_name(config, room_id).as_str(),
        ": recalled Z2M scene '",
        scene,
        "'. Circadian paused.",
        end.as_str(),
    );
    let mut reply: Granted = grant(room_id, description);
    reply.z2m_scene = Some(scene.to_owned());
    reply.scene_id = Some(scene_id);
    (plan, reply)
}

/// What is said about a scene in a room without a group.
pub open spec fn no_group_text(room_id: Seq<char>) -> Seq<char> {
    "Room '"@ + room_id + "' has no Z2M group — cannot recall scene"@
}

/// Recalls a scene that a room's group has stored.
pub fn recall_z2m_scene(
    config: &AppConfig,
    state: &SystemState,
    now: Instant,
    room_id: &str,
    body: &RecallZ2mSceneRequest,
) -> (r: Handled)
    requires
        ttl_fits(now, body.override_ttl),
    ensures
        !config.rooms@.contains_key(room_id@) ==> refuses(r, no_such_room(*config, room_id@)),
        config.rooms@.contains_key(room_id@) ==> match group_of(*config, room_id@) {
            None => refuses(r, ApiError::BadRequest(no_group_text(room_id@))),
            Some(group) => match scene_name_from(
                stored_scenes(*state, group),
                body.scene_id,
                0,
            ) {
                None => refuses(
                    r,
                    ApiError::NotFound(unknown_scene_id_text(*state, group, body.scene_id)),
                ),
                Some(scene) => grants(
                    r,
                    recall_effects(
                        room_id@,
                        group,
                        body.scene_id,
                        ttl_end(now, body.override_ttl),
                    ),
                    recall_answer(*config, room_id@, scene, body.scene_id, body.override_ttl),
                ),
            },
        },
{
    if let Some(message) = validate_room(config, room_id) {
        return Err(ApiError::NotFound(message));
    }
    let mut group: Option<String> = None;
    if let Some(room_config) = config.rooms.get(room_id) {
        if let Some(name) = &room_config.z2m_group {
            group = Some(name.clone());
        }
    }
    let group: String = match group {
        Some(group) => group,
        None => {
            return Err(
                ApiError::BadRequest(
                    cat3("Room '", room_id, "' has no Z2M group — cannot recall scene"),
                ),
            );
        },
    };
    match scene_name(state, group.as_str(), body.scene_id) {
        Some(scene) => Ok(
            granted_recall(
                config,
                now,
                room_id,
                group.as_str(),
                scene.as_str(),
                body.scene_id,
                body.override_ttl,
            ),
        ),
        None => Err(
            ApiError::NotFound(describe_unknown_scene_id(state, group.as_str(), body.scene_id)),
        ),
    }
}

/// The answer to a switch of night mode.
pub open spec fn night_mode_answer(
    config: AppConfig,
    id: Seq<char>,
    room: RoomConfig,
    active: bool,
) -> Granted<Seq<char>> {
    let night = room.night_values(config.night_mode.defaults);
    Granted {
        night_mode: Some(active),
        ..granted(
            id,
            if active {
                shown_name(config, id) + ": night mode on (brightness "@ + decimal(
                    night.brightness as nat,
                ) + ", "@ + decimal(night.color_temp_k as nat) + "K). Circadian paused."@
            } else {
                shown_name(config, id) + ": night mode off. Circadian resumed."@
            },
        )
    }
}

/// Switches night mode in a room. `target` is where the room's curve is now, where it follows one.
pub fn set_night_mode(
    config: &AppConfig,
    state: &SystemState,
    target: Option<CircadianTarget>,
    room_id: &str,
    body: &SetNightModeRequest,
) -> (r: Handled)
    requires
        body.active && config.rooms@.contains_key(room_id@) ==> night_ok(
            *config,
            config.rooms@[room_id@],
        ),
    ensures
        config.rooms@.contains_key(room_id@) ==> grants(
            r,
            if body.active {
                activation(*config, *state, room_id@, config.rooms@[room_id@])
            } else {
                deactivation(*state, room_id@, config.rooms@[room_id@], target)
            },
            night_mode_answer(*config, room_id@, config.rooms@[room_id@], body.active),
        ),
        !config.rooms@.contains_key(room_id@) ==> refuses(r, no_such_room(*config, room_id@)),
{
    let room_config = match config.rooms.get(room_id) {
        Some(room_config) => room_config,
        None => {
            let message: String = match validate_room(config, room_id) {
                Some(message) => message,
                None => String::new(),
            };
            return Err(ApiError::NotFound(message));
        },
    };
    let name: String = display_name(config, room_id);
    if body.active {
        let plan: Plan = activate_night_mode(room_id, room_config, config, state);
        let enm = room_config.effective_night_mode(&config.night_mode.defaults);
        let mut description: String = cat5(
            name.as_str(),
            ": night mode on (brightness ",
            decimal_string(enm.brightness as u64).as_str(),
            ", ",
            decimal_string(enm.color_temp_k as u64).as_str(),
        );
        description.append("K). Circadian paused.");
        let mut reply: Granted = grant(room_id, description);
        reply.night_mode = Some(true);
        Ok((plan, reply))
    } else {
        let plan: Plan = deactivate_night_mode(room_id, room_config, state, target);
        let description: String = cat2(name.as_str(), ": night mode off. Circadian resumed.");
        let mut reply: Granted = grant(room_id, description);
        reply.night_mode = Some(false);
        Ok((plan, reply))
    }
}

/// What is said about a room that nothing is known of.
pub open spec fn unseen_room_text(room_id: Seq<char>) -> Seq<char> {
    "Room '"@ + room_id + "' not found. Use GET /api/rooms to see available room IDs."@
}

/// Tells all about one room.
pub fn get_room(config: &AppConfig, state: &SystemState, now: Instant, room_id: &str) -> (r: Result<
    RoomDetail,
    ApiError,
>)
    ensures
        match r {
            Ok(detail) => state.rooms@.contains_key(room_id@) && detail.settings is Some
                && tells_settings(detail.settings->0, *config, room_id@) && tells(
                detail,
                *config,
                room_id@,
                long_summary(*config, room_id@, state.rooms@[room_id@], now),
            ),
            Err(e) => !state.rooms@.contains_key(room_id@) && e@ == ApiError::NotFound(
                unseen_room_text(room_id@),
            ),
        },
{
    match room_detail_with_settings(config, state, now, room_id) {
        Some(detail) => Ok(detail),
        None => Err(
            ApiError::NotFound(
                cat3(
                    "Room '",
                    room_id,
                    "' not found. Use GET /api/rooms to see available room IDs.",
                ),
            ),
        ),
    }
}

/// What the requests of the HTTP interface do to a room's lights: turned on they are told the values
/// that were asked for and nothing else, a scene holds the curve back first, and both are written
/// down.
pub proof fn law_requests_do_what_they_ask(
    config: AppConfig,
    state: SystemState,
    now: Instant,
    id: Seq<char>,
    body: LightOnRequest,
    scene: Scene,
    ttl: Option<OverrideTtl>,
    k: int,
)
    ensures
        ({
            let ct = match body.color_temp_k {
                Some(k) => Some(mired(k)),
                None => None,
            };
            let asked = body.brightness is Some || body.color_temp_k is Some;
            let on = light_on_effects(config, state, now, id, body);
            let lamps = calibrated_lamps_on(
                config,
                state,
                config.rooms@[id],
                body.brightness,
                ct,
                body.transition,
            );
            let set = scene_effects(config, state, now, id, scene, ttl);
            let shown = calibrated_lamps_on(
                config,
                state,
                config.rooms@[id],
                Some(scene.brightness),
                Some(mired(scene.color_temp_k)),
                Some(3),
            );
            &&& 0 <= k < lamps.len() ==> on[k] == lamps[k]
            &&& on[lamps.len() as int] == (Effect::Update {
                room_id: id,
                update: RoomStateUpdate::LightsOn {
                    brightness: body.brightness,
                    color_temp_mired: ct,
                    source: if asked {
                        UpdateSource::Manual
                    } else {
                        UpdateSource::Circadian
                    },
                },
            })
            &&& on[lamps.len() as int + 1] == (Effect::Update {
                room_id: id,
                update: RoomStateUpdate::JehaPush {
                    brightness: body.brightness,
                    color_temp_mired: ct,
                },
            })
            &&& on.len() == lamps.len() + (if asked {
                3int
            } else {
                2
            })
            &&& asked ==> on[lamps.len() as int + 2] == (Effect::Update {
                room_id: id,
                update: RoomStateUpdate::ManualOverrideTtl {
                    until: ttl_end(now, body.override_ttl),
                },
            })
            &&& set.len() == shown.len() + 4
            &&& set[0] == (Effect::Update {
                room_id: id,
                update: RoomStateUpdate::CircadianPause {
                    paused: true,
                    until: ttl_end(now, ttl),
                },
            })
            &&& 0 <= k < shown.len() ==> set[k + 1] == shown[k]
            &&& set[shown.len() as int + 1] == (Effect::Update {
                room_id: id,
                update: RoomStateUpdate::LightsOn {
                    brightness: Some(scene.brightness),
                    color_temp_mired: Some(mired(scene.color_temp_k)),
                    source: UpdateSource::Manual,
                },
            })
        }),
{
}

/// A time limit ends as long after now as it says.
pub proof fn law_time_limits_end_when_they_say(now: Instant, ttl: OverrideTtl)
    requires
        ttl_fits(now, Some(ttl)),
    ensures
        ttl_end(now, Some(ttl)) matches Some(end) && end.nanos == now.nanos + ttl.after.nanos,
        ttl_end(now, None) is None,
{
}

} // verus!
