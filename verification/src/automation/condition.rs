//! What must hold of a room for an automation to fire.

use vstd::prelude::*;

use crate::config::types::ConditionConfig;
use crate::state::SystemState;

verus! {

/// The room is known and is as the condition wants it.
pub open spec fn condition_holds(condition: ConditionConfig, state: SystemState) -> bool {
    match condition {
        ConditionConfig::NightMode { room, active } => state.rooms@.contains_key(room@)
            && state.rooms@[room@].night_mode_active == active,
        ConditionConfig::LightState { room, is_on } => state.rooms@.contains_key(room@)
            && state.rooms@[room@].lights_on == is_on,
    }
}

pub fn evaluate_condition(condition: &ConditionConfig, state: &SystemState) -> (r: bool)
    ensures
        r == condition_holds(*condition, *state),
{
    match condition {
        ConditionConfig::NightMode { room, active } => match state.rooms.get(room.as_str()) {
            Some(rs) => rs.night_mode_active == *active,
            None => false,
        },
        ConditionConfig::LightState { room, is_on } => match state.rooms.get(room.as_str()) {
            Some(rs) => rs.lights_on == *is_on,
            None => false,
        },
    }
}

/// Every condition holds.
pub open spec fn all_hold(conditions: Seq<ConditionConfig>, state: SystemState) -> bool {
    forall|i: int| 0 <= i < conditions.len() ==> condition_holds(#[trigger] conditions[i], state)
}

pub fn evaluate_all(conditions: &Vec<ConditionConfig>, state: &SystemState) -> (r: bool)
    ensures
        r == all_hold(conditions@, *state),
{
    let mut i: usize = 0;
    while i < conditions.len()
        invariant
            i <= conditions@.len(),
            forall|j: int| 0 <= j < i ==> condition_holds(#[trigger] conditions@[j], *state),
        decreases conditions.len() - i,
    {
        if !evaluate_condition(&conditions[i], state) {
            return false;
        }
        i = i + 1;
    }
    true
}

} // verus!
