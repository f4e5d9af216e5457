//! What the buttons of remote controls mean.

use vstd::prelude::*;

use crate::text::{begins_with, contains, ends_with, finishes_with, has_part, same, starts_with};

verus! {

/// What a button press asks for.
#[derive(Clone, Copy, Debug, PartialEq, Eq, Structural)]
pub enum RemoteActionType {
    Toggle,
    On,
    Off,
    /// Single-step brightness increase (click).
    BrightnessUpStep,
    /// Start continuous brightness increase (hold/move).
    BrightnessUpHold,
    /// Single-step brightness decrease (click).
    BrightnessDownStep,
    /// Start continuous brightness decrease (hold/move).
    BrightnessDownHold,
    BrightnessStop,
    NightMode,
    DayMode,
}

/// The end of a hold or press that may have started dimming.
pub open spec fn is_stop(action: Seq<char>) -> bool {
    ||| has_part(action, "brightness"@) && (has_part(action, "stop"@) || has_part(
        action,
        "release"@,
    ))
    ||| (begins_with(action, "up_"@) || begins_with(action, "down_"@)) && finishes_with(
        action,
        "_release"@,
    )
}

/// A brightness action upwards.
pub open spec fn is_brighter(action: Seq<char>) -> bool {
    has_part(action, "brightness"@) && (has_part(action, "up"@) || has_part(action, "increase"@))
}

/// A brightness action downwards.
pub open spec fn is_dimmer(action: Seq<char>) -> bool {
    has_part(action, "brightness"@) && (has_part(action, "down"@) || has_part(action, "decrease"@))
}

/// A single step rather than a hold.
pub open spec fn is_step(action: Seq<char>) -> bool {
    has_part(action, "click"@) || has_part(action, "step"@)
}

/// The meaning of an action text, in lower case. Ends of holds and presses are looked for first,
/// so that they are not taken for the press itself.
pub open spec fn remote_action(action: Seq<char>) -> Option<RemoteActionType> {
    if is_stop(action) {
        Some(RemoteActionType::BrightnessStop)
    } else if finishes_with(action, "_release"@) {
        None
    } else if action == "toggle"@ || action == "single"@ {
        Some(RemoteActionType::Toggle)
    } else if action == "on"@ || action == "power_on"@ || action == "on_press"@ {
        Some(RemoteActionType::On)
    } else if action == "off"@ || action == "power_off"@ || action == "off_press"@ {
        Some(RemoteActionType::Off)
    } else if is_brighter(action) {
        if is_step(action) {
            Some(RemoteActionType::BrightnessUpStep)
        } else {
            Some(RemoteActionType::BrightnessUpHold)
        }
    } else if is_dimmer(action) {
        if is_step(action) {
            Some(RemoteActionType::BrightnessDownStep)
        } else {
            Some(RemoteActionType::BrightnessDownHold)
        }
    } else if action == "up_press"@ {
        Some(RemoteActionType::BrightnessUpStep)
    } else if action == "down_press"@ {
        Some(RemoteActionType::BrightnessDownStep)
    } else if action == "up_hold"@ {
        Some(RemoteActionType::BrightnessUpHold)
    } else if action == "down_hold"@ {
        Some(RemoteActionType::BrightnessDownHold)
    } else if action == "arrow_right_click"@ || action == "on_hold"@ || action == "hold"@ || action
        == "long"@ {
        Some(RemoteActionType::NightMode)
    } else if action == "arrow_left_click"@ || action == "off_hold"@ {
        Some(RemoteActionType::DayMode)
    } else {
        None
    }
}

/// Classify an action string into a built-in remote action.
///
/// Tested against:
/// - IKEA: STYRBAR (E2001/E2002/E2313), TRADFRI remote (E1524/E1810),
///   RODRET (E2201), ON/OFF switch (E1743)
/// - Philips Hue: Dimmer switch v1/v2, Smart button, Wall switch module
/// - Aqara: Mini switch (WXKG11LM)
/// - Sonoff: SNZB-01/SNZB-01P
/// - Tuya: TS004F, scene switches
///
/// Multi-button devices (SOMRIG, Aqara Opple, Tuya TS0042+) use numbered action prefixes (e.g.
/// "1_single", "button_2_hold") which are not mapped here: they require user-defined automations.
pub fn classify_remote_action(action: &str) -> (r: Option<RemoteActionType>)
    ensures
        r == remote_action(action@),
{
    let about_brightness: bool = contains(action, "brightness");
    // brightness_stop, brightness_up_release, brightness_down_release
    if about_brightness && (contains(action, "stop") || contains(action, "release")) {
        return Some(RemoteActionType::BrightnessStop);
    }
    let is_release: bool = ends_with(action, "_release");
    // Hue dimmer: up_press_release, up_hold_release, down_press_release, down_hold_release
    if (starts_with(action, "up_") || starts_with(action, "down_")) && is_release {
        return Some(RemoteActionType::BrightnessStop);
    }
    if is_release {
        return None;
    }
    // IKEA TRADFRI remote and Tuya knobs: "toggle"; Aqara mini, Sonoff, Tuya 1-button: "single"
    if same(action, "toggle") || same(action, "single") {
        return Some(RemoteActionType::Toggle);
    }
    if same(action, "on") || same(action, "power_on") || same(action, "on_press") {
        return Some(RemoteActionType::On);
    }
    if same(action, "off") || same(action, "power_off") || same(action, "off_press") {
        return Some(RemoteActionType::Off);
    }
    if about_brightness && (contains(action, "up") || contains(action, "increase")) {
        if contains(action, "click") || contains(action, "step") {
            return Some(RemoteActionType::BrightnessUpStep);
        }
        // brightness_move_up (IKEA), brightness_up_hold (TRADFRI) = continuous
        return Some(RemoteActionType::BrightnessUpHold);
    }
    if about_brightness && (contains(action, "down") || contains(action, "decrease")) {
        if contains(action, "click") || contains(action, "step") {
            return Some(RemoteActionType::BrightnessDownStep);
        }
        return Some(RemoteActionType::BrightnessDownHold);
    }
    // Hue dimmer: up_press = brightness step, up_hold = continuous
    if same(action, "up_press") {
        return Some(RemoteActionType::BrightnessUpStep);
    }
    if same(action, "down_press") {
        return Some(RemoteActionType::BrightnessDownStep);
    }
    if same(action, "up_hold") {
        return Some(RemoteActionType::BrightnessUpHold);
    }
    if same(action, "down_hold") {
        return Some(RemoteActionType::BrightnessDownHold);
    }
    // IKEA STYRBAR/TRADFRI: arrow_right_click = night, arrow_left_click = day.
    // Hue dimmer: a long press on/off is a secondary function. Aqara mini: hold.
    if same(action, "arrow_right_click") || same(action, "on_hold") || same(action, "hold") || same(
        action,
        "long",
    ) {
        return Some(RemoteActionType::NightMode);
    }
    if same(action, "arrow_left_click") || same(action, "off_hold") {
        return Some(RemoteActionType::DayMode);
    }
    None
}

/// The end of a press or hold never switches lights, changes the mode, or starts dimming.
pub proof fn law_releases_never_press(action: Seq<char>)
    requires
        finishes_with(action, "_release"@),
    ensures
        remote_action(action) is None || remote_action(action) == Some(
            RemoteActionType::BrightnessStop,
        ),
{
}

/// A brightness button goes the way its text says, by a step where it speaks of a click or a step
/// and for as long as it is held otherwise; one that stops or is released ends that.
pub proof fn law_brightness_buttons_go_their_way(action: Seq<char>)
    requires
        has_part(action, "brightness"@),
    ensures
        ({
            let stops = has_part(action, "stop"@) || has_part(action, "release"@);
            let ends = finishes_with(action, "_release"@);
            let up = has_part(action, "up"@) || has_part(action, "increase"@);
            let down = has_part(action, "down"@) || has_part(action, "decrease"@);
            let by_step = has_part(action, "click"@) || has_part(action, "step"@);
            &&& stops ==> remote_action(action) == Some(RemoteActionType::BrightnessStop)
            &&& !stops && !ends && up && by_step ==> remote_action(action) == Some(
                RemoteActionType::BrightnessUpStep,
            )
            &&& !stops && !ends && up && !by_step ==> remote_action(action) == Some(
                RemoteActionType::BrightnessUpHold,
            )
            &&& !stops && !ends && !up && down && by_step ==> remote_action(action) == Some(
                RemoteActionType::BrightnessDownStep,
            )
            &&& !stops && !ends && !up && down && !by_step ==> remote_action(action) == Some(
                RemoteActionType::BrightnessDownHold,
            )
        }),
{
    reveal_strlit("brightness");
    reveal_strlit("toggle");
    reveal_strlit("single");
    reveal_strlit("on");
    reveal_strlit("power_on");
    reveal_strlit("on_press");
    reveal_strlit("off");
    reveal_strlit("power_off");
    reveal_strlit("off_press");
    assert(action.len() >= 10);
    if (begins_with(action, "up_"@) || begins_with(action, "down_"@)) && finishes_with(
        action,
        "_release"@,
    ) {
        lemma_ends_in_release(action);
    }
}

proof fn lemma_ends_in_release(action: Seq<char>)
    requires
        finishes_with(action, "_release"@),
    ensures
        has_part(action, "release"@),
{
    reveal_strlit("_release");
    reveal_strlit("release");
    let n = action.len() as int;
    let tail = action.skip(n - 8);
    assert(tail =~= "_release"@);
    assert(action.subrange(n - 7, n) =~= "release"@) by {
        assert forall|i: int| 0 <= i < 7 implies action[n - 7 + i] == "release"@[i] by {
            assert(tail[i + 1] == action[n - 8 + i + 1]);
        }
    }
    assert(crate::text::occurs_at(action, "release"@, n - 7));
}

/// Only a text that speaks of going up brightens, and only one that speaks of going down dims.
pub proof fn law_directions_are_kept(action: Seq<char>)
    ensures
        remote_action(action) == Some(RemoteActionType::BrightnessUpStep) || remote_action(action)
            == Some(RemoteActionType::BrightnessUpHold) ==> has_part(action, "up"@) || has_part(
            action,
            "increase"@,
        ) || action == "up_press"@ || action == "up_hold"@,
        remote_action(action) == Some(RemoteActionType::BrightnessDownStep) || remote_action(action)
            == Some(RemoteActionType::BrightnessDownHold) ==> has_part(action, "down"@) || has_part(
            action,
            "decrease"@,
        ) || action == "down_press"@ || action == "down_hold"@,
        remote_action(action) == Some(RemoteActionType::BrightnessStop) ==> has_part(
            action,
            "stop"@,
        ) || has_part(action, "release"@),
{
    if finishes_with(action, "_release"@) {
        lemma_ends_in_release(action);
    }
}

} // verus!
