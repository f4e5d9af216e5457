//! Where on the day's curve a minute lies.

use vstd::prelude::*;

use crate::config::types::CurveType;
use crate::schedule::{hm_minutes, TimeOfDay};

verus! {

#[derive(Clone, Copy, Debug)]
pub struct CircadianParams {
    pub wake_minutes: u32,
    pub sleep_minutes: u32,
    pub ramp_duration_mins: u32,
    pub start_temp_k: u16,
    pub peak_temp_k: u16,
    pub end_temp_k: u16,
    pub start_brightness: u8,
    pub peak_brightness: u8,
    pub end_brightness: u8,
    pub curve: CurveType,
}

#[derive(Clone, Copy, Debug, PartialEq, Eq, Structural)]
pub struct CircadianTarget {
    pub brightness: u8,
    pub color_temp_mired: u16,
    pub color_temp_k: u16,
}

/// A stretch of the curve between two of its points, and how far into it a minute lies.
#[derive(Clone, Copy, Debug, PartialEq, Eq, Structural)]
pub struct Ramp {
    pub elapsed_mins: u32,
    pub duration_mins: u32,
    pub from_temp_k: u16,
    pub to_temp_k: u16,
    pub from_brightness: u8,
    pub to_brightness: u8,
    pub curve: CurveType,
}

/// The values of a ramp at the minute it was asked for, interpolated along its curve.
#[derive(Clone, Copy, Debug, PartialEq, Eq, Structural)]
pub struct Eased {
    pub temp_k: u16,
    pub brightness: u8,
}

/// The part of the day that a minute falls in.
#[derive(Clone, Copy, Debug, PartialEq, Eq, Structural)]
pub enum Phase {
    /// Hold at the end values.
    Night,
    /// Morning: start to peak. Evening: peak to end.
    Ramp(Ramp),
    /// Hold at the peak values.
    Day,
}

/// A color temperature in mired: a million divided by the Kelvin value, in 16 bits.
pub open spec fn mired(k: u16) -> u16 {
    ((1_000_000int / k as int) % 65_536) as u16
}

pub fn kelvin_to_mired(k: u16) -> (r: u16)
    requires
        k > 0,
    ensures
        r == mired(k),
        k >= 16 ==> r == 1_000_000int / k as int,
{
    let m: u32 = 1_000_000u32 / k as u32;
    if k >= 16 {
        assert(1_000_000int / (k as int) <= 62_500) by (nonlinear_arith)
            requires
                k >= 16,
        ;
    }
    (m % 65_536) as u16
}

impl CircadianParams {
    /// The end of the morning ramp can be reckoned with, and the color temperature of minute `now`
    /// can be converted.
    pub open spec fn in_limits(self, now: u32, eased: Eased) -> bool {
        &&& self.wake_minutes + self.ramp_duration_mins <= u32::MAX
        &&& self.values(now, eased).temp_k > 0
    }

    /// When the evening ramp starts; midnight where the ramp is longer than that.
    pub open spec fn evening_start(self) -> int {
        if self.sleep_minutes >= self.ramp_duration_mins {
            self.sleep_minutes - self.ramp_duration_mins
        } else {
            0
        }
    }

    /// The part of the day that minute `now` falls in. Where the two ramps overlap, the morning
    /// has it.
    pub open spec fn phase(self, now: u32) -> Phase {
        if now < self.wake_minutes || now >= self.sleep_minutes {
            Phase::Night
        } else if now < self.wake_minutes + self.ramp_duration_mins {
            Phase::Ramp(
                Ramp {
                    elapsed_mins: (now - self.wake_minutes) as u32,
                    duration_mins: self.ramp_duration_mins,
                    from_temp_k: self.start_temp_k,
                    to_temp_k: self.peak_temp_k,
                    from_brightness: self.start_brightness,
                    to_brightness: self.peak_brightness,
                    curve: self.curve,
                },
            )
        } else if now < self.evening_start() {
            Phase::Day
        } else {
            Phase::Ramp(
                Ramp {
                    elapsed_mins: (now - self.evening_start()) as u32,
                    duration_mins: self.ramp_duration_mins,
                    from_temp_k: self.peak_temp_k,
                    to_temp_k: self.end_temp_k,
                    from_brightness: self.peak_brightness,
                    to_brightness: self.end_brightness,
                    curve: self.curve,
                },
            )
        }
    }

    /// The color temperature and brightness at minute `now`, of which `eased` gives what lies on a
    /// ramp.
    pub open spec fn values(self, now: u32, eased: Eased) -> Eased {
        match self.phase(now) {
            Phase::Night => Eased { temp_k: self.end_temp_k, brightness: self.end_brightness },
            Phase::Ramp(_) => eased,
            Phase::Day => Eased { temp_k: self.peak_temp_k, brightness: self.peak_brightness },
        }
    }

    pub open spec fn target(self, now: u32, eased: Eased) -> CircadianTarget {
        let values = self.values(now, eased);
        CircadianTarget {
            brightness: values.brightness,
            color_temp_mired: mired(values.temp_k),
            color_temp_k: values.temp_k,
        }
    }

    /// The part of the day that minute `now` falls in.
    pub fn phase_at(&self, now: u32) -> (r: Phase)
        requires
            self.wake_minutes + self.ramp_duration_mins <= u32::MAX,
        ensures
            r == self.phase(now),
    {
        let morning_ramp_end: u32 = self.wake_minutes + self.ramp_duration_mins;
        let evening_ramp_start: u32 = self.sleep_minutes.saturating_sub(self.ramp_duration_mins);
        if now < self.wake_minutes || now >= self.sleep_minutes {
            Phase::Night
        } else if now < morning_ramp_end {
            Phase::Ramp(
                Ramp {
                    elapsed_mins: now - self.wake_minutes,
                    duration_mins: self.ramp_duration_mins,
                    from_temp_k: self.start_temp_k,
                    to_temp_k: self.peak_temp_k,
                    from_brightness: self.start_brightness,
                    to_brightness: self.peak_brightness,
                    curve: self.curve,
                },
            )
        } else if now < evening_ramp_start {
            Phase::Day
        } else {
            Phase::Ramp(
                Ramp {
                    elapsed_mins: now - evening_ramp_start,
                    duration_mins: self.ramp_duration_mins,
                    from_temp_k: self.peak_temp_k,
                    to_temp_k: self.end_temp_k,
                    from_brightness: self.peak_brightness,
                    to_brightness: self.end_brightness,
                    curve: self.curve,
                },
            )
        }
    }
}

/// What the lights should show at minute `current_minutes`. `eased` holds the interpolated values
/// where that minute lies on a ramp; elsewhere it is not looked at.
pub fn compute_target(params: &CircadianParams, current_minutes: u32, eased: Eased) -> (r:
    CircadianTarget)
    requires
        params.in_limits(current_minutes, eased),
    ensures
        r == params.target(current_minutes, eased),
{
    let values: Eased = match params.phase_at(current_minutes) {
        Phase::Night => Eased { temp_k: params.end_temp_k, brightness: params.end_brightness },
        Phase::Ramp(_) => eased,
        Phase::Day => Eased { temp_k: params.peak_temp_k, brightness: params.peak_brightness },
    };
    CircadianTarget {
        brightness: values.brightness,
        color_temp_mired: kelvin_to_mired(values.temp_k),
        color_temp_k: values.temp_k,
    }
}

/// Minutes since midnight; 0 where the text is no time of day.
pub open spec fn minutes_or_zero(time: Seq<char>) -> u32 {
    match hm_minutes(time) {
        Ok(minutes) => minutes as u32,
        Err(_) => 0,
    }
}

pub fn parse_time_to_minutes(time_str: &str) -> (r: u32)
    ensures
        r == minutes_or_zero(time_str@),
        r < 1440,
{
    match TimeOfDay::from_hm_str(time_str) {
        Ok(time) => time.as_minutes() as u32,
        Err(_) => 0,
    }
}

/// On a ramp, less time has passed than the ramp takes, so that interpolation never leaves it.
pub proof fn law_ramps_are_never_overrun(params: CircadianParams, now: u32)
    requires
        params.phase(now) is Ramp,
    ensures
        params.phase(now)->0.elapsed_mins < params.phase(now)->0.duration_mins,
{
}

/// The curve has no gap and no jump at its corners: the morning ramp starts at the start values at
/// wake time, and night starts at sleep time.
pub proof fn law_curve_corners(params: CircadianParams, eased: Eased)
    requires
        params.wake_minutes < params.sleep_minutes,
        params.ramp_duration_mins > 0,
    ensures
        params.phase(params.wake_minutes) is Ramp,
        params.phase(params.wake_minutes)->0.elapsed_mins == 0,
        params.phase(params.wake_minutes)->0.from_temp_k == params.start_temp_k,
        params.phase(params.wake_minutes)->0.from_brightness == params.start_brightness,
        params.phase(params.sleep_minutes) == Phase::Night,
        params.target(params.sleep_minutes, eased).color_temp_k == params.end_temp_k,
        params.target(params.sleep_minutes, eased).brightness == params.end_brightness,
{
}

/// The values lie between the two ends of the ramp.
pub open spec fn lies_on(eased: Eased, ramp: Ramp) -> bool {
    &&& least(ramp.from_temp_k as int, ramp.to_temp_k as int) <= eased.temp_k <= greatest(
        ramp.from_temp_k as int,
        ramp.to_temp_k as int,
    )
    &&& least(ramp.from_brightness as int, ramp.to_brightness as int) <= eased.brightness
        <= greatest(ramp.from_brightness as int, ramp.to_brightness as int)
}

pub open spec fn least(a: int, b: int) -> int {
    if a <= b {
        a
    } else {
        b
    }
}

pub open spec fn greatest(a: int, b: int) -> int {
    if a >= b {
        a
    } else {
        b
    }
}

/// The target never leaves what is configured: brightness and color temperature lie between the
/// least and the greatest of the start, peak and end values, as long as what is handed in for a
/// ramp lies between that ramp's ends.
pub proof fn law_targets_stay_in_range(params: CircadianParams, now: u32, eased: Eased)
    requires
        params.phase(now) matches Phase::Ramp(ramp) ==> lies_on(eased, ramp),
    ensures
        ({
            let (s, p, e) = (
                params.start_brightness as int,
                params.peak_brightness as int,
                params.end_brightness as int,
            );
            least(s, least(p, e)) <= params.target(now, eased).brightness <= greatest(
                s,
                greatest(p, e),
            )
        }),
        ({
            let (s, p, e) = (
                params.start_temp_k as int,
                params.peak_temp_k as int,
                params.end_temp_k as int,
            );
            least(s, least(p, e)) <= params.target(now, eased).color_temp_k <= greatest(
                s,
                greatest(p, e),
            )
        }),
{
}

/// The brightness and the color temperature of a ramp whose end values are not below its start
/// values never fall, as the ramp goes on.
pub open spec fn never_falls(interpolate: spec_fn(Ramp) -> Eased) -> bool {
    forall|earlier: Ramp, later: Ramp|
        earlier.elapsed_mins <= later.elapsed_mins && later == (Ramp {
            elapsed_mins: later.elapsed_mins,
            ..earlier
        }) && earlier.from_brightness <= earlier.to_brightness && earlier.from_temp_k
            <= earlier.to_temp_k ==> (#[trigger] interpolate(earlier)).brightness <= (
        #[trigger] interpolate(later)).brightness && interpolate(earlier).temp_k <= interpolate(
            later,
        ).temp_k
}

/// The morning ramp goes one way: between two of its minutes only the time that has passed
/// differs, and it has grown.
pub proof fn law_morning_ramp_goes_on(params: CircadianParams, m1: u32, m2: u32)
    requires
        params.wake_minutes <= m1 <= m2,
        m2 < params.wake_minutes + params.ramp_duration_mins,
        m2 < params.sleep_minutes,
    ensures
        params.phase(m1) is Ramp,
        params.phase(m2) is Ramp,
        params.phase(m1)->0.elapsed_mins == m1 - params.wake_minutes,
        params.phase(m2)->0 == (Ramp {
            elapsed_mins: (m2 - params.wake_minutes) as u32,
            ..params.phase(m1)->0
        }),
{
}

/// In the morning, brightness and color temperature never fall, along every curve whose ramps do
/// not.
pub proof fn law_mornings_never_fall(
    params: CircadianParams,
    interpolate: spec_fn(Ramp) -> Eased,
    m1: u32,
    m2: u32,
)
    requires
        never_falls(interpolate),
        params.start_brightness <= params.peak_brightness,
        params.start_temp_k <= params.peak_temp_k,
        params.wake_minutes <= m1 <= m2,
        m2 < params.wake_minutes + params.ramp_duration_mins,
        m2 < params.sleep_minutes,
    ensures
        ({
            let first = params.target(m1, interpolate(params.phase(m1)->0));
            let second = params.target(m2, interpolate(params.phase(m2)->0));
            first.brightness <= second.brightness && first.color_temp_k <= second.color_temp_k
        }),
{
    law_morning_ramp_goes_on(params, m1, m2);
    let earlier = params.phase(m1)->0;
    let later = params.phase(m2)->0;
    assert(interpolate(earlier).brightness <= interpolate(later).brightness);
}

/// Before wake time and from sleep time on, the lights hold the end values.
pub proof fn law_nights_hold_the_end_values(params: CircadianParams, now: u32, eased: Eased)
    requires
        now < params.wake_minutes || params.sleep_minutes <= now,
    ensures
        params.phase(now) is Night,
        params.target(now, eased).brightness == params.end_brightness,
        params.target(now, eased).color_temp_k == params.end_temp_k,
{
}

/// From wake time on, for as long as the ramp takes and the day lasts, the lights are on the way
/// from the start values to the peak values, as far as minutes have passed since wake time.
pub proof fn law_mornings_go_from_start_to_peak(params: CircadianParams, now: u32)
    requires
        params.wake_minutes <= now < params.sleep_minutes,
        now < params.wake_minutes + params.ramp_duration_mins,
    ensures
        params.phase(now) matches Phase::Ramp(ramp) && ramp.elapsed_mins + params.wake_minutes
            == now && ramp.duration_mins == params.ramp_duration_mins && ramp.from_temp_k
            == params.start_temp_k && ramp.to_temp_k == params.peak_temp_k && ramp.from_brightness
            == params.start_brightness && ramp.to_brightness == params.peak_brightness
            && ramp.curve == params.curve,
{
}

/// Between the two ramps, the lights hold the peak values.
pub proof fn law_days_hold_the_peak_values(params: CircadianParams, now: u32, eased: Eased)
    requires
        params.wake_minutes + params.ramp_duration_mins <= now,
        now + params.ramp_duration_mins < params.sleep_minutes,
    ensures
        params.phase(now) is Day,
        params.target(now, eased).brightness == params.peak_brightness,
        params.target(now, eased).color_temp_k == params.peak_temp_k,
{
}

/// From one ramp before sleep time on, the lights are on the way from the peak values to the end
/// values, as far as minutes have passed since then: a ramp is over exactly at sleep time.
pub proof fn law_evenings_go_from_peak_to_end(params: CircadianParams, now: u32)
    requires
        params.wake_minutes + params.ramp_duration_mins <= now < params.sleep_minutes,
        params.sleep_minutes <= now + params.ramp_duration_mins,
    ensures
        params.phase(now) matches Phase::Ramp(ramp) && ramp.duration_mins - ramp.elapsed_mins
            == params.sleep_minutes - now && ramp.duration_mins == params.ramp_duration_mins
            && ramp.from_temp_k == params.peak_temp_k && ramp.to_temp_k == params.end_temp_k
            && ramp.from_brightness == params.peak_brightness && ramp.to_brightness
            == params.end_brightness && ramp.curve == params.curve,
{
}

/// On a ramp, the target is what was interpolated for it.
pub proof fn law_ramps_show_what_was_interpolated(params: CircadianParams, now: u32, eased: Eased)
    requires
        params.wake_minutes <= now < params.sleep_minutes,
        now < params.wake_minutes + params.ramp_duration_mins || params.sleep_minutes <= now
            + params.ramp_duration_mins,
    ensures
        params.target(now, eased).brightness == eased.brightness,
        params.target(now, eased).color_temp_k == eased.temp_k,
{
}

/// A mired value is the whole part of a million divided by the Kelvin value, from 16 K on, and a
/// warmer light has no smaller one.
pub proof fn law_mired_values(k: u16, warmer: u16, params: CircadianParams, now: u32, eased: Eased)
    requires
        16 <= warmer <= k,
    ensures
        mired(k) * k <= 1_000_000 < (mired(k) + 1) * k,
        mired(k) <= mired(warmer),
        params.target(now, eased).color_temp_k == k ==> params.target(now, eased).color_temp_mired
            * k <= 1_000_000 < (params.target(now, eased).color_temp_mired + 1) * k,
{
    let q = 1_000_000int / k as int;
    let w = 1_000_000int / warmer as int;
    assert(q * k <= 1_000_000 < (q + 1) * k) by (nonlinear_arith)
        requires
            q == 1_000_000int / k as int,
            k >= 16,
    ;
    assert(w * warmer <= 1_000_000 < (w + 1) * warmer) by (nonlinear_arith)
        requires
            w == 1_000_000int / warmer as int,
            warmer >= 16,
    ;
    assert(0 <= q <= 62_500) by (nonlinear_arith)
        requires
            q == 1_000_000int / k as int,
            k >= 16,
    ;
    assert(0 <= w <= 62_500) by (nonlinear_arith)
        requires
            w == 1_000_000int / warmer as int,
            warmer >= 16,
    ;
    assert(q <= w) by (nonlinear_arith)
        requires
            q * k <= 1_000_000,
            1_000_000 < (w + 1) * warmer,
            16 <= warmer <= k,
            q >= 0,
            w >= 0,
    ;
}

} // verus!
