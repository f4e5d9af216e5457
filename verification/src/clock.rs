//! The wall clock in a time zone, as chrono and chrono-tz read it.

use chrono::{Datelike, Timelike};
use vstd::prelude::*;

verus! {

/// The earliest second that chrono can represent.
pub const MIN_SECONDS: i64 = -8_334_601_228_800;

/// The latest second that chrono can represent.
pub const MAX_SECONDS: i64 = 8_210_266_876_799;

/// What a clock and a calendar on a wall show.
#[derive(Clone, Copy, Debug, PartialEq, Eq, Structural)]
pub struct ClockReading {
    pub hour: u32,
    pub minute: u32,
    /// Days since Monday.
    pub weekday: u32,
    /// Counted from January as 1.
    pub month: u32,
}

impl ClockReading {
    /// Every part lies in its usual range.
    pub open spec fn in_range(self) -> bool {
        self.hour < 24 && self.minute < 60 && self.weekday < 7 && 1 <= self.month <= 12
    }
}

/// What the clock in `timezone` shows `seconds` after the start of 1970 UTC. Nothing where no time
/// zone has that name.
pub uninterp spec fn wall_clock(seconds: i64, timezone: Seq<char>) -> Option<ClockReading>;

/// `chrono::Utc::now` gives the current time; chrono represents the years -262143 to 262142. Nothing
/// else is known of the result.
#[verifier::external_body]
pub(crate) fn utc_seconds() -> (r: i64)
    ensures
        MIN_SECONDS <= r <= MAX_SECONDS,
{
    chrono::Utc::now().timestamp()
}

/// `chrono::DateTime::with_timezone` for the zone that `chrono_tz::Tz::from_str` finds under the
/// name: its hour, minute, weekday and month, in the ranges that chrono documents. The name "UTC" is
/// known, and its hour and minute are those of the seconds since midnight. For every other name the
/// offset rests on the time zone database and is not stated.
#[verifier::external_body]
pub(crate) fn zone_clock(seconds: i64, timezone: &str) -> (r: Option<ClockReading>)
    requires
        MIN_SECONDS <= seconds <= MAX_SECONDS,
    ensures
        r == wall_clock(seconds, timezone@),
        r is Some ==> r->0.in_range(),
        timezone@ == "UTC"@ ==> r is Some,
        timezone@ == "UTC"@ ==> r->0.hour == (seconds % 86_400) / 3_600,
        timezone@ == "UTC"@ ==> r->0.minute == (seconds % 3_600) / 60,
{
    let zone: chrono_tz::Tz = timezone.parse().ok()?;
    let local = chrono::DateTime::from_timestamp(seconds, 0)?.with_timezone(&zone);
    let weekday = local.weekday().num_days_from_monday();
    let (hour, minute, month) = (local.hour(), local.minute(), local.month());
    Some(ClockReading { hour, minute, weekday, month })
}

} // verus!
