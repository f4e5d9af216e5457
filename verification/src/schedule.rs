//! Times of day, and the predicates over local time that gate automations.

use vstd::prelude::*;

use crate::clock::{ClockReading, utc_seconds, wall_clock, zone_clock, MAX_SECONDS, MIN_SECONDS};
use crate::text::{
    cat2, cat3, cat4, decimal, decimal_string, digit, digit_char, halves, parse_unsigned, parsed,
    split_in_two,
};
use crate::time::{Duration, SystemTime};

verus! {

/// Nanoseconds from `now` until the next wall-clock multiple of `period`. A wait that does not fit
/// in 64 bits of nanoseconds, and a time before 1970, count as being on a boundary.
pub open spec fn boundary_delay(now: SystemTime, period: Duration) -> int {
    let since_epoch = if now.nanos < 0 {
        0
    } else {
        now.nanos as int
    };
    if period.nanos == 0 || since_epoch % period.nanos as int == 0 {
        0
    } else {
        let wait = period.nanos - since_epoch % period.nanos as int;
        if wait <= u64::MAX {
            wait
        } else {
            0
        }
    }
}

/// Time from `now` until the next wall-clock multiple of `period`.
pub fn delay_to_next_boundary(now: SystemTime, period: Duration) -> (r: Duration)
    ensures
        r.nanos == boundary_delay(now, period),
{
    let period_ns: u128 = period.nanos;
    if period_ns == 0 {
        return Duration { nanos: 0 };
    }
    let since_epoch: u128 = if now.nanos < 0 {
        0
    } else {
        now.nanos as u128
    };
    let remainder: u128 = since_epoch % period_ns;
    if remainder == 0 {
        return Duration { nanos: 0 };
    }
    let wait: u128 = period_ns - remainder;
    if wait <= u64::MAX as u128 {
        Duration { nanos: wait }
    } else {
        Duration { nanos: 0 }
    }
}

/// A tick that waits as told lands on a multiple of the period, and waits less than one period.
pub proof fn law_ticks_land_on_boundaries(now: SystemTime, period: Duration)
    requires
        now.nanos >= 0,
        0 < period.nanos <= u64::MAX,
    ensures
        (now.nanos + boundary_delay(now, period)) % period.nanos as int == 0,
        0 <= boundary_delay(now, period) < period.nanos,
{
    let n = now.nanos as int;
    let p = period.nanos as int;
    vstd::arithmetic::div_mod::lemma_fundamental_div_mod(n, p);
    vstd::arithmetic::div_mod::lemma_mod_bound(n, p);
    if n % p != 0 {
        let q = n / p;
        assert(n + (p - n % p) == p * (q + 1)) by (nonlinear_arith)
            requires
                n == p * q + n % p,
        ;
        vstd::arithmetic::div_mod::lemma_mod_multiples_basic(q + 1, p);
        assert(p * (q + 1) == (q + 1) * p) by (nonlinear_arith);
    }
}

/// Why a text is no time of day.
#[derive(Clone, Copy, Debug, PartialEq, Eq, Structural)]
pub enum TimeProblem {
    /// Not two parts around one colon.
    Format,
    Hour,
    Minute,
    /// An hour above 23 or a minute above 59.
    Range,
}

/// A text that is no time of day.
#[derive(Clone, Debug)]
pub struct TimeError {
    pub problem: TimeProblem,
    pub text: String,
}

/// What is said of a text that is no time of day.
pub open spec fn time_error_text(problem: TimeProblem, text: Seq<char>) -> Seq<char> {
    match problem {
        TimeProblem::Format => "Invalid time '"@ + text + "': expected HH:MM format"@,
        TimeProblem::Hour => "Invalid hour in time '"@ + text + "'"@,
        TimeProblem::Minute => "Invalid minute in time '"@ + text + "'"@,
        TimeProblem::Range => "Invalid time '"@ + text + "': hour must be 0-23, minute 0-59"@,
    }
}

impl TimeError {
    pub fn message(&self) -> (r: String)
        ensures
            r@ == time_error_text(self.problem, self.text@),
    {
        match self.problem {
            TimeProblem::Format => cat3(
                "Invalid time '",
                self.text.as_str(),
                "': expected HH:MM format",
            ),
            TimeProblem::Hour => cat3("Invalid hour in time '", self.text.as_str(), "'"),
            TimeProblem::Minute => cat3("Invalid minute in time '", self.text.as_str(), "'"),
            TimeProblem::Range => cat3(
                "Invalid time '",
                self.text.as_str(),
                "': hour must be 0-23, minute 0-59",
            ),
        }
    }
}

/// The minutes since midnight that an "HH:MM" text stands for.
pub open spec fn hm_minutes(s: Seq<char>) -> Result<nat, TimeProblem> {
    match halves(s, ':') {
        None => Err(TimeProblem::Format),
        Some((h, m)) => match parsed(h, 65_535) {
            None => Err(TimeProblem::Hour),
            Some(hour) => match parsed(m, 65_535) {
                None => Err(TimeProblem::Minute),
                Some(minute) => if hour > 23 || minute > 59 {
                    Err(TimeProblem::Range)
                } else {
                    Ok(hour * 60 + minute)
                },
            },
        },
    }
}

/// A number below one hundred with two digits.
pub open spec fn two_digits(n: nat) -> Seq<char> {
    seq![digit_char(n / 10), digit_char(n % 10)]
}

/// Minutes since midnight as "HH:MM".
pub open spec fn hm_text(minutes: nat) -> Seq<char> {
    two_digits(minutes / 60) + ":"@ + two_digits(minutes % 60)
}

/// Validated "HH:MM" time, held as minutes since midnight.
#[derive(Clone, Copy, Debug, PartialEq, Eq, Structural)]
pub struct TimeOfDay(u16);

impl TimeOfDay {
    #[verifier::type_invariant]
    spec fn within_a_day(self) -> bool {
        self.0 < 1440
    }

    /// Minutes since midnight.
    pub closed spec fn minutes(self) -> u16 {
        self.0
    }

    pub fn from_hm_str(s: &str) -> (r: Result<Self, TimeError>)
        ensures
            match r {
                Ok(t) => hm_minutes(s@) == Ok::<nat, TimeProblem>(t.minutes() as nat),
                Err(e) => hm_minutes(s@) == Err::<nat, TimeProblem>(e.problem) && e.text@ == s@,
            },
    {
        let (h, m): (String, String) = match split_in_two(s, ':') {
            None => {
                return Err(TimeError { problem: TimeProblem::Format, text: s.to_owned() });
            },
            Some(parts) => parts,
        };
        let hour: u64 = match parse_unsigned(h.as_str(), 65_535) {
            None => {
                return Err(TimeError { problem: TimeProblem::Hour, text: s.to_owned() });
            },
            Some(hour) => hour,
        };
        let minute: u64 = match parse_unsigned(m.as_str(), 65_535) {
            None => {
                return Err(TimeError { problem: TimeProblem::Minute, text: s.to_owned() });
            },
            Some(minute) => minute,
        };
        if hour > 23 || minute > 59 {
            return Err(TimeError { problem: TimeProblem::Range, text: s.to_owned() });
        }
        Ok(TimeOfDay((hour * 60 + minute) as u16))
    }

    pub fn as_minutes(self) -> (r: u16)
        ensures
            r == self.minutes(),
            r < 1440,
    {
        proof {
            use_type_invariant(&self);
        }
        self.0
    }

    /// The time as "HH:MM".
    pub fn to_string(&self) -> (r: String)
        ensures
            r@ == hm_text(self.minutes() as nat),
    {
        proof {
            use_type_invariant(self);
        }
        let hour: u16 = self.0 / 60;
        let minute: u16 = self.0 % 60;
        let mut out: String = String::new();
        out.push(digit((hour / 10) as u8));
        out.push(digit((hour % 10) as u8));
        out.push(':');
        out.push(digit((minute / 10) as u8));
        out.push(digit((minute % 10) as u8));
        proof {
            reveal_strlit(":");
            assert(out@ =~= hm_text(self.0 as nat));
        }
        out
    }
}

impl std::str::FromStr for TimeOfDay {
    type Err = TimeError;

    fn from_str(s: &str) -> (r: Result<Self, TimeError>)
        ensures
            match r {
                Ok(t) => hm_minutes(s@) == Ok::<nat, TimeProblem>(t.minutes() as nat),
                Err(e) => hm_minutes(s@) == Err::<nat, TimeProblem>(e.problem) && e.text@ == s@,
            },
    {
        Self::from_hm_str(s)
    }
}

proof fn lemma_two_digits(n: nat)
    requires
        n < 100,
    ensures
        parsed(two_digits(n), 65_535) == Some(n),
        two_digits(n)[0] != ':',
        two_digits(n)[1] != ':',
{
    let s = two_digits(n);
    assert(crate::text::unsigned_digits(s) == s);
    let front = s.drop_last();
    assert(front =~= seq![digit_char(n / 10)]);
    assert(front.drop_last() =~= Seq::<char>::empty());
    assert(crate::text::digits_value(front.drop_last()) == 0);
    assert(crate::text::digits_value(front) == n / 10);
    assert(crate::text::digits_value(s) == n);
    assert(crate::text::all_digits(s));
}

/// Every time of day, written as "HH:MM", is read back as itself.
pub proof fn law_time_of_day_round_trip(minutes: nat)
    requires
        minutes < 1440,
    ensures
        hm_minutes(hm_text(minutes)) == Ok::<nat, TimeProblem>(minutes),
{
    reveal_strlit(":");
    let s = hm_text(minutes);
    let h = two_digits(minutes / 60);
    let m = two_digits(minutes % 60);
    lemma_two_digits(minutes / 60);
    lemma_two_digits(minutes % 60);
    assert(s.len() == 5);
    assert(s[0] == h[0] && s[1] == h[1] && s[2] == ':' && s[3] == m[0] && s[4] == m[1]);
    assert(crate::text::only_at(s, ':', 2));
    let p = choose|p: int| crate::text::only_at(s, ':', p);
    assert(p == 2) by {
        assert(s[2] == ':');
    }
    assert(s.take(2) =~= h);
    assert(s.skip(3) =~= m);
}

/// Day of week for schedule filtering.
#[derive(Clone, Copy, Debug, PartialEq, Eq, Structural)]
pub enum DayOfWeek {
    Mon,
    Tue,
    Wed,
    Thu,
    Fri,
    Sat,
    Sun,
}

impl DayOfWeek {
    /// The day that many days after a Monday; from 6 on, Sunday.
    pub open spec fn numbered(days_from_monday: u32) -> DayOfWeek {
        if days_from_monday == 0 {
            DayOfWeek::Mon
        } else if days_from_monday == 1 {
            DayOfWeek::Tue
        } else if days_from_monday == 2 {
            DayOfWeek::Wed
        } else if days_from_monday == 3 {
            DayOfWeek::Thu
        } else if days_from_monday == 4 {
            DayOfWeek::Fri
        } else if days_from_monday == 5 {
            DayOfWeek::Sat
        } else {
            DayOfWeek::Sun
        }
    }

    /// The day that many days after a Monday; from 6 on, Sunday.
    pub fn from_days_from_monday(days: u32) -> (r: Self)
        ensures
            r == Self::numbered(days),
    {
        match days {
            0 => DayOfWeek::Mon,
            1 => DayOfWeek::Tue,
            2 => DayOfWeek::Wed,
            3 => DayOfWeek::Thu,
            4 => DayOfWeek::Fri,
            5 => DayOfWeek::Sat,
            _ => DayOfWeek::Sun,
        }
    }
}

/// Month for schedule filtering.
#[derive(Clone, Copy, Debug, PartialEq, Eq, Structural)]
pub enum Month {
    Jan,
    Feb,
    Mar,
    Apr,
    May,
    Jun,
    Jul,
    Aug,
    Sep,
    Oct,
    Nov,
    Dec,
}

impl Month {
    /// The month with that number, counted from 1; any other number is January.
    pub open spec fn numbered(m: u32) -> Month {
        if m == 2 {
            Month::Feb
        } else if m == 3 {
            Month::Mar
        } else if m == 4 {
            Month::Apr
        } else if m == 5 {
            Month::May
        } else if m == 6 {
            Month::Jun
        } else if m == 7 {
            Month::Jul
        } else if m == 8 {
            Month::Aug
        } else if m == 9 {
            Month::Sep
        } else if m == 10 {
            Month::Oct
        } else if m == 11 {
            Month::Nov
        } else if m == 12 {
            Month::Dec
        } else {
            Month::Jan
        }
    }

    /// The month with that number, counted from 1; any other number is January.
    pub fn from_chrono_month(m: u32) -> (r: Self)
        ensures
            r == Self::numbered(m),
    {
        match m {
            1 => Month::Jan,
            2 => Month::Feb,
            3 => Month::Mar,
            4 => Month::Apr,
            5 => Month::May,
            6 => Month::Jun,
            7 => Month::Jul,
            8 => Month::Aug,
            9 => Month::Sep,
            10 => Month::Oct,
            11 => Month::Nov,
            12 => Month::Dec,
            _ => Month::Jan,
        }
    }
}

/// A time window predicate. All present fields are ANDed. Empty filters match everything.
#[derive(Clone, Debug)]
pub struct TimeWindow {
    pub after: Option<TimeOfDay>,
    pub before: Option<TimeOfDay>,
    pub days: Vec<DayOfWeek>,
    pub months: Vec<Month>,
}

/// Whether minute `n` of the day lies from `a` (included) to `b` (excluded), over midnight where `b`
/// comes before `a`.
pub open spec fn in_range(a: int, b: int, n: int) -> bool {
    if a <= b {
        a <= n < b
    } else {
        n >= a || n < b
    }
}

impl TimeWindow {
    pub open spec fn time_holds(self, minutes: int) -> bool {
        match (self.after, self.before) {
            (Some(a), Some(b)) => in_range(a.minutes() as int, b.minutes() as int, minutes),
            (Some(a), None) => a.minutes() <= minutes,
            (None, Some(b)) => minutes < b.minutes(),
            (None, None) => true,
        }
    }

    /// The window holds `now`: the time is in range, and the day and the month are listed where
    /// there is a list.
    pub open spec fn holds(self, now: LocalNow) -> bool {
        &&& self.time_holds(now.minutes as int)
        &&& self.days@.len() == 0 || self.days@.contains(now.weekday)
        &&& self.months@.len() == 0 || self.months@.contains(now.month)
    }

    pub fn matches(&self, now: &LocalNow) -> (r: bool)
        ensures
            r == self.holds(*now),
    {
        let in_time: bool = match (self.after, self.before) {
            (Some(after), Some(before)) => {
                let a: u16 = after.as_minutes();
                let b: u16 = before.as_minutes();
                let n: u16 = now.minutes;
                if a <= b {
                    n >= a && n < b
                } else {
                    // Midnight crossover
                    n >= a || n < b
                }
            },
            (Some(after), None) => now.minutes >= after.as_minutes(),
            (None, Some(before)) => now.minutes < before.as_minutes(),
            (None, None) => true,
        };
        if !in_time {
            return false;
        }
        if self.days.len() != 0 && !lists_day(&self.days, now.weekday) {
            return false;
        }
        if self.months.len() != 0 && !lists_month(&self.months, now.month) {
            return false;
        }
        true
    }
}

fn lists_day(days: &Vec<DayOfWeek>, day: DayOfWeek) -> (r: bool)
    ensures
        r == days@.contains(day),
{
    let mut i: usize = 0;
    while i < days.len()
        invariant
            i <= days@.len(),
            forall|j: int| 0 <= j < i ==> days@[j] != day,
        decreases days.len() - i,
    {
        if days[i] == day {
            return true;
        }
        i = i + 1;
    }
    false
}

fn lists_month(months: &Vec<Month>, month: Month) -> (r: bool)
    ensures
        r == months@.contains(month),
{
    let mut i: usize = 0;
    while i < months.len()
        invariant
            i <= months@.len(),
            forall|j: int| 0 <= j < i ==> months@[j] != month,
        decreases months.len() - i,
    {
        if months[i] == month {
            return true;
        }
        i = i + 1;
    }
    false
}

/// Composable temporal predicate.
#[derive(Debug)]
pub enum Schedule {
    /// Composite: all predicates must match.
    All { all: Vec<Schedule> },
    /// Composite: any predicate must match.
    Any { any: Vec<Schedule> },
    /// Composite: invert result.
    Not { not: Box<Schedule> },
    /// A flat time window (the common case).
    Window(TimeWindow),
}

impl Schedule {
    pub open spec fn holds(self, now: LocalNow) -> bool
        decreases self,
    {
        match self {
            Schedule::Window(w) => w.holds(now),
            Schedule::All { all } => forall|i: int|
                0 <= i < all@.len() ==> (#[trigger] all@[i]).holds(now),
            Schedule::Any { any } => exists|i: int|
                0 <= i < any@.len() && (#[trigger] any@[i]).holds(now),
            Schedule::Not { not } => !not.holds(now),
        }
    }

    pub fn matches(&self, now: &LocalNow) -> (r: bool)
        ensures
            r == self.holds(*now),
        decreases self,
    {
        match self {
            Schedule::Window(w) => w.matches(now),
            Schedule::All { all } => {
                proof {
                    lemma_all_holds(*all, *now);
                }
                let mut i: usize = 0;
                while i < all.len()
                    invariant
                        i <= all@.len(),
                        *self == (Schedule::All { all: *all }),
                        self.holds(*now) == (forall|j: int|
                            0 <= j < all@.len() ==> (#[trigger] all@[j]).holds(*now)),
                        forall|j: int| 0 <= j < i ==> (#[trigger] all@[j]).holds(*now),
                    decreases all.len() - i,
                {
                    assert(self->all == *all);
                    assert(decreases_to!(*self => self->all));
                    assert(decreases_to!(*all => all@[i as int]));
                    assert(decreases_to!(*self => all@[i as int]));
                    if !all[i].matches(now) {
                        return false;
                    }
                    i = i + 1;
                }
                true
            },
            Schedule::Any { any } => {
                proof {
                    lemma_any_holds(*any, *now);
                }
                let mut i: usize = 0;
                while i < any.len()
                    invariant
                        i <= any@.len(),
                        *self == (Schedule::Any { any: *any }),
                        self.holds(*now) == (exists|j: int|
                            0 <= j < any@.len() && (#[trigger] any@[j]).holds(*now)),
                        forall|j: int| 0 <= j < i ==> !(#[trigger] any@[j]).holds(*now),
                    decreases any.len() - i,
                {
                    assert(self->any == *any);
                    assert(decreases_to!(*self => self->any));
                    assert(decreases_to!(*any => any@[i as int]));
                    assert(decreases_to!(*self => any@[i as int]));
                    if any[i].matches(now) {
                        return true;
                    }
                    i = i + 1;
                }
                false
            },
            Schedule::Not { not } => !not.matches(now),
        }
    }
}

proof fn lemma_all_holds(all: Vec<Schedule>, now: LocalNow)
    ensures
        (Schedule::All { all }).holds(now) == (forall|i: int|
            0 <= i < all@.len() ==> (#[trigger] all@[i]).holds(now)),
{
    let s = Schedule::All { all };
    assert(s.holds(now) == match s {
        Schedule::All { all } => forall|i: int|
            0 <= i < all@.len() ==> (#[trigger] all@[i]).holds(now),
        _ => false,
    });
    assert(s->all == all);
}

proof fn lemma_any_holds(any: Vec<Schedule>, now: LocalNow)
    ensures
        (Schedule::Any { any }).holds(now) == (exists|i: int|
            0 <= i < any@.len() && (#[trigger] any@[i]).holds(now)),
{
    let s = Schedule::Any { any };
    assert(s.holds(now) == match s {
        Schedule::Any { any } => exists|i: int|
            0 <= i < any@.len() && (#[trigger] any@[i]).holds(now),
        _ => false,
    });
    assert(s->any == any);
}

/// Inverting twice changes nothing.
pub proof fn law_double_negation(schedule: Schedule, now: LocalNow)
    ensures
        (Schedule::Not { not: Box::new(Schedule::Not { not: Box::new(schedule) }) }).holds(now)
            == schedule.holds(now),
{
    reveal_with_fuel(Schedule::holds, 3);
}

/// None of several predicates matches exactly where all their inversions match, and not all of them
/// match exactly where one of their inversions does.
pub proof fn law_de_morgan(parts: Vec<Schedule>, inverted: Vec<Schedule>, now: LocalNow)
    requires
        inverted@.len() == parts@.len(),
        forall|i: int|
            0 <= i < parts@.len() ==> #[trigger] inverted@[i] == (Schedule::Not {
                not: Box::new(parts@[i]),
            }),
    ensures
        (Schedule::Not { not: Box::new(Schedule::Any { any: parts }) }).holds(now)
            == (Schedule::All { all: inverted }).holds(now),
        (Schedule::Not { not: Box::new(Schedule::All { all: parts }) }).holds(now)
            == (Schedule::Any { any: inverted }).holds(now),
{
    reveal_with_fuel(Schedule::holds, 3);
    lemma_all_holds(inverted, now);
    lemma_any_holds(parts, now);
    lemma_all_holds(parts, now);
    lemma_any_holds(inverted, now);
    assert forall|i: int| 0 <= i < parts@.len() implies (#[trigger] inverted@[i]).holds(now)
        == !parts@[i].holds(now) by {}
    if (Schedule::All { all: inverted }).holds(now) {
        assert forall|i: int| 0 <= i < parts@.len() implies !(#[trigger] parts@[i]).holds(now) by {
            assert(inverted@[i].holds(now));
        }
    } else {
        let i = choose|i: int| 0 <= i < inverted@.len() && !(#[trigger] inverted@[i]).holds(now);
        assert(parts@[i].holds(now));
    }
    if (Schedule::Any { any: inverted }).holds(now) {
        let i = choose|i: int| 0 <= i < inverted@.len() && (#[trigger] inverted@[i]).holds(now);
        assert(!parts@[i].holds(now));
    } else {
        assert forall|i: int| 0 <= i < parts@.len() implies (#[trigger] parts@[i]).holds(now) by {
            assert(!inverted@[i].holds(now));
        }
    }
}

/// A window and the window with its two ends swapped split the day between them.
pub proof fn law_swapped_window_is_the_rest_of_the_day(a: TimeOfDay, b: TimeOfDay, minutes: int)
    requires
        a.minutes() != b.minutes(),
    ensures
        in_range(a.minutes() as int, b.minutes() as int, minutes) != in_range(
            b.minutes() as int,
            a.minutes() as int,
            minutes,
        ),
{
}

/// Snapshot of the current local time for schedule evaluation.
#[derive(Clone, Copy, Debug, PartialEq, Eq, Structural)]
pub struct LocalNow {
    pub minutes: u16,
    pub weekday: DayOfWeek,
    pub month: Month,
}

/// What the clock shows in a time zone, in UTC where no zone has that name.
pub open spec fn clock_or_utc(seconds: i64, timezone: Seq<char>) -> ClockReading {
    match wall_clock(seconds, timezone) {
        Some(clock) => clock,
        None => wall_clock(seconds, "UTC"@)->0,
    }
}

/// Reads the clock of `timezone` at `seconds`, that of UTC where no zone has that name.
pub fn read_clock(seconds: i64, timezone: &str) -> (r: ClockReading)
    requires
        MIN_SECONDS <= seconds <= MAX_SECONDS,
    ensures
        r == clock_or_utc(seconds, timezone@),
        r.in_range(),
{
    match zone_clock(seconds, timezone) {
        Some(clock) => clock,
        None => {
            let utc = zone_clock(seconds, "UTC");
            utc.unwrap()
        },
    }
}

impl LocalNow {
    /// The snapshot that a clock reading amounts to.
    pub open spec fn reading(clock: ClockReading) -> LocalNow {
        LocalNow {
            minutes: (clock.hour * 60 + clock.minute) as u16,
            weekday: DayOfWeek::numbered(clock.weekday),
            month: Month::numbered(clock.month),
        }
    }

    /// The snapshot that a clock reading amounts to.
    pub fn from_clock(clock: ClockReading) -> (r: Self)
        requires
            clock.hour < 24,
            clock.minute < 60,
        ensures
            r == LocalNow::reading(clock),
            r.minutes == clock.hour * 60 + clock.minute,
    {
        LocalNow {
            minutes: (clock.hour * 60 + clock.minute) as u16,
            weekday: DayOfWeek::from_days_from_monday(clock.weekday),
            month: Month::from_chrono_month(clock.month),
        }
    }

    /// The local time in `timezone` at `seconds` after the start of 1970 UTC. An unknown time zone
    /// counts as UTC.
    pub fn at(seconds: i64, timezone: &str) -> (r: Self)
        requires
            MIN_SECONDS <= seconds <= MAX_SECONDS,
        ensures
            r == LocalNow::reading(clock_or_utc(seconds, timezone@)),
            r.minutes < 1440,
    {
        let clock: ClockReading = read_clock(seconds, timezone);
        LocalNow::from_clock(clock)
    }

    /// The local time in `timezone` now. An unknown time zone counts as UTC.
    pub fn now(timezone: &str) -> (r: Self)
        ensures
            exists|seconds: i64|
                MIN_SECONDS <= seconds <= MAX_SECONDS && r == LocalNow::reading(
                    #[trigger] clock_or_utc(seconds, timezone@),
                ),
            r.minutes < 1440,
    {
        let seconds: i64 = utc_seconds();
        LocalNow::at(seconds, timezone)
    }
}

/// Which composite schedule has no parts.
#[derive(Clone, Copy, Debug, PartialEq, Eq, Structural)]
pub enum EmptyComposite {
    All,
    Any,
}

/// A composite schedule without parts, and where it stands.
#[derive(Clone, Debug)]
pub struct ScheduleError {
    pub composite: EmptyComposite,
    pub field: String,
}

/// What is said of a composite schedule without parts.
pub open spec fn schedule_error_text(composite: EmptyComposite, field: Seq<char>) -> Seq<char> {
    match composite {
        EmptyComposite::All => "Empty 'all' schedule in "@ + field,
        EmptyComposite::Any => "Empty 'any' schedule in "@ + field,
    }
}

impl ScheduleError {
    pub fn message(&self) -> (r: String)
        ensures
            r@ == schedule_error_text(self.composite, self.field@),
    {
        match self.composite {
            EmptyComposite::All => cat2("Empty 'all' schedule in ", self.field.as_str()),
            EmptyComposite::Any => cat2("Empty 'any' schedule in ", self.field.as_str()),
        }
    }
}

/// How many parts a composite schedule has.
pub open spec fn part_count(schedule: Schedule) -> nat {
    match schedule {
        Schedule::All { all } => all@.len(),
        Schedule::Any { any } => any@.len(),
        _ => 0,
    }
}

/// The first composite without parts, depth first, with its path below `field`.
pub open spec fn schedule_problem(schedule: Schedule, field: Seq<char>) -> Option<
    (EmptyComposite, Seq<char>),
>
    decreases schedule, part_count(schedule) + 2,
{
    match schedule {
        Schedule::Window(_) => None,
        Schedule::All { all } => if all@.len() == 0 {
            Some((EmptyComposite::All, field))
        } else {
            parts_problem(schedule, field, 0)
        },
        Schedule::Any { any } => if any@.len() == 0 {
            Some((EmptyComposite::Any, field))
        } else {
            parts_problem(schedule, field, 0)
        },
        Schedule::Not { not } => schedule_problem(*not, field + ".not"@),
    }
}

/// The first problem among the parts of a composite from number `from` on.
pub open spec fn parts_problem(schedule: Schedule, field: Seq<char>, from: nat) -> Option<
    (EmptyComposite, Seq<char>),
>
    decreases schedule, part_count(schedule) - from + 1,
{
    match schedule {
        Schedule::All { all } => if from >= all@.len() {
            None
        } else {
            match schedule_problem(
                all@[from as int],
                field + ".all["@ + decimal(from) + "]"@,
            ) {
                Some(problem) => Some(problem),
                None => parts_problem(schedule, field, from + 1),
            }
        },
        Schedule::Any { any } => if from >= any@.len() {
            None
        } else {
            match schedule_problem(
                any@[from as int],
                field + ".any["@ + decimal(from) + "]"@,
            ) {
                Some(problem) => Some(problem),
                None => parts_problem(schedule, field, from + 1),
            }
        },
        _ => None,
    }
}

/// No composite in the schedule is empty, however deep.
pub open spec fn no_empty_parts(schedule: Schedule) -> bool
    decreases schedule,
{
    match schedule {
        Schedule::Window(_) => true,
        Schedule::All { all } => all@.len() > 0 && forall|i: int|
            0 <= i < all@.len() ==> no_empty_parts(#[trigger] all@[i]),
        Schedule::Any { any } => any@.len() > 0 && forall|i: int|
            0 <= i < any@.len() ==> no_empty_parts(#[trigger] any@[i]),
        Schedule::Not { not } => no_empty_parts(*not),
    }
}

/// A schedule is accepted exactly where no composite in it is empty, however deep.
pub proof fn law_accepted_schedules_have_parts(schedule: Schedule, field: Seq<char>)
    ensures
        schedule_problem(schedule, field) is None <==> no_empty_parts(schedule),
    decreases schedule, part_count(schedule) + 2,
{
    match schedule {
        Schedule::Window(_) => {},
        Schedule::All { all } => {
            if all@.len() > 0 {
                lemma_parts_in_order(schedule, field, 0);
            }
        },
        Schedule::Any { any } => {
            if any@.len() > 0 {
                lemma_parts_in_order(schedule, field, 0);
            }
        },
        Schedule::Not { not } => {
            law_accepted_schedules_have_parts(*not, field + ".not"@);
        },
    }
}

proof fn lemma_parts_in_order(schedule: Schedule, field: Seq<char>, from: nat)
    ensures
        match schedule {
            Schedule::All { all } => parts_problem(schedule, field, from) is None <==> forall|i: int|
                from <= i < all@.len() ==> no_empty_parts(#[trigger] all@[i]),
            Schedule::Any { any } => parts_problem(schedule, field, from) is None <==> forall|i: int|
                from <= i < any@.len() ==> no_empty_parts(#[trigger] any@[i]),
            _ => true,
        },
    decreases schedule, part_count(schedule) - from + 1,
{
    match schedule {
        Schedule::All { all } => {
            if from < all@.len() {
                law_accepted_schedules_have_parts(
                    all@[from as int],
                    field + ".all["@ + decimal(from) + "]"@,
                );
                lemma_parts_in_order(schedule, field, from + 1);
            }
        },
        Schedule::Any { any } => {
            if from < any@.len() {
                law_accepted_schedules_have_parts(
                    any@[from as int],
                    field + ".any["@ + decimal(from) + "]"@,
                );
                lemma_parts_in_order(schedule, field, from + 1);
            }
        },
        _ => {},
    }
}

/// A schedule is in order where no composite in it is empty.
pub fn validate_schedule(schedule: &Schedule, field: &str) -> (r: Result<(), ScheduleError>)
    ensures
        match r {
            Ok(()) => schedule_problem(*schedule, field@) is None,
            Err(e) => schedule_problem(*schedule, field@) == Some((e.composite, e.field@)),
        },
    decreases schedule,
{
    match schedule {
        Schedule::Window(_) => Ok(()),
        Schedule::All { all } => {
            if all.len() == 0 {
                return Err(
                    ScheduleError { composite: EmptyComposite::All, field: field.to_owned() },
                );
            }
            let mut i: usize = 0;
            while i < all.len()
                invariant
                    i <= all@.len(),
                    *schedule == (Schedule::All { all: *all }),
                    parts_problem(*schedule, field@, 0) == parts_problem(
                        *schedule,
                        field@,
                        i as nat,
                    ),
                    schedule_problem(*schedule, field@) == parts_problem(*schedule, field@, 0),
                decreases all.len() - i,
            {
                let path: String = cat4(
                    field,
                    ".all[",
                    decimal_string(i as u64).as_str(),
                    "]",
                );
                match validate_schedule(&all[i], path.as_str()) {
                    Ok(()) => {},
                    Err(e) => {
                        return Err(e);
                    },
                }
                i = i + 1;
            }
            Ok(())
        },
        Schedule::Any { any } => {
            if any.len() == 0 {
                return Err(
                    ScheduleError { composite: EmptyComposite::Any, field: field.to_owned() },
                );
            }
            let mut i: usize = 0;
            while i < any.len()
                invariant
                    i <= any@.len(),
                    *schedule == (Schedule::Any { any: *any }),
                    parts_problem(*schedule, field@, 0) == parts_problem(
                        *schedule,
                        field@,
                        i as nat,
                    ),
                    schedule_problem(*schedule, field@) == parts_problem(*schedule, field@, 0),
                decreases any.len() - i,
            {
                let path: String = cat4(
                    field,
                    ".any[",
                    decimal_string(i as u64).as_str(),
                    "]",
                );
                match validate_schedule(&any[i], path.as_str()) {
                    Ok(()) => {},
                    Err(e) => {
                        return Err(e);
                    },
                }
                i = i + 1;
            }
            Ok(())
        },
        Schedule::Not { not } => {
            let path: String = cat2(field, ".not");
            validate_schedule(not, path.as_str())
        },
    }
}

/// A window is open from its first minute on, and closed from its second; one whose ends are in the
/// other order is closed exactly between them. An end that is left out closes nothing. It is open
/// on the listed days and in the listed months, and on all where none is listed.
pub proof fn law_windows_open_and_close(window: TimeWindow, now: LocalNow)
    ensures
        window.holds(now) <==> {
            let n = now.minutes as int;
            &&& window.after is Some && window.before is Some ==> ({
                let a = window.after->0.minutes() as int;
                let b = window.before->0.minutes() as int;
                if a <= b {
                    a <= n && n < b
                } else {
                    !(b <= n && n < a)
                }
            })
            &&& window.after is Some && window.before is None ==> n >= window.after->0.minutes()
            &&& window.after is None && window.before is Some ==> n < window.before->0.minutes()
            &&& window.days@.len() > 0 ==> exists|i: int|
                0 <= i < window.days@.len() && window.days@[i] == now.weekday
            &&& window.months@.len() > 0 ==> exists|i: int|
                0 <= i < window.months@.len() && window.months@[i] == now.month
        },
{
}

/// A composite of all holds where every part does, one of any where some part does, and an inverted
/// one where its part does not.
pub proof fn law_composites(parts: Vec<Schedule>, part: Schedule, window: TimeWindow, now: LocalNow)
    ensures
        (Schedule::All { all: parts }).holds(now) <==> forall|i: int|
            0 <= i < parts@.len() ==> (#[trigger] parts@[i]).holds(now),
        (Schedule::Any { any: parts }).holds(now) <==> exists|i: int|
            0 <= i < parts@.len() && (#[trigger] parts@[i]).holds(now),
        (Schedule::Not { not: Box::new(part) }).holds(now) <==> !part.holds(now),
        (Schedule::Window(window)).holds(now) <==> window.holds(now),
{
    reveal_with_fuel(Schedule::holds, 2);
    lemma_all_holds(parts, now);
    lemma_any_holds(parts, now);
}

/// How many days a weekday comes after Monday.
pub open spec fn days_after_monday(day: DayOfWeek) -> int {
    match day {
        DayOfWeek::Mon => 0,
        DayOfWeek::Tue => 1,
        DayOfWeek::Wed => 2,
        DayOfWeek::Thu => 3,
        DayOfWeek::Fri => 4,
        DayOfWeek::Sat => 5,
        DayOfWeek::Sun => 6,
    }
}

/// Which month of the year a month is.
pub open spec fn month_of_the_year(month: Month) -> int {
    match month {
        Month::Jan => 1,
        Month::Feb => 2,
        Month::Mar => 3,
        Month::Apr => 4,
        Month::May => 5,
        Month::Jun => 6,
        Month::Jul => 7,
        Month::Aug => 8,
        Month::Sep => 9,
        Month::Oct => 10,
        Month::Nov => 11,
        Month::Dec => 12,
    }
}

/// A snapshot of a clock tells the clock's minute of the day, weekday and month.
pub proof fn law_snapshots_tell_the_clock(clock: ClockReading)
    requires
        clock.in_range(),
    ensures
        LocalNow::reading(clock).minutes / 60 == clock.hour,
        LocalNow::reading(clock).minutes % 60 == clock.minute,
        days_after_monday(LocalNow::reading(clock).weekday) == clock.weekday,
        month_of_the_year(LocalNow::reading(clock).month) == clock.month,
{
}

/// An hour and a minute around a colon, each in decimal digits, are a time of day where they lie in
/// their ranges; otherwise that is what is wrong with them.
pub proof fn law_times_are_read(hour: nat, minute: nat)
    requires
        hour <= 65_535,
        minute <= 65_535,
    ensures
        hm_minutes(decimal(hour) + ":"@ + decimal(minute)) == (if hour <= 23 && minute <= 59 {
            Ok::<nat, TimeProblem>(hour * 60 + minute)
        } else {
            Err::<nat, TimeProblem>(TimeProblem::Range)
        }),
{
    reveal_strlit(":");
    let h = decimal(hour);
    let m = decimal(minute);
    let s = h + ":"@ + m;
    crate::text::law_decimal_round_trip(hour, 65_535);
    crate::text::law_decimal_round_trip(minute, 65_535);
    crate::text::lemma_decimal_parses(hour);
    crate::text::lemma_decimal_parses(minute);
    let p = h.len() as int;
    assert(s[p] == ':');
    assert(crate::text::only_at(s, ':', p));
    let q = choose|q: int| crate::text::only_at(s, ':', q);
    assert(q == p);
    assert(s.take(p) =~= h);
    assert(s.skip(p + 1) =~= m);
}

} // verus!
