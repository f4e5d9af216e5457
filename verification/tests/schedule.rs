use jeha::schedule::{
    delay_to_next_boundary, validate_schedule, DayOfWeek, LocalNow, Month, Schedule, TimeOfDay,
    TimeProblem, TimeWindow,
};
use jeha::time::{Duration, SystemTime};

fn make_now(minutes: u16, weekday: DayOfWeek, month: Month) -> LocalNow {
    LocalNow {
        minutes,
        weekday,
        month,
    }
}

fn at(nanos: u128) -> SystemTime {
    SystemTime { nanos: nanos as i128 }
}

#[test]
fn test_delay_to_next_boundary_aligns_to_wall_clock() {
    let period = Duration::from_secs(30);

    // 21:43:46.166875 past the epoch
    let offset = Duration::from_secs(21 * 3600 + 43 * 60 + 46).nanos
        + Duration::from_micros(166_875).nanos;
    let delay = delay_to_next_boundary(at(offset), period);
    assert_eq!(
        delay.nanos,
        Duration::from_secs(13).nanos + Duration::from_micros(833_125).nanos
    );

    // Landing exactly on a boundary must not wait a whole extra period.
    assert_eq!(
        delay_to_next_boundary(at(Duration::from_secs(60).nanos), period),
        Duration { nanos: 0 }
    );

    // Every result lands the next tick on a multiple of the period.
    for micros in [1u64, 999_999, 15_000_000, 29_999_999] {
        let now = Duration::from_secs(1_000_000).nanos + Duration::from_micros(micros).nanos;
        let delay = delay_to_next_boundary(at(now), period);
        assert!(delay.nanos < period.nanos);
        assert_eq!((now + delay.nanos) % period.nanos, 0);
    }
}

#[test]
fn test_delay_to_next_boundary_zero_period_does_not_panic() {
    assert_eq!(
        delay_to_next_boundary(at(Duration::from_secs(5).nanos), Duration { nanos: 0 }),
        Duration { nanos: 0 }
    );
}

#[test]
fn a_time_before_the_epoch_is_on_a_boundary() {
    let now = SystemTime { nanos: -5 };
    assert_eq!(delay_to_next_boundary(now, Duration::from_secs(30)).nanos, 0);
}

#[test]
fn a_wait_beyond_64_bits_is_dropped() {
    let period = Duration { nanos: 1u128 << 80 };
    assert_eq!(delay_to_next_boundary(at(1), period).nanos, 0);
    let fits = Duration { nanos: u64::MAX as u128 };
    assert_eq!(delay_to_next_boundary(at(1), fits).nanos, u64::MAX as u128 - 1);
}

#[test]
fn test_time_of_day_parse() {
    assert_eq!(TimeOfDay::from_hm_str("06:00").unwrap().as_minutes(), 360);
    assert_eq!(TimeOfDay::from_hm_str("23:59").unwrap().as_minutes(), 1439);
    assert_eq!(TimeOfDay::from_hm_str("00:00").unwrap().as_minutes(), 0);
    assert!(TimeOfDay::from_hm_str("24:00").is_err());
    assert!(TimeOfDay::from_hm_str("12:60").is_err());
    assert!(TimeOfDay::from_hm_str("noon").is_err());
}

#[test]
fn test_time_of_day_display() {
    assert_eq!(
        TimeOfDay::from_hm_str("06:00").unwrap().to_string(),
        "06:00"
    );
    assert_eq!(
        TimeOfDay::from_hm_str("23:59").unwrap().to_string(),
        "23:59"
    );
}

#[test]
fn test_time_window_normal_range() {
    let w = TimeWindow {
        after: Some(TimeOfDay::from_hm_str("09:00").unwrap()),
        before: Some(TimeOfDay::from_hm_str("17:00").unwrap()),
        days: vec![],
        months: vec![],
    };
    // 10:00 in range
    assert!(w.matches(&make_now(600, DayOfWeek::Mon, Month::Jan)));
    // 08:00 not in range
    assert!(!w.matches(&make_now(480, DayOfWeek::Mon, Month::Jan)));
    // 17:00 not in range (before is exclusive)
    assert!(!w.matches(&make_now(1020, DayOfWeek::Mon, Month::Jan)));
}

#[test]
fn test_time_window_midnight_crossover() {
    let w = TimeWindow {
        after: Some(TimeOfDay::from_hm_str("22:00").unwrap()),
        before: Some(TimeOfDay::from_hm_str("06:30").unwrap()),
        days: vec![],
        months: vec![],
    };
    // 23:20 in range
    assert!(w.matches(&make_now(23 * 60 + 20, DayOfWeek::Mon, Month::Jan)));
    // 02:00 in range
    assert!(w.matches(&make_now(120, DayOfWeek::Mon, Month::Jan)));
    // 12:00 not in range
    assert!(!w.matches(&make_now(720, DayOfWeek::Mon, Month::Jan)));
    // 06:30 not in range (exclusive)
    assert!(!w.matches(&make_now(390, DayOfWeek::Mon, Month::Jan)));
}

#[test]
fn test_time_window_day_filter() {
    let w = TimeWindow {
        after: Some(TimeOfDay::from_hm_str("08:00").unwrap()),
        before: Some(TimeOfDay::from_hm_str("17:00").unwrap()),
        days: vec![
            DayOfWeek::Mon,
            DayOfWeek::Tue,
            DayOfWeek::Wed,
            DayOfWeek::Thu,
            DayOfWeek::Fri,
        ],
        months: vec![],
    };
    // Weekday, in time range
    assert!(w.matches(&make_now(600, DayOfWeek::Wed, Month::Mar)));
    // Weekend, in time range
    assert!(!w.matches(&make_now(600, DayOfWeek::Sat, Month::Mar)));
}

#[test]
fn test_time_window_month_filter() {
    let w = TimeWindow {
        after: Some(TimeOfDay::from_hm_str("06:00").unwrap()),
        before: Some(TimeOfDay::from_hm_str("09:00").unwrap()),
        days: vec![],
        months: vec![Month::Oct, Month::Nov, Month::Dec, Month::Jan, Month::Feb],
    };
    // January, in time range
    assert!(w.matches(&make_now(420, DayOfWeek::Mon, Month::Jan)));
    // June, in time range
    assert!(!w.matches(&make_now(420, DayOfWeek::Mon, Month::Jun)));
}

#[test]
fn test_empty_window_matches_everything() {
    let w = TimeWindow {
        after: None,
        before: None,
        days: vec![],
        months: vec![],
    };
    assert!(w.matches(&make_now(0, DayOfWeek::Mon, Month::Jan)));
    assert!(w.matches(&make_now(1439, DayOfWeek::Sun, Month::Dec)));
}

#[test]
fn test_schedule_any() {
    let sched = Schedule::Any {
        any: vec![
            Schedule::Window(TimeWindow {
                after: Some(TimeOfDay::from_hm_str("22:00").unwrap()),
                before: Some(TimeOfDay::from_hm_str("06:00").unwrap()),
                days: vec![
                    DayOfWeek::Mon,
                    DayOfWeek::Tue,
                    DayOfWeek::Wed,
                    DayOfWeek::Thu,
                    DayOfWeek::Fri,
                ],
                months: vec![],
            }),
            Schedule::Window(TimeWindow {
                after: Some(TimeOfDay::from_hm_str("20:00").unwrap()),
                before: Some(TimeOfDay::from_hm_str("08:00").unwrap()),
                days: vec![DayOfWeek::Sat, DayOfWeek::Sun],
                months: vec![],
            }),
        ],
    };
    // Friday 23:00 — matches first
    assert!(sched.matches(&make_now(23 * 60, DayOfWeek::Fri, Month::Mar)));
    // Saturday 21:00 — matches second
    assert!(sched.matches(&make_now(21 * 60, DayOfWeek::Sat, Month::Mar)));
    // Wednesday 15:00 — matches neither
    assert!(!sched.matches(&make_now(15 * 60, DayOfWeek::Wed, Month::Mar)));
}

#[test]
fn test_schedule_all() {
    let sched = Schedule::All {
        all: vec![
            Schedule::Window(TimeWindow {
                after: Some(TimeOfDay::from_hm_str("08:00").unwrap()),
                before: Some(TimeOfDay::from_hm_str("17:00").unwrap()),
                days: vec![],
                months: vec![],
            }),
            Schedule::Window(TimeWindow {
                after: None,
                before: None,
                days: vec![DayOfWeek::Mon, DayOfWeek::Wed, DayOfWeek::Fri],
                months: vec![],
            }),
        ],
    };
    // Monday 10:00 — both match
    assert!(sched.matches(&make_now(600, DayOfWeek::Mon, Month::Jan)));
    // Tuesday 10:00 — time matches but day doesn't
    assert!(!sched.matches(&make_now(600, DayOfWeek::Tue, Month::Jan)));
}

#[test]
fn test_schedule_not() {
    let sched = Schedule::Not {
        not: Box::new(Schedule::Window(TimeWindow {
            after: Some(TimeOfDay::from_hm_str("23:00").unwrap()),
            before: Some(TimeOfDay::from_hm_str("06:00").unwrap()),
            days: vec![],
            months: vec![],
        })),
    };
    // 12:00 — NOT in 23:00-06:00, so matches
    assert!(sched.matches(&make_now(720, DayOfWeek::Mon, Month::Jan)));
    // 02:00 — in 23:00-06:00, so NOT matches
    assert!(!sched.matches(&make_now(120, DayOfWeek::Mon, Month::Jan)));
}

#[test]
fn test_only_after() {
    let w = TimeWindow {
        after: Some(TimeOfDay::from_hm_str("20:00").unwrap()),
        before: None,
        days: vec![],
        months: vec![],
    };
    assert!(w.matches(&make_now(21 * 60, DayOfWeek::Mon, Month::Jan)));
    assert!(!w.matches(&make_now(19 * 60, DayOfWeek::Mon, Month::Jan)));
}

#[test]
fn test_only_before() {
    let w = TimeWindow {
        after: None,
        before: Some(TimeOfDay::from_hm_str("08:00").unwrap()),
        days: vec![],
        months: vec![],
    };
    assert!(w.matches(&make_now(7 * 60, DayOfWeek::Mon, Month::Jan)));
    assert!(!w.matches(&make_now(9 * 60, DayOfWeek::Mon, Month::Jan)));
}

#[test]
fn test_validate_schedule() {
    let sched = Schedule::Window(TimeWindow {
        after: Some(TimeOfDay::from_hm_str("22:00").unwrap()),
        before: Some(TimeOfDay::from_hm_str("06:00").unwrap()),
        days: vec![],
        months: vec![],
    });
    assert!(validate_schedule(&sched, "test").is_ok());

    let empty_all = Schedule::All { all: vec![] };
    assert!(validate_schedule(&empty_all, "test").is_err());
}

#[test]
fn times_of_day_round_trip() {
    for minutes in 0..1440u32 {
        let text = format!("{:02}:{:02}", minutes / 60, minutes % 60);
        let time = TimeOfDay::from_hm_str(&text).unwrap();
        assert_eq!(time.as_minutes() as u32, minutes);
        assert_eq!(time.to_string(), text);
    }
}

#[test]
fn times_are_read_like_numbers() {
    assert_eq!(TimeOfDay::from_hm_str("+6:5").unwrap().as_minutes(), 365);
    assert_eq!("7:00".parse::<TimeOfDay>().unwrap().as_minutes(), 420);
}

#[test]
fn every_time_problem_is_told() {
    let e = TimeOfDay::from_hm_str("12:00:00").unwrap_err();
    assert_eq!(e.problem, TimeProblem::Format);
    assert_eq!(e.message(), "Invalid time '12:00:00': expected HH:MM format");
    let e = TimeOfDay::from_hm_str("x:00").unwrap_err();
    assert_eq!(e.problem, TimeProblem::Hour);
    assert_eq!(e.message(), "Invalid hour in time 'x:00'");
    let e = TimeOfDay::from_hm_str("12:").unwrap_err();
    assert_eq!(e.problem, TimeProblem::Minute);
    assert_eq!(e.message(), "Invalid minute in time '12:'");
    let e = TimeOfDay::from_hm_str("24:00").unwrap_err();
    assert_eq!(e.problem, TimeProblem::Range);
    assert_eq!(e.message(), "Invalid time '24:00': hour must be 0-23, minute 0-59");
    // An hour that does not fit in 16 bits cannot be read.
    let e = TimeOfDay::from_hm_str("65536:00").unwrap_err();
    assert_eq!(e.problem, TimeProblem::Hour);
}

fn window(after: &str, before: &str) -> Schedule {
    Schedule::Window(TimeWindow {
        after: Some(TimeOfDay::from_hm_str(after).unwrap()),
        before: Some(TimeOfDay::from_hm_str(before).unwrap()),
        days: vec![],
        months: vec![],
    })
}

fn not(schedule: Schedule) -> Schedule {
    Schedule::Not { not: Box::new(schedule) }
}

#[test]
fn inverting_twice_changes_nothing() {
    for minutes in [0u16, 359, 360, 1379, 1380] {
        let now = make_now(minutes, DayOfWeek::Mon, Month::Jan);
        assert_eq!(
            not(not(window("23:00", "06:00"))).matches(&now),
            window("23:00", "06:00").matches(&now)
        );
    }
}

#[test]
fn none_of_several_is_all_inverted() {
    for minutes in [0u16, 400, 700, 1000, 1400] {
        let now = make_now(minutes, DayOfWeek::Mon, Month::Jan);
        let none = not(Schedule::Any { any: vec![window("06:00", "08:00"), window("16:00", "20:00")] });
        let all = Schedule::All {
            all: vec![not(window("06:00", "08:00")), not(window("16:00", "20:00"))],
        };
        assert_eq!(none.matches(&now), all.matches(&now));
    }
}

#[test]
fn not_all_of_several_is_one_inverted() {
    for minutes in [0u16, 400, 700, 1000, 1400] {
        let now = make_now(minutes, DayOfWeek::Mon, Month::Jan);
        let not_all =
            not(Schedule::All { all: vec![window("06:00", "12:00"), window("07:00", "20:00")] });
        let any = Schedule::Any {
            any: vec![not(window("06:00", "12:00")), not(window("07:00", "20:00"))],
        };
        assert_eq!(not_all.matches(&now), any.matches(&now));
    }
}

#[test]
fn swapped_windows_split_the_day() {
    for minutes in 0..1440u16 {
        let now = make_now(minutes, DayOfWeek::Mon, Month::Jan);
        assert!(window("22:00", "06:30").matches(&now) != window("06:30", "22:00").matches(&now));
    }
}

#[test]
fn empty_composites_are_told_with_their_path() {
    let nested = Schedule::All {
        all: vec![
            window("06:00", "08:00"),
            not(Schedule::Any { any: vec![window("06:00", "08:00"), Schedule::Any { any: vec![] }] }),
        ],
    };
    let e = validate_schedule(&nested, "rooms.a.motion_schedule").unwrap_err();
    assert_eq!(
        e.message(),
        "Empty 'any' schedule in rooms.a.motion_schedule.all[1].not.any[1]"
    );
    let e = validate_schedule(&Schedule::All { all: vec![] }, "x").unwrap_err();
    assert_eq!(e.message(), "Empty 'all' schedule in x");
}

#[test]
fn local_time_is_that_of_the_zone() {
    // 2024-07-01 12:34:56 UTC, a Monday
    let seconds = 1_719_837_296;
    let utc = LocalNow::at(seconds, "UTC");
    assert_eq!(utc, make_now(12 * 60 + 34, DayOfWeek::Mon, Month::Jul));
    let london = LocalNow::at(seconds, "Europe/London");
    assert_eq!(london, make_now(13 * 60 + 34, DayOfWeek::Mon, Month::Jul));
    let auckland = LocalNow::at(seconds, "Pacific/Auckland");
    assert_eq!(auckland, make_now(34, DayOfWeek::Tue, Month::Jul));
    // 2023-12-31 23:59:59 UTC, a Sunday
    let utc = LocalNow::at(1_704_067_199, "UTC");
    assert_eq!(utc, make_now(1439, DayOfWeek::Sun, Month::Dec));
}

#[test]
fn an_unknown_zone_counts_as_utc() {
    let seconds = 1_719_837_296;
    assert_eq!(LocalNow::at(seconds, "Nowhere/Land"), LocalNow::at(seconds, "UTC"));
}

#[test]
fn the_present_has_a_local_time() {
    assert!(LocalNow::now("Europe/London").minutes < 1440);
}

#[test]
fn every_month_and_day_has_its_number() {
    let days = [
        DayOfWeek::Mon,
        DayOfWeek::Tue,
        DayOfWeek::Wed,
        DayOfWeek::Thu,
        DayOfWeek::Fri,
        DayOfWeek::Sat,
        DayOfWeek::Sun,
    ];
    for (i, day) in days.iter().enumerate() {
        assert_eq!(DayOfWeek::from_days_from_monday(i as u32), *day);
    }
    assert_eq!(Month::from_chrono_month(1), Month::Jan);
    assert_eq!(Month::from_chrono_month(2), Month::Feb);
    assert_eq!(Month::from_chrono_month(12), Month::Dec);
    assert_eq!(Month::from_chrono_month(13), Month::Jan);
}
