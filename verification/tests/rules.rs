use tzfile::recurrence::{change_instant_of, date_day_of, latest_change};
use tzfile::{parse_rule, DateKind, Error, RecurrenceRule, TransitionDate};

fn month_week_day(month: u8, week: u8, weekday: u8, time: i32) -> TransitionDate {
    TransitionDate { date: DateKind::MonthWeekDay { month, week, weekday }, time }
}

fn daylight(rule: &RecurrenceRule) -> (&[u8], i32, TransitionDate, TransitionDate) {
    let d = rule.daylight.as_ref().unwrap();
    (&d.designation, d.utc_offset, d.start, d.end)
}

#[test]
fn a_fixed_offset_has_no_daylight_half() {
    for (text, name, offset) in [
        (&b"UTC0"[..], &b"UTC"[..], 0),
        (b"JST-9", b"JST", 32_400),
        (b"HST10", b"HST", -36_000),
        (b"EST+5", b"EST", -18_000),
        (b"IST-5:30", b"IST", 19_800),
        (b"<+0545>-5:45", b"+0545", 20_700),
        (b"<-03>3", b"-03", -10_800),
        (b"<+13>-13", b"+13", 46_800),
        (b"LMT-0:19:32", b"LMT", 1_172),
        (b"Long5:6:7", b"Long", -18_367),
        (b"ABC24:59:59", b"ABC", -89_999),
        (b"ABC-24:59:59", b"ABC", 89_999),
        (b"<a>05", b"a", -18_000),
        (b"<x y,z/1>1", b"x y,z/1", -3_600),
    ] {
        let rule = parse_rule(text).unwrap();
        assert_eq!(rule.std_designation, name);
        assert_eq!(rule.std_offset, offset);
        assert!(rule.daylight.is_none());
    }
}

#[test]
fn offsets_in_the_text_count_west_and_come_out_east() {
    let rule = parse_rule(b"EST5EDT,M3.2.0,M11.1.0").unwrap();
    assert_eq!(rule.std_designation, b"EST");
    assert_eq!(rule.std_offset, -18_000);
    assert_eq!(
        daylight(&rule),
        (
            &b"EDT"[..],
            -14_400,
            month_week_day(3, 2, 0, 7_200),
            month_week_day(11, 1, 0, 7_200)
        )
    );
}

#[test]
fn times_default_to_two_and_may_be_given() {
    let rule = parse_rule(b"CET-1CEST,M3.5.0,M10.5.0/3").unwrap();
    assert_eq!(rule.std_offset, 3_600);
    assert_eq!(
        daylight(&rule),
        (
            &b"CEST"[..],
            7_200,
            month_week_day(3, 5, 0, 7_200),
            month_week_day(10, 5, 0, 10_800)
        )
    );
    let rule = parse_rule(b"<-02>2<-01>,M3.5.0/-1,M10.5.0/0").unwrap();
    assert_eq!(rule.std_designation, b"-02");
    assert_eq!(rule.std_offset, -7_200);
    assert_eq!(
        daylight(&rule),
        (&b"-01"[..], -3_600, month_week_day(3, 5, 0, -3_600), month_week_day(10, 5, 0, 0))
    );
    let rule = parse_rule(b"IST-2IDT,M3.4.4/26,M10.5.0").unwrap();
    assert_eq!(
        daylight(&rule),
        (
            &b"IDT"[..],
            10_800,
            month_week_day(3, 4, 4, 93_600),
            month_week_day(10, 5, 0, 7_200)
        )
    );
    let rule = parse_rule(b"EET-2EEST,M3.4.4/50,M10.4.4/50").unwrap();
    assert_eq!(daylight(&rule).2.time, 180_000);
    let rule = parse_rule(b"XXX3YYY,M1.1.1/167:59:59,M2.1.1/-167:59:59").unwrap();
    assert_eq!(daylight(&rule).2.time, 604_799);
    assert_eq!(daylight(&rule).3.time, -604_799);
    let rule = parse_rule(b"XXX3YYY,M1.1.1/+1:2,M2.1.1/1:02:03").unwrap();
    assert_eq!(daylight(&rule).2.time, 3_720);
    assert_eq!(daylight(&rule).3.time, 3_723);
}

#[test]
fn a_daylight_offset_of_its_own_replaces_the_hour() {
    let rule = parse_rule(b"<+1030>-10:30<+11>-11,M10.1.0,M4.1.0").unwrap();
    assert_eq!(rule.std_offset, 37_800);
    assert_eq!(
        daylight(&rule),
        (
            &b"+11"[..],
            39_600,
            month_week_day(10, 1, 0, 7_200),
            month_week_day(4, 1, 0, 7_200)
        )
    );
    let rule = parse_rule(b"IST-1GMT0,M10.5.0,M3.5.0/1").unwrap();
    assert_eq!(rule.std_offset, 3_600);
    assert_eq!(daylight(&rule).1, 0);
    assert_eq!(daylight(&rule).0, b"GMT");
    let rule = parse_rule(b"<+00>0<+02>-2,M3.5.0/1,M10.5.0/3").unwrap();
    assert_eq!((rule.std_offset, daylight(&rule).1), (0, 7_200));
}

#[test]
fn the_three_kinds_of_date() {
    let rule = parse_rule(b"AAA1BBB,J60/1:30:15,300/24").unwrap();
    let (_, _, start, end) = daylight(&rule);
    assert_eq!(start, TransitionDate { date: DateKind::Julian { day: 60 }, time: 5_415 });
    assert_eq!(end, TransitionDate { date: DateKind::ZeroBased { day: 300 }, time: 86_400 });
    let rule = parse_rule(b"AAA1BBB,J1,J365").unwrap();
    let (_, _, start, end) = daylight(&rule);
    assert_eq!(start.date, DateKind::Julian { day: 1 });
    assert_eq!(end.date, DateKind::Julian { day: 365 });
    let rule = parse_rule(b"AAA1BBB,0,365").unwrap();
    let (_, _, start, end) = daylight(&rule);
    assert_eq!(start.date, DateKind::ZeroBased { day: 0 });
    assert_eq!(end.date, DateKind::ZeroBased { day: 365 });
    let rule = parse_rule(b"AAA1BBB,M1.1.0,M12.5.6").unwrap();
    let (_, _, start, end) = daylight(&rule);
    assert_eq!(start.date, DateKind::MonthWeekDay { month: 1, week: 1, weekday: 0 });
    assert_eq!(end.date, DateKind::MonthWeekDay { month: 12, week: 5, weekday: 6 });
}

#[test]
fn texts_outside_the_grammar_are_malformed() {
    for text in [
        &b""[..],
        b"EST",
        b"ES5",
        b"5",
        b"EST5EDT",
        b"EST5EDT4",
        b"EST5EDT,",
        b"EST5EDT,M3.2.0",
        b"EST5EDT,M3.2.0,",
        b"EST5EDT,M3.2.0,M11.1.0,",
        b"EST5EDT,M3.2.0,M11.1.0 ",
        b"EST5EDT,M3.2.0,M11.1.0/",
        b"EST5EDT M3.2.0,M11.1.0",
        b"EST5EDT,M0.2.0,M11.1.0",
        b"EST5EDT,M13.2.0,M11.1.0",
        b"EST5EDT,M3.0.0,M11.1.0",
        b"EST5EDT,M3.6.0,M11.1.0",
        b"EST5EDT,M3.2.7,M11.1.0",
        b"EST5EDT,M3.2,M11.1.0",
        b"EST5EDT,M3-2-0,M11.1.0",
        b"EST5EDT,M003.2.0,M11.1.0",
        b"EST5EDT,M3.2.0,M11.1.00",
        b"EST5EDT,J0,J365",
        b"EST5EDT,J1,J366",
        b"EST5EDT,0,366",
        b"EST5EDT,0,1000",
        b"EST5EDT,J,J365",
        b"EST5EDT,M3.2.0/168,M11.1.0",
        b"EST5EDT,M3.2.0/2:60,M11.1.0",
        b"EST5EDT,M3.2.0/2:00:60,M11.1.0",
        b"EST25",
        b"EST5:60",
        b"EST5:00:60",
        b"EST5:",
        b"EST5:0:",
        b"EST5:000",
        b"EST0005",
        b"EST++5",
        b"EST-",
        b"EST5x",
        b" EST5",
        b"EST 5",
        b"<+01-1",
        b"<>1",
        b"<+01>",
        b"+01-1",
        b"E5T5",
    ] {
        assert_eq!(
            parse_rule(text).unwrap_err(),
            Error::MalformedRecurrenceRule,
            "{}",
            String::from_utf8_lossy(text)
        );
    }
}

#[test]
fn dates_fall_on_the_days_that_the_calendar_gives() {
    // 2025-03-30 and 2025-10-26 are the last Sundays of their months.
    assert_eq!(date_day_of(DateKind::MonthWeekDay { month: 3, week: 5, weekday: 0 }, 2025), 20_177);
    assert_eq!(
        date_day_of(DateKind::MonthWeekDay { month: 10, week: 5, weekday: 0 }, 2025),
        20_387
    );
    // 2024-02-29 is day 59 counted from zero; J59 is the 28th and J60 the
    // first of March, in leap years too.
    assert_eq!(date_day_of(DateKind::ZeroBased { day: 59 }, 2024), 19_782);
    assert_eq!(date_day_of(DateKind::Julian { day: 59 }, 2024), 19_781);
    assert_eq!(date_day_of(DateKind::Julian { day: 60 }, 2024), 19_783);
    assert_eq!(date_day_of(DateKind::Julian { day: 60 }, 2025), 20_148);
    assert_eq!(date_day_of(DateKind::ZeroBased { day: 59 }, 2025), 20_148);
    assert_eq!(date_day_of(DateKind::Julian { day: 1 }, 1970), 0);
    assert_eq!(date_day_of(DateKind::ZeroBased { day: 0 }, 1970), 0);
    assert_eq!(date_day_of(DateKind::Julian { day: 365 }, 1970), 364);
    assert_eq!(date_day_of(DateKind::ZeroBased { day: 365 }, 1970), 365);
}

#[test]
fn changes_fall_on_the_instants_that_the_rule_gives() {
    let rule = parse_rule(b"EST5EDT,M3.2.0,M11.1.0").unwrap();
    let d = rule.daylight.as_ref().unwrap();
    // 2030-03-10T07:00:00Z and 2030-11-03T06:00:00Z.
    assert_eq!(change_instant_of(&d.start, rule.std_offset, 2030), 1_899_356_400);
    assert_eq!(change_instant_of(&d.end, d.utc_offset, 2030), 1_919_916_000);
    assert_eq!(change_instant_of(&d.start, rule.std_offset, 2400), 13_575_625_200);
    assert_eq!(latest_change(&d.start, rule.std_offset, 1_899_356_400), 1_899_356_400);
    assert_eq!(latest_change(&d.start, rule.std_offset, 1_899_356_399), 1_867_906_800);
    assert_eq!(latest_change(&d.end, d.utc_offset, 1_899_356_400), 1_888_466_400);
    assert_eq!(latest_change(&d.end, d.utc_offset, 1_930_805_999), 1_919_916_000);
}

#[test]
fn daylight_time_is_in_force_between_its_beginning_and_its_end() {
    let rule = parse_rule(b"EST5EDT,M3.2.0,M11.1.0").unwrap();
    for (instant, expected) in [
        (1_899_356_399, false),
        (1_899_356_400, true),
        (1_919_915_999, true),
        (1_919_916_000, false),
        (7_258_161_600, false),
        (7_273_800_000, true),
    ] {
        assert_eq!(rule.daylight_in_force_at(instant), expected, "{instant}");
        let r = rule.resolve(instant);
        if expected {
            assert_eq!((r.utc_offset, r.is_dst, r.designation), (-14_400, true, &b"EDT"[..]));
        } else {
            assert_eq!((r.utc_offset, r.is_dst, r.designation), (-18_000, false, &b"EST"[..]));
        }
    }
}

#[test]
fn daylight_time_spans_the_new_year_south_of_the_equator() {
    let rule = parse_rule(b"AEST-10AEDT,M10.1.0,M4.1.0/3").unwrap();
    // 2030-04-06T16:00:00Z ends it, 2030-10-05T16:00:00Z begins it.
    for (instant, expected) in [
        (1_893_456_000, true),
        (1_901_721_599, true),
        (1_901_721_600, false),
        (1_917_446_399, false),
        (1_917_446_400, true),
        (1_924_991_999, true),
        (1_924_992_000, true),
    ] {
        assert_eq!(rule.daylight_in_force_at(instant), expected, "{instant}");
    }
}

#[test]
fn a_rule_answers_at_the_ends_of_the_time_line() {
    let rule = parse_rule(b"CET-1CEST,M3.5.0,M10.5.0/3").unwrap();
    assert!(!rule.daylight_in_force_at(i64::MIN));
    assert!(!rule.daylight_in_force_at(i64::MAX));
    assert_eq!(rule.resolve(i64::MAX).utc_offset, 3_600);
    let fixed = parse_rule(b"UTC0").unwrap();
    assert!(!fixed.daylight_in_force_at(0));
    assert_eq!(fixed.resolve(i64::MIN).designation, b"UTC");
}

#[test]
fn daylight_time_all_year_round_has_no_standard_second() {
    // Begins at the start of the year on the standard clock and ends an
    // hour into the next year on the daylight clock: the same instant.
    let rule = parse_rule(b"XXX5YYY,0/0,J365/25").unwrap();
    for instant in [0, 18_000 - 1, 18_000, 31_554_000 - 1, 31_554_000, 1_900_000_000] {
        assert!(rule.daylight_in_force_at(instant), "{instant}");
    }
}

#[test]
fn rules_that_were_read_are_well_formed_and_others_are_told_apart() {
    let rule = parse_rule(b"EST5EDT,M3.2.0,M11.1.0").unwrap();
    assert!(rule.well_formed());
    assert_eq!(rule.duplicate(), rule);
    let mut wide = rule.duplicate();
    wide.std_offset = 93_600;
    assert!(!wide.well_formed());
    wide.std_offset = -93_599;
    assert!(wide.well_formed());
    let mut odd = rule.duplicate();
    odd.daylight.as_mut().unwrap().start.date = DateKind::MonthWeekDay { month: 13, week: 1, weekday: 0 };
    assert!(!odd.well_formed());
    let mut late = rule.duplicate();
    late.daylight.as_mut().unwrap().end.time = 604_800;
    assert!(!late.well_formed());
    assert!(DateKind::Julian { day: 365 }.well_formed());
    assert!(!DateKind::Julian { day: 0 }.well_formed());
    assert!(!DateKind::Julian { day: 366 }.well_formed());
    assert!(DateKind::ZeroBased { day: 0 }.well_formed());
    assert!(!DateKind::ZeroBased { day: 366 }.well_formed());
    assert!(!DateKind::MonthWeekDay { month: 1, week: 0, weekday: 0 }.well_formed());
    assert!(!DateKind::MonthWeekDay { month: 1, week: 6, weekday: 0 }.well_formed());
    assert!(!DateKind::MonthWeekDay { month: 1, week: 1, weekday: 7 }.well_formed());
    assert!(TransitionDate { date: DateKind::ZeroBased { day: 1 }, time: -604_799 }.well_formed());
    assert!(!TransitionDate { date: DateKind::ZeroBased { day: 1 }, time: -604_800 }.well_formed());
}
