use tzfile::civil::{
    civil_fields_valid, day_of_instant, day_of_week, leap_year, month_length, month_start,
    nth_weekday, seconds_from_civil, year_of_day, year_start,
};

#[test]
fn leap_years_follow_the_gregorian_rule() {
    for (year, leap) in [
        (1600, true),
        (1700, false),
        (1900, false),
        (1996, true),
        (2000, true),
        (2023, false),
        (2024, true),
        (2100, false),
        (2400, true),
        (0, true),
        (-1, false),
        (-4, true),
        (-100, false),
        (-400, true),
        (400_000_000_000, true),
        (-399_999_999_999, false),
    ] {
        assert_eq!(leap_year(year), leap, "{year}");
    }
}

#[test]
fn years_begin_on_the_days_that_the_calendar_gives() {
    assert_eq!(year_start(1970), 0);
    assert_eq!(year_start(1971), 365);
    assert_eq!(year_start(1969), -365);
    assert_eq!(year_start(2000), 10_957);
    assert_eq!(year_start(1900), -25_567);
    assert_eq!(year_start(1), -719_162);
    assert_eq!(year_start(0), -719_528);
    assert_eq!(year_start(-1), -719_893);
}

#[test]
fn months_begin_and_end_on_the_days_that_the_calendar_gives() {
    assert_eq!(month_start(2024, 2), 19_782 - 28);
    assert_eq!(month_start(2024, 3), 19_783);
    assert_eq!(month_start(2100, 3), 47_541);
    assert_eq!(month_start(1970, 12), 334);
    let lengths: Vec<u8> = (1..=12).map(|m| month_length(2023, m)).collect();
    assert_eq!(lengths, vec![31, 28, 31, 30, 31, 30, 31, 31, 30, 31, 30, 31]);
    assert_eq!(month_length(2024, 2), 29);
    assert_eq!(month_length(1900, 2), 28);
    assert_eq!(month_length(2000, 2), 29);
}

#[test]
fn days_of_the_week_count_from_sunday() {
    assert_eq!(day_of_week(0), 4);
    assert_eq!(day_of_week(3), 0);
    assert_eq!(day_of_week(-1), 3);
    assert_eq!(day_of_week(-4), 0);
    assert_eq!(day_of_week(20_177), 0);
    assert_eq!(day_of_week(-719_162), 1);
}

#[test]
fn the_nth_weekday_of_a_month() {
    // March 2025 begins on a Saturday.
    assert_eq!(nth_weekday(2025, 3, 1, 6), 20_148);
    assert_eq!(nth_weekday(2025, 3, 1, 0), 20_149);
    assert_eq!(nth_weekday(2025, 3, 2, 0), 20_156);
    assert_eq!(nth_weekday(2025, 3, 5, 0), 20_177);
    assert_eq!(nth_weekday(2025, 3, 5, 6), 20_176);
    assert_eq!(nth_weekday(2025, 3, 5, 1), 20_178);
    // February 2026 has four of every day: the fifth is the fourth.
    assert_eq!(nth_weekday(2026, 2, 5, 0), nth_weekday(2026, 2, 4, 0));
}

#[test]
fn every_day_lies_in_its_year() {
    for (day, year) in [
        (0, 1970),
        (364, 1970),
        (365, 1971),
        (-1, 1969),
        (-365, 1969),
        (-366, 1968),
        (10_957, 2000),
        (10_956, 1999),
        (-719_162, 1),
        (-719_163, 0),
        (106_751_991_167_300, 292_277_026_596),
        (-106_751_991_167_301, -292_277_022_657),
    ] {
        assert_eq!(year_of_day(day), year, "{day}");
        assert!(year_start(year) <= day && day < year_start(year + 1));
    }
}

#[test]
fn every_instant_lies_on_its_day() {
    assert_eq!(day_of_instant(0), 0);
    assert_eq!(day_of_instant(86_399), 0);
    assert_eq!(day_of_instant(86_400), 1);
    assert_eq!(day_of_instant(-1), -1);
    assert_eq!(day_of_instant(-86_400), -1);
    assert_eq!(day_of_instant(-86_401), -2);
    assert_eq!(day_of_instant(i64::MAX), 106_751_991_167_300);
    assert_eq!(day_of_instant(i64::MIN), -106_751_991_167_301);
}

#[test]
fn dates_and_times_count_seconds_from_the_epoch() {
    assert_eq!(seconds_from_civil(1970, 1, 1, 0, 0, 0), 0);
    assert_eq!(seconds_from_civil(1969, 12, 31, 23, 59, 59), -1);
    assert_eq!(seconds_from_civil(2000, 3, 1, 0, 0, 0), 951_868_800);
    assert_eq!(seconds_from_civil(1600, 1, 1, 0, 0, 0), -11_676_096_000);
    assert_eq!(seconds_from_civil(2400, 2, 29, 12, 30, 45), 13_574_608_245);
    assert_eq!(seconds_from_civil(1, 1, 1, 0, 0, 0), -62_135_596_800);
    assert_eq!(seconds_from_civil(9999, 12, 31, 23, 59, 59), 253_402_300_799);
    assert_eq!(seconds_from_civil(1914, 1, 1, 13, 40, 28), -1_767_176_372);
}

#[test]
fn fields_that_name_no_date_or_time_are_told_apart() {
    assert!(civil_fields_valid(2024, 2, 29, 23, 59, 59));
    assert!(civil_fields_valid(-5, 12, 31, 0, 0, 0));
    assert!(!civil_fields_valid(2023, 2, 29, 0, 0, 0));
    assert!(!civil_fields_valid(2023, 0, 1, 0, 0, 0));
    assert!(!civil_fields_valid(2023, 13, 1, 0, 0, 0));
    assert!(!civil_fields_valid(2023, 4, 31, 0, 0, 0));
    assert!(!civil_fields_valid(2023, 4, 0, 0, 0, 0));
    assert!(!civil_fields_valid(2023, 4, 1, 24, 0, 0));
    assert!(!civil_fields_valid(2023, 4, 1, 0, 60, 0));
    assert!(!civil_fields_valid(2023, 4, 1, 0, 0, 60));
}
