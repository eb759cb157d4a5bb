//! The proleptic Gregorian calendar, counted in days from 1970-01-01.
//!
//! A day is an integer: day 0 is 1970-01-01, day -1 the day before. The
//! functions here turn calendar dates into such numbers and find the year
//! that a day lies in, for every day that an `i64` count of seconds can reach.

use vstd::prelude::*;

verus! {

/// Every instant that an `i64` holds lies on a day between `-DAY_LIMIT` and
/// `DAY_LIMIT`.
pub const DAY_LIMIT: i64 = 106_751_991_167_301;

/// The years that the executable functions accept lie between `-YEAR_LIMIT`
/// and `YEAR_LIMIT`; the days of such a year fit an `i64` with room to spare.
pub const YEAR_LIMIT: i64 = 400_000_000_000;

/// Whether `y` has a 29th of February.
pub open spec fn is_leap_year(y: int) -> bool {
    (y % 4 == 0 && y % 100 != 0) || y % 400 == 0
}

/// The number of days of year `y`.
pub open spec fn days_in_year(y: int) -> int {
    if is_leap_year(y) {
        366
    } else {
        365
    }
}

/// How many of the years up to and including `y` are leap years, counted
/// from a fixed year far enough back; only differences of it are used.
pub open spec fn leap_years_through(y: int) -> int {
    y / 4 - y / 100 + y / 400
}

/// The day number of the first of January of year `y`.
pub open spec fn days_before_year(y: int) -> int {
    365 * (y - 1970) + leap_years_through(y - 1) - 477
}

/// The days of the year that lie before the first of month `m`.
pub open spec fn days_before_month(m: int, leap: bool) -> int {
    let extra: int = if leap && m > 2 {
        1
    } else {
        0
    };
    let common: int = if m <= 1 {
        0
    } else if m == 2 {
        31
    } else if m == 3 {
        59
    } else if m == 4 {
        90
    } else if m == 5 {
        120
    } else if m == 6 {
        151
    } else if m == 7 {
        181
    } else if m == 8 {
        212
    } else if m == 9 {
        243
    } else if m == 10 {
        273
    } else if m == 11 {
        304
    } else {
        334
    };
    common + extra
}

/// The number of days of month `m`.
pub open spec fn days_in_month(m: int, leap: bool) -> int {
    if m == 2 {
        if leap {
            29
        } else {
            28
        }
    } else if m == 4 || m == 6 || m == 9 || m == 11 {
        30
    } else {
        31
    }
}

/// The day number of the date `y`-`m`-`d`.
pub open spec fn days_from_civil(y: int, m: int, d: int) -> int {
    days_before_year(y) + days_before_month(m, is_leap_year(y)) + d - 1
}

/// The day of the week of a day, 0 for Sunday up to 6 for Saturday.
pub open spec fn weekday(day: int) -> int {
    (day + 4) % 7
}

/// The day number of the `week`-th `wd` of month `m` in year `y`, where a
/// fifth that the month lacks stands for the last one it has.
pub open spec fn nth_weekday_of_month(y: int, m: int, week: int, wd: int) -> int {
    let first = days_from_civil(y, m, 1);
    let day = first + (wd - weekday(first)) % 7 + 7 * (week - 1);
    if day >= first + days_in_month(m, is_leap_year(y)) {
        day - 7
    } else {
        day
    }
}

/// The count of seconds from 1970-01-01T00:00:00 to the given date and time
/// of day, on a time line without offsets.
pub open spec fn civil_seconds(y: int, m: int, d: int, hour: int, minute: int, second: int) -> int {
    days_from_civil(y, m, d) * 86400 + hour * 3600 + minute * 60 + second
}

/// Whether the fields name a date of the calendar and a time of day.
pub open spec fn is_civil(y: int, m: int, d: int, hour: int, minute: int, second: int) -> bool {
    &&& 1 <= m <= 12
    &&& 1 <= d <= days_in_month(m, is_leap_year(y))
    &&& 0 <= hour < 24
    &&& 0 <= minute < 60
    &&& 0 <= second < 60
}

/// A year begins as many days after the one before it as that one has:
/// with day 0 for 1970, this fixes the first day of every year.
pub proof fn lemma_year_length(y: int)
    ensures
        days_before_year(y + 1) == days_before_year(y) + days_in_year(y),
        days_before_year(1970) == 0,
{
}

/// Between two years lie at least 365 and at most 366 days for each year.
pub proof fn lemma_year_span(a: int, b: int)
    requires
        a <= b,
    ensures
        365 * (b - a) <= days_before_year(b) - days_before_year(a) <= 366 * (b - a),
    decreases b - a,
{
    if a < b {
        lemma_year_span(a, b - 1);
        lemma_year_length(b - 1);
    }
}

/// How far the first day of a year lies from day 0, within a day per year.
pub proof fn lemma_year_start_bounds(y: int)
    ensures
        y >= 1970 ==> 365 * (y - 1970) <= days_before_year(y) <= 366 * (y - 1970),
        y <= 1970 ==> 366 * (y - 1970) <= days_before_year(y) <= 365 * (y - 1970),
{
    if y >= 1970 {
        lemma_year_span(1970, y);
    } else {
        lemma_year_span(y, 1970);
    }
}

/// The first days of the years ascend with the years.
pub proof fn lemma_year_start_ascends(a: int, b: int)
    ensures
        a < b ==> days_before_year(a) < days_before_year(b),
        a <= b ==> days_before_year(a) <= days_before_year(b),
{
    if a <= b {
        lemma_year_span(a, b);
    }
}

/// A day lies in one year only.
pub proof fn lemma_year_of_day_unique(day: int, a: int, b: int)
    requires
        days_before_year(a) <= day < days_before_year(a + 1),
        days_before_year(b) <= day < days_before_year(b + 1),
    ensures
        a == b,
{
    lemma_year_start_ascends(a + 1, b);
    lemma_year_start_ascends(b + 1, a);
}

/// Moving from `first` forward to the next day that is a `wd` takes fewer
/// than seven days, and whole weeks after it are the same day of the week.
proof fn lemma_weekday_shift(first: int, wd: int, weeks: int)
    requires
        0 <= wd <= 6,
    ensures
        0 <= (wd - weekday(first)) % 7 < 7,
        weekday(first + (wd - weekday(first)) % 7 + 7 * weeks) == wd,
{
    let a = (first + 4) % 7;
    let s = (wd - a) % 7;
    assert(first + 4 == 7 * ((first + 4) / 7) + a);
    assert(wd - a == 7 * ((wd - a) / 7) + s);
    let q = (first + 4) / 7 + weeks - (wd - a) / 7;
    assert(first + s + 7 * weeks + 4 == 7 * q + wd);
    assert((7 * q + wd) % 7 == wd) by {
        vstd::arithmetic::div_mod::lemma_fundamental_div_mod_converse(7 * q + wd, 7, q, wd);
    }
}

/// The `week`-th `wd` of a month falls on that day of the week, within the
/// month, in the week asked for, or is the last one when a fifth was asked.
pub proof fn lemma_nth_weekday(y: int, m: int, week: int, wd: int)
    requires
        1 <= m <= 12,
        1 <= week <= 5,
        0 <= wd <= 6,
    ensures
        weekday(nth_weekday_of_month(y, m, week, wd)) == wd,
        days_from_civil(y, m, 1) <= nth_weekday_of_month(y, m, week, wd) < days_from_civil(y, m, 1)
            + days_in_month(m, is_leap_year(y)),
        week < 5 ==> 7 * (week - 1) <= nth_weekday_of_month(y, m, week, wd) - days_from_civil(
            y,
            m,
            1,
        ) < 7 * week,
        week == 5 ==> nth_weekday_of_month(y, m, week, wd) + 7 >= days_from_civil(y, m, 1)
            + days_in_month(m, is_leap_year(y)),
{
    let first = days_from_civil(y, m, 1);
    lemma_weekday_shift(first, wd, week - 1);
    lemma_weekday_shift(first, wd, week - 2);
}

/// The first of a month lies in its year, and so does the month's last day.
pub proof fn lemma_month_in_year(y: int, m: int)
    requires
        1 <= m <= 12,
    ensures
        days_before_year(y) <= days_from_civil(y, m, 1),
        days_from_civil(y, m, 1) + days_in_month(m, is_leap_year(y)) <= days_before_year(y + 1),
{
    lemma_year_length(y);
}

/// Whether `y` has a 29th of February.
pub fn leap_year(y: i64) -> (leap: bool)
    requires
        -YEAR_LIMIT <= y <= YEAR_LIMIT,
    ensures
        leap == is_leap_year(y as int),
{
    let z: i64 = y + YEAR_LIMIT;
    proof {
        lemma_leap_years_lifted(y as int, 1_000_000_000);
    }
    (z % 4 == 0 && z % 100 != 0) || z % 400 == 0
}

/// Lifting a year by a multiple of 400 adds a fixed number of leap years.
proof fn lemma_leap_years_lifted(y: int, k: int)
    ensures
        leap_years_through(y + 400 * k) == leap_years_through(y) + 97 * k,
        (y + 400 * k) % 4 == y % 4,
        (y + 400 * k) % 100 == y % 100,
        (y + 400 * k) % 400 == y % 400,
{
    let z = y + 400 * k;
    assert(y == 4 * (y / 4) + y % 4);
    assert(y == 100 * (y / 100) + y % 100);
    assert(y == 400 * (y / 400) + y % 400);
    vstd::arithmetic::div_mod::lemma_fundamental_div_mod_converse(z, 4, y / 4 + 100 * k, y % 4);
    vstd::arithmetic::div_mod::lemma_fundamental_div_mod_converse(z, 100, y / 100 + 4 * k, y % 100);
    vstd::arithmetic::div_mod::lemma_fundamental_div_mod_converse(z, 400, y / 400 + k, y % 400);
}

/// The day number of the first of January of year `y`.
pub fn year_start(y: i64) -> (day: i64)
    requires
        -YEAR_LIMIT <= y <= YEAR_LIMIT,
    ensures
        day == days_before_year(y as int),
{
    let z: i64 = y - 1 + 400_000_000_400;
    let leaps: i64 = z / 4 - z / 100 + z / 400 - 97_000_000_097;
    proof {
        lemma_leap_years_lifted(y - 1, 1_000_000_001);
    }
    365 * (y - 1970) + leaps - 477
}

/// The day number of the first day of month `m` of year `y`.
pub fn month_start(y: i64, m: u8) -> (day: i64)
    requires
        -YEAR_LIMIT <= y <= YEAR_LIMIT,
        1 <= m <= 12,
    ensures
        day == days_from_civil(y as int, m as int, 1),
{
    let leap = leap_year(y);
    let before: i64 = if m == 1 {
        0
    } else if m == 2 {
        31
    } else if m == 3 {
        59
    } else if m == 4 {
        90
    } else if m == 5 {
        120
    } else if m == 6 {
        151
    } else if m == 7 {
        181
    } else if m == 8 {
        212
    } else if m == 9 {
        243
    } else if m == 10 {
        273
    } else if m == 11 {
        304
    } else {
        334
    };
    let extra: i64 = if leap && m > 2 {
        1
    } else {
        0
    };
    proof {
        lemma_year_start_bounds(y as int);
    }
    year_start(y) + extra + before
}

/// The number of days of month `m` of year `y`.
pub fn month_length(y: i64, m: u8) -> (days: u8)
    requires
        -YEAR_LIMIT <= y <= YEAR_LIMIT,
        1 <= m <= 12,
    ensures
        days == days_in_month(m as int, is_leap_year(y as int)),
{
    if m == 2 {
        if leap_year(y) {
            29
        } else {
            28
        }
    } else if m == 4 || m == 6 || m == 9 || m == 11 {
        30
    } else {
        31
    }
}

/// The day of the week of a day, 0 for Sunday up to 6 for Saturday.
pub fn day_of_week(day: i64) -> (wd: u8)
    requires
        -2 * DAY_LIMIT <= day <= 2 * DAY_LIMIT,
    ensures
        wd == weekday(day as int),
{
    // 7 * 40_000_000_000_000 lifts every accepted day above zero.
    let lifted: i64 = day + 4 + 280_000_000_000_000;
    (lifted % 7) as u8
}

/// The day number of the `week`-th `wd` of month `m` in year `y`, the last
/// one where the month has no fifth.
pub fn nth_weekday(y: i64, m: u8, week: u8, wd: u8) -> (day: i64)
    requires
        -YEAR_LIMIT <= y <= YEAR_LIMIT,
        1 <= m <= 12,
        1 <= week <= 5,
        wd <= 6,
    ensures
        day == nth_weekday_of_month(y as int, m as int, week as int, wd as int),
{
    let first: i64 = month_start(y, m);
    proof {
        lemma_year_start_bounds(y as int);
    }
    let first_wd: u8 = day_of_week(first);
    let shift: i64 = if wd >= first_wd {
        (wd - first_wd) as i64
    } else {
        (wd + 7 - first_wd) as i64
    };
    let day: i64 = first + shift + 7 * (week as i64 - 1);
    if day >= first + month_length(y, m) as i64 {
        day - 7
    } else {
        day
    }
}

/// The year that a day lies in.
pub fn year_of_day(day: i64) -> (y: i64)
    requires
        -DAY_LIMIT <= day <= DAY_LIMIT,
    ensures
        days_before_year(y as int) <= day < days_before_year(y + 1),
        -YEAR_LIMIT + 2 < y < YEAR_LIMIT - 2,
{
    // A first guess from the mean length of a year, then a short walk to
    // the year whose first day is the last one at or before `day`.
    let lifted: i64 = day + 146_097_000_000_000;
    let mut y: i64 = 1970 + (lifted * 400) / 146_097 - 400_000_000_000;
    while year_start(y) > day
        invariant
            -DAY_LIMIT <= day <= DAY_LIMIT,
            -300_000_000_000 <= y <= 300_000_000_000,
        decreases y + YEAR_LIMIT,
    {
        proof {
            lemma_year_start_bounds(y as int);
        }
        y = y - 1;
    }
    while year_start(y + 1) <= day
        invariant
            -DAY_LIMIT <= day <= DAY_LIMIT,
            -300_000_000_000 <= y <= 300_000_000_000,
            days_before_year(y as int) <= day,
        decreases YEAR_LIMIT - y,
    {
        proof {
            lemma_year_start_bounds(y as int);
            lemma_year_start_bounds(y + 1);
        }
        y = y + 1;
    }
    y
}

/// The count of seconds from 1970-01-01T00:00:00 to a date and time of day,
/// read on a time line without offsets: the form in which a wall-clock
/// reading is handed to a zone.
pub fn seconds_from_civil(year: i32, month: u8, day: u8, hour: u8, minute: u8, second: u8) -> (seconds:
    i64)
    requires
        is_civil(year as int, month as int, day as int, hour as int, minute as int, second as int),
    ensures
        seconds == civil_seconds(
            year as int,
            month as int,
            day as int,
            hour as int,
            minute as int,
            second as int,
        ),
{
    let first: i64 = month_start(year as i64, month);
    proof {
        lemma_year_start_bounds(year as int);
    }
    let days: i64 = first + (day as i64 - 1);
    days * 86400 + (hour as i64) * 3600 + (minute as i64) * 60 + second as i64
}

/// Whether the fields name a date of the calendar and a time of day.
pub fn civil_fields_valid(year: i32, month: u8, day: u8, hour: u8, minute: u8, second: u8) -> (valid:
    bool)
    ensures
        valid == is_civil(
            year as int,
            month as int,
            day as int,
            hour as int,
            minute as int,
            second as int,
        ),
{
    if month < 1 || month > 12 {
        return false;
    }
    let length: u8 = month_length(year as i64, month);
    1 <= day && day <= length && hour < 24 && minute < 60 && second < 60
}

/// The day that an instant lies on.
pub fn day_of_instant(instant: i64) -> (day: i64)
    ensures
        day == instant as int / 86400,
        day * 86400 <= instant < (day + 1) * 86400,
        -DAY_LIMIT <= day <= DAY_LIMIT,
{
    // 86400 * DAY_LIMIT lifts every instant above zero.
    let lifted: i128 = instant as i128 + 9_223_372_036_854_806_400;
    let day: i128 = lifted / 86400 - 106_751_991_167_301;
    proof {
        let q = instant as int / 86400;
        assert(instant as int == 86400 * q + instant as int % 86400);
        vstd::arithmetic::div_mod::lemma_fundamental_div_mod_converse(
            lifted as int,
            86400,
            q + 106_751_991_167_301,
            instant as int % 86400,
        );
    }
    day as i64
}

} // verus!
