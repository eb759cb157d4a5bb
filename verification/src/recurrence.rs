//! Evaluating a recurrence rule: on which instants of a year the clocks
//! change, and whether daylight time is in force at an instant.
//!
//! A rule changes the clocks twice in every year, without end in either
//! direction. Daylight time is in force at an instant when the latest change
//! at or before it is a beginning of daylight time.

use crate::civil::{
    YEAR_LIMIT, day_of_instant, days_before_year, is_leap_year, leap_year, lemma_month_in_year,
    lemma_nth_weekday, lemma_year_length, lemma_year_span, lemma_year_start_bounds, nth_weekday,
    nth_weekday_of_month, year_of_day, year_start,
};
use crate::rule::{
    DateKind, DaylightRuleView, OFFSET_LIMIT, RecurrenceRule, RecurrenceRuleView, TransitionDate,
};
use crate::zone::{Resolved, ResolvedView};
use vstd::prelude::*;

verus! {

/// The day number of the day that `date` names in year `y`.
pub open spec fn date_day(date: DateKind, y: int) -> int {
    match date {
        DateKind::Julian { day } => days_before_year(y) + day - 1 + if is_leap_year(y) && day
            >= 60 {
            1int
        } else {
            0int
        },
        DateKind::ZeroBased { day } => days_before_year(y) + day,
        DateKind::MonthWeekDay { month, week, weekday } => nth_weekday_of_month(
            y,
            month as int,
            week as int,
            weekday as int,
        ),
    }
}

/// The instant of year `y` at which a clock that runs `offset` seconds
/// ahead of UTC shows the date and time of `date`.
pub open spec fn change_instant(date: TransitionDate, offset: int, y: int) -> int {
    date_day(date.date, y) * 86400 + date.time - offset
}

/// `r` is the latest of the instants of all years at which the change
/// `date` happens, among those at or before `t`.
pub open spec fn is_latest_change(date: TransitionDate, offset: int, t: int, r: int) -> bool {
    &&& r <= t
    &&& exists|y: int| #[trigger] change_instant(date, offset, y) == r
    &&& forall|y: int| #[trigger]
        change_instant(date, offset, y) <= t ==> change_instant(date, offset, y) <= r
}

/// Daylight time begins in year `y` at or before `t` and has not ended by
/// `t`: no end of daylight time, of any year, lies after that beginning and
/// at or before `t`.
pub open spec fn begins_daylight(d: DaylightRuleView, std_offset: int, y: int, t: int) -> bool {
    let begin = change_instant(d.start, std_offset, y);
    &&& begin <= t
    &&& forall|y2: int|
        !(begin < #[trigger] change_instant(d.end, d.utc_offset as int, y2) && change_instant(
            d.end,
            d.utc_offset as int,
            y2,
        ) <= t)
}

/// Whether daylight time is in force at instant `t` under `rule`. The
/// beginning is read on the standard clock and the end on the daylight
/// clock; an instant at which daylight time both ends and begins has it.
pub open spec fn daylight_in_force(rule: RecurrenceRuleView, t: int) -> bool {
    match rule.daylight {
        None => false,
        Some(d) => exists|y: int| #[trigger] begins_daylight(d, rule.std_offset as int, y, t),
    }
}

/// What `rule` gives at instant `t`: the daylight half where daylight time
/// is in force, the standard half elsewhere.
pub open spec fn rule_resolve(rule: RecurrenceRuleView, t: int) -> ResolvedView {
    if daylight_in_force(rule, t) {
        ResolvedView {
            utc_offset: rule.daylight->0.utc_offset,
            is_dst: true,
            designation: rule.daylight->0.designation,
        }
    } else {
        ResolvedView {
            utc_offset: rule.std_offset,
            is_dst: false,
            designation: rule.std_designation,
        }
    }
}

/// The day that a date names in a year lies in that year, or is the first
/// of the next for day 365 of a year that has no such day.
pub proof fn lemma_date_day_in_year(date: DateKind, y: int)
    requires
        date.wf(),
    ensures
        days_before_year(y) <= date_day(date, y) <= days_before_year(y + 1),
{
    lemma_year_length(y);
    match date {
        DateKind::MonthWeekDay { month, week, weekday } => {
            lemma_nth_weekday(y, month as int, week as int, weekday as int);
            lemma_month_in_year(y, month as int);
        },
        _ => {},
    }
}

/// A date falls later in the next year than in this one.
pub proof fn lemma_date_day_step(date: DateKind, y: int)
    requires
        date.wf(),
    ensures
        date_day(date, y) < date_day(date, y + 1),
{
    lemma_year_length(y);
    match date {
        DateKind::MonthWeekDay { month, week, weekday } => {
            lemma_nth_weekday(y, month as int, week as int, weekday as int);
            lemma_nth_weekday(y + 1, month as int, week as int, weekday as int);
        },
        _ => {},
    }
}

/// The instants of a change ascend with the years.
pub proof fn lemma_change_ascends(date: TransitionDate, offset: int, a: int, b: int)
    requires
        date.wf(),
        a <= b,
    ensures
        change_instant(date, offset, a) <= change_instant(date, offset, b),
        a < b ==> change_instant(date, offset, a) < change_instant(date, offset, b),
    decreases b - a,
{
    if a < b {
        lemma_change_ascends(date, offset, a, b - 1);
        lemma_date_day_step(date.date, b - 1);
    }
}

/// A change of year `y` lies within nine days of that year.
pub proof fn lemma_change_near_year(date: TransitionDate, offset: int, y: int)
    requires
        date.wf(),
        -OFFSET_LIMIT <= offset <= OFFSET_LIMIT,
    ensures
        days_before_year(y) * 86400 - 777_600 < change_instant(date, offset, y)
            < days_before_year(y + 1) * 86400 + 777_600,
{
    lemma_date_day_in_year(date.date, y);
}

/// The day number of the day that `date` names in year `y`.
pub fn date_day_of(date: DateKind, y: i64) -> (day: i64)
    requires
        date.wf(),
        -YEAR_LIMIT < y < YEAR_LIMIT,
    ensures
        day == date_day(date, y as int),
{
    proof {
        lemma_year_start_bounds(y as int);
    }
    match date {
        DateKind::Julian { day } => {
            let extra: i64 = if leap_year(y) && day >= 60 {
                1
            } else {
                0
            };
            year_start(y) + day as i64 - 1 + extra
        },
        DateKind::ZeroBased { day } => year_start(y) + day as i64,
        DateKind::MonthWeekDay { month, week, weekday } => nth_weekday(y, month, week, weekday),
    }
}

/// The instant of year `y` at which a clock that runs `offset` seconds
/// ahead of UTC shows the date and time of `date`.
pub fn change_instant_of(date: &TransitionDate, offset: i32, y: i64) -> (instant: i128)
    requires
        date.wf(),
        -OFFSET_LIMIT <= offset <= OFFSET_LIMIT,
        -YEAR_LIMIT < y < YEAR_LIMIT,
    ensures
        instant == change_instant(*date, offset as int, y as int),
{
    proof {
        lemma_date_day_in_year(date.date, y as int);
        lemma_year_start_bounds(y as int);
        lemma_year_start_bounds(y + 1);
    }
    let day: i64 = date_day_of(date.date, y);
    day as i128 * 86400 + date.time as i128 - offset as i128
}

/// The latest instant at or before `t` at which the change `date` happens,
/// in whichever year that is.
pub fn latest_change(date: &TransitionDate, offset: i32, t: i64) -> (latest: i128)
    requires
        date.wf(),
        -OFFSET_LIMIT <= offset <= OFFSET_LIMIT,
    ensures
        is_latest_change(*date, offset as int, t as int, latest as int),
{
    let year: i64 = year_of_day(day_of_instant(t));
    let ghost mut found: int = year - 2;
    let mut latest: i128 = change_instant_of(date, offset, year - 2);
    proof {
        lemma_change_near_year(*date, offset as int, year - 2);
        lemma_change_near_year(*date, offset as int, year + 2);
        lemma_year_span(year - 1, year as int);
        lemma_year_span(year + 1, year + 2);
    }
    let next: i128 = change_instant_of(date, offset, year + 1);
    let this: i128 = change_instant_of(date, offset, year);
    let last: i128 = change_instant_of(date, offset, year - 1);
    if next <= t as i128 {
        latest = next;
        proof {
            found = year + 1;
        }
    } else if this <= t as i128 {
        latest = this;
        proof {
            found = year as int;
        }
    } else if last <= t as i128 {
        latest = last;
        proof {
            found = year - 1;
        }
    }
    proof {
        assert(change_instant(*date, offset as int, found) == latest);
        assert(change_instant(*date, offset as int, found + 1) > t);
        assert forall|y: int| #[trigger]
            change_instant(*date, offset as int, y) <= t implies change_instant(
            *date,
            offset as int,
            y,
        ) <= latest by {
            if y <= found {
                lemma_change_ascends(*date, offset as int, y, found);
            } else {
                lemma_change_ascends(*date, offset as int, found + 1, y);
            }
        }
    }
    latest
}

impl RecurrenceRule {
    /// Whether daylight time is in force at `instant`.
    pub fn daylight_in_force_at(&self, instant: i64) -> (daylight: bool)
        requires
            self@.wf(),
        ensures
            daylight == daylight_in_force(self@, instant as int),
    {
        match &self.daylight {
            None => false,
            Some(d) => {
                let begin: i128 = latest_change(&d.start, self.std_offset, instant);
                let end: i128 = latest_change(&d.end, d.utc_offset, instant);
                proof {
                    let t = instant as int;
                    let std = self.std_offset as int;
                    let dst = d.utc_offset as int;
                    let yb = choose|y: int| #[trigger] change_instant(d.start, std, y) == begin;
                    let ye = choose|y: int| #[trigger] change_instant(d.end, dst, y) == end;
                    if end <= begin {
                        assert(begins_daylight(d@, std, yb, t));
                    } else {
                        assert forall|y: int| !#[trigger] begins_daylight(d@, std, y, t) by {
                            if change_instant(d.start, std, y) <= t {
                                assert(change_instant(d.start, std, y) < change_instant(
                                    d.end,
                                    dst,
                                    ye,
                                ));
                            }
                        }
                    }
                }
                end <= begin
            },
        }
    }

    /// The offset, flag and designation that the rule gives at `instant`.
    pub fn resolve<'a>(&'a self, instant: i64) -> (resolved: Resolved<'a>)
        requires
            self@.wf(),
        ensures
            resolved@ == rule_resolve(self@, instant as int),
    {
        if self.daylight_in_force_at(instant) {
            match &self.daylight {
                Some(d) => Resolved {
                    utc_offset: d.utc_offset,
                    is_dst: true,
                    designation: d.designation.as_slice(),
                },
                None => Resolved {
                    utc_offset: self.std_offset,
                    is_dst: false,
                    designation: self.std_designation.as_slice(),
                },
            }
        } else {
            Resolved {
                utc_offset: self.std_offset,
                is_dst: false,
                designation: self.std_designation.as_slice(),
            }
        }
    }
}

/// From a beginning of daylight time up to the next end, daylight time is
/// in force: at every instant from the beginning of year `begin_year` up to
/// the end of year `end_year`, where the end of the year before `end_year`
/// does not come after that beginning.
pub proof fn lemma_daylight_between(
    rule: RecurrenceRuleView,
    begin_year: int,
    end_year: int,
    t: int,
)
    requires
        rule.wf(),
        rule.daylight is Some,
        change_instant(rule.daylight->0.start, rule.std_offset as int, begin_year) <= t,
        t < change_instant(rule.daylight->0.end, rule.daylight->0.utc_offset as int, end_year),
        change_instant(rule.daylight->0.end, rule.daylight->0.utc_offset as int, end_year - 1)
            <= change_instant(rule.daylight->0.start, rule.std_offset as int, begin_year),
    ensures
        daylight_in_force(rule, t),
        rule_resolve(rule, t).utc_offset == rule.daylight->0.utc_offset,
        rule_resolve(rule, t).is_dst,
{
    let d = rule.daylight->0;
    let dst = d.utc_offset as int;
    assert forall|y2: int|
        !(change_instant(d.start, rule.std_offset as int, begin_year) < #[trigger] change_instant(
            d.end,
            dst,
            y2,
        ) && change_instant(d.end, dst, y2) <= t) by {
        if y2 >= end_year {
            lemma_change_ascends(d.end, dst, end_year, y2);
        } else {
            lemma_change_ascends(d.end, dst, y2, end_year - 1);
        }
    }
    assert(begins_daylight(d, rule.std_offset as int, begin_year, t));
}

/// From an end of daylight time up to the next beginning, standard time is
/// in force: at every instant from the end of year `end_year` up to the
/// beginning of year `begin_year`, where the beginning of the year before
/// `begin_year` comes before that end.
pub proof fn lemma_standard_between(
    rule: RecurrenceRuleView,
    end_year: int,
    begin_year: int,
    t: int,
)
    requires
        rule.wf(),
        rule.daylight is Some,
        change_instant(rule.daylight->0.end, rule.daylight->0.utc_offset as int, end_year) <= t,
        t < change_instant(rule.daylight->0.start, rule.std_offset as int, begin_year),
        change_instant(rule.daylight->0.start, rule.std_offset as int, begin_year - 1)
            < change_instant(rule.daylight->0.end, rule.daylight->0.utc_offset as int, end_year),
    ensures
        !daylight_in_force(rule, t),
        rule_resolve(rule, t).utc_offset == rule.std_offset,
        !rule_resolve(rule, t).is_dst,
{
    let d = rule.daylight->0;
    let std = rule.std_offset as int;
    let dst = d.utc_offset as int;
    assert forall|y: int| !#[trigger] begins_daylight(d, std, y, t) by {
        if change_instant(d.start, std, y) <= t {
            if y >= begin_year {
                lemma_change_ascends(d.start, std, begin_year, y);
            } else {
                lemma_change_ascends(d.start, std, y, begin_year - 1);
            }
            assert(change_instant(d.start, std, y) < change_instant(d.end, dst, end_year));
        }
    }
}

/// A rule without a daylight half gives its standard time at every
/// instant.
pub proof fn lemma_fixed_rule(rule: RecurrenceRuleView, t: int)
    requires
        rule.daylight is None,
    ensures
        rule_resolve(rule, t) == (ResolvedView {
            utc_offset: rule.std_offset,
            is_dst: false,
            designation: rule.std_designation,
        }),
{
}

} // verus!
