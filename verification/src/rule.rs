//! The recurrence rule that may follow a zone's explicit transitions: a
//! line such as `CET-1CEST,M3.5.0,M10.5.0/3`, naming the standard time, and
//! optionally a daylight time with the two dates of the year on which the
//! clocks change.
//!
//! The grammar is
//! `designation offset [ designation [offset] , date[/time] , date[/time] ]`.
//! An offset in the text counts hours west of Greenwich; the rule that comes
//! out holds offsets east of it, as the rest of the library does.

use crate::bytes::{
    ByteClass, copy_range, in_class, lemma_run_length_bounds, lemma_run_members, run_length,
    scan_run,
};
use crate::error::Error;
use vstd::prelude::*;

verus! {

/// The largest offset from UTC, in seconds, that a rule can hold.
pub const OFFSET_LIMIT: i32 = 93_599;

/// The largest time of day, in seconds, at which a rule can change clocks.
pub const TIME_LIMIT: i32 = 604_799;

/// The time of day at which the clocks change when the text gives none.
pub const DEFAULT_CHANGE_TIME: i32 = 7200;

/// One of the three ways in which a rule names a day of the year.
#[derive(Clone, Copy, Debug, PartialEq, Eq)]
pub enum DateKind {
    /// Day 1 to 365 of the year, where the 29th of February is never
    /// counted: day 60 is the first of March in every year.
    Julian { day: u16 },
    /// Day 0 to 365 of the year, where the 29th of February is counted.
    ZeroBased { day: u16 },
    /// The `week`-th `weekday` of `month`: months 1 to 12, weeks 1 to 5
    /// with 5 for the last, days 0 (Sunday) to 6.
    MonthWeekDay { month: u8, week: u8, weekday: u8 },
}

/// A day of the year and the wall-clock time, in seconds after midnight, at
/// which the clocks change on it.
#[derive(Clone, Copy, Debug, PartialEq, Eq)]
pub struct TransitionDate {
    pub date: DateKind,
    pub time: i32,
}

/// The daylight half of a rule.
#[derive(Clone, Debug, PartialEq, Eq)]
pub struct DaylightRule {
    pub designation: Vec<u8>,
    /// Seconds east of UTC while daylight time is in force.
    pub utc_offset: i32,
    /// When daylight time begins, read on the standard clock.
    pub start: TransitionDate,
    /// When daylight time ends, read on the daylight clock.
    pub end: TransitionDate,
}

/// A parsed recurrence rule.
#[derive(Clone, Debug, PartialEq, Eq)]
pub struct RecurrenceRule {
    pub std_designation: Vec<u8>,
    /// Seconds east of UTC while standard time is in force.
    pub std_offset: i32,
    /// Absent for a zone that keeps one offset all year.
    pub daylight: Option<DaylightRule>,
}

/// What a [`DaylightRule`] holds, as mathematical values.
pub ghost struct DaylightRuleView {
    pub designation: Seq<u8>,
    pub utc_offset: i32,
    pub start: TransitionDate,
    pub end: TransitionDate,
}

/// What a [`RecurrenceRule`] holds, as mathematical values.
pub ghost struct RecurrenceRuleView {
    pub std_designation: Seq<u8>,
    pub std_offset: i32,
    pub daylight: Option<DaylightRuleView>,
}

impl View for DaylightRule {
    type V = DaylightRuleView;

    open spec fn view(&self) -> DaylightRuleView {
        DaylightRuleView {
            designation: self.designation@,
            utc_offset: self.utc_offset,
            start: self.start,
            end: self.end,
        }
    }
}

impl View for RecurrenceRule {
    type V = RecurrenceRuleView;

    open spec fn view(&self) -> RecurrenceRuleView {
        RecurrenceRuleView {
            std_designation: self.std_designation@,
            std_offset: self.std_offset,
            daylight: match self.daylight {
                Some(d) => Some(d@),
                None => None,
            },
        }
    }
}

impl RecurrenceRule {
    /// Whether offsets, dates and times lie in the ranges that the grammar
    /// allows, as they do in every rule that was read from a text. The
    /// functions that evaluate a rule ask for this.
    pub fn well_formed(&self) -> (valid: bool)
        ensures
            valid == self@.wf(),
    {
        if self.std_offset < -OFFSET_LIMIT || self.std_offset > OFFSET_LIMIT {
            return false;
        }
        match &self.daylight {
            None => true,
            Some(d) => -OFFSET_LIMIT <= d.utc_offset && d.utc_offset <= OFFSET_LIMIT
                && d.start.well_formed() && d.end.well_formed(),
        }
    }

    /// A rule that holds the same as this one.
    pub fn duplicate(&self) -> (copy: RecurrenceRule)
        ensures
            copy@ == self@,
    {
        let daylight: Option<DaylightRule> = match &self.daylight {
            None => None,
            Some(d) => Some(
                DaylightRule {
                    designation: copy_range(d.designation.as_slice(), 0, d.designation.len()),
                    utc_offset: d.utc_offset,
                    start: d.start,
                    end: d.end,
                },
            ),
        };
        let std_designation: Vec<u8> = copy_range(
            self.std_designation.as_slice(),
            0,
            self.std_designation.len(),
        );
        proof {
            assert(std_designation@ =~= self.std_designation@);
            if self.daylight is Some {
                assert(daylight->0.designation@ =~= self.daylight->0.designation@);
            }
        }
        RecurrenceRule { std_designation, std_offset: self.std_offset, daylight }
    }
}

impl DateKind {
    /// Whether the numbers lie in the ranges that the kind allows.
    pub fn well_formed(&self) -> (valid: bool)
        ensures
            valid == self.wf(),
    {
        match self {
            DateKind::Julian { day } => 1 <= *day && *day <= 365,
            DateKind::ZeroBased { day } => *day <= 365,
            DateKind::MonthWeekDay { month, week, weekday } => {
                1 <= *month && *month <= 12 && 1 <= *week && *week <= 5 && *weekday <= 6
            },
        }
    }

    /// The numbers lie in the ranges that the kind allows.
    pub open spec fn wf(self) -> bool {
        match self {
            DateKind::Julian { day } => 1 <= day <= 365,
            DateKind::ZeroBased { day } => day <= 365,
            DateKind::MonthWeekDay { month, week, weekday } => {
                &&& 1 <= month <= 12
                &&& 1 <= week <= 5
                &&& weekday <= 6
            },
        }
    }
}

impl TransitionDate {
    /// Whether the date is well formed and the time within a week of
    /// midnight.
    pub fn well_formed(&self) -> (valid: bool)
        ensures
            valid == self.wf(),
    {
        self.date.well_formed() && -TIME_LIMIT <= self.time && self.time <= TIME_LIMIT
    }

    /// The date is well formed and the time within a week of midnight.
    pub open spec fn wf(self) -> bool {
        &&& self.date.wf()
        &&& -TIME_LIMIT <= self.time <= TIME_LIMIT
    }
}

impl DaylightRuleView {
    /// The offset lies within a day and an hour of UTC and both dates are
    /// well formed.
    pub open spec fn wf(self) -> bool {
        &&& -OFFSET_LIMIT <= self.utc_offset <= OFFSET_LIMIT
        &&& self.start.wf()
        &&& self.end.wf()
    }
}

impl RecurrenceRuleView {
    /// Offsets, dates and times lie in the ranges that the grammar allows.
    pub open spec fn wf(self) -> bool {
        &&& -OFFSET_LIMIT <= self.std_offset <= OFFSET_LIMIT
        &&& self.daylight matches Some(d) ==> d.wf()
    }
}

/// The number that the `n` digits from `pos` on spell in base ten.
pub open spec fn decimal(s: Seq<u8>, pos: int, n: int) -> int
    decreases n,
{
    if n <= 0 {
        0
    } else {
        decimal(s, pos, n - 1) * 10 + (s[pos + n - 1] - 0x30)
    }
}

/// A number of one to `max_digits` digits at `pos`: its value and where it
/// ends. A longer run of digits is no number.
pub open spec fn spec_number(s: Seq<u8>, pos: int, max_digits: int) -> Option<(int, int)> {
    let n = run_length(s, pos, ByteClass::Digit);
    if 1 <= n <= max_digits {
        Some((decimal(s, pos, n), pos + n))
    } else {
        None
    }
}

/// Whether byte `b` stands at `pos`.
pub open spec fn byte_at(s: Seq<u8>, pos: int, b: u8) -> bool {
    0 <= pos < s.len() && s[pos] == b
}

/// `[+|-]hh[:mm[:ss]]` at `pos`, with at most `max_hours` hours: the signed
/// number of seconds as written, and where the text ends.
pub open spec fn spec_hms(s: Seq<u8>, pos: int, max_hours: int) -> Option<(int, int)> {
    let negative = byte_at(s, pos, 0x2d);
    let p0 = if negative || byte_at(s, pos, 0x2b) {
        pos + 1
    } else {
        pos
    };
    match spec_number(s, p0, 3) {
        None => None,
        Some((hours, p1)) => {
            if hours > max_hours {
                None
            } else if !byte_at(s, p1, 0x3a) {
                Some((signed(negative, hours * 3600), p1))
            } else {
                match spec_number(s, p1 + 1, 2) {
                    None => None,
                    Some((minutes, p2)) => {
                        if minutes > 59 {
                            None
                        } else if !byte_at(s, p2, 0x3a) {
                            Some((signed(negative, hours * 3600 + minutes * 60), p2))
                        } else {
                            match spec_number(s, p2 + 1, 2) {
                                None => None,
                                Some((seconds, p3)) => {
                                    if seconds > 59 {
                                        None
                                    } else {
                                        Some(
                                            (
                                                signed(
                                                    negative,
                                                    hours * 3600 + minutes * 60 + seconds,
                                                ),
                                                p3,
                                            ),
                                        )
                                    }
                                },
                            }
                        }
                    },
                }
            }
        },
    }
}

/// The magnitude with its sign.
pub open spec fn signed(negative: bool, magnitude: int) -> int {
    if negative {
        -magnitude
    } else {
        magnitude
    }
}

/// A designation at `pos`: three or more letters, or any bytes but `>`, at
/// least one, between `<` and `>`. Gives the name without the brackets and
/// where the text ends.
pub open spec fn spec_designation(s: Seq<u8>, pos: int) -> Option<(Seq<u8>, int)> {
    if byte_at(s, pos, 0x3c) {
        let n = run_length(s, pos + 1, ByteClass::Quoted);
        if n >= 1 && pos + 1 + n < s.len() {
            Some((s.subrange(pos + 1, pos + 1 + n), pos + n + 2))
        } else {
            None
        }
    } else {
        let n = run_length(s, pos, ByteClass::Letter);
        if n >= 3 {
            Some((s.subrange(pos, pos + n), pos + n))
        } else {
            None
        }
    }
}

/// A date at `pos`: `Jn`, `n` or `Mm.w.d`, each number within its range.
pub open spec fn spec_date(s: Seq<u8>, pos: int) -> Option<(DateKind, int)> {
    if byte_at(s, pos, 0x4a) {
        match spec_number(s, pos + 1, 3) {
            Some((day, p)) => if 1 <= day <= 365 {
                Some((DateKind::Julian { day: day as u16 }, p))
            } else {
                None
            },
            None => None,
        }
    } else if byte_at(s, pos, 0x4d) {
        match spec_number(s, pos + 1, 2) {
            Some((month, p1)) => match spec_number(s, p1 + 1, 1) {
                Some((week, p2)) => match spec_number(s, p2 + 1, 1) {
                    Some((weekday, p3)) => if byte_at(s, p1, 0x2e) && byte_at(s, p2, 0x2e) && 1
                        <= month <= 12 && 1 <= week <= 5 && weekday <= 6 {
                        Some(
                            (
                                DateKind::MonthWeekDay {
                                    month: month as u8,
                                    week: week as u8,
                                    weekday: weekday as u8,
                                },
                                p3,
                            ),
                        )
                    } else {
                        None
                    },
                    None => None,
                },
                None => None,
            },
            None => None,
        }
    } else {
        match spec_number(s, pos, 3) {
            Some((day, p)) => if day <= 365 {
                Some((DateKind::ZeroBased { day: day as u16 }, p))
            } else {
                None
            },
            None => None,
        }
    }
}

/// A date at `pos` with the time after a `/`, or with 02:00:00 where the
/// text gives no time. The time may be negative and reach 167 hours.
pub open spec fn spec_transition_date(s: Seq<u8>, pos: int) -> Option<(TransitionDate, int)> {
    match spec_date(s, pos) {
        None => None,
        Some((date, p1)) => {
            if byte_at(s, p1, 0x2f) {
                match spec_hms(s, p1 + 1, 167) {
                    None => None,
                    Some((time, p2)) => Some((TransitionDate { date, time: time as i32 }, p2)),
                }
            } else {
                Some((TransitionDate { date, time: DEFAULT_CHANGE_TIME }, p1))
            }
        },
    }
}

/// The daylight half of a rule, from the daylight designation at `pos` to
/// the end of the text. Without an offset of its own, daylight time is one
/// hour ahead of standard time.
pub open spec fn spec_daylight(s: Seq<u8>, pos: int, std_offset: int) -> Option<DaylightRuleView> {
    match spec_designation(s, pos) {
        None => None,
        Some((designation, p1)) => {
            let offset: Option<(int, int)> = if byte_at(s, p1, 0x2c) || p1 >= s.len() {
                Some((std_offset + 3600, p1))
            } else {
                match spec_hms(s, p1, 24) {
                    None => None,
                    Some((west, p)) => Some((-west, p)),
                }
            };
            match offset {
                None => None,
                Some((utc_offset, p2)) => match spec_transition_date(s, p2 + 1) {
                    None => None,
                    Some((start, p3)) => match spec_transition_date(s, p3 + 1) {
                        None => None,
                        Some((end, p4)) => if byte_at(s, p2, 0x2c) && byte_at(s, p3, 0x2c) && p4
                            == s.len() {
                            Some(
                                DaylightRuleView {
                                    designation,
                                    utc_offset: utc_offset as i32,
                                    start,
                                    end,
                                },
                            )
                        } else {
                            None
                        },
                    },
                },
            }
        },
    }
}

/// The rule that a text spells, if it follows the grammar from its first
/// byte to its last.
pub open spec fn spec_parse_rule(s: Seq<u8>) -> Option<RecurrenceRuleView> {
    match spec_designation(s, 0) {
        None => None,
        Some((std_designation, p1)) => match spec_hms(s, p1, 24) {
            None => None,
            Some((west, p2)) => {
                if p2 == s.len() {
                    Some(
                        RecurrenceRuleView {
                            std_designation,
                            std_offset: (-west) as i32,
                            daylight: None,
                        },
                    )
                } else {
                    match spec_daylight(s, p2, -west) {
                        None => None,
                        Some(d) => Some(
                            RecurrenceRuleView {
                                std_designation,
                                std_offset: (-west) as i32,
                                daylight: Some(d),
                            },
                        ),
                    }
                }
            },
        },
    }
}

/// Digits spell a number below the power of ten of their count.
pub proof fn lemma_decimal_bounds(s: Seq<u8>, pos: int, n: int)
    requires
        0 <= pos,
        0 <= n <= 3,
        pos + n <= s.len(),
        forall|i: int| pos <= i < pos + n ==> in_class(#[trigger] s[i], ByteClass::Digit),
    ensures
        0 <= decimal(s, pos, n),
        n == 0 ==> decimal(s, pos, n) == 0,
        n == 1 ==> decimal(s, pos, n) <= 9,
        n == 2 ==> decimal(s, pos, n) <= 99,
        n == 3 ==> decimal(s, pos, n) <= 999,
    decreases n,
{
    if n > 0 {
        lemma_decimal_bounds(s, pos, n - 1);
        assert(in_class(s[pos + n - 1], ByteClass::Digit));
    }
}

/// Whether byte `b` stands at `pos`.
fn is_byte(bytes: &[u8], pos: usize, b: u8) -> (found: bool)
    ensures
        found == byte_at(bytes@, pos as int, b),
{
    pos < bytes.len() && bytes[pos] == b
}

/// Reads a number of one to `max_digits` digits.
fn parse_number(bytes: &[u8], pos: usize, max_digits: usize) -> (r: Option<(u32, usize)>)
    requires
        pos <= bytes@.len(),
        max_digits <= 3,
    ensures
        match r {
            Some((value, end)) => spec_number(bytes@, pos as int, max_digits as int) == Some(
                (value as int, end as int),
            ) && pos < end <= bytes@.len() && value <= 999,
            None => spec_number(bytes@, pos as int, max_digits as int) is None,
        },
{
    let end: usize = scan_run(bytes, pos, ByteClass::Digit);
    let n: usize = end - pos;
    if n < 1 || n > max_digits {
        return None;
    }
    let mut value: u32 = 0;
    let mut i: usize = 0;
    while i < n
        invariant
            0 <= i <= n <= 3,
            pos + n == end,
            end <= bytes@.len(),
            n == run_length(bytes@, pos as int, ByteClass::Digit),
            value == decimal(bytes@, pos as int, i as int),
            value <= 999,
        decreases n - i,
    {
        proof {
            lemma_run_members(bytes@, pos as int, ByteClass::Digit, pos + i);
            assert forall|k: int| pos <= k < pos + i + 1 implies in_class(
                #[trigger] bytes@[k],
                ByteClass::Digit,
            ) by {
                lemma_run_members(bytes@, pos as int, ByteClass::Digit, k);
            }
            lemma_decimal_bounds(bytes@, pos as int, i + 1);
        }
        value = value * 10 + (bytes[pos + i] - 0x30) as u32;
        i = i + 1;
    }
    Some((value, end))
}

/// Reads `[+|-]hh[:mm[:ss]]` with at most `max_hours` hours.
fn parse_hms(bytes: &[u8], pos: usize, max_hours: u32) -> (r: Option<(i32, usize)>)
    requires
        pos <= bytes@.len(),
        max_hours <= 167,
    ensures
        match r {
            Some((seconds, end)) => spec_hms(bytes@, pos as int, max_hours as int) == Some(
                (seconds as int, end as int),
            ) && pos < end <= bytes@.len() && -(max_hours * 3600 + 3599) <= seconds <= max_hours
                * 3600 + 3599,
            None => spec_hms(bytes@, pos as int, max_hours as int) is None,
        },
{
    assert(bytes@.len() == bytes.len());
    let negative: bool = is_byte(bytes, pos, 0x2d);
    let p0: usize = if negative || is_byte(bytes, pos, 0x2b) {
        pos + 1
    } else {
        pos
    };
    let (hours, p1) = match parse_number(bytes, p0, 3) {
        Some(found) => found,
        None => { return None; },
    };
    if hours > max_hours {
        return None;
    }
    let mut total: i32 = hours as i32 * 3600;
    let mut end: usize = p1;
    if is_byte(bytes, p1, 0x3a) {
        let (minutes, p2) = match parse_number(bytes, p1 + 1, 2) {
            Some(found) => found,
            None => { return None; },
        };
        if minutes > 59 {
            return None;
        }
        total = total + minutes as i32 * 60;
        end = p2;
        if is_byte(bytes, p2, 0x3a) {
            let (seconds, p3) = match parse_number(bytes, p2 + 1, 2) {
                Some(found) => found,
                None => { return None; },
            };
            if seconds > 59 {
                return None;
            }
            total = total + seconds as i32;
            end = p3;
        }
    }
    if negative {
        Some((-total, end))
    } else {
        Some((total, end))
    }
}

/// Reads a designation, plain or between `<` and `>`.
fn parse_designation(bytes: &[u8], pos: usize) -> (r: Option<(Vec<u8>, usize)>)
    requires
        pos <= bytes@.len(),
    ensures
        match r {
            Some((name, end)) => spec_designation(bytes@, pos as int) == Some((name@, end as int))
                && pos < end <= bytes@.len(),
            None => spec_designation(bytes@, pos as int) is None,
        },
{
    assert(bytes@.len() == bytes.len());
    if is_byte(bytes, pos, 0x3c) {
        let close: usize = scan_run(bytes, pos + 1, ByteClass::Quoted);
        if close == pos + 1 || close >= bytes.len() {
            return None;
        }
        Some((copy_range(bytes, pos + 1, close), close + 1))
    } else {
        let end: usize = scan_run(bytes, pos, ByteClass::Letter);
        if end - pos < 3 {
            return None;
        }
        Some((copy_range(bytes, pos, end), end))
    }
}

/// Reads a date of one of the three kinds.
fn parse_date(bytes: &[u8], pos: usize) -> (r: Option<(DateKind, usize)>)
    requires
        pos <= bytes@.len(),
    ensures
        match r {
            Some((date, end)) => spec_date(bytes@, pos as int) == Some((date, end as int)) && pos
                < end <= bytes@.len() && date.wf(),
            None => spec_date(bytes@, pos as int) is None,
        },
{
    assert(bytes@.len() == bytes.len());
    if is_byte(bytes, pos, 0x4a) {
        match parse_number(bytes, pos + 1, 3) {
            Some((day, end)) => {
                if 1 <= day && day <= 365 {
                    Some((DateKind::Julian { day: day as u16 }, end))
                } else {
                    None
                }
            },
            None => None,
        }
    } else if is_byte(bytes, pos, 0x4d) {
        let (month, p1) = match parse_number(bytes, pos + 1, 2) {
            Some(found) => found,
            None => { return None; },
        };
        if p1 >= bytes.len() {
            assert(spec_number(bytes@, p1 + 1, 1) is None);
            return None;
        }
        let (week, p2) = match parse_number(bytes, p1 + 1, 1) {
            Some(found) => found,
            None => { return None; },
        };
        if p2 >= bytes.len() {
            assert(spec_number(bytes@, p2 + 1, 1) is None);
            return None;
        }
        let (weekday, p3) = match parse_number(bytes, p2 + 1, 1) {
            Some(found) => found,
            None => { return None; },
        };
        if is_byte(bytes, p1, 0x2e) && is_byte(bytes, p2, 0x2e) && 1 <= month && month <= 12 && 1
            <= week && week <= 5 && weekday <= 6 {
            Some(
                (
                    DateKind::MonthWeekDay {
                        month: month as u8,
                        week: week as u8,
                        weekday: weekday as u8,
                    },
                    p3,
                ),
            )
        } else {
            None
        }
    } else {
        match parse_number(bytes, pos, 3) {
            Some((day, end)) => {
                if day <= 365 {
                    Some((DateKind::ZeroBased { day: day as u16 }, end))
                } else {
                    None
                }
            },
            None => None,
        }
    }
}

/// Reads a date and the time after it, if one is given.
fn parse_transition_date(bytes: &[u8], pos: usize) -> (r: Option<(TransitionDate, usize)>)
    requires
        pos <= bytes@.len(),
    ensures
        match r {
            Some((date, end)) => spec_transition_date(bytes@, pos as int) == Some(
                (date, end as int),
            ) && pos < end <= bytes@.len() && date.wf(),
            None => spec_transition_date(bytes@, pos as int) is None,
        },
{
    assert(bytes@.len() == bytes.len());
    let (date, p1) = match parse_date(bytes, pos) {
        Some(found) => found,
        None => { return None; },
    };
    if is_byte(bytes, p1, 0x2f) {
        match parse_hms(bytes, p1 + 1, 167) {
            Some((time, end)) => Some((TransitionDate { date, time }, end)),
            None => None,
        }
    } else {
        Some((TransitionDate { date, time: DEFAULT_CHANGE_TIME }, p1))
    }
}

/// Reads the daylight half of a rule, up to the end of the text.
fn parse_daylight(bytes: &[u8], pos: usize, std_offset: i32) -> (r: Option<DaylightRule>)
    requires
        pos <= bytes@.len(),
        -OFFSET_LIMIT + 3600 <= std_offset <= OFFSET_LIMIT - 3600,
    ensures
        match r {
            Some(d) => spec_daylight(bytes@, pos as int, std_offset as int) == Some(d@) && d@.wf(),
            None => spec_daylight(bytes@, pos as int, std_offset as int) is None,
        },
{
    assert(bytes@.len() == bytes.len());
    let (designation, p1) = match parse_designation(bytes, pos) {
        Some(found) => found,
        None => { return None; },
    };
    let (utc_offset, p2) = if is_byte(bytes, p1, 0x2c) || p1 >= bytes.len() {
        (std_offset + 3600, p1)
    } else {
        match parse_hms(bytes, p1, 24) {
            Some((west, p)) => (-west, p),
            None => { return None; },
        }
    };
    if p2 >= bytes.len() {
        assert(spec_transition_date(bytes@, p2 + 1) is None) by {
            assert(spec_number(bytes@, p2 + 1, 3) is None);
            assert(spec_date(bytes@, p2 + 1) is None);
        }
        return None;
    }
    let (start, p3) = match parse_transition_date(bytes, p2 + 1) {
        Some(found) => found,
        None => { return None; },
    };
    if p3 >= bytes.len() {
        assert(spec_transition_date(bytes@, p3 + 1) is None) by {
            assert(spec_number(bytes@, p3 + 1, 3) is None);
            assert(spec_date(bytes@, p3 + 1) is None);
        }
        return None;
    }
    let (end, p4) = match parse_transition_date(bytes, p3 + 1) {
        Some(found) => found,
        None => { return None; },
    };
    if is_byte(bytes, p2, 0x2c) && is_byte(bytes, p3, 0x2c) && p4 == bytes.len() {
        Some(DaylightRule { designation, utc_offset, start, end })
    } else {
        None
    }
}

/// Reads a recurrence rule from its text.
///
/// Succeeds exactly on the texts that follow the grammar from the first
/// byte to the last, and then gives the rule that the text spells, with
/// every offset turned from hours west into seconds east.
pub fn parse_rule(text: &[u8]) -> (r: Result<RecurrenceRule, Error>)
    ensures
        match r {
            Ok(rule) => spec_parse_rule(text@) == Some(rule@) && rule@.wf(),
            Err(e) => spec_parse_rule(text@) is None && e == Error::MalformedRecurrenceRule,
        },
{
    let (std_designation, p1) = match parse_designation(text, 0) {
        Some(found) => found,
        None => { return Err(Error::MalformedRecurrenceRule); },
    };
    let (west, p2) = match parse_hms(text, p1, 24) {
        Some(found) => found,
        None => { return Err(Error::MalformedRecurrenceRule); },
    };
    let std_offset: i32 = -west;
    if p2 == text.len() {
        return Ok(RecurrenceRule { std_designation, std_offset, daylight: None });
    }
    match parse_daylight(text, p2, std_offset) {
        Some(d) => Ok(RecurrenceRule { std_designation, std_offset, daylight: Some(d) }),
        None => Err(Error::MalformedRecurrenceRule),
    }
}

/// A number of the grammar has a value below a thousand and ends within
/// the text, after where it begins.
pub proof fn lemma_number_bounds(s: Seq<u8>, pos: int, max_digits: int)
    requires
        0 <= pos,
        max_digits <= 3,
    ensures
        spec_number(s, pos, max_digits) matches Some((value, end)) ==> 0 <= value <= 999 && pos
            < end <= s.len(),
{
    if pos <= s.len() {
        lemma_run_length_bounds(s, pos, ByteClass::Digit);
        let n = run_length(s, pos, ByteClass::Digit);
        if 1 <= n <= max_digits {
            assert forall|i: int| pos <= i < pos + n implies in_class(
                #[trigger] s[i],
                ByteClass::Digit,
            ) by {
                lemma_run_members(s, pos, ByteClass::Digit, i);
            }
            lemma_decimal_bounds(s, pos, n);
        }
    }
}

/// A time or offset of the grammar lies within its hours and ends within
/// the text, after where it begins.
pub proof fn lemma_hms_bounds(s: Seq<u8>, pos: int, max_hours: int)
    requires
        0 <= pos,
        0 <= max_hours,
    ensures
        spec_hms(s, pos, max_hours) matches Some((seconds, end)) ==> -(max_hours * 3600 + 3599)
            <= seconds <= max_hours * 3600 + 3599 && pos < end <= s.len(),
{
    let negative = byte_at(s, pos, 0x2d);
    let p0 = if negative || byte_at(s, pos, 0x2b) {
        pos + 1
    } else {
        pos
    };
    lemma_number_bounds(s, p0, 3);
    if let Some((hours, p1)) = spec_number(s, p0, 3) {
        lemma_number_bounds(s, p1 + 1, 2);
        if let Some((minutes, p2)) = spec_number(s, p1 + 1, 2) {
            lemma_number_bounds(s, p2 + 1, 2);
        }
    }
}

/// A date of the grammar, with its time, is well formed and ends within
/// the text, after where it begins.
pub proof fn lemma_transition_date_wf(s: Seq<u8>, pos: int)
    requires
        0 <= pos,
    ensures
        spec_transition_date(s, pos) matches Some((date, end)) ==> date.wf() && pos < end
            <= s.len(),
{
    lemma_number_bounds(s, pos + 1, 3);
    lemma_number_bounds(s, pos + 1, 2);
    lemma_number_bounds(s, pos, 3);
    if let Some((month, p1)) = spec_number(s, pos + 1, 2) {
        lemma_number_bounds(s, p1 + 1, 1);
        if let Some((week, p2)) = spec_number(s, p1 + 1, 1) {
            lemma_number_bounds(s, p2 + 1, 1);
        }
    }
    if let Some((date, p1)) = spec_date(s, pos) {
        lemma_hms_bounds(s, p1 + 1, 167);
    }
}

/// A designation of the grammar ends within the text, after where it
/// begins.
pub proof fn lemma_designation_bounds(s: Seq<u8>, pos: int)
    requires
        0 <= pos,
    ensures
        spec_designation(s, pos) matches Some((name, end)) ==> pos < end <= s.len(),
{
    if pos <= s.len() {
        lemma_run_length_bounds(s, pos, ByteClass::Letter);
    }
}

/// Every rule that a text spells is well formed.
pub proof fn lemma_parse_rule_wf(s: Seq<u8>)
    ensures
        spec_parse_rule(s) matches Some(rule) ==> rule.wf(),
{
    lemma_designation_bounds(s, 0);
    if let Some((std_designation, p1)) = spec_designation(s, 0) {
        lemma_hms_bounds(s, p1, 24);
        if let Some((west, p2)) = spec_hms(s, p1, 24) {
            lemma_designation_bounds(s, p2);
            if let Some((designation, p3)) = spec_designation(s, p2) {
                lemma_hms_bounds(s, p3, 24);
                let p4 = if byte_at(s, p3, 0x2c) || p3 >= s.len() {
                    p3
                } else {
                    match spec_hms(s, p3, 24) {
                        Some((w, p)) => p,
                        None => p3,
                    }
                };
                lemma_transition_date_wf(s, p4 + 1);
                if let Some((start, p5)) = spec_transition_date(s, p4 + 1) {
                    lemma_transition_date_wf(s, p5 + 1);
                }
            }
        }
    }
}

} // verus!
