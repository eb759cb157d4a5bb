use tzfile::{
    DateKind, Disambiguated, Error, GapPolicy, LeapSecondRecord, LocalTimeType, Transition, Tz,
};

struct Body {
    transitions: Vec<(i64, u8)>,
    types: Vec<(i32, bool, u8)>,
    designations: Vec<u8>,
    leaps: Vec<(i64, i32)>,
    indicators: usize,
}

fn block(version: u8, body: &Body, wide: bool) -> Vec<u8> {
    let mut out = Vec::new();
    out.extend_from_slice(b"TZif");
    out.push(version);
    out.extend_from_slice(&[0u8; 15]);
    for count in [
        body.indicators,
        body.indicators,
        body.leaps.len(),
        body.transitions.len(),
        body.types.len(),
        body.designations.len(),
    ] {
        out.extend_from_slice(&(count as u32).to_be_bytes());
    }
    for (instant, _) in &body.transitions {
        if wide {
            out.extend_from_slice(&instant.to_be_bytes());
        } else {
            out.extend_from_slice(&(*instant as i32).to_be_bytes());
        }
    }
    for (_, index) in &body.transitions {
        out.push(*index);
    }
    for (offset, dst, designation) in &body.types {
        out.extend_from_slice(&offset.to_be_bytes());
        out.push(*dst as u8);
        out.push(*designation);
    }
    out.extend_from_slice(&body.designations);
    for (instant, correction) in &body.leaps {
        if wide {
            out.extend_from_slice(&instant.to_be_bytes());
        } else {
            out.extend_from_slice(&(*instant as i32).to_be_bytes());
        }
        out.extend_from_slice(&correction.to_be_bytes());
    }
    out.extend(std::iter::repeat(0u8).take(2 * body.indicators));
    out
}

fn placeholder() -> Body {
    Body {
        transitions: vec![],
        types: vec![(0, false, 0)],
        designations: vec![0],
        leaps: vec![],
        indicators: 0,
    }
}

fn version_two(version: u8, body: &Body, footer: &[u8]) -> Vec<u8> {
    let mut out = block(version, &placeholder(), false);
    out.extend(block(version, body, true));
    out.push(b'\n');
    out.extend_from_slice(footer);
    out.push(b'\n');
    out
}

fn sample() -> Body {
    Body {
        transitions: vec![(-100, 1), (200, 0), (200, 2), (5_000, 1)],
        types: vec![(3_600, false, 0), (7_200, true, 4), (-1_800, false, 9)],
        designations: b"CET\0CEST\0HALF\0".to_vec(),
        leaps: vec![(78_796_800, 1), (94_694_400, 2)],
        indicators: 3,
    }
}

#[test]
fn decodes_a_block_of_the_first_version() {
    let zone = Tz::parse("Test/Zone", &block(0, &sample(), false)).unwrap();
    assert_eq!(zone.name(), "Test/Zone");
    assert_eq!(
        zone.transitions(),
        &[
            Transition { instant: -100, type_index: 1 },
            Transition { instant: 200, type_index: 0 },
            Transition { instant: 200, type_index: 2 },
            Transition { instant: 5_000, type_index: 1 },
        ]
    );
    assert_eq!(
        zone.types(),
        &[
            LocalTimeType { utc_offset: 3_600, is_dst: false, designation_index: 0 },
            LocalTimeType { utc_offset: 7_200, is_dst: true, designation_index: 4 },
            LocalTimeType { utc_offset: -1_800, is_dst: false, designation_index: 9 },
        ]
    );
    assert_eq!(zone.designations(), b"CET\0CEST\0HALF\0");
    assert_eq!(
        zone.leap_seconds(),
        &[
            LeapSecondRecord { instant: 78_796_800, correction: 1 },
            LeapSecondRecord { instant: 94_694_400, correction: 2 },
        ]
    );
    assert!(zone.recurrence().is_none());
    assert!(!zone.rule_malformed());
}

#[test]
fn narrow_instants_keep_their_sign() {
    let mut body = sample();
    body.transitions = vec![(i32::MIN as i64, 0), (-1, 1), (i32::MAX as i64, 2)];
    body.leaps = vec![(-5, -1)];
    let zone = Tz::parse("x", &block(0, &body, false)).unwrap();
    let instants: Vec<i64> = zone.transitions().iter().map(|t| t.instant).collect();
    assert_eq!(instants, vec![-2_147_483_648, -1, 2_147_483_647]);
    assert_eq!(zone.leap_seconds(), &[LeapSecondRecord { instant: -5, correction: -1 }]);
    assert_eq!(zone.types()[2].utc_offset, -1_800);
}

#[test]
fn a_second_block_replaces_the_first() {
    let mut body = sample();
    body.transitions = vec![(-(1 << 40), 2), (0, 1), (1 << 40, 0), (i64::MAX, 1)];
    body.leaps = vec![(1 << 35, 7)];
    for version in [b'2', b'3'] {
        let zone = Tz::parse("wide", &version_two(version, &body, b"")).unwrap();
        let instants: Vec<i64> = zone.transitions().iter().map(|t| t.instant).collect();
        assert_eq!(instants, vec![-1_099_511_627_776, 0, 1_099_511_627_776, i64::MAX]);
        assert_eq!(zone.types().len(), 3);
        assert_eq!(zone.designations(), b"CET\0CEST\0HALF\0");
        assert_eq!(
            zone.leap_seconds(),
            &[LeapSecondRecord { instant: 34_359_738_368, correction: 7 }]
        );
        assert!(zone.recurrence().is_none());
        assert!(!zone.rule_malformed());
    }
}

#[test]
fn the_closing_line_gives_the_rule() {
    let zone =
        Tz::parse("ruled", &version_two(b'2', &sample(), b"CET-1CEST,M3.5.0,M10.5.0/3")).unwrap();
    let rule = zone.recurrence().unwrap();
    assert_eq!(rule.std_designation, b"CET");
    assert_eq!(rule.std_offset, 3_600);
    let daylight = rule.daylight.as_ref().unwrap();
    assert_eq!(daylight.designation, b"CEST");
    assert_eq!(daylight.utc_offset, 7_200);
    assert_eq!(daylight.start.date, DateKind::MonthWeekDay { month: 3, week: 5, weekday: 0 });
    assert_eq!(daylight.start.time, 7_200);
    assert_eq!(daylight.end.date, DateKind::MonthWeekDay { month: 10, week: 5, weekday: 0 });
    assert_eq!(daylight.end.time, 10_800);
    assert!(!zone.rule_malformed());
}

#[test]
fn a_closing_line_that_is_no_rule_leaves_the_zone_usable() {
    let zone = Tz::parse("odd", &version_two(b'2', &sample(), b"not a rule")).unwrap();
    assert!(zone.recurrence().is_none());
    assert!(zone.rule_malformed());
    // Constant extrapolation: the type of the last transition stays in force.
    let late = zone.offset_for_instant(1 << 50);
    assert_eq!((late.utc_offset, late.is_dst, late.designation), (7_200, true, &b"CEST"[..]));
    // The strict query refuses from the last transition on, and only there.
    assert_eq!(
        zone.offset_for_instant_strict(5_000).unwrap_err(),
        Error::MalformedRecurrenceRule
    );
    assert_eq!(
        zone.offset_for_instant_strict(i64::MAX).unwrap_err(),
        Error::MalformedRecurrenceRule
    );
    assert_eq!(zone.offset_for_instant_strict(4_999).unwrap().utc_offset, -1_800);
    assert_eq!(zone.offset_for_instant_strict(i64::MIN).unwrap().utc_offset, 3_600);
}

#[test]
fn the_strict_query_answers_where_the_rule_could_be_read() {
    let zone = Tz::parse("fine", &version_two(b'2', &sample(), b"UTC0")).unwrap();
    let answer = zone.offset_for_instant_strict(1 << 40).unwrap();
    assert_eq!((answer.utc_offset, answer.designation), (0, &b"UTC"[..]));
    let plain = Tz::parse("plain", &block(0, &sample(), false)).unwrap();
    assert_eq!(plain.offset_for_instant_strict(1 << 40).unwrap().utc_offset, 7_200);
}

#[test]
fn bytes_after_the_zone_are_not_looked_at() {
    let mut first = block(0, &sample(), false);
    first.extend_from_slice(b"trailing");
    assert_eq!(Tz::parse("a", &first).unwrap().transitions().len(), 4);
    let mut second = version_two(b'2', &sample(), b"UTC0");
    second.extend_from_slice(b"\nmore\n");
    let zone = Tz::parse("b", &second).unwrap();
    assert_eq!(zone.recurrence().unwrap().std_designation, b"UTC");
}

#[test]
fn a_short_or_untagged_header_is_malformed() {
    assert_eq!(Tz::parse("x", b"").unwrap_err(), Error::MalformedHeader);
    assert_eq!(Tz::parse("x", b"TZif").unwrap_err(), Error::MalformedHeader);
    let good = block(0, &sample(), false);
    assert_eq!(Tz::parse("x", &good[..43]).unwrap_err(), Error::MalformedHeader);
    for at in 0..4 {
        let mut bad = good.clone();
        bad[at] ^= 0x20;
        assert_eq!(Tz::parse("x", &bad).unwrap_err(), Error::MalformedHeader);
    }
    // The second header is held to the same.
    let wide = version_two(b'2', &sample(), b"");
    let mut bad = wide.clone();
    bad[51] = b'X';
    assert_eq!(Tz::parse("x", &bad).unwrap_err(), Error::MalformedHeader);
    assert_eq!(Tz::parse("x", &wide[..51 + 43]).unwrap_err(), Error::MalformedHeader);
}

#[test]
fn an_unknown_version_is_unsupported() {
    for version in [b'1', b'4', b' ', 0x01, 0xff] {
        let bytes = block(version, &sample(), false);
        assert_eq!(Tz::parse("x", &bytes).unwrap_err(), Error::UnsupportedVersion);
    }
    let mut wide = version_two(b'2', &sample(), b"");
    wide[51 + 4] = b'9';
    assert_eq!(Tz::parse("x", &wide).unwrap_err(), Error::UnsupportedVersion);
    // The magic tag is looked at first.
    let mut both = block(b'7', &sample(), false);
    both[0] = 0;
    assert_eq!(Tz::parse("x", &both).unwrap_err(), Error::MalformedHeader);
}

#[test]
fn counts_beyond_the_buffer_are_a_truncated_body() {
    let good = block(0, &sample(), false);
    assert_eq!(Tz::parse("x", &good[..good.len() - 1]).unwrap_err(), Error::TruncatedBody);
    assert_eq!(Tz::parse("x", &good[..44]).unwrap_err(), Error::TruncatedBody);
    for count_at in [20, 24, 28, 32, 36, 40] {
        let mut bad = good.clone();
        bad[count_at] = 0xff;
        assert_eq!(Tz::parse("x", &bad).unwrap_err(), Error::TruncatedBody);
    }
    let wide = version_two(b'3', &sample(), b"UTC0");
    // Without the newline that ends the line, and without the line at all.
    assert_eq!(Tz::parse("x", &wide[..wide.len() - 1]).unwrap_err(), Error::TruncatedBody);
    assert_eq!(Tz::parse("x", &wide[..wide.len() - 5]).unwrap_err(), Error::TruncatedBody);
    assert_eq!(Tz::parse("x", &wide[..wide.len() - 6]).unwrap_err(), Error::TruncatedBody);
    assert_eq!(Tz::parse("x", &wide[..wide.len() - 7]).unwrap_err(), Error::TruncatedBody);
    // Something else than a newline where the line must begin.
    let mut bad = wide.clone();
    let at = wide.len() - 6;
    bad[at] = b' ';
    assert_eq!(Tz::parse("x", &bad).unwrap_err(), Error::TruncatedBody);
}

#[test]
fn transitions_out_of_order_are_rejected() {
    let mut body = sample();
    body.transitions = vec![(10, 0), (9, 1)];
    assert_eq!(
        Tz::parse("x", &block(0, &body, false)).unwrap_err(),
        Error::NonMonotonicTransitions
    );
    body.transitions = vec![(1, 0), (2, 1), (3, 0), (4, 1), (3, 2)];
    assert_eq!(
        Tz::parse("x", &version_two(b'2', &body, b"")).unwrap_err(),
        Error::NonMonotonicTransitions
    );
    // The order is looked at before the indexes.
    body.transitions = vec![(10, 200), (9, 1)];
    assert_eq!(
        Tz::parse("x", &block(0, &body, false)).unwrap_err(),
        Error::NonMonotonicTransitions
    );
    // Equal instants are in order.
    body.transitions = vec![(7, 0), (7, 1), (7, 2)];
    assert!(Tz::parse("x", &block(0, &body, false)).is_ok());
}

#[test]
fn indexes_outside_their_tables_are_rejected() {
    let mut body = sample();
    body.transitions[2].1 = 3;
    assert_eq!(Tz::parse("x", &block(0, &body, false)).unwrap_err(), Error::IndexOutOfRange);
    // A designation that begins behind the table.
    let mut body = sample();
    body.types[1].2 = 14;
    assert_eq!(Tz::parse("x", &block(0, &body, false)).unwrap_err(), Error::IndexOutOfRange);
    // A designation that no NUL ends.
    let mut body = sample();
    body.designations = b"CET\0CEST\0HALF".to_vec();
    assert_eq!(Tz::parse("x", &block(0, &body, false)).unwrap_err(), Error::IndexOutOfRange);
    // No type at all: there is no first type to fall back on.
    let mut body = sample();
    body.transitions.clear();
    body.types.clear();
    assert_eq!(Tz::parse("x", &block(0, &body, false)).unwrap_err(), Error::IndexOutOfRange);
    // A designation may begin in the middle of another.
    let mut body = sample();
    body.types[0].2 = 5;
    let zone = Tz::parse("x", &block(0, &body, false)).unwrap();
    assert_eq!(zone.offset_for_instant(-1_000).designation, b"EST");
    // Or at its closing NUL.
    let mut body = sample();
    body.types[0].2 = 13;
    let zone = Tz::parse("x", &block(0, &body, false)).unwrap();
    assert_eq!(zone.offset_for_instant(-1_000).designation, b"");
}

#[test]
fn corrupting_a_type_index_is_an_index_out_of_range() {
    let good = block(0, &sample(), false);
    let indexes_at = 44 + 4 * 4;
    for i in 0..4 {
        for bad_index in [3u8, 4, 100, 255] {
            let mut bad = good.clone();
            bad[indexes_at + i] = bad_index;
            assert_eq!(Tz::parse("x", &bad).unwrap_err(), Error::IndexOutOfRange);
        }
    }
    let wide = version_two(b'2', &sample(), b"CET-1CEST,M3.5.0,M10.5.0/3");
    let indexes_at = 51 + 44 + 8 * 4;
    for i in 0..4 {
        let mut bad = wide.clone();
        bad[indexes_at + i] = 3;
        assert_eq!(Tz::parse("x", &bad).unwrap_err(), Error::IndexOutOfRange);
    }
}

#[test]
fn truncating_a_buffer_anywhere_is_an_error() {
    for bytes in [
        block(0, &sample(), false),
        version_two(b'2', &sample(), b"CET-1CEST,M3.5.0,M10.5.0/3"),
        version_two(b'3', &sample(), b""),
    ] {
        assert!(Tz::parse("whole", &bytes).is_ok());
        for k in 0..bytes.len() {
            let e = Tz::parse("cut", &bytes[..k]).unwrap_err();
            assert!(
                e == Error::MalformedHeader || e == Error::TruncatedBody,
                "cut at {k}: {e:?}"
            );
        }
    }
}

#[test]
fn the_first_type_is_in_force_before_the_first_transition() {
    let zone = Tz::parse("x", &block(0, &sample(), false)).unwrap();
    for instant in [i64::MIN, -1_000_000, -101] {
        let r = zone.offset_for_instant(instant);
        assert_eq!((r.utc_offset, r.is_dst, r.designation), (3_600, false, &b"CET"[..]));
    }
}

#[test]
fn a_transition_belongs_to_the_type_that_begins_there() {
    let zone = Tz::parse("x", &block(0, &sample(), false)).unwrap();
    let at = |t: i64| {
        let r = zone.offset_for_instant(t);
        (r.utc_offset, r.is_dst, r.designation.to_vec())
    };
    assert_eq!(at(-101), (3_600, false, b"CET".to_vec()));
    assert_eq!(at(-100), (7_200, true, b"CEST".to_vec()));
    assert_eq!(at(199), (7_200, true, b"CEST".to_vec()));
    // Of two transitions at one instant the one stored last decides.
    assert_eq!(at(200), (-1_800, false, b"HALF".to_vec()));
    assert_eq!(at(4_999), (-1_800, false, b"HALF".to_vec()));
    assert_eq!(at(5_000), (7_200, true, b"CEST".to_vec()));
    assert_eq!(at(i64::MAX), (7_200, true, b"CEST".to_vec()));
    assert_eq!(zone.transitions_through(-101), 0);
    assert_eq!(zone.transitions_through(-100), 1);
    assert_eq!(zone.transitions_through(200), 3);
    assert_eq!(zone.transitions_through(i64::MAX), 4);
}

#[test]
fn a_zone_without_transitions_answers_with_its_rule_or_its_first_type() {
    let mut body = sample();
    body.transitions.clear();
    let plain = Tz::parse("x", &block(0, &body, false)).unwrap();
    for instant in [i64::MIN, 0, i64::MAX] {
        assert_eq!(plain.offset_for_instant(instant).utc_offset, 3_600);
    }
    let ruled = Tz::parse("x", &version_two(b'2', &body, b"<-03>3")).unwrap();
    for instant in [i64::MIN, 0, i64::MAX] {
        let r = ruled.offset_for_instant(instant);
        assert_eq!((r.utc_offset, r.is_dst, r.designation), (-10_800, false, &b"-03"[..]));
    }
}

#[test]
fn the_rule_takes_over_at_the_last_transition() {
    let zone =
        Tz::parse("x", &version_two(b'2', &sample(), b"EST5EDT,M3.2.0,M11.1.0")).unwrap();
    // One second before the last transition the table decides.
    assert_eq!(zone.offset_for_instant(4_999).utc_offset, -1_800);
    // From it on the rule does: early January 1970 is standard time.
    let r = zone.offset_for_instant(5_000);
    assert_eq!((r.utc_offset, r.is_dst, r.designation), (-18_000, false, &b"EST"[..]));
    // 2030-03-10T07:00:00Z and 2030-11-03T06:00:00Z.
    assert_eq!(zone.offset_for_instant(1_899_356_399).utc_offset, -18_000);
    assert_eq!(zone.offset_for_instant(1_899_356_400).utc_offset, -14_400);
    assert_eq!(zone.offset_for_instant(1_919_915_999).utc_offset, -14_400);
    assert_eq!(zone.offset_for_instant(1_919_916_000).utc_offset, -18_000);
}

fn stepped() -> Tz {
    // Offset 0, then one hour ahead from 10 000 on, then 0 again from 20 000 on.
    let body = Body {
        transitions: vec![(10_000, 1), (20_000, 2)],
        types: vec![(0, false, 0), (3_600, true, 2), (0, false, 4)],
        designations: b"A\0B\0C\0".to_vec(),
        leaps: vec![],
        indicators: 0,
    };
    Tz::parse("stepped", &block(0, &body, false)).unwrap()
}

#[test]
fn a_reading_outside_gaps_and_overlaps_is_unique() {
    let zone = stepped();
    for (local, instant, designation) in [
        (5_000, 5_000, b"A"),
        (9_999, 9_999, b"A"),
        (13_600, 10_000, b"B"),
        (15_000, 11_400, b"B"),
        (19_999, 16_399, b"B"),
        (23_600, 23_600, b"C"),
        (i64::MIN, i64::MIN, b"A"),
        (i64::MAX, i64::MAX, b"C"),
    ] {
        for policy in [GapPolicy::ReportAdjoining, GapPolicy::Reject] {
            match zone.offset_for_local(local, policy) {
                Disambiguated::Unique(only) => {
                    assert_eq!(only.instant, instant);
                    assert_eq!(only.resolved.designation, designation);
                    assert_eq!(only.instant + only.resolved.utc_offset as i64, local);
                }
                other => panic!("{local}: {other:?}"),
            }
        }
    }
}

#[test]
fn a_skipped_reading_is_a_gap() {
    let zone = stepped();
    for local in [10_000, 11_000, 13_599] {
        match zone.offset_for_local(local, GapPolicy::ReportAdjoining) {
            Disambiguated::Gap(Some((before, after))) => {
                assert_eq!((before.utc_offset, before.designation), (0, &b"A"[..]));
                assert_eq!((after.utc_offset, after.designation), (3_600, &b"B"[..]));
            }
            other => panic!("{local}: {other:?}"),
        }
        assert_eq!(zone.offset_for_local(local, GapPolicy::Reject), Disambiguated::Gap(None));
    }
}

#[test]
fn a_repeated_reading_is_an_overlap_with_the_earlier_instant_first() {
    let zone = stepped();
    for local in [20_000, 21_000, 23_599] {
        match zone.offset_for_local(local, GapPolicy::Reject) {
            Disambiguated::Overlap(earliest, latest) => {
                assert_eq!(earliest.instant, local - 3_600);
                assert_eq!(earliest.resolved.designation, b"B");
                assert_eq!(latest.instant, local);
                assert_eq!(latest.resolved.designation, b"C");
                assert!(earliest.instant < latest.instant);
            }
            other => panic!("{local}: {other:?}"),
        }
    }
}

#[test]
fn a_reading_shown_three_times_gives_the_earliest_and_the_latest() {
    let body = Body {
        transitions: vec![(1_000, 1), (2_000, 2)],
        types: vec![(0, false, 0), (-1_000, false, 2), (-2_000, false, 4)],
        designations: b"A\0B\0C\0".to_vec(),
        leaps: vec![],
        indicators: 0,
    };
    let zone = Tz::parse("thrice", &block(0, &body, false)).unwrap();
    match zone.offset_for_local(500, GapPolicy::Reject) {
        Disambiguated::Overlap(earliest, latest) => {
            assert_eq!((earliest.instant, earliest.resolved.utc_offset), (500, 0));
            assert_eq!((latest.instant, latest.resolved.utc_offset), (2_500, -2_000));
        }
        other => panic!("{other:?}"),
    }
}

#[test]
fn instants_off_the_time_line_are_no_candidates() {
    // One hour behind UTC: the last hour of readings would need instants
    // that an i64 does not hold.
    let body = Body {
        transitions: vec![],
        types: vec![(-3_600, false, 0)],
        designations: b"W\0".to_vec(),
        leaps: vec![],
        indicators: 0,
    };
    let zone = Tz::parse("west", &block(0, &body, false)).unwrap();
    assert_eq!(
        zone.offset_for_local(i64::MAX, GapPolicy::Reject),
        Disambiguated::Gap(None)
    );
    match zone.offset_for_local(i64::MAX - 3_600, GapPolicy::Reject) {
        Disambiguated::Unique(only) => assert_eq!(only.instant, i64::MAX),
        other => panic!("{other:?}"),
    }
    assert_eq!(zone.instant_showing(i64::MAX, -3_600), None);
    assert_eq!(zone.instant_showing(0, -3_600), Some(3_600));
    assert_eq!(zone.instant_showing(0, 0), None);
}

#[test]
fn a_report_names_the_zone_and_the_reason() {
    let e = Tz::parse("Mars/Olympus", b"nope").unwrap_err();
    assert_eq!(e.describe("Mars/Olympus"), "Mars/Olympus: malformed header");
    let phrases = [
        (Error::MalformedHeader, "malformed header"),
        (Error::UnsupportedVersion, "unsupported version"),
        (Error::TruncatedBody, "truncated body"),
        (Error::NonMonotonicTransitions, "transitions out of order"),
        (Error::IndexOutOfRange, "index out of range"),
        (Error::MalformedRecurrenceRule, "malformed recurrence rule"),
        (Error::InvalidTimeZoneFileName, "unknown zone name"),
    ];
    for (error, phrase) in phrases {
        assert_eq!(error.reason(), phrase);
        assert_eq!(error.describe("Z"), format!("Z: {phrase}"));
    }
}

#[test]
fn leap_corrections_accumulate_and_leave_the_offset_alone() {
    let zone = Tz::parse("x", &block(0, &sample(), false)).unwrap();
    assert_eq!(zone.leap_correction(i64::MIN), 0);
    assert_eq!(zone.leap_correction(78_796_799), 0);
    assert_eq!(zone.leap_correction(78_796_800), 1);
    assert_eq!(zone.leap_correction(94_694_399), 1);
    assert_eq!(zone.leap_correction(94_694_400), 2);
    assert_eq!(zone.leap_correction(i64::MAX), 2);
    assert_eq!(zone.offset_for_instant(78_796_799), zone.offset_for_instant(78_796_800));
    let mut body = sample();
    body.leaps.clear();
    let none = Tz::parse("x", &block(0, &body, false)).unwrap();
    assert_eq!(none.leap_correction(0), 0);
}

#[test]
fn a_copy_of_a_zone_holds_the_same() {
    let zone =
        Tz::parse("ruled", &version_two(b'2', &sample(), b"CET-1CEST,M3.5.0,M10.5.0/3")).unwrap();
    let copy = zone.clone();
    assert_eq!(copy, zone);
    assert_eq!(copy.name(), "ruled");
    assert_eq!(copy.recurrence(), zone.recurrence());
    assert_eq!(copy.offset_for_instant(1 << 33), zone.offset_for_instant(1 << 33));
    let odd = Tz::parse("odd", &version_two(b'2', &sample(), b"?")).unwrap();
    assert!(odd.clone().rule_malformed());
    assert_ne!(odd, zone);
}

#[test]
fn the_magic_tag_tells_zone_files_apart() {
    assert!(tzfile::decode::is_tzif(b"TZif"));
    assert!(tzfile::decode::is_tzif(&block(0, &sample(), false)));
    assert!(!tzfile::decode::is_tzif(b"TZi"));
    assert!(!tzfile::decode::is_tzif(b""));
    assert!(!tzfile::decode::is_tzif(b"tzif2"));
    assert!(!tzfile::decode::is_tzif(b"# version 2026a"));
}
