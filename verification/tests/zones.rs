use tzfile::bundled::{all, parse};
use tzfile::civil::seconds_from_civil;
use tzfile::{parse_rule, Disambiguated, Error, GapPolicy, Tz};

fn at(zone: &Tz, instant: i64) -> (i32, bool, String) {
    let r = zone.offset_for_instant(instant);
    (r.utc_offset, r.is_dst, String::from_utf8(r.designation.to_vec()).unwrap())
}

fn named(offset: i32, is_dst: bool, designation: &str) -> (i32, bool, String) {
    (offset, is_dst, designation.to_string())
}

#[test]
fn amsterdam_one_second_after_the_transition_of_1914() {
    let zone = parse("Europe/Amsterdam").unwrap();
    // 1914-11-08T00:00:00Z: Western European Time gives way to Central.
    let transition = seconds_from_civil(1914, 11, 8, 0, 0, 0);
    assert_eq!(transition, -1_740_355_200);
    assert_eq!(at(&zone, transition - 1), named(0, false, "WET"));
    assert_eq!(at(&zone, transition), named(3_600, false, "CET"));
    assert_eq!(at(&zone, transition + 1), named(3_600, false, "CET"));
    // 1914-01-01T13:40:28Z.
    assert_eq!(at(&zone, -1_767_176_372), named(0, false, "WET"));
}

#[test]
fn every_transition_of_every_zone_begins_its_type() {
    for (name, bytes) in all() {
        let zone = Tz::parse(name, bytes).unwrap();
        let transitions = zone.transitions();
        let types = zone.types();
        for (i, transition) in transitions.iter().enumerate() {
            let last = i + 1 == transitions.len();
            if !last && transitions[i + 1].instant == transition.instant {
                continue;
            }
            if !(last && zone.recurrence().is_some()) {
                let begun = types[transition.type_index as usize];
                let r = zone.offset_for_instant(transition.instant);
                assert_eq!((r.utc_offset, r.is_dst), (begun.utc_offset, begun.is_dst), "{name}");
            }
            if i > 0 && transitions[i - 1].instant == transition.instant {
                continue;
            }
            let before = if i == 0 {
                types[0]
            } else {
                types[transitions[i - 1].type_index as usize]
            };
            let r = zone.offset_for_instant(transition.instant - 1);
            assert_eq!((r.utc_offset, r.is_dst), (before.utc_offset, before.is_dst), "{name}");
        }
    }
}

#[test]
fn every_zone_has_its_transitions_in_order() {
    for (name, bytes) in all() {
        let zone = Tz::parse(name, bytes).unwrap();
        assert!(zone.transitions().windows(2).all(|w| w[0].instant <= w[1].instant), "{name}");
        assert!(!zone.rule_malformed(), "{name}");
        assert!(!zone.types().is_empty());
    }
}

#[test]
fn every_zone_answers_at_the_ends_of_the_time_line() {
    for (name, bytes) in all() {
        let zone = Tz::parse(name, bytes).unwrap();
        let first = zone.types()[0];
        let early = zone.offset_for_instant(i64::MIN);
        if !zone.transitions().is_empty() {
            assert_eq!((early.utc_offset, early.is_dst), (first.utc_offset, first.is_dst));
        }
        let late = zone.offset_for_instant(i64::MAX);
        let rule = zone.recurrence().unwrap();
        let by_rule = rule.resolve(i64::MAX);
        assert_eq!(late, by_rule, "{name}");
    }
}

#[test]
fn new_york_changes_its_clocks_in_2025() {
    let zone = parse("America/New_York").unwrap();
    assert_eq!(at(&zone, 1_741_503_599), named(-18_000, false, "EST"));
    assert_eq!(at(&zone, 1_741_503_600), named(-14_400, true, "EDT"));
    assert_eq!(at(&zone, 1_762_063_199), named(-14_400, true, "EDT"));
    assert_eq!(at(&zone, 1_762_063_200), named(-18_000, false, "EST"));
}

#[test]
fn far_beyond_the_last_transition_the_rule_decides() {
    // 2200-01-01T12:00:00Z and 2200-07-01T12:00:00Z.
    let new_york = parse("America/New_York").unwrap();
    assert_eq!(at(&new_york, 7_258_161_600), named(-18_000, false, "EST"));
    assert_eq!(at(&new_york, 7_273_800_000), named(-14_400, true, "EDT"));
    let sydney = parse("Australia/Sydney").unwrap();
    assert_eq!(at(&sydney, 7_258_161_600), named(39_600, true, "AEDT"));
    assert_eq!(at(&sydney, 7_273_800_000), named(36_000, false, "AEST"));
    // The years 2030, 2100 and 2400 in zones with rules of every shape.
    for (name, changes) in [
        ("America/New_York", [(1_899_356_400, -14_400), (1_919_916_000, -18_000)]),
        ("Europe/Amsterdam", [(1_901_149_200, 7_200), (1_919_293_200, 3_600)]),
        ("Australia/Sydney", [(1_901_721_600, 36_000), (1_917_446_400, 39_600)]),
        ("Asia/Gaza", [(1_901_059_200, 10_800), (1_919_199_600, 7_200)]),
        ("America/Santiago", [(1_901_761_200, -14_400), (1_915_070_400, -10_800)]),
        ("Africa/Cairo", [(1_903_384_800, 10_800), (1_919_710_800, 7_200)]),
        ("Asia/Jerusalem", [(1_900_972_800, 10_800), (1_919_286_000, 7_200)]),
        ("America/New_York", [(4_108_690_800, -14_400), (4_129_250_400, -18_000)]),
        ("Asia/Gaza", [(4_109_788_800, 10_800), (4_128_534_000, 7_200)]),
        ("America/Santiago", [(4_110_490_800, -14_400), (4_123_800_000, -10_800)]),
        ("Europe/Amsterdam", [(13_576_813_200, 7_200), (13_595_562_000, 3_600)]),
        ("Africa/Cairo", [(13_579_653_600, 10_800), (13_595_374_800, 7_200)]),
        ("Asia/Jerusalem", [(13_576_636_800, 10_800), (13_595_554_800, 7_200)]),
    ] {
        let zone = parse(name).unwrap();
        let [(first, first_offset), (second, second_offset)] = changes;
        assert_eq!(zone.offset_for_instant(first - 1).utc_offset, second_offset, "{name}");
        assert_eq!(zone.offset_for_instant(first).utc_offset, first_offset, "{name}");
        assert_eq!(zone.offset_for_instant(second - 1).utc_offset, first_offset, "{name}");
        assert_eq!(zone.offset_for_instant(second).utc_offset, second_offset, "{name}");
    }
}

#[test]
fn the_zone_and_its_rule_agree_from_the_last_transition_on() {
    for (name, text) in [
        ("America/New_York", &b"EST5EDT,M3.2.0,M11.1.0"[..]),
        ("Europe/Dublin", b"IST-1GMT0,M10.5.0,M3.5.0/1"),
        ("Australia/Lord_Howe", b"<+1030>-10:30<+11>-11,M10.1.0,M4.1.0"),
        ("America/Nuuk", b"<-02>2<-01>,M3.5.0/-1,M10.5.0/0"),
        ("Asia/Kathmandu", b"<+0545>-5:45"),
    ] {
        let zone = parse(name).unwrap();
        let rule = parse_rule(text).unwrap();
        assert_eq!(zone.recurrence(), Some(&rule), "{name}");
        let last = zone.transitions().last().unwrap().instant;
        let mut instant = last;
        while instant < last + 40 * 366 * 86_400 {
            assert_eq!(zone.offset_for_instant(instant), rule.resolve(instant), "{name}");
            instant += 86_400 * 5 + 3_601;
        }
    }
}

#[test]
fn zones_with_unusual_rules() {
    // Ireland's standard time is its summer time.
    let dublin = parse("Europe/Dublin").unwrap();
    assert_eq!(at(&dublin, 1_893_456_000), named(0, true, "GMT"));
    assert_eq!(at(&dublin, 1_909_094_400), named(3_600, false, "IST"));
    // Half an hour of daylight time.
    let lord_howe = parse("Australia/Lord_Howe").unwrap();
    assert_eq!(at(&lord_howe, 1_893_456_000), named(39_600, true, "+11"));
    assert_eq!(at(&lord_howe, 1_909_094_400), named(37_800, false, "+1030"));
    // A change at a negative time of day.
    let nuuk = parse("America/Nuuk").unwrap();
    assert_eq!(at(&nuuk, 1_893_456_000), named(-7_200, false, "-02"));
    assert_eq!(at(&nuuk, 1_909_094_400), named(-3_600, true, "-01"));
    // No daylight time at all.
    let tokyo = parse("Asia/Tokyo").unwrap();
    assert_eq!(at(&tokyo, 0), named(32_400, false, "JST"));
    assert_eq!(at(&tokyo, -3_000_000_000), named(33_539, false, "LMT"));
    assert_eq!(at(&tokyo, i64::MAX), named(32_400, false, "JST"));
    let kathmandu = parse("Asia/Kathmandu").unwrap();
    assert_eq!(at(&kathmandu, 1_700_000_000), named(20_700, false, "+0545"));
    let utc = parse("UTC").unwrap();
    assert!(utc.transitions().is_empty());
    assert_eq!(at(&utc, i64::MIN), named(0, false, "UTC"));
    assert_eq!(at(&utc, 0), named(0, false, "UTC"));
    // A day that the calendar of a zone never had.
    let apia = parse("Pacific/Apia").unwrap();
    assert_eq!(at(&apia, 1_325_152_800 - 1).0, -36_000);
    assert_eq!(at(&apia, 1_325_239_200).0, 50_400);
}

#[test]
fn amsterdam_skips_and_repeats_an_hour_in_2025() {
    let zone = parse("Europe/Amsterdam").unwrap();
    // 02:30 on 2025-03-30 is skipped.
    let skipped = seconds_from_civil(2025, 3, 30, 2, 30, 0);
    match zone.offset_for_local(skipped, GapPolicy::ReportAdjoining) {
        Disambiguated::Gap(Some((before, after))) => {
            assert_eq!((before.utc_offset, before.designation), (3_600, &b"CET"[..]));
            assert_eq!((after.utc_offset, after.designation), (7_200, &b"CEST"[..]));
        }
        other => panic!("{other:?}"),
    }
    assert_eq!(zone.offset_for_local(skipped, GapPolicy::Reject), Disambiguated::Gap(None));
    // 02:30 on 2025-10-26 comes twice.
    let repeated = seconds_from_civil(2025, 10, 26, 2, 30, 0);
    match zone.offset_for_local(repeated, GapPolicy::Reject) {
        Disambiguated::Overlap(earliest, latest) => {
            assert_eq!(earliest.instant, 1_761_438_600);
            assert_eq!(
                (earliest.resolved.utc_offset, earliest.resolved.designation),
                (7_200, &b"CEST"[..])
            );
            assert_eq!(latest.instant, 1_761_442_200);
            assert_eq!(
                (latest.resolved.utc_offset, latest.resolved.designation),
                (3_600, &b"CET"[..])
            );
        }
        other => panic!("{other:?}"),
    }
    // Noon on 2025-07-01 comes once.
    let noon = seconds_from_civil(2025, 7, 1, 12, 0, 0);
    match zone.offset_for_local(noon, GapPolicy::Reject) {
        Disambiguated::Unique(only) => {
            assert_eq!(only.instant, noon - 7_200);
            assert_eq!(only.resolved.designation, b"CEST");
        }
        other => panic!("{other:?}"),
    }
    // The edges of the gap and of the overlap.
    let unique = |local: i64| match zone.offset_for_local(local, GapPolicy::Reject) {
        Disambiguated::Unique(only) => only.instant,
        other => panic!("{local}: {other:?}"),
    };
    assert_eq!(unique(skipped - 1_801), 1_743_296_399);
    assert_eq!(unique(skipped + 1_800), 1_743_296_400);
    assert_eq!(unique(repeated - 1_801), 1_761_436_799);
    assert_eq!(unique(repeated + 1_800), 1_761_444_000);
}

#[test]
fn new_york_skips_and_repeats_an_hour_in_2025() {
    let zone = parse("America/New_York").unwrap();
    match zone.offset_for_local(1_741_487_400, GapPolicy::ReportAdjoining) {
        Disambiguated::Gap(Some((before, after))) => {
            assert_eq!((before.utc_offset, before.designation), (-18_000, &b"EST"[..]));
            assert_eq!((after.utc_offset, after.designation), (-14_400, &b"EDT"[..]));
        }
        other => panic!("{other:?}"),
    }
    match zone.offset_for_local(1_762_047_000, GapPolicy::ReportAdjoining) {
        Disambiguated::Overlap(earliest, latest) => {
            assert_eq!((earliest.instant, earliest.resolved.utc_offset), (1_762_061_400, -14_400));
            assert_eq!((latest.instant, latest.resolved.utc_offset), (1_762_065_000, -18_000));
        }
        other => panic!("{other:?}"),
    }
}

#[test]
fn a_gap_in_the_table_of_a_real_zone() {
    // Amsterdam, 1914-11-08: the clocks go from midnight to one o'clock.
    let zone = parse("Europe/Amsterdam").unwrap();
    let skipped = seconds_from_civil(1914, 11, 8, 0, 30, 0);
    match zone.offset_for_local(skipped, GapPolicy::ReportAdjoining) {
        Disambiguated::Gap(Some((before, after))) => {
            assert_eq!((before.utc_offset, before.designation), (0, &b"WET"[..]));
            assert_eq!((after.utc_offset, after.designation), (3_600, &b"CET"[..]));
        }
        other => panic!("{other:?}"),
    }
}

#[test]
fn every_unique_and_overlapping_answer_shows_the_reading() {
    for (name, bytes) in all() {
        let zone = Tz::parse(name, bytes).unwrap();
        let mut local: i64 = 1_600_000_000;
        while local < 1_640_000_000 {
            match zone.offset_for_local(local, GapPolicy::ReportAdjoining) {
                Disambiguated::Unique(only) => {
                    assert_eq!(only.instant + only.resolved.utc_offset as i64, local);
                    assert_eq!(zone.offset_for_instant(only.instant), only.resolved);
                }
                Disambiguated::Overlap(earliest, latest) => {
                    assert!(earliest.instant < latest.instant);
                    assert_eq!(earliest.instant + earliest.resolved.utc_offset as i64, local);
                    assert_eq!(latest.instant + latest.resolved.utc_offset as i64, local);
                }
                Disambiguated::Gap(sides) => {
                    let (before, after) = sides.unwrap();
                    assert!(before.utc_offset < after.utc_offset, "{name} at {local}");
                }
            }
            local += 18_001;
        }
    }
}

#[test]
fn truncating_any_bundled_buffer_is_an_error() {
    for (name, bytes) in all() {
        for k in 0..bytes.len() {
            let e = Tz::parse(name, &bytes[..k]).unwrap_err();
            assert!(
                e == Error::MalformedHeader || e == Error::TruncatedBody,
                "{name} cut at {k}: {e:?}"
            );
        }
    }
}

#[test]
fn corrupting_a_type_index_of_a_bundled_buffer_is_an_error() {
    let bytes = all().iter().find(|(name, _)| *name == "Europe/Amsterdam").unwrap().1;
    // The second block begins at byte 51 and holds 102 transitions and 6 types.
    let indexes_at = 51 + 44 + 8 * 102;
    for i in [0, 1, 50, 101] {
        for bad_index in [6u8, 7, 255] {
            let mut bad = bytes.to_vec();
            bad[indexes_at + i] = bad_index;
            assert_eq!(Tz::parse("x", &bad).unwrap_err(), Error::IndexOutOfRange);
        }
        let mut fine = bytes.to_vec();
        fine[indexes_at + i] = 5;
        assert!(Tz::parse("x", &fine).is_ok());
    }
}

#[test]
fn readings_given_by_date_and_time() {
    let zone = parse("Europe/Amsterdam").unwrap();
    assert_eq!(
        zone.offset_for_civil(2025, 3, 30, 2, 30, 0, GapPolicy::Reject),
        Some(Disambiguated::Gap(None))
    );
    assert_eq!(
        zone.offset_for_civil(2025, 10, 26, 2, 30, 0, GapPolicy::Reject),
        Some(zone.offset_for_local(1_761_445_800, GapPolicy::Reject))
    );
    match zone.offset_for_civil(2025, 7, 1, 12, 0, 0, GapPolicy::ReportAdjoining) {
        Some(Disambiguated::Unique(only)) => assert_eq!(only.instant, 1_751_371_200 - 7_200),
        other => panic!("{other:?}"),
    }
    // Fields that name no date or no time of day.
    assert_eq!(zone.offset_for_civil(2025, 2, 29, 0, 0, 0, GapPolicy::Reject), None);
    assert_eq!(zone.offset_for_civil(2025, 13, 1, 0, 0, 0, GapPolicy::Reject), None);
    assert_eq!(zone.offset_for_civil(2025, 1, 1, 24, 0, 0, GapPolicy::Reject), None);
    assert_eq!(zone.offset_for_civil(2025, 1, 1, 0, 0, 60, GapPolicy::Reject), None);
    assert!(zone.offset_for_civil(i32::MIN, 1, 1, 0, 0, 0, GapPolicy::Reject).is_some());
    assert!(zone.offset_for_civil(i32::MAX, 12, 31, 23, 59, 59, GapPolicy::Reject).is_some());
}
