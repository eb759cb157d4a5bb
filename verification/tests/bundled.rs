use chrono::{Duration, NaiveDate, Offset, TimeZone, Utc};
use tzfile::bundled::{all, parse, version};
use tzfile::Error;

#[test]
fn parse_all() {
    for o in all() {
        let _ = parse(o.0).unwrap();
    }
}

#[test]
fn bundled_matches_chrono_tz_second_offsets_amsterdam() {
    let our_tz = parse("Europe/Amsterdam").expect("bundled Europe/Amsterdam should parse");
    let chrono_tz = "Europe/Amsterdam"
        .parse::<chrono_tz::Tz>()
        .expect("chrono-tz Europe/Amsterdam should parse");
    let utc_naive = NaiveDate::from_ymd_opt(1914, 1, 1)
        .expect("valid date")
        .and_hms_opt(13, 40, 28)
        .expect("valid time");
    let utc = Utc.from_utc_datetime(&utc_naive);

    let ours = our_tz.offset_for_instant(utc.timestamp());
    let theirs = utc.with_timezone(&chrono_tz);

    assert_eq!(
        utc_naive + Duration::seconds(ours.utc_offset as i64),
        theirs.naive_local()
    );
    assert_eq!(ours.utc_offset, theirs.offset().fix().local_minus_utc());
    assert_eq!(
        String::from_utf8(ours.designation.to_vec()).expect("ascii designation"),
        format!("{}", theirs.format("%Z"))
    );
}

#[test]
fn version_names_the_release() {
    assert_eq!(version(), "2026a");
}

#[test]
fn unknown_name_is_rejected() {
    assert_eq!(parse("Europe/Atlantis").unwrap_err(), Error::InvalidTimeZoneFileName);
    assert_eq!(parse("").unwrap_err(), Error::InvalidTimeZoneFileName);
    assert_eq!(parse("europe/amsterdam").unwrap_err(), Error::InvalidTimeZoneFileName);
}

#[test]
fn entries_are_in_name_order_and_begin_with_the_magic_tag() {
    let entries = all();
    assert_eq!(entries.len(), 598);
    for pair in entries.windows(2) {
        assert!(pair[0].0 < pair[1].0);
    }
    for (_, bytes) in entries {
        assert_eq!(&bytes[..4], b"TZif");
    }
}
