use chrono::{Duration, Offset, TimeZone, Utc};
use proptest::sample::select;
use proptest::strategy::Strategy;
use proptest::test_runner::{TestCaseError, TestRunner};
use tzfile::bundled::{all, parse};

/// Zones whose history release 2026a of the database revises; the
/// reference holds release 2025b.
const REVISED: [&str; 6] = [
    "America/Ensenada",
    "America/Santa_Isabel",
    "America/Tijuana",
    "Europe/Chisinau",
    "Europe/Tiraspol",
    "Mexico/BajaNorte",
];

fn bundled_entries_supported_by_chrono_tz() -> Vec<&'static str> {
    all()
        .iter()
        .filter(|(name, _)| name.parse::<chrono_tz::Tz>().is_ok())
        .filter(|(name, _)| !REVISED.contains(name))
        .map(|(name, _)| *name)
        .collect()
}

fn bundled_entry_strategy() -> impl Strategy<Value = &'static str> {
    let entries = bundled_entries_supported_by_chrono_tz();
    assert!(
        !entries.is_empty(),
        "no bundled entries are parseable by chrono-tz"
    );
    select(entries)
}

#[test]
fn bundled_matches_chrono_tz_with_proptest() {
    let mut runner = TestRunner::deterministic();
    let strategy = (bundled_entry_strategy(), -2_208_988_800_i64..1_735_689_600_i64);
    runner
        .run(&strategy, |(tz_name, ts)| {
            let our_tz = parse(tz_name).map_err(|e| {
                TestCaseError::fail(format!("tzfile parse failed for {tz_name}: {e:?}"))
            })?;
            let utc = Utc.timestamp_opt(ts, 0).single().ok_or_else(|| {
                TestCaseError::fail(format!("timestamp out of range for chrono: {ts}"))
            })?;
            let ours = our_tz.offset_for_instant(ts).utc_offset;
            let chrono_tz = tz_name.parse::<chrono_tz::Tz>().map_err(|e| {
                TestCaseError::fail(format!("chrono_tz parse failed for {tz_name}: {e}"))
            })?;
            let theirs = chrono_tz
                .offset_from_utc_datetime(&utc.naive_utc())
                .fix()
                .local_minus_utc();
            if ours != theirs {
                return Err(TestCaseError::fail(format!(
                    "{tz_name} at {ts}: {ours} is not {theirs}"
                )));
            }
            Ok(())
        })
        .unwrap();
}

#[test]
fn bundled_local_times_match_chrono_tz_with_proptest() {
    let mut runner = TestRunner::deterministic();
    let strategy = (bundled_entry_strategy(), -2_208_988_800_i64..1_735_689_600_i64);
    runner
        .run(&strategy, |(tz_name, ts)| {
            let our_tz = parse(tz_name).map_err(|e| {
                TestCaseError::fail(format!("tzfile parse failed for {tz_name}: {e:?}"))
            })?;
            let chrono_tz = tz_name.parse::<chrono_tz::Tz>().map_err(|e| {
                TestCaseError::fail(format!("chrono_tz parse failed for {tz_name}: {e}"))
            })?;
            let utc = Utc.timestamp_opt(ts, 0).single().ok_or_else(|| {
                TestCaseError::fail(format!("timestamp out of range for chrono: {ts}"))
            })?;
            let ours = utc.naive_utc()
                + Duration::seconds(our_tz.offset_for_instant(ts).utc_offset as i64);
            let theirs = utc.with_timezone(&chrono_tz);
            if ours != theirs.naive_local() {
                return Err(TestCaseError::fail(format!("{tz_name} at {ts}")));
            }
            Ok(())
        })
        .unwrap();
}

#[test]
fn rule_years_match_chrono_tz_on_sampled_days() {
    // Every bundled zone, at noon UTC of every eleventh day from 2000 to 2024,
    // and every hour of the weeks in which most zones change their clocks.
    for name in bundled_entries_supported_by_chrono_tz() {
        let reference = name.parse::<chrono_tz::Tz>().unwrap();
        let zone = parse(name).unwrap();
        let mut ts: i64 = 946_728_000;
        while ts < 1_735_689_600 {
            let utc = Utc.timestamp_opt(ts, 0).single().unwrap();
            let theirs = reference
                .offset_from_utc_datetime(&utc.naive_utc())
                .fix()
                .local_minus_utc();
            assert_eq!(zone.offset_for_instant(ts).utc_offset, theirs, "{name} at {ts}");
            ts += 11 * 86_400;
        }
        let mut ts: i64 = 1_709_251_200;
        while ts < 1_713_139_200 {
            let utc = Utc.timestamp_opt(ts, 0).single().unwrap();
            let theirs = reference
                .offset_from_utc_datetime(&utc.naive_utc())
                .fix()
                .local_minus_utc();
            assert_eq!(zone.offset_for_instant(ts).utc_offset, theirs, "{name} at {ts}");
            ts += 3_600;
        }
    }
}

#[test]
fn the_reference_knows_every_bundled_zone_but_one() {
    let unknown: Vec<&str> = all()
        .iter()
        .map(|(name, _)| *name)
        .filter(|name| name.parse::<chrono_tz::Tz>().is_err())
        .collect();
    assert_eq!(unknown, vec!["Factory"]);
    assert_eq!(bundled_entries_supported_by_chrono_tz().len(), 598 - 1 - REVISED.len());
}

#[test]
fn every_bundled_zone_matches_chrono_tz_day_by_day() {
    // Noon UTC of every fifth day from 1900 to 2024.
    for name in bundled_entries_supported_by_chrono_tz() {
        let reference = name.parse::<chrono_tz::Tz>().unwrap();
        let zone = parse(name).unwrap();
        let mut ts: i64 = -2_208_945_600;
        while ts < 1_735_689_600 {
            let utc = Utc.timestamp_opt(ts, 0).single().unwrap();
            let theirs = reference
                .offset_from_utc_datetime(&utc.naive_utc())
                .fix()
                .local_minus_utc();
            assert_eq!(zone.offset_for_instant(ts).utc_offset, theirs, "{name} at {ts}");
            ts += 5 * 86_400;
        }
    }
}
