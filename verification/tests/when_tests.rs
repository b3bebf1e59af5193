use std::cmp::Ordering;

use timeline_core::duration::Duration;
use timeline_core::when::When;
use timeline_core::zoned_datetime::ZonedDateTime;

fn stored_text(when: &When) -> String {
    match when {
        When::Instant(z) => z.to_ixdtf().unwrap(),
        When::Period { start, .. } => start.to_ixdtf().unwrap(),
    }
}

fn round_trip(nanos: i128, offset: &str, calendar: &str) {
    let before = When::instant(ZonedDateTime::try_new(nanos, offset, calendar).unwrap());
    let json = serde_json::to_string(&stored_text(&before)).unwrap();
    println!("{}", json);
    let text: String = serde_json::from_str(&json).unwrap();
    let after = When::instant(ZonedDateTime::from_ixdtf(&text).unwrap());
    assert_eq!(before, after);
}

#[test]
fn when_serialization() {
    for ((nanos, offset), calendar) in [0i128, 1774453431]
        .into_iter()
        .zip(["+03:00", "+00:00"].into_iter())
        .zip(["gregory", "buddhist", "hebrew"].into_iter())
    {
        round_trip(nanos, offset, calendar);
    }
}

#[test]
fn when_when_serialization() {
    for ((nanos, offset), calendar) in [0i128, 1774453431]
        .into_iter()
        .zip(["+03:00", "+00:00"].into_iter())
        .zip(["gregory", "buddhist", "hebrew"].into_iter())
    {
        round_trip(nanos, offset, calendar);
    }
}

fn at(nanos: i128) -> ZonedDateTime {
    ZonedDateTime::try_new(nanos, "+00:00", "iso8601").unwrap()
}

#[test]
fn instants_compare_by_time() {
    assert!(When::instant(at(1)) < When::instant(at(2)));
    assert!(When::instant(at(5)) > When::instant(at(2)));
    assert_eq!(When::instant(at(7)), When::instant(at(7)));
    let other_zone = ZonedDateTime::try_new(7, "+05:00", "gregory").unwrap();
    assert_eq!(When::instant(at(7)), When::instant(other_zone));
}

#[test]
fn instant_and_period_compare_only_outside_it() {
    let period = When::Period { start: at(10), end: at(20) };
    assert!(When::instant(at(5)) < period);
    assert!(When::instant(at(25)) > period);
    assert_eq!(When::instant(at(15)).partial_cmp(&period), None);
    assert_eq!(period.partial_cmp(&When::instant(at(15))), None);
    assert_ne!(When::instant(at(15)), period);
}

#[test]
fn periods_compare_by_start_then_end() {
    let a = When::Period { start: at(10), end: at(20) };
    let b = When::Period { start: at(10), end: at(30) };
    let c = When::Period { start: at(5), end: at(40) };
    assert!(a < b);
    assert!(c < a);
    assert_eq!(a, When::Period { start: at(10), end: at(20) });
}

#[test]
fn period_text_joins_both_ends() {
    let start = at(0);
    let end = at(60_000_000_000);
    let text = When::Period { start: start.clone(), end: end.clone() }.to_string();
    assert_eq!(text, format!("{} - {}", start.to_string(), end.to_string()));
    assert_eq!(When::instant(start.clone()).to_string(), start.to_string());
}

#[test]
fn zoned_fields_read_in_the_zone() {
    let z = ZonedDateTime::try_new(0, "+03:00", "iso8601").unwrap();
    assert_eq!(z.year(), 1970);
    assert_eq!(z.month(), 1);
    assert_eq!(z.day(), 1);
    assert_eq!(z.hour(), 3);
    assert_eq!(z.minute(), 0);
    assert_eq!(z.second(), 0);
    let later = ZonedDateTime::try_new(86_399_000_000_000, "+00:00", "iso8601").unwrap();
    assert_eq!(later.hour(), 23);
    assert_eq!(later.minute(), 59);
    assert_eq!(later.second(), 59);
}

#[test]
fn zoned_text_is_what_temporal_writes() {
    let z = ZonedDateTime::try_new(1774453431, "+03:00", "gregory").unwrap();
    let reference = temporal_rs::ZonedDateTime::try_new(
        1774453431,
        temporal_rs::TimeZone::try_from_str("+03:00").unwrap(),
        "gregory".parse::<temporal_rs::Calendar>().unwrap(),
    )
    .unwrap();
    assert_eq!(z.to_string(), reference.to_string());
    let ixdtf = reference
        .to_ixdtf_string(
            temporal_rs::options::DisplayOffset::Auto,
            temporal_rs::options::DisplayTimeZone::Auto,
            temporal_rs::options::DisplayCalendar::Always,
            temporal_rs::options::ToStringRoundingOptions {
                smallest_unit: Some(temporal_rs::options::Unit::Nanosecond),
                ..Default::default()
            },
        )
        .unwrap();
    assert_eq!(z.to_ixdtf().unwrap(), ixdtf);
    assert!(ixdtf.contains("u-ca=gregory"));
}

#[test]
fn zoned_rejects_unknown_zone_or_calendar() {
    assert!(ZonedDateTime::try_new(0, "Not/AZone", "iso8601").is_none());
    assert!(ZonedDateTime::try_new(0, "+00:00", "no-such-calendar").is_none());
    assert!(ZonedDateTime::from_ixdtf("not a date").is_err());
}

#[test]
fn zoned_default_is_the_epoch() {
    let z = ZonedDateTime::default();
    assert_eq!(z.epoch_nanoseconds_value(), 0);
    assert_eq!(z.year(), 1970);
    assert_eq!(z.calendar_id(), "iso8601");
}

#[test]
fn compare_instant_orders_by_nanoseconds() {
    assert_eq!(at(1).compare_instant(&at(2)), Ordering::Less);
    assert_eq!(at(2).compare_instant(&at(2)), Ordering::Equal);
    assert_eq!(at(3).compare_instant(&at(2)), Ordering::Greater);
}

#[test]
fn durations_move_a_zoned_date_time() {
    let z = at(0);
    let next_year = z.add_duration(Duration::of_years(1));
    assert_eq!(next_year.epoch_nanoseconds_value(), 365 * 86_400 * 1_000_000_000);
    assert_eq!(next_year.year(), 1971);
    assert_eq!(next_year.time_zone_id(), "+00:00");
    let back = next_year.sub_duration(Duration::of_nanoseconds(1));
    assert_eq!(back.epoch_nanoseconds_value(), 365 * 86_400 * 1_000_000_000 - 1);
    let mut moving = at(10);
    moving.add_assign_duration(Duration::of_nanoseconds(5));
    assert_eq!(moving.epoch_nanoseconds_value(), 15);
    let mixed = Duration { years: 1, ..Duration::of_nanoseconds(-1) };
    assert!(z.checked_add_duration(mixed).is_none());
    assert!(z.checked_sub_duration(mixed).is_none());
    assert_eq!(z.checked_add_duration(Duration::of_years(2)).unwrap().year(), 1972);
    assert_eq!(z.checked_sub_duration(Duration::of_years(2)).unwrap().year(), 1968);
}

#[test]
fn stored_text_reads_back_the_same_zone_and_calendar() {
    for (nanos, offset, calendar) in [
        (0i128, "+03:00", "gregory"),
        (1774453431, "-05:30", "buddhist"),
        (-86_400_000_000_000, "+00:00", "hebrew"),
    ] {
        let z = ZonedDateTime::try_new(nanos, offset, calendar).unwrap();
        let text = z.to_ixdtf().unwrap();
        let back = ZonedDateTime::from_ixdtf(&text).unwrap();
        assert_eq!(back.epoch_nanoseconds_value(), nanos);
        assert_eq!(back.time_zone_id(), offset);
        assert_eq!(back.calendar_id(), calendar);
        assert_eq!((back.year(), back.month(), back.day()), (z.year(), z.month(), z.day()));
        assert_eq!((back.hour(), back.minute(), back.second()), (z.hour(), z.minute(), z.second()));
        assert_eq!(back.to_ixdtf().unwrap(), text);
        assert_eq!(back.to_string(), z.to_string());
    }
}

#[test]
fn checked_add_assign_moves_only_when_it_can() {
    let mut z = at(100);
    assert!(z.checked_add_assign_duration(Duration::of_nanoseconds(5)));
    assert_eq!(z.epoch_nanoseconds_value(), 105);
    let mixed = Duration { years: 1, ..Duration::of_nanoseconds(-1) };
    assert!(!z.checked_add_assign_duration(mixed));
    assert_eq!(z.epoch_nanoseconds_value(), 105);
}
