use timeline_core::input::{parse_when, split_command};
use timeline_core::zoned_datetime::ZonedDateTime;

#[test]
fn zoned_text_is_read_as_is() {
    let z = parse_when("2024-05-01T10:00:00+02:00[+02:00]").unwrap();
    assert_eq!(z.hour(), 10);
    assert_eq!(z.time_zone_id(), "+02:00");
    assert_eq!(z.epoch_nanoseconds_value(), 1_714_550_400_000_000_000);
}

#[test]
fn date_time_text_is_read_at_utc() {
    let z = parse_when("2024-05-01T10:00").unwrap();
    assert_eq!(z.epoch_nanoseconds_value(), 1_714_557_600_000_000_000);
    assert_eq!(z.time_zone_id(), "+00:00");
}

#[test]
fn date_text_is_read_at_midnight_utc() {
    let z = parse_when("2024-05-01").unwrap();
    assert_eq!(z.epoch_nanoseconds_value(), 1_714_521_600_000_000_000);
    assert_eq!((z.year(), z.month(), z.day(), z.hour()), (2024, 5, 1, 0));
}

#[test]
fn nonsense_is_refused() {
    let err = parse_when("yesterday-ish").unwrap_err();
    assert!(!err.is_empty());
}

#[test]
fn parts_become_a_zoned_date_time_or_pass_the_error_on() {
    let ok = ZonedDateTime::from_parts(Ok((0, "+00:00".to_string(), "iso8601".to_string()))).unwrap();
    assert_eq!(ok.year(), 1970);
    let err = ZonedDateTime::from_parts(Err("broken".to_string())).unwrap_err();
    assert_eq!(err, "broken");
}

#[test]
fn command_lines_split_like_a_shell() {
    let words = split_command("add-event 2024-05-01 'first \"big\" launch'").unwrap();
    assert_eq!(words, vec!["add-event", "2024-05-01", "first \"big\" launch"]);
    assert_eq!(split_command("show").unwrap(), vec!["show"]);
    assert!(split_command("").unwrap().is_empty());
}

#[test]
fn broken_quoting_is_refused() {
    assert_eq!(split_command("add-event 'unclosed").unwrap_err(), "error: Invalid quoting");
}
