//! The calls this crate makes into `temporal_rs`, each behind a small trusted
//! wrapper that converts between the crate's plain values and the
//! `temporal_rs` types.
//!
//! A zoned date-time is handed to these wrappers as three plain values: its
//! epoch nanoseconds, its time-zone identifier and its calendar identifier.
//! Each wrapper rebuilds the `temporal_rs::ZonedDateTime` from them.
//! Dates are always ISO dates, handed over as year and month (and the day,
//! which this crate only ever sets to the first of the month).

use temporal_rs::options::{
    DifferenceSettings, Disambiguation, DisplayCalendar, DisplayOffset, DisplayTimeZone,
    OffsetDisambiguation, Overflow, ToStringRoundingOptions, Unit,
};
use vstd::prelude::*;

use crate::duration::Duration;

verus! {

/// Whether `year` is a leap year of the proleptic Gregorian calendar.
pub open spec fn is_leap_year(year: int) -> bool {
    year % 4 == 0 && (year % 100 != 0 || year % 400 == 0)
}

/// The number of days of a month of the ISO calendar.
pub open spec fn iso_days_in_month(year: int, month: int) -> int {
    if month == 2 {
        if is_leap_year(year) {
            29
        } else {
            28
        }
    } else if month == 4 || month == 6 || month == 9 || month == 11 {
        30
    } else {
        31
    }
}

/// Whether `(year, month, day)` is a day of the ISO calendar that
/// `temporal_rs` represents as a date: from -271821-04-19 to +275760-09-13.
pub open spec fn iso_date_valid(year: int, month: int, day: int) -> bool {
    &&& 1 <= month <= 12
    &&& 1 <= day <= iso_days_in_month(year, month)
    &&& {
        ||| year > -271821
        ||| year == -271821 && (month > 4 || month == 4 && day >= 19)
    }
    &&& {
        ||| year < 275760
        ||| year == 275760 && (month < 9 || month == 9 && day <= 13)
    }
}

/// Whether the first of a month is a date that `temporal_rs` represents.
pub open spec fn first_of_month_in_limits(year: int, month: int) -> bool {
    iso_date_valid(year, month, 1)
}

/// The year of `(year, month)` moved by `years` years and `months` months.
pub open spec fn shifted_year(year: int, month: int, years: int, months: int) -> int {
    year + years + (month - 1 + months) / 12
}

/// The month of `(year, month)` moved by `years` years and `months` months.
pub open spec fn shifted_month(year: int, month: int, years: int, months: int) -> int {
    (month - 1 + months) % 12 + 1
}

/// What `PlainDate::add` gives for the first of a month and a duration of
/// whole years or whole months: the first of the shifted month, if it is in
/// range.
pub open spec fn first_of_month_plus(year: int, month: int, years: int, months: int) -> Option<(
    i32,
    u8,
)> {
    let y = shifted_year(year, month, years, months);
    let m = shifted_month(year, month, years, months);
    if first_of_month_in_limits(y, m) {
        Some((y as i32, m as u8))
    } else {
        None
    }
}

/// Whether a duration of `years` years and `months` months is one that
/// `temporal_rs::duration::DateDuration::new` accepts, with one of them zero.
pub open spec fn whole_shift(years: int, months: int) -> bool {
    &&& years == 0 || months == 0
    &&& -4294967296 < years < 4294967296
    &&& -4294967296 < months < 4294967296
}

/// Whether `temporal_rs::ZonedDateTime::try_new` accepts these epoch
/// nanoseconds with the time zone and calendar that the identifiers name.
pub uninterp spec fn zoned_fields_valid(
    epoch_nanoseconds: i128,
    time_zone: Seq<char>,
    calendar: Seq<char>,
) -> bool;

/// `ZonedDateTime::year` of the zoned date-time these values describe.
pub uninterp spec fn zoned_year(epoch_nanoseconds: i128, time_zone: Seq<char>, calendar: Seq<char>) -> i32;

/// `ZonedDateTime::month` of the zoned date-time these values describe.
pub uninterp spec fn zoned_month(epoch_nanoseconds: i128, time_zone: Seq<char>, calendar: Seq<char>) -> u8;

/// `ZonedDateTime::day` of the zoned date-time these values describe.
pub uninterp spec fn zoned_day(epoch_nanoseconds: i128, time_zone: Seq<char>, calendar: Seq<char>) -> u8;

/// `ZonedDateTime::hour` of the zoned date-time these values describe.
pub uninterp spec fn zoned_hour(epoch_nanoseconds: i128, time_zone: Seq<char>, calendar: Seq<char>) -> u8;

/// `ZonedDateTime::minute` of the zoned date-time these values describe.
pub uninterp spec fn zoned_minute(epoch_nanoseconds: i128, time_zone: Seq<char>, calendar: Seq<char>) -> u8;

/// `ZonedDateTime::second` of the zoned date-time these values describe.
pub uninterp spec fn zoned_second(epoch_nanoseconds: i128, time_zone: Seq<char>, calendar: Seq<char>) -> u8;

/// The text that `Display` writes for the zoned date-time these values describe.
pub uninterp spec fn zoned_display_text(
    epoch_nanoseconds: i128,
    time_zone: Seq<char>,
    calendar: Seq<char>,
) -> Seq<char>;

/// Whether `c` is a decimal digit.
pub open spec fn is_digit(c: char) -> bool {
    '0' <= c && c <= '9'
}

/// Whether `id` names a fixed UTC offset in whole minutes, written as a
/// sign, two digits of hours, a colon and two digits of minutes (for
/// example `+03:00`).
pub open spec fn is_minute_offset_id(id: Seq<char>) -> bool {
    &&& id.len() == 6
    &&& (id[0] == '+' || id[0] == '-')
    &&& is_digit(id[1]) && is_digit(id[2]) && id[3] == ':' && is_digit(id[4]) && is_digit(id[5])
}

/// Whether an instant lies at least a day inside the range of instants that
/// `temporal_rs` represents (a hundred million days either side of the
/// epoch), so that its local date and time at any UTC offset lie inside the
/// range of dates that its parser accepts.
pub open spec fn well_inside_instant_limits(epoch_nanoseconds: i128) -> bool {
    -8_639_999_913_600_000_000_000 <= epoch_nanoseconds <= 8_639_999_913_600_000_000_000
}

/// Whether `id` names a whole-minute UTC offset the way `temporal_rs`
/// writes it back: as `is_minute_offset_id` says, zero written as `+00:00`.
pub open spec fn is_canonical_offset_id(id: Seq<char>) -> bool {
    is_minute_offset_id(id) && id != "-00:00"@
}

/// Whether `id` is a calendar identifier that `temporal_rs` writes back
/// unchanged: the ISO calendar and the calendars whose identifier is a
/// single keyword.
pub open spec fn is_canonical_calendar_id(id: Seq<char>) -> bool {
    ||| id == "iso8601"@
    ||| id == "gregory"@
    ||| id == "buddhist"@
    ||| id == "hebrew"@
    ||| id == "coptic"@
    ||| id == "chinese"@
    ||| id == "dangi"@
    ||| id == "ethiopic"@
    ||| id == "ethioaa"@
}

/// What `ZonedDateTime::to_ixdtf_string` gives, with the offset and the time
/// zone shown as needed, the calendar always shown and nanosecond precision.
pub uninterp spec fn zoned_ixdtf_text(
    epoch_nanoseconds: i128,
    time_zone: Seq<char>,
    calendar: Seq<char>,
) -> Option<Seq<char>>;

/// What `ZonedDateTime::from_utf8` gives for this text when ambiguous and
/// conflicting offsets are rejected: the parsed value's epoch nanoseconds,
/// time-zone identifier and calendar identifier, or the error's message.
pub uninterp spec fn zoned_parsed_strict(text: Seq<char>) -> Result<
    (i128, Seq<char>, Seq<char>),
    Seq<char>,
>;

/// What `ZonedDateTime::from_utf8` gives for this text with the compatible
/// disambiguation and the offset ignored, in the same form.
pub uninterp spec fn zoned_parsed_lenient(text: Seq<char>) -> Result<
    (i128, Seq<char>, Seq<char>),
    Seq<char>,
>;

/// What `PlainDateTime::from_utf8` followed by `to_zoned_date_time` at the
/// UTC offset zero (compatible disambiguation) gives, in the same form;
/// `None` where the text is not a date-time.
pub uninterp spec fn plain_date_time_parsed_at_utc(text: Seq<char>) -> Option<
    Result<(i128, Seq<char>, Seq<char>), Seq<char>>,
>;

/// What `PlainDate::from_utf8` followed by `to_zoned_date_time` at the UTC
/// offset zero (start of the day) gives, in the same form.
pub uninterp spec fn plain_date_parsed_at_utc(text: Seq<char>) -> Result<
    (i128, Seq<char>, Seq<char>),
    Seq<char>,
>;

/// The epoch nanoseconds of `ZonedDateTime::add` with the overflow
/// constrained, for the zoned date-time these values describe and the
/// duration that `Duration::new` builds from `duration`'s fields; `None`
/// where either reports an error.
pub uninterp spec fn zoned_plus(
    epoch_nanoseconds: i128,
    time_zone: Seq<char>,
    calendar: Seq<char>,
    duration: Duration,
) -> Option<i128>;

/// The same for `ZonedDateTime::subtract`.
pub uninterp spec fn zoned_minus(
    epoch_nanoseconds: i128,
    time_zone: Seq<char>,
    calendar: Seq<char>,
    duration: Duration,
) -> Option<i128>;

/// The whole years that `PlainDate::since` reports from January 1 of `from_year`
/// to January 1 of `to_year` when years are the smallest unit.
pub uninterp spec fn jan_first_years_since(to_year: i32, from_year: i32) -> Option<i64>;

/// `PlainDate::try_new` in the ISO calendar, overflow rejected: whether it
/// accepts the date. It accepts a valid day of a valid month that lies in
/// the range `iso_date_valid` describes.
#[verifier::external_body]
pub(crate) fn iso_date_check(year: i32, month: u8, day: u8) -> (r: bool)
    ensures
        r == iso_date_valid(year as int, month as int, day as int),
{
    temporal_rs::PlainDate::try_new(year, month, day, temporal_rs::Calendar::ISO).is_ok()
}

/// `ZonedDateTime::try_new` with the time zone and calendar that the
/// identifiers name: whether it succeeds. It succeeds for the Unix epoch at
/// the UTC offset zero in the ISO calendar.
#[verifier::external_body]
pub(crate) fn zoned_fields_check(epoch_nanoseconds: i128, time_zone: &str, calendar: &str) -> (r:
    bool)
    ensures
        r == zoned_fields_valid(epoch_nanoseconds, time_zone@, calendar@),
        epoch_nanoseconds == 0 && time_zone@ == "+00:00"@ && calendar@ == "iso8601"@ ==> r,
{
    let tz = temporal_rs::TimeZone::try_from_str(time_zone);
    let cal = calendar.parse::<temporal_rs::Calendar>();
    match (tz, cal) {
        (Ok(tz), Ok(cal)) => temporal_rs::ZonedDateTime::try_new(epoch_nanoseconds, tz, cal).is_ok(),
        _ => false,
    }
}

/// `ZonedDateTime::year` of the zoned date-time that the values describe.
#[verifier::external_body]
pub(crate) fn zoned_year_of(epoch_nanoseconds: i128, time_zone: &str, calendar: &str) -> (r: i32)
    requires
        zoned_fields_valid(epoch_nanoseconds, time_zone@, calendar@),
    ensures
        r == zoned_year(epoch_nanoseconds, time_zone@, calendar@),
{
    let tz = temporal_rs::TimeZone::try_from_str(time_zone).unwrap();
    let cal = calendar.parse::<temporal_rs::Calendar>().unwrap();
    temporal_rs::ZonedDateTime::try_new(epoch_nanoseconds, tz, cal).unwrap().year()
}

/// `ZonedDateTime::month` of the zoned date-time that the values describe.
#[verifier::external_body]
pub(crate) fn zoned_month_of(epoch_nanoseconds: i128, time_zone: &str, calendar: &str) -> (r: u8)
    requires
        zoned_fields_valid(epoch_nanoseconds, time_zone@, calendar@),
    ensures
        r == zoned_month(epoch_nanoseconds, time_zone@, calendar@),
{
    let tz = temporal_rs::TimeZone::try_from_str(time_zone).unwrap();
    let cal = calendar.parse::<temporal_rs::Calendar>().unwrap();
    temporal_rs::ZonedDateTime::try_new(epoch_nanoseconds, tz, cal).unwrap().month()
}

/// `ZonedDateTime::day` of the zoned date-time that the values describe.
#[verifier::external_body]
pub(crate) fn zoned_day_of(epoch_nanoseconds: i128, time_zone: &str, calendar: &str) -> (r: u8)
    requires
        zoned_fields_valid(epoch_nanoseconds, time_zone@, calendar@),
    ensures
        r == zoned_day(epoch_nanoseconds, time_zone@, calendar@),
{
    let tz = temporal_rs::TimeZone::try_from_str(time_zone).unwrap();
    let cal = calendar.parse::<temporal_rs::Calendar>().unwrap();
    temporal_rs::ZonedDateTime::try_new(epoch_nanoseconds, tz, cal).unwrap().day()
}

/// `ZonedDateTime::hour` of the zoned date-time that the values describe.
#[verifier::external_body]
pub(crate) fn zoned_hour_of(epoch_nanoseconds: i128, time_zone: &str, calendar: &str) -> (r: u8)
    requires
        zoned_fields_valid(epoch_nanoseconds, time_zone@, calendar@),
    ensures
        r == zoned_hour(epoch_nanoseconds, time_zone@, calendar@),
{
    let tz = temporal_rs::TimeZone::try_from_str(time_zone).unwrap();
    let cal = calendar.parse::<temporal_rs::Calendar>().unwrap();
    temporal_rs::ZonedDateTime::try_new(epoch_nanoseconds, tz, cal).unwrap().hour()
}

/// `ZonedDateTime::minute` of the zoned date-time that the values describe.
#[verifier::external_body]
pub(crate) fn zoned_minute_of(epoch_nanoseconds: i128, time_zone: &str, calendar: &str) -> (r: u8)
    requires
        zoned_fields_valid(epoch_nanoseconds, time_zone@, calendar@),
    ensures
        r == zoned_minute(epoch_nanoseconds, time_zone@, calendar@),
{
    let tz = temporal_rs::TimeZone::try_from_str(time_zone).unwrap();
    let cal = calendar.parse::<temporal_rs::Calendar>().unwrap();
    temporal_rs::ZonedDateTime::try_new(epoch_nanoseconds, tz, cal).unwrap().minute()
}

/// `ZonedDateTime::second` of the zoned date-time that the values describe.
#[verifier::external_body]
pub(crate) fn zoned_second_of(epoch_nanoseconds: i128, time_zone: &str, calendar: &str) -> (r: u8)
    requires
        zoned_fields_valid(epoch_nanoseconds, time_zone@, calendar@),
    ensures
        r == zoned_second(epoch_nanoseconds, time_zone@, calendar@),
{
    let tz = temporal_rs::TimeZone::try_from_str(time_zone).unwrap();
    let cal = calendar.parse::<temporal_rs::Calendar>().unwrap();
    temporal_rs::ZonedDateTime::try_new(epoch_nanoseconds, tz, cal).unwrap().second()
}

/// The `Display` text of the zoned date-time that the values describe.
#[verifier::external_body]
pub(crate) fn zoned_display_of(epoch_nanoseconds: i128, time_zone: &str, calendar: &str) -> (r:
    String)
    requires
        zoned_fields_valid(epoch_nanoseconds, time_zone@, calendar@),
    ensures
        r@ == zoned_display_text(epoch_nanoseconds, time_zone@, calendar@),
{
    let tz = temporal_rs::TimeZone::try_from_str(time_zone).unwrap();
    let cal = calendar.parse::<temporal_rs::Calendar>().unwrap();
    temporal_rs::ZonedDateTime::try_new(epoch_nanoseconds, tz, cal).unwrap().to_string()
}

/// `ZonedDateTime::to_ixdtf_string` of the zoned date-time that the values
/// describe: offset and time zone shown as needed, calendar always shown,
/// nanosecond precision. `None` where `temporal_rs` reports an error.
/// In a time zone that is a whole-minute offset, for an instant at least a
/// day inside the range of instants, the text holds the local date and time
/// to the nanosecond and that offset, so
/// `ZonedDateTime::from_utf8`, rejecting ambiguity and disagreeing offsets,
/// reads it back as the same instant. The text also holds the time zone and
/// calendar identifiers, which are read back unchanged where they are
/// written the way `temporal_rs` writes them.
#[verifier::external_body]
pub(crate) fn zoned_ixdtf_of(epoch_nanoseconds: i128, time_zone: &str, calendar: &str) -> (r:
    Option<String>)
    requires
        zoned_fields_valid(epoch_nanoseconds, time_zone@, calendar@),
    ensures
        r matches Some(s) ==> zoned_ixdtf_text(epoch_nanoseconds, time_zone@, calendar@) == Some(s@),
        r is None ==> zoned_ixdtf_text(epoch_nanoseconds, time_zone@, calendar@) is None,
        r matches Some(s) ==> is_minute_offset_id(time_zone@) ==> well_inside_instant_limits(
            epoch_nanoseconds,
        ) ==> (zoned_parsed_strict(s@) matches Ok(
            p,
        ) && p.0 == epoch_nanoseconds),
        r matches Some(s) ==> is_canonical_offset_id(time_zone@) ==> well_inside_instant_limits(
            epoch_nanoseconds,
        ) ==> is_canonical_calendar_id(
            calendar@,
        ) ==> (zoned_parsed_strict(s@) matches Ok(p) && p == (
            epoch_nanoseconds,
            time_zone@,
            calendar@,
        )),
{
    let tz = temporal_rs::TimeZone::try_from_str(time_zone).unwrap();
    let cal = calendar.parse::<temporal_rs::Calendar>().unwrap();
    let z = temporal_rs::ZonedDateTime::try_new(epoch_nanoseconds, tz, cal).unwrap();
    let rounding = ToStringRoundingOptions { smallest_unit: Some(Unit::Nanosecond), ..Default::default() };
    z.to_ixdtf_string(DisplayOffset::Auto, DisplayTimeZone::Auto, DisplayCalendar::Always, rounding).ok()
}

/// The plain values of a parse result, as handed back by the parsing wrappers.
pub open spec fn parts_view(r: Result<(i128, String, String), String>) -> Result<
    (i128, Seq<char>, Seq<char>),
    Seq<char>,
> {
    match r {
        Ok((ns, tz, cal)) => Ok((ns, tz@, cal@)),
        Err(msg) => Err(msg@),
    }
}

/// Whether a parse result, where it succeeded, describes a zoned date-time
/// that `zoned_fields_valid` accepts.
pub open spec fn parts_valid(r: Result<(i128, String, String), String>) -> bool {
    r matches Ok((ns, tz, cal)) ==> zoned_fields_valid(ns, tz@, cal@)
}

/// `ZonedDateTime::from_utf8` rejecting ambiguous times and conflicting
/// offsets. A value it parses rebuilds from its epoch nanoseconds and
/// identifiers.
#[verifier::external_body]
pub(crate) fn zoned_parse_strict(text: &str) -> (r: Result<(i128, String, String), String>)
    ensures
        parts_view(r) == zoned_parsed_strict(text@),
        parts_valid(r),
{
    let parsed = temporal_rs::ZonedDateTime::from_utf8(
        text.as_bytes(), Disambiguation::Reject, OffsetDisambiguation::Reject);
    let z = parsed.map_err(|e| e.to_string())?;
    let tz = z.time_zone().identifier().map_err(|e| e.to_string())?;
    Ok((z.epoch_nanoseconds().as_i128(), tz, z.calendar().identifier().to_string()))
}

/// `ZonedDateTime::from_utf8` with the compatible disambiguation, ignoring the
/// offset. A value it parses rebuilds from its epoch nanoseconds and
/// identifiers.
#[verifier::external_body]
pub(crate) fn zoned_parse_lenient(text: &str) -> (r: Result<(i128, String, String), String>)
    ensures
        parts_view(r) == zoned_parsed_lenient(text@),
        parts_valid(r),
{
    let parsed = temporal_rs::ZonedDateTime::from_utf8(
        text.as_bytes(), Disambiguation::Compatible, OffsetDisambiguation::Ignore);
    let z = parsed.map_err(|e| e.to_string())?;
    let tz = z.time_zone().identifier().map_err(|e| e.to_string())?;
    Ok((z.epoch_nanoseconds().as_i128(), tz, z.calendar().identifier().to_string()))
}

/// `PlainDateTime::from_utf8` followed by `PlainDateTime::to_zoned_date_time`
/// at the UTC offset zero with the compatible disambiguation: `None` where
/// the text is not a date-time, else what the conversion gives.
#[verifier::external_body]
pub(crate) fn plain_date_time_parse_at_utc(text: &str) -> (r: Option<
    Result<(i128, String, String), String>,
>)
    ensures
        r matches Some(p) ==> plain_date_time_parsed_at_utc(text@) == Some(parts_view(p)) && parts_valid(p),
        r is None ==> plain_date_time_parsed_at_utc(text@) is None,
{
    let dt = temporal_rs::PlainDateTime::from_utf8(text.as_bytes()).ok()?;
    let utc = temporal_rs::TimeZone::UtcOffset(temporal_rs::UtcOffset::from_minutes(0));
    let z = dt.to_zoned_date_time(utc, Disambiguation::Compatible).map_err(|e| e.to_string());
    Some(z.and_then(|z| {
        let tz = z.time_zone().identifier().map_err(|e| e.to_string())?;
        Ok((z.epoch_nanoseconds().as_i128(), tz, z.calendar().identifier().to_string()))
    }))
}

/// `PlainDate::from_utf8` followed by `PlainDate::to_zoned_date_time` at the
/// UTC offset zero, at the start of the day.
#[verifier::external_body]
pub(crate) fn plain_date_parse_at_utc(text: &str) -> (r: Result<(i128, String, String), String>)
    ensures
        parts_view(r) == plain_date_parsed_at_utc(text@),
        parts_valid(r),
{
    let d = temporal_rs::PlainDate::from_utf8(text.as_bytes()).map_err(|e| e.to_string())?;
    let utc = temporal_rs::TimeZone::UtcOffset(temporal_rs::UtcOffset::from_minutes(0));
    let z = d.to_zoned_date_time(utc, None).map_err(|e| e.to_string())?;
    let tz = z.time_zone().identifier().map_err(|e| e.to_string())?;
    Ok((z.epoch_nanoseconds().as_i128(), tz, z.calendar().identifier().to_string()))
}

/// `PlainDate::add` on the first of an ISO month, with a duration of whole
/// years or whole months built by `DateDuration::new` and overflow rejected.
/// On such dates ISO arithmetic moves the year and month and keeps the day;
/// the result exists exactly when the shifted first of the month is in range.
#[verifier::external_body]
pub(crate) fn first_of_month_add(year: i32, month: u8, years: i64, months: i64) -> (r: Option<(
    i32,
    u8,
)>)
    requires
        first_of_month_in_limits(year as int, month as int),
        whole_shift(years as int, months as int),
    ensures
        r == first_of_month_plus(year as int, month as int, years as int, months as int),
{
    let date = temporal_rs::PlainDate::try_new(year, month, 1, temporal_rs::Calendar::ISO).unwrap();
    let duration: temporal_rs::Duration =
        temporal_rs::duration::DateDuration::new(years, months, 0, 0).unwrap().into();
    let sum = date.add(&duration, Some(Overflow::Reject)).ok()?;
    Some((sum.year(), sum.month()))
}

/// `PlainDate::subtract` on the first of an ISO month, with a duration of
/// whole years or whole months built by `DateDuration::new` and overflow
/// rejected. Subtracting adds the negated duration.
#[verifier::external_body]
pub(crate) fn first_of_month_subtract(year: i32, month: u8, years: i64, months: i64) -> (r: Option<(
    i32,
    u8,
)>)
    requires
        first_of_month_in_limits(year as int, month as int),
        whole_shift(years as int, months as int),
    ensures
        r == first_of_month_plus(year as int, month as int, -years, -months),
{
    let date = temporal_rs::PlainDate::try_new(year, month, 1, temporal_rs::Calendar::ISO).unwrap();
    let duration: temporal_rs::Duration =
        temporal_rs::duration::DateDuration::new(years, months, 0, 0).unwrap().into();
    let diff = date.subtract(&duration, Some(Overflow::Reject)).ok()?;
    Some((diff.year(), diff.month()))
}

/// `ZonedDateTime::add` with the overflow constrained, on the zoned
/// date-time the values describe and the duration `Duration::new` builds
/// from the fields. The sum keeps the time zone and the calendar, so its
/// epoch nanoseconds describe a zoned date-time with them.
#[verifier::external_body]
pub(crate) fn zoned_add_of(
    epoch_nanoseconds: i128,
    time_zone: &str,
    calendar: &str,
    duration: Duration,
) -> (r: Option<i128>)
    requires
        zoned_fields_valid(epoch_nanoseconds, time_zone@, calendar@),
    ensures
        r == zoned_plus(epoch_nanoseconds, time_zone@, calendar@, duration),
        r matches Some(n) ==> zoned_fields_valid(n, time_zone@, calendar@),
{
    let tz = temporal_rs::TimeZone::try_from_str(time_zone).unwrap();
    let cal = calendar.parse::<temporal_rs::Calendar>().unwrap();
    let z = temporal_rs::ZonedDateTime::try_new(epoch_nanoseconds, tz, cal).unwrap();
    let Duration { years, months, weeks, days, hours, minutes, seconds, .. } = duration;
    let (ms, us, ns) = (duration.milliseconds, duration.microseconds, duration.nanoseconds);
    let d = temporal_rs::Duration::new(years, months, weeks, days, hours, minutes, seconds, ms, us, ns);
    z.add(&d.ok()?, None).ok().map(|sum| sum.epoch_nanoseconds().as_i128())
}

/// `ZonedDateTime::subtract` with the overflow constrained, as for
/// `zoned_add_of`.
#[verifier::external_body]
pub(crate) fn zoned_subtract_of(
    epoch_nanoseconds: i128,
    time_zone: &str,
    calendar: &str,
    duration: Duration,
) -> (r: Option<i128>)
    requires
        zoned_fields_valid(epoch_nanoseconds, time_zone@, calendar@),
    ensures
        r == zoned_minus(epoch_nanoseconds, time_zone@, calendar@, duration),
        r matches Some(n) ==> zoned_fields_valid(n, time_zone@, calendar@),
{
    let tz = temporal_rs::TimeZone::try_from_str(time_zone).unwrap();
    let cal = calendar.parse::<temporal_rs::Calendar>().unwrap();
    let z = temporal_rs::ZonedDateTime::try_new(epoch_nanoseconds, tz, cal).unwrap();
    let Duration { years, months, weeks, days, hours, minutes, seconds, .. } = duration;
    let (ms, us, ns) = (duration.milliseconds, duration.microseconds, duration.nanoseconds);
    let d = temporal_rs::Duration::new(years, months, weeks, days, hours, minutes, seconds, ms, us, ns);
    z.subtract(&d.ok()?, None).ok().map(|diff| diff.epoch_nanoseconds().as_i128())
}

/// `PlainDate::since` from January 1 of `from_year` to January 1 of
/// `to_year`, with years as the smallest unit: the years it reports, or
/// `None` where it reports an error. Both dates are whole years apart, so a
/// reported value is their difference.
#[verifier::external_body]
pub(crate) fn jan_first_since(to_year: i32, from_year: i32) -> (r: Option<i64>)
    requires
        first_of_month_in_limits(to_year as int, 1),
        first_of_month_in_limits(from_year as int, 1),
    ensures
        r == jan_first_years_since(to_year, from_year),
        r matches Some(n) ==> n == to_year - from_year,
{
    let to = temporal_rs::PlainDate::try_new(to_year, 1, 1, temporal_rs::Calendar::ISO).unwrap();
    let from = temporal_rs::PlainDate::try_new(from_year, 1, 1, temporal_rs::Calendar::ISO).unwrap();
    let mut settings = DifferenceSettings::default();
    settings.smallest_unit = Some(Unit::Year);
    to.since(&from, settings).ok().map(|d| d.years())
}

/// The ISO year of today's date in UTC, from
/// `Temporal::utc_now().plain_date_iso(None)` (the UTC host reports UTC as
/// its time zone), or the error's message. It depends on the clock, so only
/// its range, that of the dates `temporal_rs` represents, is stated.
#[verifier::external_body]
pub(crate) fn current_iso_year() -> (r: Result<i32, String>)
    ensures
        r matches Ok(y) ==> -271821 <= y <= 275760,
{
    let today = temporal_rs::Temporal::utc_now().plain_date_iso(None).map_err(|e| e.to_string())?;
    Ok(today.year())
}

} // verus!
