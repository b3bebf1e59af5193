//! Reading what a user types: command lines, and the time of an event.

use vstd::prelude::*;

use crate::temporal::{
    parts_view, plain_date_parse_at_utc, plain_date_parsed_at_utc, plain_date_time_parse_at_utc,
    plain_date_time_parsed_at_utc, zoned_parse_lenient, zoned_parsed_lenient,
};
use crate::shell::{shell_words, shlex_split};
use crate::zoned_datetime::{parsed_as, ZonedDateTime};

verus! {

/// How typed text is read as a zoned date-time: as a zoned date-time (an
/// ambiguous local time resolved the compatible way, a disagreeing offset
/// ignored); failing that, as a date and time at the UTC offset zero;
/// failing that, as a date at the start of its day at the UTC offset zero.
/// Text that is a date and time but cannot be placed at that offset gives
/// that error, and is not tried as a date.
pub open spec fn typed_when(text: Seq<char>) -> Result<(i128, Seq<char>, Seq<char>), Seq<char>> {
    match zoned_parsed_lenient(text) {
        Ok(p) => Ok(p),
        Err(_) => match plain_date_time_parsed_at_utc(text) {
            Some(r) => r,
            None => plain_date_parsed_at_utc(text),
        },
    }
}

/// Text that reads as a zoned date-time is taken as that zoned date-time,
/// whatever its time zone; the other readings are tried only where that
/// one fails.
pub proof fn lemma_zoned_reading_comes_first(text: Seq<char>)
    ensures
        zoned_parsed_lenient(text) is Ok ==> typed_when(text) == zoned_parsed_lenient(text),
        zoned_parsed_lenient(text) is Err ==> plain_date_time_parsed_at_utc(text) is Some
            ==> typed_when(text) == plain_date_time_parsed_at_utc(text)->0,
{
}

/// Reads typed text as a zoned date-time, as [`typed_when`] says; on
/// failure the error is the last reader's message.
pub fn parse_when(text: &str) -> (r: Result<ZonedDateTime, String>)
    ensures
        r matches Ok(z) ==> parsed_as(typed_when(text@), z),
        r matches Err(msg) ==> typed_when(text@) == Err::<(i128, Seq<char>, Seq<char>), Seq<char>>(
            msg@,
        ),
        zoned_parsed_lenient(text@) is Ok ==> (r matches Ok(z) && parsed_as(
            zoned_parsed_lenient(text@),
            z,
        )),
        zoned_parsed_lenient(text@) is Err ==> (plain_date_time_parsed_at_utc(text@) matches Some(
            dt,
        ) ==> match r {
            Ok(z) => parsed_as(dt, z),
            Err(msg) => dt == Err::<(i128, Seq<char>, Seq<char>), Seq<char>>(msg@),
        }),
        zoned_parsed_lenient(text@) is Err ==> plain_date_time_parsed_at_utc(text@) is None ==> match r {
            Ok(z) => parsed_as(plain_date_parsed_at_utc(text@), z),
            Err(msg) => plain_date_parsed_at_utc(text@) == Err::<
                (i128, Seq<char>, Seq<char>),
                Seq<char>,
            >(msg@),
        },
{
    let zoned = zoned_parse_lenient(text);
    if zoned.is_ok() {
        return ZonedDateTime::from_parts(zoned);
    }
    match plain_date_time_parse_at_utc(text) {
        Some(parsed) => ZonedDateTime::from_parts(parsed),
        None => ZonedDateTime::from_parts(plain_date_parse_at_utc(text)),
    }
}

/// The words of a typed command line, split as a shell splits them; a line
/// with broken quoting is refused with the message `error: Invalid quoting`.
pub fn split_command(line: &str) -> (r: Result<Vec<String>, String>)
    ensures
        match shell_words(line@) {
            Some(words) => r matches Ok(v) && v@.map_values(|s: String| s@) == words,
            None => r matches Err(m) && m@ == "error: Invalid quoting"@,
        },
{
    match shlex_split(line) {
        Some(words) => Ok(words),
        None => Err("error: Invalid quoting".to_string()),
    }
}

} // verus!
