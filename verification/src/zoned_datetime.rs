//! A point in time together with the time zone and calendar it is read in.

use vstd::prelude::*;

use crate::duration::Duration;
use crate::temporal::{
    parts_view, zoned_day, zoned_day_of, zoned_display_of, zoned_display_text, zoned_fields_check,
    zoned_fields_valid, zoned_hour, zoned_hour_of, zoned_ixdtf_of, zoned_ixdtf_text, zoned_minute,
    zoned_minute_of, zoned_month, zoned_month_of, zoned_parse_strict, zoned_parsed_strict,
    zoned_second, zoned_second_of, zoned_year, zoned_year_of, zoned_plus, zoned_minus,
    zoned_add_of, zoned_subtract_of, is_minute_offset_id, is_canonical_offset_id,
    is_canonical_calendar_id, well_inside_instant_limits,
};

verus! {

/// A zoned date-time: nanoseconds since the Unix epoch, read in the time
/// zone and the calendar that the two identifiers name (for example `+03:00`
/// and `gregory`). Only combinations that `temporal_rs` accepts exist.
#[derive(Debug)]
pub struct ZonedDateTime {
    epoch_nanoseconds: i128,
    time_zone: String,
    calendar: String,
}

/// Whether a parse result holds a zoned date-time equal to `z`.
pub open spec fn parsed_as(
    parsed: Result<(i128, Seq<char>, Seq<char>), Seq<char>>,
    z: ZonedDateTime,
) -> bool {
    parsed matches Ok((ns, tz, cal)) && ns == z.epoch_nanoseconds() && tz == z.time_zone()
        && cal == z.calendar()
}

impl ZonedDateTime {
    #[verifier::type_invariant]
    spec fn valid(self) -> bool {
        zoned_fields_valid(self.epoch_nanoseconds, self.time_zone@, self.calendar@)
    }

    /// Nanoseconds since the Unix epoch.
    pub closed spec fn epoch_nanoseconds(self) -> i128 {
        self.epoch_nanoseconds
    }

    /// The time-zone identifier.
    pub closed spec fn time_zone(self) -> Seq<char> {
        self.time_zone@
    }

    /// The calendar identifier.
    pub closed spec fn calendar(self) -> Seq<char> {
        self.calendar@
    }

    /// Builds the zoned date-time at `epoch_nanoseconds` in the named time
    /// zone and calendar, or `None` where `temporal_rs` refuses them.
    pub fn try_new(epoch_nanoseconds: i128, time_zone: &str, calendar: &str) -> (r: Option<Self>)
        ensures
            r is Some <==> zoned_fields_valid(epoch_nanoseconds, time_zone@, calendar@),
            r matches Some(z) ==> z.epoch_nanoseconds() == epoch_nanoseconds && z.time_zone()
                == time_zone@ && z.calendar() == calendar@,
    {
        if zoned_fields_check(epoch_nanoseconds, time_zone, calendar) {
            Some(
                ZonedDateTime {
                    epoch_nanoseconds,
                    time_zone: time_zone.to_string(),
                    calendar: calendar.to_string(),
                },
            )
        } else {
            None
        }
    }

    /// Nanoseconds since the Unix epoch.
    pub fn epoch_nanoseconds_value(&self) -> (r: i128)
        ensures
            r == self.epoch_nanoseconds(),
    {
        self.epoch_nanoseconds
    }

    /// The time-zone identifier.
    pub fn time_zone_id(&self) -> (r: &str)
        ensures
            r@ == self.time_zone(),
    {
        self.time_zone.as_str()
    }

    /// The calendar identifier.
    pub fn calendar_id(&self) -> (r: &str)
        ensures
            r@ == self.calendar(),
    {
        self.calendar.as_str()
    }

    /// The year in this zoned date-time's calendar.
    pub fn year(&self) -> (r: i32)
        ensures
            r == zoned_year(self.epoch_nanoseconds(), self.time_zone(), self.calendar()),
    {
        proof {
            use_type_invariant(self);
        }
        zoned_year_of(self.epoch_nanoseconds, self.time_zone.as_str(), self.calendar.as_str())
    }

    /// The month in this zoned date-time's calendar.
    pub fn month(&self) -> (r: u8)
        ensures
            r == zoned_month(self.epoch_nanoseconds(), self.time_zone(), self.calendar()),
    {
        proof {
            use_type_invariant(self);
        }
        zoned_month_of(self.epoch_nanoseconds, self.time_zone.as_str(), self.calendar.as_str())
    }

    /// The day of the month in this zoned date-time's calendar.
    pub fn day(&self) -> (r: u8)
        ensures
            r == zoned_day(self.epoch_nanoseconds(), self.time_zone(), self.calendar()),
    {
        proof {
            use_type_invariant(self);
        }
        zoned_day_of(self.epoch_nanoseconds, self.time_zone.as_str(), self.calendar.as_str())
    }

    /// The hour of the day in this zoned date-time's time zone.
    pub fn hour(&self) -> (r: u8)
        ensures
            r == zoned_hour(self.epoch_nanoseconds(), self.time_zone(), self.calendar()),
    {
        proof {
            use_type_invariant(self);
        }
        zoned_hour_of(self.epoch_nanoseconds, self.time_zone.as_str(), self.calendar.as_str())
    }

    /// The minute of the hour.
    pub fn minute(&self) -> (r: u8)
        ensures
            r == zoned_minute(self.epoch_nanoseconds(), self.time_zone(), self.calendar()),
    {
        proof {
            use_type_invariant(self);
        }
        zoned_minute_of(self.epoch_nanoseconds, self.time_zone.as_str(), self.calendar.as_str())
    }

    /// The second of the minute.
    pub fn second(&self) -> (r: u8)
        ensures
            r == zoned_second(self.epoch_nanoseconds(), self.time_zone(), self.calendar()),
    {
        proof {
            use_type_invariant(self);
        }
        zoned_second_of(self.epoch_nanoseconds, self.time_zone.as_str(), self.calendar.as_str())
    }

    /// Orders two zoned date-times by the instant they denote, whatever
    /// their time zones and calendars.
    pub fn compare_instant(&self, other: &Self) -> (r: core::cmp::Ordering)
        ensures
            r == instant_order(self.epoch_nanoseconds(), other.epoch_nanoseconds()),
            (r == core::cmp::Ordering::Less) == (self.epoch_nanoseconds() < other.epoch_nanoseconds()),
            (r == core::cmp::Ordering::Equal) == (self.epoch_nanoseconds()
                == other.epoch_nanoseconds()),
            (r == core::cmp::Ordering::Greater) == (self.epoch_nanoseconds()
                > other.epoch_nanoseconds()),
    {
        if self.epoch_nanoseconds < other.epoch_nanoseconds {
            core::cmp::Ordering::Less
        } else if self.epoch_nanoseconds == other.epoch_nanoseconds {
            core::cmp::Ordering::Equal
        } else {
            core::cmp::Ordering::Greater
        }
    }

    /// The text this zoned date-time is displayed as.
    pub fn to_string(&self) -> (r: String)
        ensures
            r@ == zoned_display_text(self.epoch_nanoseconds(), self.time_zone(), self.calendar()),
    {
        proof {
            use_type_invariant(self);
        }
        zoned_display_of(self.epoch_nanoseconds, self.time_zone.as_str(), self.calendar.as_str())
    }

    /// The IXDTF text this zoned date-time is stored as: offset and time zone
    /// as needed, calendar always, nanosecond precision. `None` where
    /// `temporal_rs` cannot write it. In a time zone that is a whole-minute
    /// offset, and for an instant at least a day inside the range of
    /// instants, [`Self::from_ixdtf`] reads the text back as the same instant;
    /// where the time zone and calendar identifiers are written the way
    /// `temporal_rs` writes them, it reads back the same time zone and
    /// calendar too.
    pub fn to_ixdtf(&self) -> (r: Option<String>)
        ensures
            r matches Some(s) ==> zoned_ixdtf_text(
                self.epoch_nanoseconds(),
                self.time_zone(),
                self.calendar(),
            ) == Some(s@),
            r is None ==> zoned_ixdtf_text(
                self.epoch_nanoseconds(),
                self.time_zone(),
                self.calendar(),
            ) is None,
            r matches Some(s) ==> is_minute_offset_id(self.time_zone()) ==> well_inside_instant_limits(
                self.epoch_nanoseconds(),
            ) ==> (zoned_parsed_strict(
                s@,
            ) matches Ok(p) && p.0 == self.epoch_nanoseconds()),
            r matches Some(s) ==> is_canonical_offset_id(self.time_zone()) ==> well_inside_instant_limits(
                self.epoch_nanoseconds(),
            )
                ==> is_canonical_calendar_id(self.calendar()) ==> parsed_as(
                zoned_parsed_strict(s@),
                *self,
            ),
    {
        proof {
            use_type_invariant(self);
        }
        zoned_ixdtf_of(self.epoch_nanoseconds, self.time_zone.as_str(), self.calendar.as_str())
    }

    /// Reads a zoned date-time from IXDTF text, rejecting ambiguous local
    /// times and offsets that disagree with the time zone. On failure the
    /// error says what was wrong.
    pub fn from_ixdtf(text: &str) -> (r: Result<Self, String>)
        ensures
            r matches Ok(z) ==> parsed_as(zoned_parsed_strict(text@), z),
            r matches Err(msg) ==> zoned_parsed_strict(text@) == Err::<
                (i128, Seq<char>, Seq<char>),
                Seq<char>,
            >(msg@),
    {
        let parsed = zoned_parse_strict(text);
        Self::from_parts(parsed)
    }

    /// Turns the plain values of a parse result into a zoned date-time, or
    /// passes its error on.
    pub fn from_parts(parsed: Result<(i128, String, String), String>) -> (r: Result<
        Self,
        String,
    >)
        requires
            parsed matches Ok((ns, tz, cal)) ==> zoned_fields_valid(ns, tz@, cal@),
        ensures
            r matches Ok(z) ==> parsed_as(parts_view(parsed), z),
            r matches Err(msg) ==> parts_view(parsed) == Err::<
                (i128, Seq<char>, Seq<char>),
                Seq<char>,
            >(msg@),
    {
        match parsed {
            Ok((epoch_nanoseconds, time_zone, calendar)) => Ok(
                ZonedDateTime { epoch_nanoseconds, time_zone, calendar },
            ),
            Err(msg) => Err(msg),
        }
    }

    /// This zoned date-time moved on by `duration`, in its time zone and
    /// calendar. `temporal_rs` must accept the duration and the sum must be
    /// in range.
    pub fn add_duration(&self, duration: Duration) -> (r: Self)
        requires
            zoned_plus(self.epoch_nanoseconds(), self.time_zone(), self.calendar(), duration) is Some,
        ensures
            Some(r.epoch_nanoseconds()) == zoned_plus(
                self.epoch_nanoseconds(),
                self.time_zone(),
                self.calendar(),
                duration,
            ),
            r.time_zone() == self.time_zone(),
            r.calendar() == self.calendar(),
    {
        proof {
            use_type_invariant(self);
        }
        let ns = zoned_add_of(
            self.epoch_nanoseconds,
            self.time_zone.as_str(),
            self.calendar.as_str(),
            duration,
        ).unwrap();
        ZonedDateTime {
            epoch_nanoseconds: ns,
            time_zone: self.time_zone.clone(),
            calendar: self.calendar.clone(),
        }
    }

    /// This zoned date-time moved on by `duration`, as for
    /// [`Self::add_duration`]; `None` where `temporal_rs` refuses the
    /// duration or the sum is out of range.
    pub fn checked_add_duration(&self, duration: Duration) -> (r: Option<Self>)
        ensures
            r is Some <==> zoned_plus(
                self.epoch_nanoseconds(),
                self.time_zone(),
                self.calendar(),
                duration,
            ) is Some,
            r matches Some(z) ==> Some(z.epoch_nanoseconds()) == zoned_plus(
                self.epoch_nanoseconds(),
                self.time_zone(),
                self.calendar(),
                duration,
            ) && z.time_zone() == self.time_zone() && z.calendar() == self.calendar(),
    {
        proof {
            use_type_invariant(self);
        }
        let sum = zoned_add_of(
            self.epoch_nanoseconds,
            self.time_zone.as_str(),
            self.calendar.as_str(),
            duration,
        );
        match sum {
            Some(_) => Some(self.add_duration(duration)),
            None => None,
        }
    }

    /// Moves this zoned date-time on by `duration` in place, as
    /// [`Self::add_duration`] does.
    pub fn add_assign_duration(&mut self, duration: Duration)
        requires
            zoned_plus(
                old(self).epoch_nanoseconds(),
                old(self).time_zone(),
                old(self).calendar(),
                duration,
            ) is Some,
        ensures
            Some(final(self).epoch_nanoseconds()) == zoned_plus(
                old(self).epoch_nanoseconds(),
                old(self).time_zone(),
                old(self).calendar(),
                duration,
            ),
            final(self).time_zone() == old(self).time_zone(),
            final(self).calendar() == old(self).calendar(),
    {
        *self = self.add_duration(duration);
    }

    /// Moves this zoned date-time on by `duration` in place where
    /// `temporal_rs` accepts the duration and the sum is in range, and says
    /// whether it did; otherwise leaves it as it was.
    pub fn checked_add_assign_duration(&mut self, duration: Duration) -> (r: bool)
        ensures
            r == zoned_plus(
                old(self).epoch_nanoseconds(),
                old(self).time_zone(),
                old(self).calendar(),
                duration,
            ) is Some,
            r ==> Some(final(self).epoch_nanoseconds()) == zoned_plus(
                old(self).epoch_nanoseconds(),
                old(self).time_zone(),
                old(self).calendar(),
                duration,
            ),
            final(self).time_zone() == old(self).time_zone(),
            final(self).calendar() == old(self).calendar(),
            !r ==> final(self).epoch_nanoseconds() == old(self).epoch_nanoseconds(),
    {
        proof {
            use_type_invariant(&*self);
        }
        let sum = zoned_add_of(
            self.epoch_nanoseconds,
            self.time_zone.as_str(),
            self.calendar.as_str(),
            duration,
        );
        match sum {
            Some(_) => {
                self.add_assign_duration(duration);
                true
            },
            None => false,
        }
    }

    /// This zoned date-time moved back by `duration`, in its time zone and
    /// calendar. `temporal_rs` must accept the duration and the difference
    /// must be in range.
    pub fn sub_duration(&self, duration: Duration) -> (r: Self)
        requires
            zoned_minus(self.epoch_nanoseconds(), self.time_zone(), self.calendar(), duration) is Some,
        ensures
            Some(r.epoch_nanoseconds()) == zoned_minus(
                self.epoch_nanoseconds(),
                self.time_zone(),
                self.calendar(),
                duration,
            ),
            r.time_zone() == self.time_zone(),
            r.calendar() == self.calendar(),
    {
        proof {
            use_type_invariant(self);
        }
        let ns = zoned_subtract_of(
            self.epoch_nanoseconds,
            self.time_zone.as_str(),
            self.calendar.as_str(),
            duration,
        ).unwrap();
        ZonedDateTime {
            epoch_nanoseconds: ns,
            time_zone: self.time_zone.clone(),
            calendar: self.calendar.clone(),
        }
    }

    /// This zoned date-time moved back by `duration`, as for
    /// [`Self::sub_duration`]; `None` where `temporal_rs` refuses the
    /// duration or the difference is out of range.
    pub fn checked_sub_duration(&self, duration: Duration) -> (r: Option<Self>)
        ensures
            r is Some <==> zoned_minus(
                self.epoch_nanoseconds(),
                self.time_zone(),
                self.calendar(),
                duration,
            ) is Some,
            r matches Some(z) ==> Some(z.epoch_nanoseconds()) == zoned_minus(
                self.epoch_nanoseconds(),
                self.time_zone(),
                self.calendar(),
                duration,
            ) && z.time_zone() == self.time_zone() && z.calendar() == self.calendar(),
    {
        proof {
            use_type_invariant(self);
        }
        let diff = zoned_subtract_of(
            self.epoch_nanoseconds,
            self.time_zone.as_str(),
            self.calendar.as_str(),
            duration,
        );
        match diff {
            Some(_) => Some(self.sub_duration(duration)),
            None => None,
        }
    }

}

impl Default for ZonedDateTime {
    /// Midnight of January 1, 1970, at the UTC offset zero, in the ISO calendar.
    fn default() -> (r: Self)
        ensures
            r.epoch_nanoseconds() == 0,
            r.time_zone() == "+00:00"@,
            r.calendar() == "iso8601"@,
    {
        let time_zone = "+00:00";
        let calendar = "iso8601";
        let accepted = zoned_fields_check(0, time_zone, calendar);
        proof {
            assert(accepted);
        }
        ZonedDateTime {
            epoch_nanoseconds: 0,
            time_zone: time_zone.to_string(),
            calendar: calendar.to_string(),
        }
    }
}

/// A zoned date-time read back from the text it was stored as, where its
/// time zone and calendar identifiers are written the way `temporal_rs`
/// writes them, is the same zoned date-time: the same instant, time zone and
/// calendar, and so the same calendar fields and the same texts.
pub proof fn lemma_stored_reads_back_whole(written: ZonedDateTime, text: Seq<char>, read: ZonedDateTime)
    requires
        parsed_as(zoned_parsed_strict(text), written),
        parsed_as(zoned_parsed_strict(text), read),
    ensures
        read.epoch_nanoseconds() == written.epoch_nanoseconds(),
        read.time_zone() == written.time_zone(),
        read.calendar() == written.calendar(),
        zoned_year(read.epoch_nanoseconds(), read.time_zone(), read.calendar()) == zoned_year(
            written.epoch_nanoseconds(),
            written.time_zone(),
            written.calendar(),
        ),
        zoned_month(read.epoch_nanoseconds(), read.time_zone(), read.calendar()) == zoned_month(
            written.epoch_nanoseconds(),
            written.time_zone(),
            written.calendar(),
        ),
        zoned_day(read.epoch_nanoseconds(), read.time_zone(), read.calendar()) == zoned_day(
            written.epoch_nanoseconds(),
            written.time_zone(),
            written.calendar(),
        ),
        zoned_hour(read.epoch_nanoseconds(), read.time_zone(), read.calendar()) == zoned_hour(
            written.epoch_nanoseconds(),
            written.time_zone(),
            written.calendar(),
        ),
        zoned_minute(read.epoch_nanoseconds(), read.time_zone(), read.calendar()) == zoned_minute(
            written.epoch_nanoseconds(),
            written.time_zone(),
            written.calendar(),
        ),
        zoned_second(read.epoch_nanoseconds(), read.time_zone(), read.calendar()) == zoned_second(
            written.epoch_nanoseconds(),
            written.time_zone(),
            written.calendar(),
        ),
        zoned_ixdtf_text(read.epoch_nanoseconds(), read.time_zone(), read.calendar())
            == zoned_ixdtf_text(written.epoch_nanoseconds(), written.time_zone(), written.calendar()),
        zoned_display_text(read.epoch_nanoseconds(), read.time_zone(), read.calendar())
            == zoned_display_text(
            written.epoch_nanoseconds(),
            written.time_zone(),
            written.calendar(),
        ),
{
}

impl Clone for ZonedDateTime {
    fn clone(&self) -> (r: Self)
        ensures
            r == *self,
    {
        proof {
            use_type_invariant(self);
        }
        ZonedDateTime {
            epoch_nanoseconds: self.epoch_nanoseconds,
            time_zone: self.time_zone.clone(),
            calendar: self.calendar.clone(),
        }
    }
}

/// Instants are ordered as time runs: the one with fewer nanoseconds since
/// the epoch is the earlier, whatever side of the epoch either lies on.
pub proof fn lemma_instant_order_runs_with_time(a: i128, b: i128)
    ensures
        (instant_order(a, b) == core::cmp::Ordering::Less) == (a < b),
        (instant_order(a, b) == core::cmp::Ordering::Equal) == (a == b),
        (instant_order(a, b) == core::cmp::Ordering::Greater) == (a > b),
{
}

/// The order of two instants given as epoch nanoseconds.
pub open spec fn instant_order(a: i128, b: i128) -> core::cmp::Ordering {
    if a < b {
        core::cmp::Ordering::Less
    } else if a == b {
        core::cmp::Ordering::Equal
    } else {
        core::cmp::Ordering::Greater
    }
}

} // verus!
