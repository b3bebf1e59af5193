//! Lengths of time in calendar and clock units.

use vstd::prelude::*;

verus! {

/// A length of time, unit by unit, as `temporal_rs::Duration::new` takes
/// it. `temporal_rs` accepts it where the units do not disagree in sign and
/// none is too large.
#[derive(Debug, Clone, Copy, PartialEq, Eq, Structural)]
pub struct Duration {
    pub years: i64,
    pub months: i64,
    pub weeks: i64,
    pub days: i64,
    pub hours: i64,
    pub minutes: i64,
    pub seconds: i64,
    pub milliseconds: i64,
    pub microseconds: i128,
    pub nanoseconds: i128,
}

impl Duration {
    /// The duration of `years` years.
    pub fn of_years(years: i64) -> (r: Self)
        ensures
            r == (Duration {
                years,
                months: 0,
                weeks: 0,
                days: 0,
                hours: 0,
                minutes: 0,
                seconds: 0,
                milliseconds: 0,
                microseconds: 0,
                nanoseconds: 0,
            }),
    {
        Duration {
            years,
            months: 0,
            weeks: 0,
            days: 0,
            hours: 0,
            minutes: 0,
            seconds: 0,
            milliseconds: 0,
            microseconds: 0,
            nanoseconds: 0,
        }
    }

    /// The duration of `nanoseconds` nanoseconds.
    pub fn of_nanoseconds(nanoseconds: i128) -> (r: Self)
        ensures
            r == (Duration {
                years: 0,
                months: 0,
                weeks: 0,
                days: 0,
                hours: 0,
                minutes: 0,
                seconds: 0,
                milliseconds: 0,
                microseconds: 0,
                nanoseconds,
            }),
    {
        Duration {
            years: 0,
            months: 0,
            weeks: 0,
            days: 0,
            hours: 0,
            minutes: 0,
            seconds: 0,
            milliseconds: 0,
            microseconds: 0,
            nanoseconds,
        }
    }
}

} // verus!
