use vstd::prelude::*;

use crate::temporal::{iso_date_check, iso_date_valid};

verus! {

/// A day of the ISO calendar, in the range of dates that `temporal_rs`
/// represents.
#[derive(Debug, Clone, Copy)]
pub struct PlainDate {
    year: i32,
    month: u8,
    day: u8,
}

/// The year, month and day of a date.
pub struct DateView {
    pub year: int,
    pub month: int,
    pub day: int,
}

impl View for PlainDate {
    type V = DateView;

    closed spec fn view(&self) -> DateView {
        DateView { year: self.year as int, month: self.month as int, day: self.day as int }
    }
}

impl PlainDate {
    /// Every date is a valid ISO date in range.
    #[verifier::type_invariant]
    pub open spec fn valid(self) -> bool {
        iso_date_valid(self@.year, self@.month, self@.day)
    }

    /// The date `year`-`month`-`day`, if it is a valid ISO date in range.
    pub fn try_new(year: i32, month: u8, day: u8) -> (r: Option<Self>)
        ensures
            r is Some <==> iso_date_valid(year as int, month as int, day as int),
            r matches Some(d) ==> d@ == (DateView {
                year: year as int,
                month: month as int,
                day: day as int,
            }),
    {
        if iso_date_check(year, month, day) {
            Some(PlainDate { year, month, day })
        } else {
            None
        }
    }

    /// The date's year.
    pub fn year(&self) -> (r: i32)
        ensures
            r == self@.year,
    {
        self.year
    }

    /// The date's month, from 1 to 12.
    pub fn month(&self) -> (r: u8)
        ensures
            r == self@.month,
    {
        self.month
    }

    /// The date's day of the month.
    pub fn day(&self) -> (r: u8)
        ensures
            r == self@.day,
    {
        self.day
    }
}

} // verus!
