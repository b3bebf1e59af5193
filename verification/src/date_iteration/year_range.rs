use vstd::prelude::*;

use super::year::Year;
use super::year_iterator::{YearIterView, YearIterator};
use crate::temporal::{jan_first_since, jan_first_years_since};

verus! {

/// The years from `start` to `end`, both included.
#[derive(Debug)]
pub struct YearRange {
    pub start: Year,
    pub end: Year,
}

/// The number of years from `start` to `end`, both included; none where
/// `end` comes before `start`.
pub open spec fn range_len(start: int, end: int) -> int {
    if end - start + 1 > 0 {
        end - start + 1
    } else {
        0
    }
}

impl Clone for YearRange {
    fn clone(&self) -> (r: Self)
        ensures
            r == *self,
    {
        YearRange { start: self.start.clone(), end: self.end.clone() }
    }
}

impl YearRange {
    /// The number of years in the range. It is measured with
    /// `PlainDate::since` between the January 1 of both ends, which must
    /// give a result.
    pub fn len(&self) -> (r: usize)
        requires
            self.start.value() > -271821,
            self.end.value() > -271821,
            jan_first_years_since(self.end.value(), self.start.value()) is Some,
        ensures
            r == range_len(self.start.value() as int, self.end.value() as int),
    {
        proof {
            use_type_invariant(&self.start);
            use_type_invariant(&self.end);
        }
        let start = self.start.as_date();
        let end = self.end.as_date();
        match jan_first_since(end.year(), start.year()) {
            Some(years) => {
                let n = years + 1;
                if n > 0 {
                    n as usize
                } else {
                    0
                }
            },
            None => 0,
        }
    }

    /// The number of years in the range, where `PlainDate::since` gives a
    /// result for its ends; `None` where it does not.
    pub fn checked_len(&self) -> (r: Option<usize>)
        requires
            self.start.value() > -271821,
            self.end.value() > -271821,
        ensures
            r is Some <==> jan_first_years_since(self.end.value(), self.start.value()) is Some,
            r matches Some(n) ==> n == range_len(self.start.value() as int, self.end.value() as int),
    {
        proof {
            use_type_invariant(&self.start);
            use_type_invariant(&self.end);
        }
        let start = self.start.as_date();
        let end = self.end.as_date();
        match jan_first_since(end.year(), start.year()) {
            Some(_) => Some(self.len()),
            None => None,
        }
    }

    /// Whether the range counts as empty: whether its end does not come
    /// after its start.
    pub fn is_empty(&self) -> (r: bool)
        ensures
            r == (self.end.value() <= self.start.value()),
    {
        self.end.inner() <= self.start.inner()
    }

    /// An iterator over the years of the range, from `start` up to `end`.
    pub fn iter(&self) -> (r: YearIterator)
        requires
            self.start.value() > -271821,
        ensures
            r@ == (YearIterView {
                curr: self.start.value() as int,
                end: Some(self.end.value() as int),
            }),
    {
        YearIterator::between(&self.start, &self.end)
    }
}

} // verus!
