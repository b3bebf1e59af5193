use vstd::prelude::*;

use super::year::Year;
use crate::temporal::{first_of_month_add, first_of_month_in_limits, shifted_month, shifted_year};

verus! {

/// Steps through the months of a year by moving the first of the current
/// month on by a month.
#[derive(Debug)]
pub struct MonthIterator {
    year: Year,
    curr: (i32, u8),
}

/// Where a month iterator stands: its year, and the month whose first day
/// it holds.
pub struct MonthIterView {
    pub year: int,
    pub curr_year: int,
    pub curr_month: int,
}

/// What a step does: once the held month has left the year, nothing;
/// otherwise the held month, moving on to the next one, as long as the
/// first of the next month is in range (the iterator does not move, and
/// gives nothing, where it is not).
pub open spec fn month_iter_next(v: MonthIterView) -> (MonthIterView, Option<int>) {
    let ny = shifted_year(v.curr_year, v.curr_month, 0, 1);
    let nm = shifted_month(v.curr_year, v.curr_month, 0, 1);
    if v.curr_year != v.year {
        (v, None)
    } else if first_of_month_in_limits(ny, nm) {
        (MonthIterView { year: v.year, curr_year: ny, curr_month: nm }, Some(v.curr_month))
    } else {
        (v, None)
    }
}

impl View for MonthIterator {
    type V = MonthIterView;

    closed spec fn view(&self) -> MonthIterView {
        MonthIterView {
            year: self.year.value() as int,
            curr_year: self.curr.0 as int,
            curr_month: self.curr.1 as int,
        }
    }
}

impl MonthIterator {
    /// The first of the month the iterator holds is always in range.
    #[verifier::type_invariant]
    closed spec fn holds_valid_date(self) -> bool {
        first_of_month_in_limits(self.curr.0 as int, self.curr.1 as int)
    }

    /// The months of `year`, from its January 1 on.
    pub fn from_year(year: Year) -> (r: Self)
        requires
            year.value() > -271821,
        ensures
            r@ == (MonthIterView {
                year: year.value() as int,
                curr_year: year.value() as int,
                curr_month: 1,
            }),
    {
        proof {
            use_type_invariant(&year);
        }
        let date = year.as_date();
        MonthIterator { curr: (date.year(), date.month()), year }
    }

    /// The next month (see [`month_iter_next`]).
    pub fn next(&mut self) -> (r: Option<u8>)
        ensures
            (final(self)@, match r {
                Some(m) => Some(m as int),
                None => None,
            }) == month_iter_next(old(self)@),
    {
        proof {
            use_type_invariant(&*self);
        }
        if self.curr.0 != self.year.inner() {
            return None;
        }
        let month = self.curr.1;
        match first_of_month_add(self.curr.0, self.curr.1, 0, 1) {
            Some(next) => {
                self.curr = next;
                Some(month)
            },
            None => None,
        }
    }
}

} // verus!
