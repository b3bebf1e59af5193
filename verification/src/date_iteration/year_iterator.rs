use vstd::prelude::*;

use super::year::Year;
use crate::temporal::{first_of_month_add, first_of_month_in_limits, first_of_month_subtract};

verus! {

/// Steps through years, one at a time, by moving January 1 of the current
/// year on or back by a year; forwards it stops after an optional last year.
#[derive(Debug)]
pub struct YearIterator {
    curr: i32,
    end: Option<Year>,
}

/// Where a year iterator stands: the year whose January 1 it holds, and the
/// last year it gives going forwards, if it has one.
pub struct YearIterView {
    pub curr: int,
    pub end: Option<int>,
}

/// What a step forwards does: past the last year, nothing; otherwise the
/// current year, moving on to the next one, as long as the next January 1
/// is in range (the iterator does not move, and gives nothing, where it is
/// not).
pub open spec fn year_iter_next(v: YearIterView) -> (YearIterView, Option<int>) {
    if v.end matches Some(e) && v.curr > e {
        (v, None)
    } else if first_of_month_in_limits(v.curr + 1, 1) {
        (YearIterView { curr: v.curr + 1, end: v.end }, Some(v.curr))
    } else {
        (v, None)
    }
}

/// What a step backwards does: the current year, moving back to the
/// previous one, as long as the previous January 1 is in range; the last
/// year plays no part.
pub open spec fn year_iter_next_back(v: YearIterView) -> (YearIterView, Option<int>) {
    if first_of_month_in_limits(v.curr - 1, 1) {
        (YearIterView { curr: v.curr - 1, end: v.end }, Some(v.curr))
    } else {
        (v, None)
    }
}

/// How many years steps forwards give before the iterator stops: up to the
/// last year, and only years whose next January 1 is in range.
pub open spec fn forward_room(v: YearIterView) -> int {
    let to_limit = 275760 - v.curr;
    let to_end = match v.end {
        Some(e) => e - v.curr + 1,
        None => to_limit,
    };
    let m = if to_end < to_limit {
        to_end
    } else {
        to_limit
    };
    if m < 0 {
        0
    } else {
        m
    }
}

/// How many years steps backwards give before the iterator stops: only
/// years whose previous January 1 is in range.
pub open spec fn backward_room(v: YearIterView) -> int {
    if v.curr + 271820 < 0 {
        0
    } else {
        v.curr + 271820
    }
}

/// The smaller of two numbers.
pub open spec fn min_of(a: int, b: int) -> int {
    if a < b {
        a
    } else {
        b
    }
}

/// The number of a year that a step gave, if it gave one.
pub open spec fn year_number(r: Option<Year>) -> Option<int> {
    match r {
        Some(y) => Some(y.value() as int),
        None => None,
    }
}

impl View for YearIterator {
    type V = YearIterView;

    closed spec fn view(&self) -> YearIterView {
        YearIterView {
            curr: self.curr as int,
            end: match self.end {
                Some(e) => Some(e.value() as int),
                None => None,
            },
        }
    }
}

impl Clone for YearIterator {
    fn clone(&self) -> (r: Self)
        ensures
            r@ == self@,
    {
        proof {
            use_type_invariant(self);
        }
        let end = match &self.end {
            Some(e) => Some(e.clone()),
            None => None,
        };
        YearIterator { curr: self.curr, end }
    }
}

impl YearIterator {
    /// The January 1 the iterator holds is always in range.
    #[verifier::type_invariant]
    closed spec fn holds_valid_date(self) -> bool {
        first_of_month_in_limits(self.curr as int, 1)
    }

    /// An iterator from `start` on, with no last year.
    pub fn new(start: &Year) -> (r: Self)
        requires
            start.value() > -271821,
        ensures
            r@ == (YearIterView { curr: start.value() as int, end: None }),
    {
        proof {
            use_type_invariant(start);
        }
        let date = start.as_date();
        YearIterator { curr: date.year(), end: None }
    }

    /// An iterator from `start` to `end`.
    pub(crate) fn between(start: &Year, end: &Year) -> (r: Self)
        requires
            start.value() > -271821,
        ensures
            r@ == (YearIterView { curr: start.value() as int, end: Some(end.value() as int) }),
    {
        proof {
            use_type_invariant(start);
        }
        let date = start.as_date();
        YearIterator { curr: date.year(), end: Some(end.clone()) }
    }

    /// The next year going forwards (see [`year_iter_next`]).
    pub fn next(&mut self) -> (r: Option<Year>)
        ensures
            (final(self)@, year_number(r)) == year_iter_next(old(self)@),
    {
        proof {
            use_type_invariant(&*self);
        }
        let year = self.curr;
        if let Some(end) = &self.end {
            if year > end.inner() {
                return None;
            }
        }
        match first_of_month_add(self.curr, 1, 1, 0) {
            Some((next, _month)) => {
                self.curr = next;
                Some(Year::from_value(year))
            },
            None => None,
        }
    }

    /// Up to `count` years, stepping forwards; fewer where the iterator
    /// stops first.
    pub fn take_next(&mut self, count: usize) -> (r: Vec<Year>)
        ensures
            r@.len() == min_of(count as int, forward_room(old(self)@)),
            forall|i: int| 0 <= i < r@.len() ==> #[trigger] r@[i].value() == old(self)@.curr + i,
            final(self)@.curr == old(self)@.curr + r@.len(),
            final(self)@.end == old(self)@.end,
    {
        let ghost v0 = self@;
        let mut out: Vec<Year> = Vec::new();
        let mut i: usize = 0;
        let mut stopped = false;
        while i < count && !stopped
            invariant
                i <= count,
                out@.len() == i,
                i <= forward_room(v0),
                stopped ==> i == forward_room(v0),
                self@.curr == v0.curr + i,
                self@.end == v0.end,
                forall|j: int| 0 <= j < i ==> #[trigger] out@[j].value() == v0.curr + j,
            decreases count - i, if stopped { 0int } else { 1int },
        {
            proof {
                use_type_invariant(&*self);
            }
            match self.next() {
                Some(y) => {
                    out.push(y);
                    i = i + 1;
                },
                None => {
                    stopped = true;
                },
            }
        }
        out
    }

    /// Up to `count` years, stepping backwards; fewer where the iterator
    /// stops first.
    pub fn take_next_back(&mut self, count: usize) -> (r: Vec<Year>)
        ensures
            r@.len() == min_of(count as int, backward_room(old(self)@)),
            forall|i: int| 0 <= i < r@.len() ==> #[trigger] r@[i].value() == old(self)@.curr - i,
            final(self)@.curr == old(self)@.curr - r@.len(),
            final(self)@.end == old(self)@.end,
    {
        let ghost v0 = self@;
        let mut out: Vec<Year> = Vec::new();
        let mut i: usize = 0;
        let mut stopped = false;
        while i < count && !stopped
            invariant
                i <= count,
                out@.len() == i,
                i <= backward_room(v0),
                stopped ==> i == backward_room(v0),
                self@.curr == v0.curr - i,
                self@.end == v0.end,
                forall|j: int| 0 <= j < i ==> #[trigger] out@[j].value() == v0.curr - j,
            decreases count - i, if stopped { 0int } else { 1int },
        {
            proof {
                use_type_invariant(&*self);
            }
            match self.next_back() {
                Some(y) => {
                    out.push(y);
                    i = i + 1;
                },
                None => {
                    stopped = true;
                },
            }
        }
        out
    }

    /// The next year going backwards (see [`year_iter_next_back`]).
    pub fn next_back(&mut self) -> (r: Option<Year>)
        ensures
            (final(self)@, year_number(r)) == year_iter_next_back(old(self)@),
    {
        proof {
            use_type_invariant(&*self);
        }
        let year = self.curr;
        match first_of_month_subtract(self.curr, 1, 1, 0) {
            Some((previous, _month)) => {
                self.curr = previous;
                Some(Year::from_value(year))
            },
            None => None,
        }
    }
}

} // verus!
