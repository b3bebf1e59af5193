//! The span of years a timeline is drawn over.

use vstd::prelude::*;

use crate::date_iteration::{min_of, next_year, previous_year, Year, YearIterator, YearRange};
use crate::temporal::{first_of_month_in_limits, whole_shift};

verus! {

/// How many years after `end` can be drawn: those whose next January 1 is
/// in range.
pub open spec fn years_after(end: int) -> int {
    if end < 275759 {
        275759 - end
    } else {
        0
    }
}

/// How many years before `start` can be drawn: those whose previous January
/// 1 is in range.
pub open spec fn years_before(start: int) -> int {
    if start > -271819 {
        start + 271819
    } else {
        0
    }
}

/// How many years from `end` down can be taken off: those whose previous
/// January 1 is in range.
pub open spec fn years_down_from(end: int) -> int {
    if end + 271820 > 0 {
        end + 271820
    } else {
        0
    }
}

/// How many years from `start` up can be taken off: those whose next
/// January 1 is in range.
pub open spec fn years_up_from(start: int) -> int {
    if 275760 - start > 0 {
        275760 - start
    } else {
        0
    }
}

/// The range of years a timeline is drawn over. Not every year of it need
/// be on screen at once.
#[derive(Debug)]
pub struct TimelineRenderRange(pub YearRange);

impl TimelineRenderRange {
    /// The range from `years` years before `center` to `years` years after
    /// it, as a timeline is first drawn around the current year.
    pub fn around(center: &Year, years: i64) -> (r: Self)
        requires
            center.value() > -271821,
            whole_shift(years as int, 0),
            first_of_month_in_limits(center.value() - years, 1),
            first_of_month_in_limits(center.value() + years, 1),
        ensures
            r.0.start.value() == center.value() - years,
            r.0.end.value() == center.value() + years,
    {
        TimelineRenderRange(
            YearRange { start: center.clone().sub_years(years), end: center.clone().add_years(years) },
        )
    }

    /// Moves the range one year later for a line that wrapped around from
    /// the left end to the right, and returns the year that line now shows:
    /// the new end.
    pub fn wrap_left(&mut self) -> (label: Year)
        requires
            old(self).0.start.value() > -271821,
            old(self).0.end.value() > -271821,
            next_year(old(self).0.start.value() as int) is Some,
            next_year(old(self).0.end.value() as int) is Some,
        ensures
            final(self).0.start.value() == old(self).0.start.value() + 1,
            final(self).0.end.value() == old(self).0.end.value() + 1,
            label == final(self).0.end,
    {
        self.inc();
        self.0.end.clone()
    }

    /// Moves the range one year earlier for a line that wrapped around from
    /// the right end to the left, and returns the year that line now shows:
    /// the new start.
    pub fn wrap_right(&mut self) -> (label: Year)
        requires
            old(self).0.start.value() > -271821,
            old(self).0.end.value() > -271821,
            previous_year(old(self).0.start.value() as int) is Some,
            previous_year(old(self).0.end.value() as int) is Some,
        ensures
            final(self).0.start.value() == old(self).0.start.value() - 1,
            final(self).0.end.value() == old(self).0.end.value() - 1,
            label == final(self).0.start,
    {
        self.dec();
        self.0.start.clone()
    }

    /// Handles `count` lines that wrapped around from the left end to the
    /// right, taken in the order of the years they showed, lowest first:
    /// each moves the range one year later and shows the new end. Returns
    /// the years the lines show, in that order.
    pub fn wrap_left_lines(&mut self, count: usize) -> (labels: Vec<Year>)
        requires
            old(self).0.start.value() > -271821,
            old(self).0.end.value() > -271821,
            first_of_month_in_limits(old(self).0.start.value() + count + 1, 1),
            first_of_month_in_limits(old(self).0.end.value() + count + 1, 1),
        ensures
            labels@.len() == count,
            forall|i: int|
                0 <= i < count ==> #[trigger] labels@[i].value() == old(self).0.end.value() + 1 + i,
            final(self).0.start.value() == old(self).0.start.value() + count,
            final(self).0.end.value() == old(self).0.end.value() + count,
    {
        let ghost s0 = self.0.start.value() as int;
        let ghost e0 = self.0.end.value() as int;
        let mut labels: Vec<Year> = Vec::new();
        let mut i: usize = 0;
        while i < count
            invariant
                i <= count,
                s0 > -271821,
                e0 > -271821,
                first_of_month_in_limits(s0 + count + 1, 1),
                first_of_month_in_limits(e0 + count + 1, 1),
                self.0.start.value() == s0 + i,
                self.0.end.value() == e0 + i,
                labels@.len() == i,
                forall|j: int| 0 <= j < i ==> #[trigger] labels@[j].value() == e0 + 1 + j,
            decreases count - i,
        {
            let label = self.wrap_left();
            labels.push(label);
            i = i + 1;
        }
        labels
    }

    /// Handles `count` lines that wrapped around from the right end to the
    /// left, taken in the order of the years they showed, highest first:
    /// each moves the range one year earlier and shows the new start.
    /// Returns the years the lines show, in that order.
    pub fn wrap_right_lines(&mut self, count: usize) -> (labels: Vec<Year>)
        requires
            first_of_month_in_limits(old(self).0.start.value() - count - 1, 1),
            first_of_month_in_limits(old(self).0.end.value() - count - 1, 1),
        ensures
            labels@.len() == count,
            forall|i: int|
                0 <= i < count ==> #[trigger] labels@[i].value() == old(self).0.start.value() - 1 - i,
            final(self).0.start.value() == old(self).0.start.value() - count,
            final(self).0.end.value() == old(self).0.end.value() - count,
    {
        let ghost s0 = self.0.start.value() as int;
        let ghost e0 = self.0.end.value() as int;
        proof {
            use_type_invariant(&self.0.start);
            use_type_invariant(&self.0.end);
        }
        let mut labels: Vec<Year> = Vec::new();
        let mut i: usize = 0;
        while i < count
            invariant
                i <= count,
                first_of_month_in_limits(s0 - count - 1, 1),
                first_of_month_in_limits(e0 - count - 1, 1),
                s0 <= 275760,
                e0 <= 275760,
                self.0.start.value() == s0 - i,
                self.0.end.value() == e0 - i,
                labels@.len() == i,
                forall|j: int| 0 <= j < i ==> #[trigger] labels@[j].value() == s0 - 1 - j,
            decreases count - i,
        {
            let label = self.wrap_right();
            labels.push(label);
            i = i + 1;
        }
        labels
    }

    /// Moves both ends of the range one year later.
    pub fn inc(&mut self)
        requires
            old(self).0.start.value() > -271821,
            old(self).0.end.value() > -271821,
            next_year(old(self).0.start.value() as int) is Some,
            next_year(old(self).0.end.value() as int) is Some,
        ensures
            final(self).0.start.value() == old(self).0.start.value() + 1,
            final(self).0.end.value() == old(self).0.end.value() + 1,
    {
        if let Ok(end) = self.0.end.get_next() {
            self.0.end = end;
        }
        if let Ok(start) = self.0.start.get_next() {
            self.0.start = start;
        }
    }

    /// Draws up to `count` more years after the end: the years after it, as
    /// many as there are, which become the new end.
    pub fn extend_right(&mut self, count: usize) -> (added: Vec<Year>)
        requires
            old(self).0.end.value() > -271821,
            count > 0 ==> old(self).0.end.value() < 275759,
        ensures
            added@.len() == min_of(count as int, years_after(old(self).0.end.value() as int)),
            forall|i: int|
                0 <= i < added@.len() ==> #[trigger] added@[i].value() == old(self).0.end.value()
                    + 1 + i,
            final(self).0.start == old(self).0.start,
            final(self).0.end.value() == old(self).0.end.value() + added@.len(),
    {
        let mut it = YearIterator::new(&self.0.end);
        let _end = it.take_next(1);
        let added = it.take_next(count);
        if added.len() > 0 {
            self.0.end = added[added.len() - 1].clone();
        }
        added
    }

    /// Draws up to `count` more years before the start: the years before
    /// it, nearest first, as many as there are; the last becomes the new
    /// start.
    pub fn extend_left(&mut self, count: usize) -> (added: Vec<Year>)
        requires
            old(self).0.start.value() > -271821,
            count > 0 ==> old(self).0.start.value() > -271819,
        ensures
            added@.len() == min_of(count as int, years_before(old(self).0.start.value() as int)),
            forall|i: int|
                0 <= i < added@.len() ==> #[trigger] added@[i].value() == old(
                    self,
                ).0.start.value() - 1 - i,
            final(self).0.end == old(self).0.end,
            final(self).0.start.value() == old(self).0.start.value() - added@.len(),
    {
        let mut it = YearIterator::new(&self.0.start);
        let _start = it.take_next_back(1);
        let added = it.take_next_back(count);
        if added.len() > 0 {
            self.0.start = added[added.len() - 1].clone();
        }
        added
    }

    /// Stops drawing up to `left` years from the start and up to `right`
    /// years from the end, and returns them: those from the start, in
    /// order, then those from the end, last first. Each end moves past the
    /// years taken off it.
    pub fn remove_years(&mut self, left: usize, right: usize) -> (removed: Vec<Year>)
        requires
            old(self).0.start.value() > -271821,
            old(self).0.end.value() > -271821,
            ({
                let n = min_of(right as int, years_down_from(old(self).0.end.value() as int));
                n > 0 ==> first_of_month_in_limits(old(self).0.end.value() - n - 1, 1)
            }),
            ({
                let n = min_of(left as int, years_up_from(old(self).0.start.value() as int));
                n > 0 ==> first_of_month_in_limits(old(self).0.start.value() + n + 1, 1)
            }),
        ensures
            ({
                let nl = min_of(left as int, years_up_from(old(self).0.start.value() as int));
                let nr = min_of(right as int, years_down_from(old(self).0.end.value() as int));
                &&& removed@.len() == nl + nr
                &&& forall|i: int|
                    0 <= i < nl ==> #[trigger] removed@[i].value() == old(self).0.start.value() + i
                &&& forall|i: int|
                    nl <= i < nl + nr ==> #[trigger] removed@[i].value() == old(
                        self,
                    ).0.end.value() - (i - nl)
                &&& final(self).0.start.value() == old(self).0.start.value() + nl
                &&& final(self).0.end.value() == old(self).0.end.value() - nr
            }),
    {
        let ghost start0 = self.0.start.value() as int;
        let ghost end0 = self.0.end.value() as int;
        let mut right_it = YearIterator::new(&self.0.end);
        let mut from_end = right_it.take_next_back(right);
        let mut left_it = YearIterator::new(&self.0.start);
        let mut removed = left_it.take_next(left);
        if from_end.len() > 0 {
            if let Ok(end) = from_end[from_end.len() - 1].get_previous() {
                self.0.end = end;
            }
        }
        if removed.len() > 0 {
            if let Ok(start) = removed[removed.len() - 1].get_next() {
                self.0.start = start;
            }
        }
        let ghost nl = removed@.len() as int;
        let ghost from_start = removed@;
        let ghost tail = from_end@;
        removed.append(&mut from_end);
        proof {
            assert(removed@ == from_start + tail);
            assert forall|i: int| nl <= i < removed@.len() implies #[trigger] removed@[i].value()
                == end0 - (i - nl) by {
                assert(removed@[i] == tail[i - nl]);
            }
        }
        removed
    }

    /// Moves both ends of the range one year earlier.
    pub fn dec(&mut self)
        requires
            old(self).0.start.value() > -271821,
            old(self).0.end.value() > -271821,
            previous_year(old(self).0.start.value() as int) is Some,
            previous_year(old(self).0.end.value() as int) is Some,
        ensures
            final(self).0.start.value() == old(self).0.start.value() - 1,
            final(self).0.end.value() == old(self).0.end.value() - 1,
    {
        if let Ok(start) = self.0.start.get_previous() {
            self.0.start = start;
        }
        if let Ok(end) = self.0.end.get_previous() {
            self.0.end = end;
        }
    }
}

} // verus!
