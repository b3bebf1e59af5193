//! What walking the calendar gives, over many steps.

use vstd::prelude::*;

use super::month_iterator::{month_iter_next, MonthIterView};
use super::year::{next_year, previous_year};
use super::year_iterator::{year_iter_next, YearIterView};
use super::year_range::range_len;

verus! {

/// What `steps` forward steps of a year iterator give, one after another.
pub open spec fn year_iter_run(v: YearIterView, steps: nat) -> Seq<Option<int>>
    decreases steps,
{
    if steps == 0 {
        Seq::empty()
    } else {
        let (w, r) = year_iter_next(v);
        seq![r] + year_iter_run(w, (steps - 1) as nat)
    }
}

/// What `steps` steps of a month iterator give, one after another.
pub open spec fn month_iter_run(v: MonthIterView, steps: nat) -> Seq<Option<int>>
    decreases steps,
{
    if steps == 0 {
        Seq::empty()
    } else {
        let (w, r) = month_iter_next(v);
        seq![r] + month_iter_run(w, (steps - 1) as nat)
    }
}

/// The years of a range, counted as `YearRange::len` counts them, followed
/// by the end of the iteration.
pub open spec fn years_then_end(start: int, end: int) -> Seq<Option<int>> {
    Seq::new(range_len(start, end) as nat, |i: int| Some(start + i)).push(None)
}

/// The months from `first` to 12, followed by the end of the iteration.
pub open spec fn months_then_end(first: int) -> Seq<Option<int>> {
    Seq::new((13 - first) as nat, |i: int| Some(first + i)).push(None)
}

/// The iterator of a range from `start` to `end` gives the years from
/// `start` to `end`, one after another and as many as the range's length,
/// and then nothing. (A range that ends in 275760 stops one year short:
/// the year after it has no January 1 in range.)
pub proof fn lemma_range_iteration(start: int, end: int)
    requires
        -271821 < start,
        end < 275760,
    ensures
        year_iter_run(
            YearIterView { curr: start, end: Some(end) },
            (range_len(start, end) + 1) as nat,
        ) == years_then_end(start, end),
    decreases end - start + 1,
{
    let v = YearIterView { curr: start, end: Some(end) };
    if start > end {
        assert(range_len(start, end) == 0);
        reveal_with_fuel(year_iter_run, 2);
        assert(year_iter_run(v, 1) =~= seq![None::<int>]);
        assert(years_then_end(start, end) =~= seq![None::<int>]);
    } else {
        lemma_range_iteration(start + 1, end);
        let n = range_len(start, end);
        assert(range_len(start + 1, end) == n - 1);
        let rest = year_iter_run(YearIterView { curr: start + 1, end: Some(end) }, n as nat);
        assert(year_iter_run(v, (n + 1) as nat) == seq![Some(start)] + rest);
        assert(seq![Some(start)] + years_then_end(start + 1, end) =~= years_then_end(start, end));
    }
}

/// The months of a year that lies wholly in range, from a month `first`
/// on, are `first` to 12, and then nothing.
proof fn lemma_months_from(year: int, first: int)
    requires
        -271821 < year < 275760,
        1 <= first <= 12,
    ensures
        month_iter_run(
            MonthIterView { year: year, curr_year: year, curr_month: first },
            (14 - first) as nat,
        ) == months_then_end(first),
    decreases 12 - first,
{
    let v = MonthIterView { year: year, curr_year: year, curr_month: first };
    if first == 12 {
        let w = MonthIterView { year: year, curr_year: year + 1, curr_month: 1 };
        assert(month_iter_next(v) == (w, Some(12int)));
        reveal_with_fuel(month_iter_run, 2);
        assert(month_iter_run(w, 1) =~= seq![None::<int>]);
        assert(month_iter_run(v, 2) =~= seq![Some(12int), None]);
        assert(months_then_end(12) =~= seq![Some(12int), None]);
    } else {
        lemma_months_from(year, first + 1);
        let w = MonthIterView { year: year, curr_year: year, curr_month: first + 1 };
        assert(month_iter_next(v) == (w, Some(first)));
        assert(month_iter_run(v, (14 - first) as nat) == seq![Some(first)] + month_iter_run(
            w,
            (13 - first) as nat,
        ));
        assert(seq![Some(first)] + months_then_end(first + 1) =~= months_then_end(first));
    }
}

/// The months of a year that lies wholly in range are January to
/// December, and then nothing. (In 275760, whose end is out of range, they
/// stop after August.)
pub proof fn lemma_months_of_year(year: int)
    requires
        -271821 < year < 275760,
    ensures
        month_iter_run(MonthIterView { year: year, curr_year: year, curr_month: 1 }, 13)
            == months_then_end(1),
{
    lemma_months_from(year, 1);
}

/// Going to the next year and back gives the year one started from,
/// wherever both steps succeed.
pub proof fn lemma_previous_of_next(year: int)
    requires
        next_year(year) is Some,
        previous_year(next_year(year)->0) is Some,
    ensures
        previous_year(next_year(year)->0) == Some(year),
{
}

/// Going to the previous year and on gives the year one started from,
/// wherever both steps succeed.
pub proof fn lemma_next_of_previous(year: int)
    requires
        previous_year(year) is Some,
        next_year(previous_year(year)->0) is Some,
    ensures
        next_year(previous_year(year)->0) == Some(year),
{
}

/// A range counts as empty exactly when it holds no year, except for a
/// range whose start and end are the same year: it holds that year and
/// still counts as empty.
pub proof fn lemma_empty_iff_no_years(start: int, end: int)
    requires
        start != end,
    ensures
        (end <= start) == (range_len(start, end) == 0),
{
}

} // verus!
