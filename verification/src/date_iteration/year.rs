use core::cmp::Ordering;

use vstd::prelude::*;
use vstd::std_specs::cmp::{PartialOrdSpec, PartialOrdSpecImpl};

use super::month_iterator::{MonthIterView, MonthIterator};
use super::plain_date::{DateView, PlainDate};
use super::year_iterator::YearIterator;
use crate::temporal::{
    current_iso_year, first_of_month_add, first_of_month_in_limits, first_of_month_subtract,
    whole_shift,
};

verus! {

/// A year of the ISO calendar that holds at least one date `temporal_rs`
/// represents: from -271821 to 275760.
#[derive(Debug, PartialEq, Eq, Structural)]
pub struct Year(i32);

/// Why a year could not be given.
#[derive(Debug)]
pub enum YearError {
    /// The year asked for lies too close to the end of the range of dates.
    AbruptEnd,
    /// Today's date could not be read; the message says why.
    Clock(String),
}

/// The year that [`Year::get_next`] gives after `year`: the next one,
/// provided that January 1 two years on is still in range (the step is
/// taken by moving a date on by one year twice).
pub open spec fn next_year(year: int) -> Option<int> {
    if first_of_month_in_limits(year + 2, 1) {
        Some(year + 1)
    } else {
        None
    }
}

/// The year that [`Year::get_previous`] gives before `year`: the previous
/// one, provided that January 1 two years back is still in range.
pub open spec fn previous_year(year: int) -> Option<int> {
    if first_of_month_in_limits(year - 2, 1) {
        Some(year - 1)
    } else {
        None
    }
}

/// The decimal digits of `n`, most significant first.
pub open spec fn decimal_digits(n: nat) -> Seq<char>
    decreases n,
{
    if n < 10 {
        seq![(n + 48) as char]
    } else {
        decimal_digits(n / 10).push(((n % 10) + 48) as char)
    }
}

/// The decimal text of `v`, with a minus sign where it is negative.
pub open spec fn decimal_text(v: int) -> Seq<char> {
    if v < 0 {
        seq!['-'] + decimal_digits((-v) as nat)
    } else {
        decimal_digits(v as nat)
    }
}

/// `i32`'s `Display`: its decimal text.
#[verifier::external_body]
fn decimal_of(v: i32) -> (r: String)
    ensures
        r@ == decimal_text(v as int),
{
    format!("{}", v)
}

impl Year {
    /// The year's number.
    pub closed spec fn value(self) -> i32 {
        self.0
    }

    /// Every year lies from -271821 to 275760.
    #[verifier::type_invariant]
    pub open spec fn in_range(self) -> bool {
        -271821 <= self.value() <= 275760
    }

    /// The year `value`.
    pub(crate) fn from_value(value: i32) -> (r: Self)
        requires
            -271821 <= value <= 275760,
        ensures
            r.value() == value,
    {
        Year(value)
    }

    /// This year, by today's date in UTC. What it is depends on the clock;
    /// an error carries the reason the date could not be read.
    pub fn current() -> (r: Result<Self, YearError>)
        ensures
            r matches Err(e) ==> e is Clock,
    {
        Self::from_reading(current_iso_year())
    }

    /// The year that a reading of today's date gives: the year read, or the
    /// reason the date could not be read.
    pub fn from_reading(reading: Result<i32, String>) -> (r: Result<Self, YearError>)
        requires
            reading matches Ok(y) ==> -271821 <= y <= 275760,
        ensures
            match reading {
                Ok(y) => r matches Ok(year) && year.value() == y,
                Err(msg) => r matches Err(e) && e matches YearError::Clock(m) && m@ == msg@,
            },
    {
        match reading {
            Ok(y) => Ok(Year(y)),
            Err(msg) => Err(YearError::Clock(msg)),
        }
    }

    /// The year's number.
    pub fn inner(&self) -> (r: i32)
        ensures
            r == self.value(),
    {
        self.0
    }

    /// The year after this one (see [`next_year`]).
    pub fn get_next(&self) -> (r: Result<Self, YearError>)
        requires
            self.value() > -271821,
        ensures
            match r {
                Ok(y) => next_year(self.value() as int) == Some(y.value() as int),
                Err(e) => next_year(self.value() as int) is None && e is AbruptEnd,
            },
    {
        let mut it = YearIterator::new(self);
        let first = it.next();
        if first.is_none() {
            return Err(YearError::AbruptEnd);
        }
        match it.next() {
            Some(y) => Ok(y),
            None => Err(YearError::AbruptEnd),
        }
    }

    /// The year before this one (see [`previous_year`]).
    pub fn get_previous(&self) -> (r: Result<Self, YearError>)
        requires
            self.value() > -271821,
        ensures
            match r {
                Ok(y) => previous_year(self.value() as int) == Some(y.value() as int),
                Err(e) => previous_year(self.value() as int) is None && e is AbruptEnd,
            },
    {
        proof {
            use_type_invariant(self);
        }
        let mut it = YearIterator::new(self);
        let first = it.next_back();
        if first.is_none() {
            return Err(YearError::AbruptEnd);
        }
        match it.next_back() {
            Some(y) => Ok(y),
            None => Err(YearError::AbruptEnd),
        }
    }

    /// The months of this year, from its January 1 on.
    pub fn months(&self) -> (r: MonthIterator)
        requires
            self.value() > -271821,
        ensures
            r@ == (MonthIterView {
                year: self.value() as int,
                curr_year: self.value() as int,
                curr_month: 1,
            }),
    {
        proof {
            use_type_invariant(self);
        }
        MonthIterator::from_year(Year(self.0))
    }

    /// January 1 of this year.
    pub fn as_date(&self) -> (r: PlainDate)
        requires
            self.value() > -271821,
        ensures
            r@ == (DateView { year: self.value() as int, month: 1, day: 1 }),
    {
        proof {
            use_type_invariant(self);
        }
        PlainDate::try_new(self.0, 1, 1).unwrap()
    }

    /// The year `years` years after this one.
    pub fn add_years(self, years: i64) -> (r: Self)
        requires
            self.value() > -271821,
            whole_shift(years as int, 0),
            first_of_month_in_limits(self.value() + years, 1),
        ensures
            r.value() == self.value() + years,
    {
        proof {
            use_type_invariant(&self);
        }
        let (y, _m) = first_of_month_add(self.0, 1, years, 0).unwrap();
        Year(y)
    }

    /// The year `years` years before this one.
    pub fn sub_years(self, years: i64) -> (r: Self)
        requires
            self.value() > -271821,
            whole_shift(years as int, 0),
            first_of_month_in_limits(self.value() - years, 1),
        ensures
            r.value() == self.value() - years,
    {
        proof {
            use_type_invariant(&self);
        }
        let (y, _m) = first_of_month_subtract(self.0, 1, years, 0).unwrap();
        Year(y)
    }

    /// The year's number in decimal.
    pub fn to_string(&self) -> (r: String)
        ensures
            r@ == decimal_text(self.value() as int),
    {
        decimal_of(self.0)
    }
}

impl Clone for Year {
    fn clone(&self) -> (r: Self)
        ensures
            r == *self,
    {
        proof {
            use_type_invariant(self);
        }
        Year(self.0)
    }
}

impl PartialOrd for Year {
    fn partial_cmp(&self, other: &Self) -> (r: Option<Ordering>)
        ensures
            (r == Some(Ordering::Less)) == (self.value() < other.value()),
            (r == Some(Ordering::Equal)) == (self.value() == other.value()),
            (r == Some(Ordering::Greater)) == (self.value() > other.value()),
    {
        if self.0 < other.0 {
            Some(Ordering::Less)
        } else if self.0 == other.0 {
            Some(Ordering::Equal)
        } else {
            Some(Ordering::Greater)
        }
    }
}

impl PartialOrdSpecImpl for Year {
    open spec fn obeys_partial_cmp_spec() -> bool {
        true
    }

    open spec fn partial_cmp_spec(&self, other: &Self) -> Option<Ordering> {
        if self.value() < other.value() {
            Some(Ordering::Less)
        } else if self.value() == other.value() {
            Some(Ordering::Equal)
        } else {
            Some(Ordering::Greater)
        }
    }
}

impl From<PlainDate> for Year {
    fn from(date: PlainDate) -> (r: Self)
        ensures
            r.value() == date@.year,
    {
        proof {
            use_type_invariant(&date);
        }
        Year(date.year())
    }
}

impl vstd::std_specs::convert::FromSpecImpl<PlainDate> for Year {
    open spec fn obeys_from_spec() -> bool {
        true
    }

    closed spec fn from_spec(date: PlainDate) -> Self {
        Year(date@.year as i32)
    }
}

/// Years are ordered by their numbers, negative numbers (years before
/// year 1) included: the earlier year is the lesser.
pub proof fn lemma_years_ordered_by_number(a: Year, b: Year)
    ensures
        (PartialOrdSpec::partial_cmp_spec(&a, &b) == Some(Ordering::Less)) == (a.value() < b.value()),
        (PartialOrdSpec::partial_cmp_spec(&a, &b) == Some(Ordering::Equal)) == (a.value() == b.value()),
        (PartialOrdSpec::partial_cmp_spec(&a, &b) == Some(Ordering::Greater)) == (a.value() > b.value()),
{
}

/// Two years with the same number are the same year.
pub proof fn lemma_same_number_same_year(a: Year, b: Year)
    requires
        a.value() == b.value(),
    ensures
        a == b,
{
}

/// Moving a year on by some years and back by as many gives the year one
/// started from: where `later` is `years` after `year` and `back` is `years`
/// before `later`, `back` is `year`.
pub proof fn lemma_add_then_sub_years(year: Year, later: Year, back: Year, years: int)
    requires
        later.value() == year.value() + years,
        back.value() == later.value() - years,
    ensures
        back == year,
{
}

/// Conversion of a date to its year.
pub trait ToYear {
    /// The year of the date.
    fn to_year(&self) -> Year;
}

impl ToYear for PlainDate {
    fn to_year(&self) -> (r: Year)
        ensures
            r.value() == self@.year,
    {
        proof {
            use_type_invariant(self);
        }
        Year(self.year())
    }
}

} // verus!
