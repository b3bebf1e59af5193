//! When an event happens: at an instant, or over a period.

use vstd::prelude::*;

use crate::temporal::{zoned_display_text, zoned_parsed_strict};
use crate::zoned_datetime::{parsed_as, ZonedDateTime};
use core::cmp::Ordering;
use vstd::std_specs::cmp::{PartialEqSpec, PartialOrdSpec};

verus! {

/// When an event happens.
#[derive(Debug)]
pub enum When {
    /// At a single point in time.
    Instant(ZonedDateTime),
    /// From `start` to `end`.
    Period { start: ZonedDateTime, end: ZonedDateTime },
}

/// How two times of events compare, by the instants they denote.
///
/// An instant is before a period that starts after it, after a period that
/// ends before it, and not comparable with a period that contains it.
/// Periods compare by their start, then by their end.
pub open spec fn when_order(a: When, b: When) -> Option<Ordering> {
    match (a, b) {
        (When::Instant(x), When::Instant(y)) => Some(
            order_of(x.epoch_nanoseconds(), y.epoch_nanoseconds()),
        ),
        (When::Instant(x), When::Period { start, end }) => {
            if x.epoch_nanoseconds() < start.epoch_nanoseconds() {
                Some(Ordering::Less)
            } else if x.epoch_nanoseconds() > end.epoch_nanoseconds() {
                Some(Ordering::Greater)
            } else {
                None
            }
        },
        (When::Period { start, end }, When::Instant(x)) => {
            if start.epoch_nanoseconds() > x.epoch_nanoseconds() {
                Some(Ordering::Greater)
            } else if end.epoch_nanoseconds() < x.epoch_nanoseconds() {
                Some(Ordering::Less)
            } else {
                None
            }
        },
        (When::Period { start: s1, end: e1 }, When::Period { start: s2, end: e2 }) => {
            if s1.epoch_nanoseconds() == s2.epoch_nanoseconds() {
                Some(order_of(e1.epoch_nanoseconds(), e2.epoch_nanoseconds()))
            } else {
                Some(order_of(s1.epoch_nanoseconds(), s2.epoch_nanoseconds()))
            }
        },
    }
}

/// Where a time begins: its instant, or the start of its period.
pub open spec fn start_nanoseconds(w: When) -> i128 {
    match w {
        When::Instant(z) => z.epoch_nanoseconds(),
        When::Period { start, .. } => start.epoch_nanoseconds(),
    }
}

/// Whether two times compare equal: the same instant, or periods with the
/// same start and end.
pub open spec fn same_time(a: When, b: When) -> bool {
    when_order(a, b) == Some(Ordering::Equal)
}

/// The order of two integers.
pub open spec fn order_of(a: i128, b: i128) -> Ordering {
    if a < b {
        Ordering::Less
    } else if a == b {
        Ordering::Equal
    } else {
        Ordering::Greater
    }
}

/// The order of two identifiers.
pub open spec fn order_of_ids(a: u64, b: u64) -> Ordering {
    if a < b {
        Ordering::Less
    } else if a == b {
        Ordering::Equal
    } else {
        Ordering::Greater
    }
}

/// The order with the two sides swapped.
pub open spec fn reversed(o: Ordering) -> Ordering {
    match o {
        Ordering::Less => Ordering::Greater,
        Ordering::Equal => Ordering::Equal,
        Ordering::Greater => Ordering::Less,
    }
}

/// The text a time of an event is displayed as.
pub open spec fn when_text(w: When) -> Seq<char> {
    match w {
        When::Instant(t) => zoned_display_text(t.epoch_nanoseconds(), t.time_zone(), t.calendar()),
        When::Period { start, end } => zoned_display_text(
            start.epoch_nanoseconds(),
            start.time_zone(),
            start.calendar(),
        ) + " - "@ + zoned_display_text(end.epoch_nanoseconds(), end.time_zone(), end.calendar()),
    }
}

impl When {
    /// An event time at the instant `when`.
    pub fn instant(when: ZonedDateTime) -> (r: Self)
        ensures
            r == When::Instant(when),
    {
        When::Instant(when)
    }

    /// The text this time is displayed as: the instant, or the start and the
    /// end of the period separated by ` - `.
    pub fn to_string(&self) -> (r: String)
        ensures
            r@ == when_text(*self),
    {
        match self {
            When::Instant(t) => t.to_string(),
            When::Period { start, end } => {
                let mut text = start.to_string();
                text.append(" - ");
                let end_text = end.to_string();
                text.append(end_text.as_str());
                proof {
                    reveal_strlit(" - ");
                }
                text
            },
        }
    }
}

impl Clone for When {
    fn clone(&self) -> (r: Self)
        ensures
            r == *self,
    {
        match self {
            When::Instant(t) => When::Instant(t.clone()),
            When::Period { start, end } => When::Period { start: start.clone(), end: end.clone() },
        }
    }
}

impl PartialOrd for When {
    fn partial_cmp(&self, other: &Self) -> (r: Option<Ordering>)
        ensures
            match (*self, *other) {
                (When::Instant(x), When::Instant(y)) => {
                    &&& (r == Some(Ordering::Less)) == (x.epoch_nanoseconds() < y.epoch_nanoseconds())
                    &&& (r == Some(Ordering::Equal)) == (x.epoch_nanoseconds()
                        == y.epoch_nanoseconds())
                    &&& (r == Some(Ordering::Greater)) == (x.epoch_nanoseconds()
                        > y.epoch_nanoseconds())
                },
                (When::Period { start: s1, end: e1 }, When::Period { start: s2, end: e2 }) => {
                    &&& (r == Some(Ordering::Less)) == (s1.epoch_nanoseconds() < s2.epoch_nanoseconds()
                        || (s1.epoch_nanoseconds() == s2.epoch_nanoseconds()
                        && e1.epoch_nanoseconds() < e2.epoch_nanoseconds()))
                    &&& (r == Some(Ordering::Equal)) == (s1.epoch_nanoseconds()
                        == s2.epoch_nanoseconds() && e1.epoch_nanoseconds() == e2.epoch_nanoseconds())
                    &&& r is Some
                },
                (When::Instant(x), When::Period { start, end }) => {
                    &&& (r == Some(Ordering::Less)) == (x.epoch_nanoseconds() < start.epoch_nanoseconds())
                    &&& (r == Some(Ordering::Greater)) == (x.epoch_nanoseconds() > end.epoch_nanoseconds()
                        && x.epoch_nanoseconds() >= start.epoch_nanoseconds())
                    &&& r != Some(Ordering::Equal)
                },
                (When::Period { start, end }, When::Instant(x)) => {
                    &&& (r == Some(Ordering::Greater)) == (start.epoch_nanoseconds()
                        > x.epoch_nanoseconds())
                    &&& (r == Some(Ordering::Less)) == (end.epoch_nanoseconds() < x.epoch_nanoseconds()
                        && start.epoch_nanoseconds() <= x.epoch_nanoseconds())
                    &&& r != Some(Ordering::Equal)
                },
            },
    {
        match self {
            When::Instant(a) => match other {
                When::Period { start, end } => {
                    if a.epoch_nanoseconds_value() < start.epoch_nanoseconds_value() {
                        return Some(Ordering::Less);
                    } else if a.epoch_nanoseconds_value() > end.epoch_nanoseconds_value() {
                        return Some(Ordering::Greater);
                    }
                    None
                },
                When::Instant(b) => Some(a.compare_instant(b)),
            },
            When::Period { start, end } => match other {
                When::Instant(a) => {
                    if start.epoch_nanoseconds_value() > a.epoch_nanoseconds_value() {
                        return Some(Ordering::Greater);
                    } else if end.epoch_nanoseconds_value() < a.epoch_nanoseconds_value() {
                        return Some(Ordering::Less);
                    }
                    None
                },
                When::Period { start: other_start, end: other_end } => {
                    match start.compare_instant(other_start) {
                        Ordering::Equal => Some(end.compare_instant(other_end)),
                        order => Some(order),
                    }
                },
            },
        }
    }
}

impl vstd::std_specs::cmp::PartialOrdSpecImpl for When {
    open spec fn obeys_partial_cmp_spec() -> bool {
        true
    }

    open spec fn partial_cmp_spec(&self, other: &Self) -> Option<Ordering> {
        when_order(*self, *other)
    }
}

impl PartialEq for When {
    fn eq(&self, other: &Self) -> (r: bool)
        ensures
            r == match (*self, *other) {
                (When::Instant(x), When::Instant(y)) => x.epoch_nanoseconds()
                    == y.epoch_nanoseconds(),
                (When::Period { start: s1, end: e1 }, When::Period { start: s2, end: e2 }) => {
                    s1.epoch_nanoseconds() == s2.epoch_nanoseconds() && e1.epoch_nanoseconds()
                        == e2.epoch_nanoseconds()
                },
                _ => false,
            },
    {
        match self.partial_cmp(other) {
            Some(Ordering::Equal) => true,
            _ => false,
        }
    }
}

impl vstd::std_specs::cmp::PartialEqSpecImpl for When {
    open spec fn obeys_eq_spec() -> bool {
        true
    }

    open spec fn eq_spec(&self, other: &Self) -> bool {
        when_order(*self, *other) == Some(Ordering::Equal)
    }
}

impl Eq for When {}

/// An instant written out by [`ZonedDateTime::to_ixdtf`] (which, in a
/// whole-minute offset zone, promises that the text reads back as the same
/// instant) and read back by [`ZonedDateTime::from_ixdtf`] gives a time
/// equal to the one written.
pub proof fn lemma_stored_instant_reads_back(written: ZonedDateTime, text: Seq<char>, read: ZonedDateTime)
    requires
        zoned_parsed_strict(text) matches Ok(p) && p.0 == written.epoch_nanoseconds(),
        parsed_as(zoned_parsed_strict(text), read),
    ensures
        when_order(When::Instant(written), When::Instant(read)) == Some(Ordering::Equal),
{
}

/// Two instants compare as the instants they denote: the earlier one is
/// less, whatever side of 1970 either lies on.
pub proof fn lemma_instants_compare_in_time(x: ZonedDateTime, y: ZonedDateTime)
    ensures
        (When::Instant(x).partial_cmp_spec(&When::Instant(y)) == Some(Ordering::Less)) == (
        x.epoch_nanoseconds() < y.epoch_nanoseconds()),
        (When::Instant(x).partial_cmp_spec(&When::Instant(y)) == Some(Ordering::Equal)) == (
        x.epoch_nanoseconds() == y.epoch_nanoseconds()),
        (When::Instant(x).partial_cmp_spec(&When::Instant(y)) == Some(Ordering::Greater)) == (
        x.epoch_nanoseconds() > y.epoch_nanoseconds()),
{
}

/// Two periods compare by their starts, and, where those are the same
/// instant, by their ends.
pub proof fn lemma_periods_compare_by_start_then_end(
    s1: ZonedDateTime,
    e1: ZonedDateTime,
    s2: ZonedDateTime,
    e2: ZonedDateTime,
)
    ensures
        ({
            let c = (When::Period { start: s1, end: e1 }).partial_cmp_spec(
                &When::Period { start: s2, end: e2 },
            );
            &&& (c == Some(Ordering::Less)) == (s1.epoch_nanoseconds() < s2.epoch_nanoseconds()
                || (s1.epoch_nanoseconds() == s2.epoch_nanoseconds() && e1.epoch_nanoseconds()
                < e2.epoch_nanoseconds()))
            &&& (c == Some(Ordering::Greater)) == (s1.epoch_nanoseconds() > s2.epoch_nanoseconds()
                || (s1.epoch_nanoseconds() == s2.epoch_nanoseconds() && e1.epoch_nanoseconds()
                > e2.epoch_nanoseconds()))
        }),
{
}

/// Two times are equal exactly when they compare equal: two instants when
/// they are the same instant, two periods when both their starts and their
/// ends are; an instant never equals a period.
pub proof fn lemma_when_equality(a: When, b: When)
    ensures
        a.eq_spec(&b) == (a.partial_cmp_spec(&b) == Some(Ordering::Equal)),
        a.eq_spec(&b) == match (a, b) {
            (When::Instant(x), When::Instant(y)) => x.epoch_nanoseconds() == y.epoch_nanoseconds(),
            (When::Period { start: s1, end: e1 }, When::Period { start: s2, end: e2 }) => {
                s1.epoch_nanoseconds() == s2.epoch_nanoseconds() && e1.epoch_nanoseconds()
                    == e2.epoch_nanoseconds()
            },
            _ => false,
        },
{
}

/// Every time compares equal to itself.
pub proof fn lemma_same_time_reflexive(w: When)
    ensures
        same_time(w, w),
{
}

/// Comparing the other way round gives the reversed answer.
pub proof fn lemma_when_order_antisymmetric(a: When, b: When)
    ensures
        when_order(b, a) == match when_order(a, b) {
            Some(o) => Some(reversed(o)),
            None => None,
        },
{
}

/// Two instants are always comparable, and so are two periods; an instant
/// and a period are comparable exactly when the instant lies outside the
/// period.
pub proof fn lemma_when_order_defined(a: When, b: When)
    ensures
        when_order(a, b) is None <==> match (a, b) {
            (When::Instant(x), When::Period { start, end }) => start.epoch_nanoseconds()
                <= x.epoch_nanoseconds() <= end.epoch_nanoseconds(),
            (When::Period { start, end }, When::Instant(x)) => start.epoch_nanoseconds()
                <= x.epoch_nanoseconds() <= end.epoch_nanoseconds(),
            _ => false,
        },
{
}

} // verus!
