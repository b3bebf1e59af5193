use vstd::prelude::*;

use crate::event::EventId;
use crate::when::{order_of_ids, when_order, When};
use core::cmp::Ordering;

verus! {

/// What orders events on a timeline: when they happen, then their identifier.
#[derive(Debug)]
pub struct EventKey {
    id: EventId,
    when: When,
}

/// How two event keys are ordered: by their times where those are
/// comparable and differ, by their identifiers otherwise.
pub open spec fn key_order(a: EventKey, b: EventKey) -> Ordering {
    match when_order(a.when_spec(), b.when_spec()) {
        Some(Ordering::Less) => Ordering::Less,
        Some(Ordering::Greater) => Ordering::Greater,
        _ => order_of_ids(a.id_spec(), b.id_spec()),
    }
}

/// Whether the event `a_id` happening `a_when` comes before the event `b_id`
/// happening `b_when`: by time where the times are comparable and differ, by
/// identifier otherwise.
pub open spec fn precedes(a_id: EventId, a_when: When, b_id: EventId, b_when: When) -> bool {
    match when_order(a_when, b_when) {
        Some(Ordering::Less) => true,
        Some(Ordering::Greater) => false,
        _ => a_id < b_id,
    }
}

impl EventKey {
    /// The key of the event `id` that happens `when`.
    pub(crate) fn new(id: EventId, when: When) -> (r: Self)
        ensures
            r.id_spec() == id,
            r.when_spec() == when,
    {
        EventKey { id, when }
    }

    /// The event's identifier.
    pub closed spec fn id_spec(&self) -> EventId {
        self.id
    }

    /// When the event happens.
    pub closed spec fn when_spec(&self) -> When {
        self.when
    }

    /// The event's identifier.
    pub fn id(&self) -> (r: EventId)
        ensures
            r == self.id_spec(),
    {
        self.id
    }

    /// Orders this key against `other`: by time where the times are
    /// comparable and differ, by identifier otherwise.
    pub fn cmp(&self, other: &Self) -> (r: Ordering)
        ensures
            r == key_order(*self, *other),
    {
        match self.when.partial_cmp(&other.when) {
            Some(Ordering::Less) => Ordering::Less,
            Some(Ordering::Greater) => Ordering::Greater,
            _ => {
                if self.id < other.id {
                    Ordering::Less
                } else if self.id == other.id {
                    Ordering::Equal
                } else {
                    Ordering::Greater
                }
            },
        }
    }
}

impl EventKey {
    /// Whether this key orders before `other`.
    pub fn is_before(&self, other: &Self) -> (r: bool)
        ensures
            r == key_before(*self, *other),
    {
        match self.cmp(other) {
            Ordering::Less => true,
            _ => false,
        }
    }
}

impl Clone for EventKey {
    fn clone(&self) -> (r: Self)
        ensures
            r == *self,
    {
        EventKey { id: self.id, when: self.when.clone() }
    }
}

impl PartialEq for EventKey {
    fn eq(&self, other: &Self) -> (r: bool) {
        self.id == other.id && self.when.eq(&other.when)
    }
}

impl vstd::std_specs::cmp::PartialEqSpecImpl for EventKey {
    open spec fn obeys_eq_spec() -> bool {
        true
    }

    open spec fn eq_spec(&self, other: &Self) -> bool {
        self.id_spec() == other.id_spec() && when_order(self.when_spec(), other.when_spec())
            == Some(Ordering::Equal)
    }
}

impl Eq for EventKey {}

impl PartialOrd for EventKey {
    fn partial_cmp(&self, other: &Self) -> (r: Option<Ordering>) {
        Some(self.cmp(other))
    }
}

impl vstd::std_specs::cmp::PartialOrdSpecImpl for EventKey {
    open spec fn obeys_partial_cmp_spec() -> bool {
        true
    }

    open spec fn partial_cmp_spec(&self, other: &Self) -> Option<Ordering> {
        Some(key_order(*self, *other))
    }
}

/// The key order answers the other way round when the sides are swapped.
pub proof fn lemma_key_order_antisymmetric(a: EventKey, b: EventKey)
    ensures
        key_order(b, a) == crate::when::reversed(key_order(a, b)),
{
    crate::when::lemma_when_order_antisymmetric(a.when_spec(), b.when_spec());
}

/// Keys of events at instants order by instant, earlier first, then by
/// identifier.
pub proof fn lemma_instant_keys_order(a: EventKey, b: EventKey)
    requires
        a.when_spec() is Instant,
        b.when_spec() is Instant,
    ensures
        key_before(a, b) == (crate::when::start_nanoseconds(a.when_spec())
            < crate::when::start_nanoseconds(b.when_spec()) || (crate::when::start_nanoseconds(
            a.when_spec(),
        ) == crate::when::start_nanoseconds(b.when_spec()) && a.id_spec() < b.id_spec())),
{
}

/// A key is its identifier and its time: two keys with both the same are
/// the same key.
pub proof fn lemma_key_fields(a: EventKey, b: EventKey)
    requires
        a.id_spec() == b.id_spec(),
        a.when_spec() == b.when_spec(),
    ensures
        a == b,
{
}

/// Whether the key `a` orders before the key `b`.
pub open spec fn key_before(a: EventKey, b: EventKey) -> bool {
    key_order(a, b) == Ordering::Less
}

/// A key orders before another exactly when its event comes before the other's.
pub proof fn lemma_key_order_precedes(a: EventKey, b: EventKey)
    ensures
        key_before(a, b) == precedes(
            a.id_spec(),
            a.when_spec(),
            b.id_spec(),
            b.when_spec(),
        ),
{
}

/// Of two events with different identifiers, one comes before the other.
pub proof fn lemma_key_order_total(a: EventKey, b: EventKey)
    requires
        a.id_spec() != b.id_spec(),
        !key_before(a, b),
    ensures
        precedes(b.id_spec(), b.when_spec(), a.id_spec(), a.when_spec()),
{
    crate::when::lemma_when_order_antisymmetric(a.when_spec(), b.when_spec());
}

} // verus!
