//! Events: what happened, when, and under which tags.

use vstd::prelude::*;

mod data;
mod key;

pub use data::{EventData, EventView};
pub use key::{
    key_before, key_order, lemma_instant_keys_order, lemma_key_fields, lemma_key_order_antisymmetric, lemma_key_order_precedes, lemma_key_order_total,
    precedes, EventKey,
};

use std::collections::HashSet;

use crate::tag::TagId;
use crate::when::When;

verus! {

/// Identifies an event held by a [`Timeline`](crate::timeline::Timeline).
pub type EventId = u64;

/// An event of a timeline: its identifier and a borrow of its data.
pub struct Event<'a> {
    id: EventId,
    data: &'a EventData,
}

impl<'a> Event<'a> {
    /// The event `id` with the data `data`.
    pub(crate) fn new(id: EventId, data: &'a EventData) -> (r: Self)
        ensures
            r.id_spec() == id,
            r.data_spec() == *data,
    {
        Event { id, data }
    }

    /// The event's identifier.
    pub closed spec fn id_spec(&self) -> EventId {
        self.id
    }

    /// The event's data.
    pub closed spec fn data_spec(&self) -> EventData {
        *self.data
    }

    /// The event's identifier.
    pub fn id(&self) -> (r: EventId)
        ensures
            r == self.id_spec(),
    {
        self.id
    }

    /// The event's data.
    pub fn data(&self) -> (r: &'a EventData)
        ensures
            *r == self.data_spec(),
    {
        self.data
    }

    /// When the event happens.
    pub fn when(&self) -> (r: &'a When)
        ensures
            *r == self.data_spec()@.when,
    {
        self.data.when()
    }

    /// The event's name.
    pub fn name(&self) -> (r: &'a str)
        ensures
            r@ == self.data_spec()@.name,
    {
        self.data.name()
    }

    /// The tags attached to the event.
    pub fn tags(&self) -> (r: &'a HashSet<TagId>)
        ensures
            r@ == self.data_spec()@.tags,
    {
        self.data.tags()
    }

    /// The key that orders the event on a timeline: when it happens, then
    /// its identifier.
    pub fn key(&self) -> (r: EventKey)
        ensures
            r.id_spec() == self.id_spec(),
            r.when_spec() == self.data_spec()@.when,
    {
        EventKey::new(self.id, self.data.when().clone())
    }
}

} // verus!
