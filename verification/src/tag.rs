//! Tags: named groups of events.

use std::collections::HashSet;

use vstd::prelude::*;

use crate::event::EventId;

verus! {

/// Identifies a tag held by a [`TimelineManager`](crate::TimelineManager).
pub type TagId = u64;

/// A named tag and the events it is attached to.
#[derive(Debug)]
pub struct TagData {
    associated_events: HashSet<EventId>,
    name: String,
}

/// What a tag holds: its name and the events it is attached to.
pub struct TagView {
    pub associated_events: Set<EventId>,
    pub name: Seq<char>,
}

impl View for TagData {
    type V = TagView;

    closed spec fn view(&self) -> TagView {
        TagView { associated_events: self.associated_events@, name: self.name@ }
    }
}

impl TagData {
    /// A tag called `name`, attached to no event.
    pub fn new(name: String) -> (r: Self)
        ensures
            r@.associated_events == Set::<EventId>::empty(),
            r@.name == name@,
    {
        TagData { associated_events: HashSet::new(), name }
    }

    /// Attaches the tag to the event `id`.
    pub fn add_associated_event(&mut self, id: EventId)
        ensures
            final(self)@.associated_events == old(self)@.associated_events.insert(id),
            final(self)@.name == old(self)@.name,
    {
        self.associated_events.insert(id);
    }

    /// Detaches the tag from the event `id`; says whether it was attached.
    pub fn remove_associated_event(&mut self, id: EventId) -> (r: bool)
        ensures
            r == old(self)@.associated_events.contains(id),
            final(self)@.associated_events == old(self)@.associated_events.remove(id),
            final(self)@.name == old(self)@.name,
    {
        self.associated_events.remove(&id)
    }

    /// The events the tag is attached to.
    pub fn associated_events(&self) -> (r: &HashSet<EventId>)
        ensures
            r@ == self@.associated_events,
    {
        &self.associated_events
    }

    /// The tag's name.
    pub fn name(&self) -> (r: &str)
        ensures
            r@ == self@.name,
    {
        self.name.as_str()
    }
}

} // verus!
