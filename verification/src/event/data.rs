use std::collections::HashSet;

use vstd::prelude::*;

use crate::ids::copy_of;
use crate::tag::TagId;
use crate::when::When;

verus! {

/// What is recorded about an event: when it happened, its name and the tags
/// attached to it.
#[derive(Debug)]
pub struct EventData {
    when: When,
    name: String,
    tags: HashSet<TagId>,
}

/// What an event holds: when it happened, its name and its tags.
pub struct EventView {
    pub when: When,
    pub name: Seq<char>,
    pub tags: Set<TagId>,
}

impl View for EventData {
    type V = EventView;

    closed spec fn view(&self) -> EventView {
        EventView { when: self.when, name: self.name@, tags: self.tags@ }
    }
}

impl Clone for EventData {
    fn clone(&self) -> (r: Self)
        ensures
            r@ == self@,
    {
        EventData { when: self.when.clone(), name: self.name.clone(), tags: copy_of(&self.tags) }
    }
}

impl EventData {
    /// When the event happened.
    pub fn when(&self) -> (r: &When)
        ensures
            *r == self@.when,
    {
        &self.when
    }

    /// The tags attached to the event.
    pub fn tags(&self) -> (r: &HashSet<TagId>)
        ensures
            r@ == self@.tags,
    {
        &self.tags
    }

    /// An event called `name` that happened `when`, with the tags `tags`.
    pub fn new(when: When, name: String, tags: HashSet<TagId>) -> (r: Self)
        ensures
            r@.when == when,
            r@.name == name@,
            r@.tags == tags@,
    {
        EventData { when, name, tags }
    }

    /// The event's name.
    pub fn name(&self) -> (r: &str)
        ensures
            r@ == self@.name,
    {
        self.name.as_str()
    }

    /// Attaches the tag `tag`; says whether it was not attached before.
    pub(crate) fn add_tag(&mut self, tag: TagId) -> (r: bool)
        ensures
            r == !old(self)@.tags.contains(tag),
            final(self)@.tags == old(self)@.tags.insert(tag),
            final(self)@.when == old(self)@.when,
            final(self)@.name == old(self)@.name,
    {
        self.tags.insert(tag)
    }

    /// Detaches the tag `tag`; says whether it was attached.
    pub(crate) fn remove_tag(&mut self, tag: TagId) -> (r: bool)
        ensures
            r == old(self)@.tags.contains(tag),
            final(self)@.tags == old(self)@.tags.remove(tag),
            final(self)@.when == old(self)@.when,
            final(self)@.name == old(self)@.name,
    {
        self.tags.remove(&tag)
    }
}

} // verus!
