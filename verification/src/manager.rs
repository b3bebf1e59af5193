//! The timeline manager: a timeline of events together with the tags that
//! group them, kept in agreement in both directions.

use std::collections::HashSet;

use vstd::prelude::*;

use crate::event::{Event, EventData, EventId, EventView};
use crate::ids::ids_of;
use crate::slots::{
    is_slot_key, tag_slots, tag_slots_get, tag_slots_get_mut, tag_slots_insert, tag_slots_keys,
    tag_slots_len, tag_slots_new, tag_slots_remove, TagSlots,
};
use crate::tag::{TagData, TagId, TagView};
use crate::event::EventKey;
use crate::timeline::{keys_transitive, lists_events, precedes_at, Timeline};
use crate::when::{same_time, start_nanoseconds, When};

verus! {

/// Events on a timeline and the tags that group them.
pub struct TimelineManager {
    timeline: Timeline,
    tags: TagSlots,
}

/// What a manager holds: its events and its tags, by identifier.
pub struct ManagerView {
    pub events: Map<EventId, EventView>,
    pub tags: Map<TagId, TagView>,
}

/// Whether events and tags agree: an event carries a tag exactly when the
/// tag exists and lists the event, and a tag lists an event exactly when the
/// event exists and carries the tag.
pub open spec fn consistent(v: ManagerView) -> bool {
    &&& forall|e: EventId, t: TagId|
        #![trigger v.events[e].tags.contains(t)]
        v.events.contains_key(e) && v.events[e].tags.contains(t) ==> v.tags.contains_key(t)
            && v.tags[t].associated_events.contains(e)
    &&& forall|t: TagId, e: EventId|
        #![trigger v.tags[t].associated_events.contains(e)]
        v.tags.contains_key(t) && v.tags[t].associated_events.contains(e) ==> v.events.contains_key(
            e,
        ) && v.events[e].tags.contains(t)
}

/// `tags`, with the event `event` added to the tags of `ids` that exist.
pub open spec fn attach_event(tags: Map<TagId, TagView>, ids: Set<TagId>, event: EventId) -> Map<
    TagId,
    TagView,
> {
    Map::new(
        |t: TagId| tags.contains_key(t),
        |t: TagId|
            if ids.contains(t) {
                TagView { associated_events: tags[t].associated_events.insert(event), name: tags[t].name }
            } else {
                tags[t]
            },
    )
}

/// `tags`, with the event `event` taken out of the tags of `ids`.
pub open spec fn detach_event(tags: Map<TagId, TagView>, ids: Set<TagId>, event: EventId) -> Map<
    TagId,
    TagView,
> {
    Map::new(
        |t: TagId| tags.contains_key(t),
        |t: TagId|
            if ids.contains(t) {
                TagView { associated_events: tags[t].associated_events.remove(event), name: tags[t].name }
            } else {
                tags[t]
            },
    )
}

/// `events`, with the tag `tag` added to the events of `ids` that exist.
pub open spec fn attach_tag(events: Map<EventId, EventView>, ids: Set<EventId>, tag: TagId) -> Map<
    EventId,
    EventView,
> {
    Map::new(
        |e: EventId| events.contains_key(e),
        |e: EventId|
            if ids.contains(e) {
                EventView { when: events[e].when, name: events[e].name, tags: events[e].tags.insert(tag) }
            } else {
                events[e]
            },
    )
}

/// `events`, with the tag `tag` taken off the events of `ids`.
pub open spec fn detach_tag(events: Map<EventId, EventView>, ids: Set<EventId>, tag: TagId) -> Map<
    EventId,
    EventView,
> {
    Map::new(
        |e: EventId| events.contains_key(e),
        |e: EventId|
            if ids.contains(e) {
                EventView { when: events[e].when, name: events[e].name, tags: events[e].tags.remove(tag) }
            } else {
                events[e]
            },
    )
}

/// The state after the event `d` is added under `id`: the event is held,
/// and every existing tag it carries lists it.
pub open spec fn with_event(v: ManagerView, id: EventId, d: EventView) -> ManagerView {
    ManagerView { events: v.events.insert(id, d), tags: attach_event(v.tags, d.tags, id) }
}

/// The state after the tag `d` is added under `id`: the tag is held, and
/// every existing event it lists carries it.
pub open spec fn with_tag(v: ManagerView, id: TagId, d: TagView) -> ManagerView {
    ManagerView { events: attach_tag(v.events, d.associated_events, id), tags: v.tags.insert(id, d) }
}

/// The state after the event `id` is taken out: the tags it carried no
/// longer list it.
pub open spec fn without_event(v: ManagerView, id: EventId) -> ManagerView {
    ManagerView {
        events: v.events.remove(id),
        tags: detach_event(v.tags, v.events[id].tags, id),
    }
}

/// The state after the tag `id` is taken out: the events it listed no
/// longer carry it.
pub open spec fn without_tag(v: ManagerView, id: TagId) -> ManagerView {
    ManagerView {
        events: detach_tag(v.events, v.tags[id].associated_events, id),
        tags: v.tags.remove(id),
    }
}

/// Whether the event `id` can be taken out: if it exists, every tag it
/// carries exists and lists it.
pub open spec fn event_removable(v: ManagerView, id: EventId) -> bool {
    v.events.contains_key(id) ==> forall|t: TagId|
        #![trigger v.events[id].tags.contains(t)]
        v.events[id].tags.contains(t) ==> v.tags.contains_key(t)
            && v.tags[t].associated_events.contains(id)
}

/// Whether the tag `id` can be taken out: if it exists, every event it
/// lists exists and carries it.
pub open spec fn tag_removable(v: ManagerView, id: TagId) -> bool {
    v.tags.contains_key(id) ==> forall|e: EventId|
        #![trigger v.tags[id].associated_events.contains(e)]
        v.tags[id].associated_events.contains(e) ==> v.events.contains_key(e)
            && v.events[e].tags.contains(id)
}

/// The tags that an event refers to but that do not exist.
#[derive(Debug)]
pub struct NonExistantTagsError(Vec<TagId>);

/// The events that a tag refers to but that do not exist.
#[derive(Debug)]
pub struct NonExistantEventsError(Vec<EventId>);

impl Default for TimelineManager {
    fn default() -> (r: Self)
        ensures
            r.wf(),
            r@.events.dom() == Set::<EventId>::empty(),
            r@.tags.dom() == Set::<TagId>::empty(),
            consistent(r@),
    {
        Self::new()
    }
}

impl NonExistantTagsError {
    /// The tags that do not exist.
    pub closed spec fn missing(&self) -> Seq<TagId> {
        self.0@
    }

    /// The tags that do not exist.
    pub fn tags(&self) -> (r: &Vec<TagId>)
        ensures
            r@ == self.missing(),
    {
        &self.0
    }
}

impl NonExistantEventsError {
    /// The events that do not exist.
    pub closed spec fn missing(&self) -> Seq<EventId> {
        self.0@
    }

    /// The events that do not exist.
    pub fn events(&self) -> (r: &Vec<EventId>)
        ensures
            r@ == self.missing(),
    {
        &self.0
    }
}

/// The views of the tags of `m`.
pub open spec fn tag_views(m: Map<TagId, TagData>) -> Map<TagId, TagView> {
    m.map_values(|d: TagData| d@)
}

impl View for TimelineManager {
    type V = ManagerView;

    closed spec fn view(&self) -> ManagerView {
        ManagerView {
            events: self.timeline@,
            tags: tag_views(tag_slots(self.tags)),
        }
    }
}

impl TimelineManager {
    /// The events held, with their data, by identifier.
    pub closed spec fn event_map(&self) -> Map<EventId, EventData> {
        self.timeline.events_map()
    }

    /// The time each event was added with, by identifier (see
    /// [`Timeline::added_whens`]).
    pub closed spec fn added_whens(&self) -> Map<EventId, When> {
        self.timeline.added_whens()
    }

    /// Every event key the manager has held (see [`Timeline::added_keys`]).
    pub closed spec fn added_keys(&self) -> Set<EventKey> {
        self.timeline.added_keys()
    }

    /// The tags held, with their data, by identifier.
    pub closed spec fn tag_map(&self) -> Map<TagId, TagData> {
        tag_slots(self.tags)
    }

    /// Whether the manager is well formed: finitely many events and tags,
    /// each under an identifier of the form slot maps hand out.
    pub closed spec fn wf(&self) -> bool {
        &&& self.timeline.wf()
        &&& self.tag_map().dom().finite()
        &&& forall|id: TagId| #[trigger] self.tag_map().contains_key(id) ==> is_slot_key(id)
    }

    /// The view is the data's view, entry by entry.
    pub proof fn lemma_view(&self)
        ensures
            self@.events.dom() == self.event_map().dom(),
            self@.tags.dom() == self.tag_map().dom(),
            forall|e: EventId| #[trigger]
                self.event_map().contains_key(e) ==> self@.events[e] == self.event_map()[e]@,
            forall|t: TagId| #[trigger]
                self.tag_map().contains_key(t) ==> self@.tags[t] == self.tag_map()[t]@,
    {
        assert(self.timeline@ == self.event_map().map_values(|d: EventData| d@));
    }

    /// A manager with no events and no tags.
    pub fn new() -> (r: Self)
        ensures
            r.wf(),
            r@.events.dom() == Set::<EventId>::empty(),
            r@.tags.dom() == Set::<TagId>::empty(),
            consistent(r@),
            r.added_whens() == Map::<EventId, When>::empty(),
            r.added_keys() == Set::<EventKey>::empty(),
    {
        let r = TimelineManager { timeline: Timeline::new(), tags: tag_slots_new() };
        proof {
            assert(r@.events.dom() =~= Set::<EventId>::empty());
            assert(r@.tags.dom() =~= Set::<TagId>::empty());
        }
        r
    }

    /// The number of events held.
    pub fn event_count(&self) -> (r: usize)
        requires
            self.wf(),
        ensures
            r == self@.events.len(),
    {
        proof {
            assert(self@.events.dom() =~= self.event_map().dom());
        }
        self.timeline.len()
    }

    /// Adds the event `data` under a new identifier, and adds that
    /// identifier to each existing tag the event carries. The event stays
    /// even where some of its tags do not exist; those tags are then named
    /// in the error.
    pub fn add_event(&mut self, data: EventData) -> (r: Result<EventId, NonExistantTagsError>)
        requires
            old(self).wf(),
            old(self)@.events.len() < u32::MAX - 1,
        ensures
            final(self).wf(),
            exists|id: EventId|
                #![trigger with_event(old(self)@, id, data@)]
                !old(self)@.events.contains_key(id) && final(self)@ == with_event(
                    old(self)@,
                    id,
                    data@,
                ) && (r matches Ok(i) ==> i == id) && final(self).added_whens() == old(
                    self,
                ).added_whens().insert(id, data@.when) && (forall|k: EventKey|
                    #[trigger] final(self).added_keys().contains(k) <==> old(
                        self,
                    ).added_keys().contains(k) || (k.id_spec() == id && k.when_spec() == data@.when)),
            r is Ok <==> data@.tags.subset_of(old(self)@.tags.dom()),
            r matches Err(e) ==> {
                &&& e.missing().no_duplicates()
                &&& e.missing().to_set() == data@.tags.difference(old(self)@.tags.dom())
            },
    {
        let ghost v0 = self@;
        let ghost d = data@;
        proof {
            self.lemma_view();
        }
        let id = self.timeline.insert(data);
        let ghost whens1 = self.timeline.added_whens();
        let ghost keys1 = self.timeline.added_keys();
        let tag_ids = match self.timeline.event_data(id) {
            Some(stored) => ids_of(stored.tags()),
            None => Vec::new(),
        };
        let ghost tags0 = tag_slots(self.tags);
        let mut bad: Vec<TagId> = Vec::new();
        let mut i: usize = 0;
        while i < tag_ids.len()
            invariant
                i <= tag_ids.len(),
                tag_ids@.no_duplicates(),
                tag_ids@.to_set() == d.tags,
                self.timeline.wf(),
                self.timeline@ == v0.events.insert(id, d),
                self.timeline.added_whens() == whens1,
                self.timeline.added_keys() == keys1,
                tag_slots(self.tags).dom() == tags0.dom(),
                tags0.dom() == v0.tags.dom(),
                tags0.dom().finite(),
                forall|t: TagId| #[trigger] tags0.contains_key(t) ==> is_slot_key(t),
                tag_views(tag_slots(self.tags)) == attach_event(
                    v0.tags,
                    tag_ids@.take(i as int).to_set(),
                    id,
                ),
                bad@.no_duplicates(),
                bad@.to_set() == tag_ids@.take(i as int).to_set().difference(tags0.dom()),
            decreases tag_ids.len() - i,
        {
            let t = tag_ids[i];
            let ghost before = tag_slots(self.tags);
            let mut found = false;
            if t & 0x1_0000_0000u64 != 0 {
                match tag_slots_get_mut(&mut self.tags, t) {
                    Some(td) => {
                        td.add_associated_event(id);
                        found = true;
                    },
                    None => {},
                }
            }
            proof {
                tag_ids@.lemma_take_succ_push(i as int);
                tag_ids@.take(i as int).lemma_push_to_set_commute(t);
                assert(!tag_ids@.take(i as int).contains(t));
                assert(found <==> before.contains_key(t));
                let s0 = tag_ids@.take(i as int).to_set();
                let s1 = tag_ids@.take(i + 1).to_set();
                assert(s1 == s0.insert(t));
                assert(!s0.contains(t));
                if found {
                    assert(tag_views(before)[t] == before[t]@);
                    assert(before[t]@ == v0.tags[t]);
                    assert(tag_views(tag_slots(self.tags)) =~= tag_views(before).insert(
                        t,
                        TagView {
                            associated_events: before[t]@.associated_events.insert(id),
                            name: before[t]@.name,
                        },
                    ));
                } else {
                    assert(tag_slots(self.tags) == before);
                }
            }
            if !found {
                proof {
                    assert(bad@.contains(t) ==> bad@.to_set().contains(t));
                    assert(!bad@.contains(t));
                    bad@.lemma_push_to_set_commute(t);
                }
                bad.push(t);
            }
            proof {
                assert(tag_views(tag_slots(self.tags)) =~= attach_event(
                    v0.tags,
                    tag_ids@.take(i + 1).to_set(),
                    id,
                ));
                assert(bad@.to_set() =~= tag_ids@.take(i + 1).to_set().difference(tags0.dom()));
            }
            i = i + 1;
        }
        proof {
            assert(tag_ids@.take(i as int) =~= tag_ids@);
            assert(self@.tags =~= attach_event(v0.tags, d.tags, id));
            assert(self@ == with_event(v0, id, d));
        }
        if bad.len() == 0 {
            proof {
                assert(bad@.to_set() =~= Set::<TagId>::empty());
                assert forall|t: TagId| d.tags.contains(t) implies v0.tags.dom().contains(t) by {
                    assert(!d.tags.difference(v0.tags.dom()).contains(t));
                }
            }
            Ok(id)
        } else {
            proof {
                assert(bad@.to_set().contains(bad@[0]));
                assert(!d.tags.subset_of(v0.tags.dom()));
            }
            Err(NonExistantTagsError(bad))
        }
    }

    /// Adds the tag `data` under a new identifier, and adds that
    /// identifier to each existing event the tag lists. The tag stays even
    /// where some of its events do not exist; those events are then named in
    /// the error.
    pub fn add_tag(&mut self, data: TagData) -> (r: Result<TagId, NonExistantEventsError>)
        requires
            old(self).wf(),
            old(self)@.tags.len() < u32::MAX - 1,
        ensures
            final(self).wf(),
            exists|id: TagId|
                #![trigger with_tag(old(self)@, id, data@)]
                !old(self)@.tags.contains_key(id) && final(self)@ == with_tag(
                    old(self)@,
                    id,
                    data@,
                ) && (r matches Ok(i) ==> i == id),
            r is Ok <==> data@.associated_events.subset_of(old(self)@.events.dom()),
            final(self).added_whens() == old(self).added_whens(),
            final(self).added_keys() == old(self).added_keys(),
            r matches Err(e) ==> {
                &&& e.missing().no_duplicates()
                &&& e.missing().to_set() == data@.associated_events.difference(
                    old(self)@.events.dom(),
                )
            },
    {
        let ghost v0 = self@;
        let ghost d = data@;
        proof {
            self.lemma_view();
        }
        let event_ids = ids_of(data.associated_events());
        let id = tag_slots_insert(&mut self.tags, data);
        let ghost events0 = self.timeline.events_map();
        let ghost whens0 = self.timeline.added_whens();
        let ghost keys0 = self.timeline.added_keys();
        let mut bad: Vec<EventId> = Vec::new();
        let mut i: usize = 0;
        proof {
            assert(tag_views(tag_slots(self.tags)) =~= v0.tags.insert(id, d));
        }
        while i < event_ids.len()
            invariant
                i <= event_ids.len(),
                event_ids@.no_duplicates(),
                event_ids@.to_set() == d.associated_events,
                self.timeline.wf(),
                self.timeline.events_map().dom() == events0.dom(),
                self.timeline.added_whens() == whens0,
                self.timeline.added_keys() == keys0,
                events0.dom() == v0.events.dom(),
                self.timeline@ == attach_tag(v0.events, event_ids@.take(i as int).to_set(), id),
                tag_views(tag_slots(self.tags)) == v0.tags.insert(id, d),
                tag_slots(self.tags).dom().finite(),
                forall|t: TagId| #[trigger] tag_slots(self.tags).contains_key(t) ==> is_slot_key(t),
                bad@.no_duplicates(),
                bad@.to_set() == event_ids@.take(i as int).to_set().difference(events0.dom()),
            decreases event_ids.len() - i,
        {
            let e = event_ids[i];
            let ghost before = self.timeline.events_map();
            let ghost before_view = self.timeline@;
            let mut found = false;
            match self.timeline.event_data_mut(e) {
                Some(ed) => {
                    ed.add_tag(id);
                    found = true;
                },
                None => {},
            }
            proof {
                event_ids@.lemma_take_succ_push(i as int);
                event_ids@.take(i as int).lemma_push_to_set_commute(e);
                let s0 = event_ids@.take(i as int).to_set();
                let s1 = event_ids@.take(i + 1).to_set();
                assert(s1 == s0.insert(e));
                assert(!event_ids@.take(i as int).contains(e));
                assert(!s0.contains(e));
                assert(found <==> before.contains_key(e));
                if found {
                    assert(before_view[e] == before[e]@);
                    assert(before_view[e] == v0.events[e]);
                    assert(self.timeline@ =~= before.map_values(|x: EventData| x@).insert(
                        e,
                        EventView {
                            when: before[e]@.when,
                            name: before[e]@.name,
                            tags: before[e]@.tags.insert(id),
                        },
                    ));
                } else {
                    assert(self.timeline.events_map() == before);
                }
            }
            if !found {
                proof {
                    assert(bad@.contains(e) ==> bad@.to_set().contains(e));
                    assert(!bad@.contains(e));
                    bad@.lemma_push_to_set_commute(e);
                }
                bad.push(e);
            }
            proof {
                assert(self.timeline@ =~= attach_tag(
                    v0.events,
                    event_ids@.take(i + 1).to_set(),
                    id,
                ));
                assert(bad@.to_set() =~= event_ids@.take(i + 1).to_set().difference(
                    events0.dom(),
                ));
            }
            i = i + 1;
        }
        proof {
            assert(event_ids@.take(i as int) =~= event_ids@);
            assert(self@ == with_tag(v0, id, d));
        }
        if bad.len() == 0 {
            proof {
                assert(bad@.to_set() =~= Set::<EventId>::empty());
                assert forall|e: EventId|
                    d.associated_events.contains(e) implies v0.events.dom().contains(e) by {
                    assert(!d.associated_events.difference(v0.events.dom()).contains(e));
                }
            }
            Ok(id)
        } else {
            proof {
                assert(bad@.to_set().contains(bad@[0]));
                assert(!d.associated_events.subset_of(v0.events.dom()));
            }
            Err(NonExistantEventsError(bad))
        }
    }

    /// Takes out the event `id` and returns its data, if there is such an
    /// event; the tags it carried no longer list it.
    pub fn remove_event(&mut self, id: EventId) -> (r: Option<EventData>)
        requires
            old(self).wf(),
            event_removable(old(self)@, id),
            old(self)@.events.contains_key(id) ==> same_time(
                old(self).added_whens()[id],
                old(self)@.events[id].when,
            ),
        ensures
            final(self).wf(),
            r is Some <==> old(self)@.events.contains_key(id),
            r matches Some(d) ==> d@ == old(self)@.events[id] && final(self)@ == without_event(
                old(self)@,
                id,
            ),
            r is None ==> final(self)@ == old(self)@,
            final(self).added_whens() == old(self).added_whens().remove(id),
            final(self).added_keys() == old(self).added_keys(),
    {
        let ghost v0 = self@;
        proof {
            self.lemma_view();
        }
        let data = match self.timeline.remove(id) {
            Some(d) => d,
            None => {
                proof {
                    assert(self.timeline@ =~= v0.events);
                }
                return None;
            },
        };
        let tag_ids = ids_of(data.tags());
        let ghost tags = data@.tags;
        let ghost whens1 = self.timeline.added_whens();
        let ghost keys1 = self.timeline.added_keys();
        let mut i: usize = 0;
        while i < tag_ids.len()
            invariant
                i <= tag_ids.len(),
                tag_ids@.no_duplicates(),
                tag_ids@.to_set() == tags,
                tags == v0.events[id].tags,
                v0.events.contains_key(id),
                event_removable(v0, id),
                self.timeline.wf(),
                self.timeline@ == v0.events.remove(id),
                self.timeline.added_whens() == whens1,
                self.timeline.added_keys() == keys1,
                tag_slots(self.tags).dom() == v0.tags.dom(),
                tag_slots(self.tags).dom().finite(),
                forall|t: TagId| #[trigger] tag_slots(self.tags).contains_key(t) ==> is_slot_key(t),
                tag_views(tag_slots(self.tags)) == detach_event(
                    v0.tags,
                    tag_ids@.take(i as int).to_set(),
                    id,
                ),
            decreases tag_ids.len() - i,
        {
            let t = tag_ids[i];
            let ghost before = tag_slots(self.tags);
            let ghost before_view = tag_views(before);
            proof {
                assert(tag_ids@.to_set().contains(tag_ids@[i as int]));
                assert(v0.events[id].tags.contains(t));
                assert(v0.tags.contains_key(t));
            }
            match tag_slots_get_mut(&mut self.tags, t) {
                Some(td) => {
                    td.remove_associated_event(id);
                },
                None => {},
            }
            proof {
                tag_ids@.lemma_take_succ_push(i as int);
                tag_ids@.take(i as int).lemma_push_to_set_commute(t);
                let s0 = tag_ids@.take(i as int).to_set();
                assert(tag_ids@.take(i + 1).to_set() == s0.insert(t));
                assert(!tag_ids@.take(i as int).contains(t));
                assert(!s0.contains(t));
                assert(before_view[t] == before[t]@);
                assert(before_view[t] == v0.tags[t]);
                assert(tag_views(tag_slots(self.tags)) =~= before_view.insert(
                    t,
                    TagView {
                        associated_events: before[t]@.associated_events.remove(id),
                        name: before[t]@.name,
                    },
                ));
                assert(tag_views(tag_slots(self.tags)) =~= detach_event(
                    v0.tags,
                    tag_ids@.take(i + 1).to_set(),
                    id,
                ));
            }
            i = i + 1;
        }
        proof {
            assert(tag_ids@.take(i as int) =~= tag_ids@);
            assert(self@ == without_event(v0, id));
        }
        Some(data)
    }

    /// Takes out the tag `id` and returns its data, if there is such a tag;
    /// the events it listed no longer carry it.
    pub fn remove_tag(&mut self, id: TagId) -> (r: Option<TagData>)
        requires
            old(self).wf(),
            tag_removable(old(self)@, id),
        ensures
            final(self).wf(),
            r is Some <==> old(self)@.tags.contains_key(id),
            r matches Some(d) ==> d@ == old(self)@.tags[id] && final(self)@ == without_tag(
                old(self)@,
                id,
            ),
            r is None ==> final(self)@ == old(self)@,
            final(self).added_whens() == old(self).added_whens(),
            final(self).added_keys() == old(self).added_keys(),
    {
        let ghost v0 = self@;
        proof {
            self.lemma_view();
        }
        if id & 0x1_0000_0000u64 == 0 {
            return None;
        }
        let ghost tags0 = tag_slots(self.tags);
        let data = match tag_slots_remove(&mut self.tags, id) {
            Some(d) => d,
            None => {
                proof {
                    assert(tag_slots(self.tags) =~= tags0);
                }
                return None;
            },
        };
        proof {
            assert(tag_views(tag_slots(self.tags)) =~= v0.tags.remove(id));
        }
        let event_ids = ids_of(data.associated_events());
        let ghost events = data@.associated_events;
        let ghost whens1 = self.timeline.added_whens();
        let ghost keys1 = self.timeline.added_keys();
        let mut i: usize = 0;
        while i < event_ids.len()
            invariant
                i <= event_ids.len(),
                event_ids@.no_duplicates(),
                event_ids@.to_set() == events,
                events == v0.tags[id].associated_events,
                v0.tags.contains_key(id),
                tag_removable(v0, id),
                self.timeline.wf(),
                self.timeline.events_map().dom() == v0.events.dom(),
                self.timeline.added_whens() == whens1,
                self.timeline.added_keys() == keys1,
                self.timeline@ == detach_tag(v0.events, event_ids@.take(i as int).to_set(), id),
                tag_views(tag_slots(self.tags)) == v0.tags.remove(id),
                tag_slots(self.tags).dom().finite(),
                forall|t: TagId| #[trigger] tag_slots(self.tags).contains_key(t) ==> is_slot_key(t),
            decreases event_ids.len() - i,
        {
            let e = event_ids[i];
            let ghost before = self.timeline.events_map();
            let ghost before_view = self.timeline@;
            proof {
                assert(event_ids@.to_set().contains(event_ids@[i as int]));
                assert(v0.tags[id].associated_events.contains(e));
                assert(v0.events.contains_key(e));
            }
            match self.timeline.event_data_mut(e) {
                Some(ed) => {
                    ed.remove_tag(id);
                },
                None => {},
            }
            proof {
                event_ids@.lemma_take_succ_push(i as int);
                event_ids@.take(i as int).lemma_push_to_set_commute(e);
                let s0 = event_ids@.take(i as int).to_set();
                assert(event_ids@.take(i + 1).to_set() == s0.insert(e));
                assert(!event_ids@.take(i as int).contains(e));
                assert(!s0.contains(e));
                assert(before_view[e] == before[e]@);
                assert(before_view[e] == v0.events[e]);
                assert(self.timeline@ =~= before_view.insert(
                    e,
                    EventView {
                        when: before[e]@.when,
                        name: before[e]@.name,
                        tags: before[e]@.tags.remove(id),
                    },
                ));
                assert(self.timeline@ =~= detach_tag(
                    v0.events,
                    event_ids@.take(i + 1).to_set(),
                    id,
                ));
            }
            i = i + 1;
        }
        proof {
            assert(event_ids@.take(i as int) =~= event_ids@);
            assert(self@ == without_tag(v0, id));
        }
        Some(data)
    }

    /// The data of the event `id`, if there is such an event.
    pub fn event_data(&self, id: EventId) -> (r: Option<&EventData>)
        requires
            self.wf(),
        ensures
            r is Some <==> self@.events.contains_key(id),
            r matches Some(d) ==> d@ == self@.events[id],
    {
        self.timeline.event_data(id)
    }

    /// The data of the event `id`, if there is such an event, to change in
    /// place; the tags are left as they are.
    pub fn event_data_mut(&mut self, id: EventId) -> (r: Option<&mut EventData>)
        requires
            old(self).wf(),
        ensures
            final(self).wf(),
            r is Some <==> old(self)@.events.contains_key(id),
            r matches Some(d) ==> {
                &&& (*d)@ == old(self)@.events[id]
                &&& final(self)@.events == old(self)@.events.insert(id, final(d)@)
            },
            r is None ==> final(self)@.events == old(self)@.events,
            final(self)@.tags == old(self)@.tags,
            final(self).added_whens() == old(self).added_whens(),
            final(self).added_keys() == old(self).added_keys(),
    {
        self.timeline.event_data_mut(id)
    }

    /// The events that the tag `id` lists, if there is such a tag.
    pub fn with_tag(&self, id: TagId) -> (r: Option<&HashSet<EventId>>)
        requires
            self.wf(),
        ensures
            r is Some <==> self@.tags.contains_key(id),
            r matches Some(s) ==> s@ == self@.tags[id].associated_events,
    {
        match self.tag_data(id) {
            Some(d) => Some(d.associated_events()),
            None => None,
        }
    }

    /// The data of the tag `id`, if there is such a tag.
    pub fn tag_data(&self, id: TagId) -> (r: Option<&TagData>)
        requires
            self.wf(),
        ensures
            r is Some <==> self@.tags.contains_key(id),
            r matches Some(d) ==> d@ == self@.tags[id],
    {
        if id & 0x1_0000_0000u64 == 0 {
            return None;
        }
        tag_slots_get(&self.tags, id)
    }

    /// All events, each once, in the order in which they happen (see
    /// [`Timeline::ordered_events`]).
    pub fn ordered_events(&self) -> (r: Vec<Event<'_>>)
        requires
            self.wf(),
        ensures
            lists_events(r@, self.event_map()),
            keys_transitive(self.added_keys()) ==> forall|i: int, j: int|
                0 <= i < j < r@.len() ==> precedes_at(
                    self.added_whens(),
                    #[trigger] r@[i].id_spec(),
                    #[trigger] r@[j].id_spec(),
                ),
            (forall|k: EventKey| #[trigger] self.added_keys().contains(k) ==> k.when_spec() is Instant)
                ==> forall|i: int, j: int|
                0 <= i < j < r@.len() ==> start_nanoseconds(
                    self.added_whens()[#[trigger] r@[i].id_spec()],
                ) <= start_nanoseconds(self.added_whens()[#[trigger] r@[j].id_spec()]),
    {
        let r = self.timeline.ordered_events();
        proof {
            assert(self.added_keys() == self.timeline.added_keys());
            assert(self.added_whens() == self.timeline.added_whens());
            if forall|k: EventKey| #[trigger] self.added_keys().contains(k) ==> k.when_spec() is Instant {
                assert(forall|k: EventKey| #[trigger]
                    self.timeline.added_keys().contains(k) ==> k.when_spec() is Instant);
            }
        }
        r
    }

    /// The identifiers of all tags, each once, in no particular order.
    pub fn tag_ids(&self) -> (r: Vec<TagId>)
        requires
            self.wf(),
        ensures
            r@.no_duplicates(),
            r@.to_set() == self@.tags.dom(),
    {
        proof {
            self.lemma_view();
        }
        tag_slots_keys(&self.tags)
    }

    /// All events, each once, in no particular order.
    pub fn events(&self) -> (r: Vec<Event<'_>>)
        requires
            self.wf(),
        ensures
            lists_events(r@, self.event_map()),
    {
        self.timeline.events()
    }

    /// The number of tags held.
    pub fn tag_count(&self) -> (r: usize)
        requires
            self.wf(),
        ensures
            r == self@.tags.len(),
    {
        proof {
            assert(self@.tags.dom() =~= self.tag_map().dom());
        }
        tag_slots_len(&self.tags)
    }

}

} // verus!
