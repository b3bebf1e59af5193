//! What the manager's operations keep and undo, stated over its view.

use vstd::prelude::*;

use crate::event::{EventId, EventView};
use crate::manager::{
    consistent, event_removable, tag_removable, with_event, with_tag, without_event, without_tag,
    ManagerView,
};
use crate::tag::{TagId, TagView};

verus! {

/// Where events and tags agree, every event and every tag can be taken
/// out: the tags an event carries exist and list it, and the events a tag
/// lists exist and carry it.
pub proof fn lemma_consistent_removable(v: ManagerView, event: EventId, tag: TagId)
    requires
        consistent(v),
    ensures
        event_removable(v, event),
        tag_removable(v, tag),
{
}

/// Adding an event under a new identifier, all of whose tags exist, keeps
/// events and tags in agreement.
pub proof fn lemma_with_event_consistent(v: ManagerView, id: EventId, d: EventView)
    requires
        consistent(v),
        !v.events.contains_key(id),
        d.tags.subset_of(v.tags.dom()),
    ensures
        consistent(with_event(v, id, d)),
{
    let w = with_event(v, id, d);
    assert forall|e: EventId, t: TagId|
        w.events.contains_key(e) && #[trigger] w.events[e].tags.contains(t) implies w.tags.contains_key(
        t,
    ) && w.tags[t].associated_events.contains(e) by {
        if e != id {
            assert(v.events[e].tags.contains(t));
        }
    }
    assert forall|t: TagId, e: EventId|
        w.tags.contains_key(t) && #[trigger] w.tags[t].associated_events.contains(e) implies w.events.contains_key(
        e,
    ) && w.events[e].tags.contains(t) by {
        if e != id {
            assert(v.tags[t].associated_events.contains(e));
        }
    }
}

/// Adding a tag under a new identifier, all of whose events exist, keeps
/// events and tags in agreement.
pub proof fn lemma_with_tag_consistent(v: ManagerView, id: TagId, d: TagView)
    requires
        consistent(v),
        !v.tags.contains_key(id),
        d.associated_events.subset_of(v.events.dom()),
    ensures
        consistent(with_tag(v, id, d)),
{
    let w = with_tag(v, id, d);
    assert forall|e: EventId, t: TagId|
        w.events.contains_key(e) && #[trigger] w.events[e].tags.contains(t) implies w.tags.contains_key(
        t,
    ) && w.tags[t].associated_events.contains(e) by {
        if t != id {
            assert(v.events[e].tags.contains(t));
        }
    }
    assert forall|t: TagId, e: EventId|
        w.tags.contains_key(t) && #[trigger] w.tags[t].associated_events.contains(e) implies w.events.contains_key(
        e,
    ) && w.events[e].tags.contains(t) by {
        if t != id {
            assert(v.tags[t].associated_events.contains(e));
        }
    }
}

/// Taking out an event keeps events and tags in agreement.
pub proof fn lemma_without_event_consistent(v: ManagerView, id: EventId)
    requires
        consistent(v),
        v.events.contains_key(id),
    ensures
        consistent(without_event(v, id)),
{
    let w = without_event(v, id);
    assert forall|e: EventId, t: TagId|
        w.events.contains_key(e) && #[trigger] w.events[e].tags.contains(t) implies w.tags.contains_key(
        t,
    ) && w.tags[t].associated_events.contains(e) by {
        assert(v.events[e].tags.contains(t));
    }
    assert forall|t: TagId, e: EventId|
        w.tags.contains_key(t) && #[trigger] w.tags[t].associated_events.contains(e) implies w.events.contains_key(
        e,
    ) && w.events[e].tags.contains(t) by {
        assert(v.tags[t].associated_events.contains(e));
        if v.tags[t].associated_events.contains(id) {
            assert(v.events[id].tags.contains(t));
        }
    }
}

/// Taking out a tag keeps events and tags in agreement.
pub proof fn lemma_without_tag_consistent(v: ManagerView, id: TagId)
    requires
        consistent(v),
        v.tags.contains_key(id),
    ensures
        consistent(without_tag(v, id)),
{
    let w = without_tag(v, id);
    assert forall|e: EventId, t: TagId|
        w.events.contains_key(e) && #[trigger] w.events[e].tags.contains(t) implies w.tags.contains_key(
        t,
    ) && w.tags[t].associated_events.contains(e) by {
        assert(v.events[e].tags.contains(t));
        if v.events[e].tags.contains(id) {
            assert(v.tags[id].associated_events.contains(e));
        }
    }
    assert forall|t: TagId, e: EventId|
        w.tags.contains_key(t) && #[trigger] w.tags[t].associated_events.contains(e) implies w.events.contains_key(
        e,
    ) && w.events[e].tags.contains(t) by {
        assert(v.tags[t].associated_events.contains(e));
    }
}

/// Taking out an event just added under a new identifier gives back the
/// state from before.
pub proof fn lemma_remove_event_undoes_add(v: ManagerView, id: EventId, d: EventView)
    requires
        consistent(v),
        !v.events.contains_key(id),
    ensures
        without_event(with_event(v, id, d), id) == v,
{
    let w = without_event(with_event(v, id, d), id);
    assert(w.events =~= v.events);
    assert forall|t: TagId| #[trigger] v.tags.contains_key(t) implies w.tags[t] == v.tags[t] by {
        if v.tags[t].associated_events.contains(id) {
            assert(v.events[id].tags.contains(t));
        }
        assert(w.tags[t].associated_events =~= v.tags[t].associated_events);
    }
    assert(w.tags =~= v.tags);
}

/// Adding back an event just taken out, under its identifier, gives back
/// the state from before.
pub proof fn lemma_add_event_undoes_remove(v: ManagerView, id: EventId)
    requires
        consistent(v),
        v.events.contains_key(id),
    ensures
        with_event(without_event(v, id), id, v.events[id]) == v,
{
    let w = with_event(without_event(v, id), id, v.events[id]);
    assert(w.events =~= v.events);
    assert forall|t: TagId| #[trigger] v.tags.contains_key(t) implies w.tags[t] == v.tags[t] by {
        if v.events[id].tags.contains(t) {
            assert(v.tags[t].associated_events.contains(id));
        }
        assert(w.tags[t].associated_events =~= v.tags[t].associated_events);
    }
    assert(w.tags =~= v.tags);
}

/// Taking out a tag just added under a new identifier gives back the state
/// from before.
pub proof fn lemma_remove_tag_undoes_add(v: ManagerView, id: TagId, d: TagView)
    requires
        consistent(v),
        !v.tags.contains_key(id),
    ensures
        without_tag(with_tag(v, id, d), id) == v,
{
    let w = without_tag(with_tag(v, id, d), id);
    assert(w.tags =~= v.tags);
    assert forall|e: EventId| #[trigger] v.events.contains_key(e) implies w.events[e] == v.events[e] by {
        if v.events[e].tags.contains(id) {
            assert(v.tags[id].associated_events.contains(e));
        }
        assert(w.events[e].tags =~= v.events[e].tags);
    }
    assert(w.events =~= v.events);
}

/// Adding back a tag just taken out, under its identifier, gives back the
/// state from before.
pub proof fn lemma_add_tag_undoes_remove(v: ManagerView, id: TagId)
    requires
        consistent(v),
        v.tags.contains_key(id),
    ensures
        with_tag(without_tag(v, id), id, v.tags[id]) == v,
{
    let w = with_tag(without_tag(v, id), id, v.tags[id]);
    assert(w.tags =~= v.tags);
    assert forall|e: EventId| #[trigger] v.events.contains_key(e) implies w.events[e] == v.events[e] by {
        if v.tags[id].associated_events.contains(e) {
            assert(v.events[e].tags.contains(id));
        }
        assert(w.events[e].tags =~= v.events[e].tags);
    }
    assert(w.events =~= v.events);
}

/// An added event is held under its identifier with the data it was added
/// with, and every other event is left as it was.
pub proof fn lemma_with_event_holds(v: ManagerView, id: EventId, d: EventView, other: EventId)
    requires
        other != id,
    ensures
        with_event(v, id, d).events.contains_key(id),
        with_event(v, id, d).events[id] == d,
        with_event(v, id, d).events.contains_key(other) == v.events.contains_key(other),
        with_event(v, id, d).events[other] == v.events[other],
{
}

/// An added tag is held under its identifier with the data it was added
/// with, and every other tag is left as it was.
pub proof fn lemma_with_tag_holds(v: ManagerView, id: TagId, d: TagView, other: TagId)
    requires
        other != id,
    ensures
        with_tag(v, id, d).tags.contains_key(id),
        with_tag(v, id, d).tags[id] == d,
        with_tag(v, id, d).tags.contains_key(other) == v.tags.contains_key(other),
        with_tag(v, id, d).tags[other] == v.tags[other],
{
}

} // verus!
