//! A timeline: events kept under stable identifiers, listed in the order
//! in which they happen.

use vstd::prelude::*;

use crate::event::{key_before, Event, EventData, EventId, EventKey, EventView};
use crate::slots::{
    event_slots, event_slots_get, event_slots_get_mut, event_slots_insert, event_slots_keys,
    event_slots_len, event_slots_new, event_slots_remove, is_slot_key, EventSlots,
};
use crate::when::{same_time, start_nanoseconds, When};

verus! {

/// The events of a timeline, each under its own identifier, and their keys
/// kept in the order in which the events happen.
///
/// Each key holds the time its event was added with. The keys are kept in
/// a vector in key order, with nothing twice, rather than in a `BTreeSet`:
/// such a set orders its items through `Ord`, and Verus accepts no `Ord`
/// written by hand for a type of this crate, while the key order compares
/// times that may not be comparable, so it is no order on plain integers.
pub struct Timeline {
    sorted_events: Vec<EventKey>,
    events: EventSlots,
    added_whens: Ghost<Map<EventId, When>>,
    added_keys: Ghost<Set<EventKey>>,
}

/// The identifiers of `keys`, in order.
pub open spec fn key_ids(keys: Seq<EventKey>) -> Seq<EventId> {
    keys.map_values(|k: EventKey| k.id_spec())
}

/// Whether the event `a` comes before the event `b` when each happens at
/// the time `w` gives it: by time where the times are comparable and
/// differ, by identifier otherwise.
pub open spec fn precedes_at(w: Map<EventId, When>, a: EventId, b: EventId) -> bool {
    crate::event::precedes(a, w[a], b, w[b])
}

/// Whether the key order is transitive among the keys `h`, as it is, for
/// instance, when every two of their times are comparable.
pub open spec fn keys_transitive(h: Set<EventKey>) -> bool {
    forall|a: EventKey, b: EventKey, c: EventKey|
        #![trigger key_before(a, b), key_before(b, c)]
        h.contains(a) && h.contains(b) && h.contains(c) && key_before(a, b) && key_before(b, c)
            ==> key_before(a, c)
}

/// Among keys whose times are all instants, the key order is transitive:
/// it orders by instant, then by identifier.
pub proof fn lemma_instant_keys_transitive(h: Set<EventKey>)
    requires
        forall|k: EventKey| #[trigger] h.contains(k) ==> k.when_spec() is Instant,
    ensures
        keys_transitive(h),
{
    assert forall|a: EventKey, b: EventKey, c: EventKey|
        h.contains(a) && h.contains(b) && h.contains(c) && #[trigger] key_before(a, b)
            && #[trigger] key_before(b, c) implies key_before(a, c) by {
        crate::event::lemma_key_order_precedes(a, b);
        crate::event::lemma_key_order_precedes(b, c);
        crate::event::lemma_key_order_precedes(a, c);
    }
}

/// Whether `keys` hold, each, the time `w` gives their event, are among the
/// keys `h`, and, where the key order is transitive among `h`, come in key
/// order.
pub open spec fn keys_ordered(keys: Seq<EventKey>, w: Map<EventId, When>, h: Set<EventKey>) -> bool {
    &&& forall|k: int|
        0 <= k < keys.len() ==> w.contains_key(#[trigger] keys[k].id_spec()) && keys[k].when_spec()
            == w[keys[k].id_spec()] && h.contains(keys[k])
    &&& keys_transitive(h) ==> forall|a: int, b: int|
        0 <= a < b < keys.len() ==> key_before(#[trigger] keys[a], #[trigger] keys[b])
}

/// Whether `events` lists the events that `m` holds, each once, with their
/// data.
pub open spec fn lists_events(events: Seq<Event>, m: Map<EventId, EventData>) -> bool {
    &&& events.map_values(|e: Event| e.id_spec()).no_duplicates()
    &&& events.map_values(|e: Event| e.id_spec()).to_set() == m.dom()
    &&& forall|i: int|
        0 <= i < events.len() ==> m.contains_key(#[trigger] events[i].id_spec())
            && events[i].data_spec() == m[events[i].id_spec()]
}

impl View for Timeline {
    type V = Map<EventId, EventView>;

    open spec fn view(&self) -> Map<EventId, EventView> {
        self.events_map().map_values(|d: EventData| d@)
    }
}

impl Timeline {
    /// The events held, by identifier.
    pub closed spec fn events_map(&self) -> Map<EventId, EventData> {
        event_slots(self.events)
    }

    /// The time each event was added with, by identifier. Changing an
    /// event in place does not change it.
    pub closed spec fn added_whens(&self) -> Map<EventId, When> {
        self.added_whens@
    }

    /// Every key the timeline has held.
    pub closed spec fn added_keys(&self) -> Set<EventKey> {
        self.added_keys@
    }

    /// Whether the timeline is well formed: finitely many events, each under
    /// an identifier of the form slot maps hand out, and one key for each
    /// event, holding the time it was added with, in key order.
    pub closed spec fn wf(&self) -> bool {
        &&& self.events_map().dom().finite()
        &&& forall|id: EventId| #[trigger] self.events_map().contains_key(id) ==> is_slot_key(id)
        &&& key_ids(self.sorted_events@).no_duplicates()
        &&& key_ids(self.sorted_events@).to_set() == self.events_map().dom()
        &&& self.added_whens@.dom() == self.events_map().dom()
        &&& keys_ordered(self.sorted_events@, self.added_whens@, self.added_keys@)
    }

    /// An empty timeline.
    pub fn new() -> (r: Self)
        ensures
            r.wf(),
            r.events_map().dom() == Set::<EventId>::empty(),
            r.added_whens() == Map::<EventId, When>::empty(),
            r.added_keys() == Set::<EventKey>::empty(),
    {
        let r = Timeline {
            sorted_events: Vec::new(),
            events: event_slots_new(),
            added_whens: Ghost(Map::empty()),
            added_keys: Ghost(Set::empty()),
        };
        proof {
            assert(key_ids(r.sorted_events@) =~= Seq::<EventId>::empty());
            assert(key_ids(r.sorted_events@).to_set() =~= Set::<EventId>::empty());
            assert(r.added_whens@.dom() =~= Set::<EventId>::empty());
        }
        r
    }

    /// The number of events held.
    pub fn len(&self) -> (r: usize)
        ensures
            r == self.events_map().len(),
    {
        event_slots_len(&self.events)
    }

    /// Adds an event and returns its new identifier, one that no event of
    /// the timeline had; its key goes before the first key it comes before.
    pub fn insert(&mut self, data: EventData) -> (r: EventId)
        requires
            old(self).wf(),
            old(self).events_map().len() < u32::MAX - 1,
        ensures
            final(self).wf(),
            is_slot_key(r),
            !old(self).events_map().contains_key(r),
            final(self).events_map() == old(self).events_map().insert(r, data),
            final(self).added_whens() == old(self).added_whens().insert(r, data@.when),
            forall|k: EventKey|
                #[trigger] final(self).added_keys().contains(k) <==> old(self).added_keys().contains(k)
                    || (k.id_spec() == r && k.when_spec() == data@.when),
    {
        let ghost w0 = self.added_whens@;
        let ghost h0 = self.added_keys@;
        let when = data.when().clone();
        let id = event_slots_insert(&mut self.events, data);
        let key = EventKey::new(id, when);
        let pos = insertion_point(&self.sorted_events, &key);
        let ghost w1 = w0.insert(id, key.when_spec());
        let ghost h1 = h0.insert(key);
        proof {
            let old_keys = self.sorted_events@;
            assert(!key_ids(old_keys).contains(id)) by {
                if key_ids(old_keys).contains(id) {
                    assert(key_ids(old_keys).to_set().contains(id));
                }
            }
            assert forall|k: int| 0 <= k < old_keys.len() implies w1.contains_key(
                #[trigger] old_keys[k].id_spec(),
            ) && old_keys[k].when_spec() == w1[old_keys[k].id_spec()] && h1.contains(old_keys[k]) by {
                assert(key_ids(old_keys)[k] == old_keys[k].id_spec());
                assert(key_ids(old_keys).contains(old_keys[k].id_spec()));
            }
            if keys_transitive(h1) {
                assert forall|a: EventKey, b: EventKey, c: EventKey|
                    h0.contains(a) && h0.contains(b) && h0.contains(c) && #[trigger] key_before(a, b)
                        && #[trigger] key_before(b, c) implies key_before(a, c) by {
                    assert(h1.contains(a) && h1.contains(b) && h1.contains(c));
                }
                assert(keys_transitive(h0));
            }
            lemma_insert_sorted(w1, h1, old_keys, key, pos as int);
        }
        self.sorted_events.insert(pos, key);
        self.added_whens = Ghost(w1);
        self.added_keys = Ghost(h1);
        proof {
            assert forall|k: EventKey|
                k.id_spec() == id && k.when_spec() == data@.when implies k == key by {
                crate::event::lemma_key_fields(k, key);
            }
            let m = self.events_map();
            assert(key_ids(self.sorted_events@).to_set() =~= m.dom()) by {
                lemma_ids_after_insert(self.sorted_events@, pos as int);
            }
            assert(w1.dom() =~= m.dom());
        }
        id
    }

    /// Takes out the event `id` and its key, and returns its data, if there
    /// is such an event. The key is found by the event's present time, which
    /// must compare equal to the time it was added with.
    pub fn remove(&mut self, id: EventId) -> (r: Option<EventData>)
        requires
            old(self).wf(),
            old(self).events_map().contains_key(id) ==> same_time(
                old(self).added_whens()[id],
                old(self).events_map()[id]@.when,
            ),
        ensures
            final(self).wf(),
            r == old(self).events_map().get(id),
            final(self).events_map() == old(self).events_map().remove(id),
            final(self).added_whens() == old(self).added_whens().remove(id),
            final(self).added_keys() == old(self).added_keys(),
    {
        let ghost w0 = self.added_whens@;
        if id & 0x1_0000_0000u64 == 0 {
            assert(!self.events_map().contains_key(id));
            assert(self.events_map().remove(id) =~= self.events_map());
            assert(w0.remove(id) =~= w0);
            return None;
        }
        let data = match event_slots_remove(&mut self.events, id) {
            Some(d) => d,
            None => {
                assert(w0.remove(id) =~= w0);
                return None;
            },
        };
        let p = key_position(&self.sorted_events, id);
        let ghost old_keys = self.sorted_events@;
        let ghost w1 = w0.remove(id);
        self.sorted_events.remove(p);
        self.added_whens = Ghost(w1);
        proof {
            let m = self.events_map();
            assert(key_ids(old_keys)[p as int] == id);
            assert(key_ids(self.sorted_events@) =~= key_ids(old_keys).remove(p as int));
            assert(key_ids(self.sorted_events@).to_set() =~= m.dom()) by {
                lemma_ids_after_remove(old_keys, p as int);
            }
            assert(w1.dom() =~= m.dom());
            assert forall|k: int| 0 <= k < self.sorted_events@.len() implies w1.contains_key(
                #[trigger] self.sorted_events@[k].id_spec(),
            ) && self.sorted_events@[k].when_spec() == w1[self.sorted_events@[k].id_spec()]
                && self.added_keys@.contains(self.sorted_events@[k]) by {
                let ok = if k < p { k } else { k + 1 };
                assert(self.sorted_events@[k] == old_keys[ok]);
                assert(self.added_keys@.contains(old_keys[ok]));
                assert(key_ids(old_keys)[ok] != key_ids(old_keys)[p as int]);
            }
            if keys_transitive(self.added_keys@) {
                assert forall|a: int, b: int|
                    0 <= a < b < self.sorted_events@.len() implies key_before(
                    #[trigger] self.sorted_events@[a],
                    #[trigger] self.sorted_events@[b],
                ) by {
                    let oa = if a < p { a } else { a + 1 };
                    let ob = if b < p { b } else { b + 1 };
                    assert(self.sorted_events@[a] == old_keys[oa]);
                    assert(self.sorted_events@[b] == old_keys[ob]);
                    assert(key_before(old_keys[oa], old_keys[ob]));
                }
            }
        }
        Some(data)
    }

    /// The data of the event `id`, if there is such an event.
    pub fn event_data(&self, id: EventId) -> (r: Option<&EventData>)
        requires
            self.wf(),
        ensures
            r matches Some(d) ==> self.events_map().get(id) == Some(*d),
            r is None ==> !self.events_map().contains_key(id),
    {
        if id & 0x1_0000_0000u64 == 0 {
            return None;
        }
        event_slots_get(&self.events, id)
    }

    /// The data of the event `id`, if there is such an event, to change in place.
    pub fn event_data_mut(&mut self, id: EventId) -> (r: Option<&mut EventData>)
        requires
            old(self).wf(),
        ensures
            r matches Some(d) ==> {
                &&& old(self).events_map().get(id) == Some(*d)
                &&& final(self).events_map() == old(self).events_map().insert(id, *final(d))
            },
            r is None ==> {
                &&& !old(self).events_map().contains_key(id)
                &&& final(self).events_map() == old(self).events_map()
            },
            final(self).wf(),
            final(self).added_whens() == old(self).added_whens(),
            final(self).added_keys() == old(self).added_keys(),
    {
        let ghost m0 = self.events_map();
        proof {
            if m0.contains_key(id) {
                assert(m0.dom().insert(id) =~= m0.dom());
            }
        }
        if id & 0x1_0000_0000u64 == 0 {
            return None;
        }
        event_slots_get_mut(&mut self.events, id)
    }

    /// All events, each once, in the order the underlying slots hold them.
    pub fn events(&self) -> (r: Vec<Event<'_>>)
        requires
            self.wf(),
        ensures
            lists_events(r@, self.events_map()),
    {
        let ids = event_slots_keys(&self.events);
        self.events_with_ids(&ids)
    }

    /// The events `ids`, which are all the events of the timeline, in that order.
    fn events_with_ids(&self, ids: &Vec<EventId>) -> (r: Vec<Event<'_>>)
        requires
            self.wf(),
            ids@.no_duplicates(),
            ids@.to_set() == self.events_map().dom(),
        ensures
            lists_events(r@, self.events_map()),
            r@.map_values(|e: Event| e.id_spec()) == ids@,
    {
        let ghost m = self.events_map();
        let mut out: Vec<Event<'_>> = Vec::new();
        let mut i: usize = 0;
        while i < ids.len()
            invariant
                self.wf(),
                m == self.events_map(),
                ids@.no_duplicates(),
                ids@.to_set() == m.dom(),
                0 <= i <= ids.len(),
                out@.len() == i,
                forall|j: int| 0 <= j < i ==> (#[trigger] out@[j]).id_spec() == ids@[j],
                forall|j: int|
                    0 <= j < i ==> m.contains_key(#[trigger] out@[j].id_spec())
                        && out@[j].data_spec() == m[out@[j].id_spec()],
            decreases ids.len() - i,
        {
            let id = ids[i];
            assert(ids@.to_set().contains(ids@[i as int]));
            assert(is_slot_key(id));
            let data = event_slots_get(&self.events, id).unwrap();
            out.push(Event::new(id, data));
            i = i + 1;
        }
        assert(out@.map_values(|e: Event| e.id_spec()) =~= ids@);
        out
    }

    /// All events, each once, in the order of their keys: by the time each
    /// was added with where those times are comparable and differ, by
    /// identifier otherwise. Where that order is transitive among every key
    /// the timeline has held, every event comes before each one listed after
    /// it.
    pub fn ordered_events(&self) -> (r: Vec<Event<'_>>)
        requires
            self.wf(),
        ensures
            lists_events(r@, self.events_map()),
            keys_transitive(self.added_keys()) ==> forall|i: int, j: int|
                0 <= i < j < r@.len() ==> precedes_at(
                    self.added_whens(),
                    #[trigger] r@[i].id_spec(),
                    #[trigger] r@[j].id_spec(),
                ),
            (forall|k: EventKey| #[trigger] self.added_keys().contains(k) ==> k.when_spec() is Instant)
                ==> forall|i: int, j: int|
                0 <= i < j < r@.len() ==> start_nanoseconds(
                    self.added_whens()[#[trigger] r@[i].id_spec()],
                ) <= start_nanoseconds(self.added_whens()[#[trigger] r@[j].id_spec()]),
    {
        let ghost keys = self.sorted_events@;
        let mut ids: Vec<EventId> = Vec::new();
        let mut j: usize = 0;
        while j < self.sorted_events.len()
            invariant
                keys == self.sorted_events@,
                0 <= j <= keys.len(),
                ids@ == key_ids(keys).subrange(0, j as int),
            decreases keys.len() - j,
        {
            ids.push(self.sorted_events[j].id());
            proof {
                assert(ids@ =~= key_ids(keys).subrange(0, j + 1));
            }
            j = j + 1;
        }
        proof {
            assert(ids@ =~= key_ids(keys));
        }
        let r = self.events_with_ids(&ids);
        proof {
            assert forall|i: int, k: int|
                0 <= i < k < r@.len() && keys_transitive(self.added_keys())
                implies precedes_at(
                self.added_whens(),
                #[trigger] r@[i].id_spec(),
                #[trigger] r@[k].id_spec(),
            ) by {
                assert(r@.map_values(|e: Event| e.id_spec())[i] == ids@[i]);
                assert(r@.map_values(|e: Event| e.id_spec())[k] == ids@[k]);
                assert(ids@[i] == keys[i].id_spec());
                assert(ids@[k] == keys[k].id_spec());
                assert(key_before(keys[i], keys[k]));
                crate::event::lemma_key_order_precedes(keys[i], keys[k]);
            }
            if forall|k: EventKey| #[trigger] self.added_keys().contains(k) ==> k.when_spec() is Instant {
                lemma_instant_keys_transitive(self.added_keys());
                assert forall|i: int, k: int| 0 <= i < k < r@.len() implies start_nanoseconds(
                    self.added_whens()[#[trigger] r@[i].id_spec()],
                ) <= start_nanoseconds(self.added_whens()[#[trigger] r@[k].id_spec()]) by {
                    assert(r@.map_values(|e: Event| e.id_spec())[i] == ids@[i]);
                    assert(r@.map_values(|e: Event| e.id_spec())[k] == ids@[k]);
                    assert(ids@[i] == keys[i].id_spec());
                    assert(ids@[k] == keys[k].id_spec());
                    assert(self.added_keys().contains(keys[i]));
                    assert(self.added_keys().contains(keys[k]));
                    assert(key_before(keys[i], keys[k]));
                    crate::event::lemma_key_order_precedes(keys[i], keys[k]);
                }
            }
        }
        r
    }
}

/// The position in `keys` of the key of the event `id`, which is there.
fn key_position(keys: &Vec<EventKey>, id: EventId) -> (r: usize)
    requires
        key_ids(keys@).contains(id),
    ensures
        r < keys@.len(),
        keys@[r as int].id_spec() == id,
{
    let mut p: usize = 0;
    while p < keys.len()
        invariant
            0 <= p <= keys@.len(),
            key_ids(keys@).contains(id),
            forall|k: int| 0 <= k < p ==> (#[trigger] keys@[k]).id_spec() != id,
        decreases keys.len() - p,
    {
        if keys[p].id() == id {
            return p;
        }
        p = p + 1;
    }
    proof {
        let w = choose|w: int| 0 <= w < key_ids(keys@).len() && key_ids(keys@)[w] == id;
        assert(keys@[w].id_spec() == id);
    }
    p
}

/// The first position in `sorted` whose key `key` comes before, or the
/// length of `sorted` if there is none.
fn insertion_point(sorted: &Vec<EventKey>, key: &EventKey) -> (r: usize)
    ensures
        0 <= r <= sorted@.len(),
        forall|k: int| 0 <= k < r ==> !key_before(*key, #[trigger] sorted@[k]),
        r < sorted@.len() ==> key_before(*key, sorted@[r as int]),
{
    let mut p: usize = 0;
    while p < sorted.len()
        invariant
            0 <= p <= sorted@.len(),
            forall|k: int|
                0 <= k < p ==> !key_before(*key, #[trigger] sorted@[k]),
        decreases sorted.len() - p,
    {
        if key.is_before(&sorted[p]) {
            return p;
        }
        p = p + 1;
    }
    p
}

/// The identifiers of keys after one is put in at `pos` are those before,
/// and the new one.
proof fn lemma_ids_after_insert(s: Seq<EventKey>, pos: int)
    requires
        0 <= pos < s.len(),
    ensures
        key_ids(s).to_set() == key_ids(s.remove(pos)).to_set().insert(s[pos].id_spec()),
{
    let all = key_ids(s);
    let rest = key_ids(s.remove(pos));
    assert forall|x: EventId| all.to_set().contains(x) implies rest.to_set().insert(
        s[pos].id_spec(),
    ).contains(x) by {
        let w = choose|w: int| 0 <= w < all.len() && all[w] == x;
        if w != pos {
            let rw = if w < pos { w } else { w - 1 };
            assert(rest[rw] == x);
        }
    }
    assert forall|x: EventId| rest.to_set().insert(s[pos].id_spec()).contains(x) implies all.to_set().contains(
        x,
    ) by {
        if x == s[pos].id_spec() {
            assert(all[pos] == x);
        } else {
            let w = choose|w: int| 0 <= w < rest.len() && rest[w] == x;
            let aw = if w < pos { w } else { w + 1 };
            assert(all[aw] == x);
        }
    }
    assert(all.to_set() =~= rest.to_set().insert(s[pos].id_spec()));
}

/// The identifiers of keys after the one at `pos` is taken out are those
/// before, but that one, where no identifier is there twice.
proof fn lemma_ids_after_remove(s: Seq<EventKey>, pos: int)
    requires
        0 <= pos < s.len(),
        key_ids(s).no_duplicates(),
    ensures
        key_ids(s.remove(pos)).to_set() == key_ids(s).to_set().remove(s[pos].id_spec()),
        key_ids(s.remove(pos)).no_duplicates(),
        key_ids(s.remove(pos)) == key_ids(s).remove(pos),
{
    assert(key_ids(s.remove(pos)) =~= key_ids(s).remove(pos));
    lemma_ids_after_insert(s, pos);
    let rest = key_ids(s.remove(pos));
    assert(!rest.contains(s[pos].id_spec())) by {
        if rest.contains(s[pos].id_spec()) {
            let w = choose|w: int| 0 <= w < rest.len() && rest[w] == s[pos].id_spec();
            let aw = if w < pos { w } else { w + 1 };
            assert(key_ids(s)[aw] == key_ids(s)[pos]);
        }
    }
    assert(key_ids(s.remove(pos)).to_set() =~= key_ids(s).to_set().remove(s[pos].id_spec()));
}

/// Putting the key of a new event in at its insertion point keeps the keys
/// holding their events' times, among the keys `h`, each identifier once,
/// and in key order where that order is transitive among `h`.
proof fn lemma_insert_sorted(
    w: Map<EventId, When>,
    h: Set<EventKey>,
    sorted: Seq<EventKey>,
    key: EventKey,
    pos: int,
)
    requires
        w.contains_key(key.id_spec()),
        key.when_spec() == w[key.id_spec()],
        h.contains(key),
        key_ids(sorted).no_duplicates(),
        !key_ids(sorted).contains(key.id_spec()),
        forall|k: int|
            0 <= k < sorted.len() ==> w.contains_key(#[trigger] sorted[k].id_spec())
                && sorted[k].when_spec() == w[sorted[k].id_spec()] && h.contains(sorted[k]),
        keys_transitive(h) ==> forall|a: int, b: int|
            0 <= a < b < sorted.len() ==> key_before(#[trigger] sorted[a], #[trigger] sorted[b]),
        0 <= pos <= sorted.len(),
        forall|k: int| 0 <= k < pos ==> !key_before(key, #[trigger] sorted[k]),
        pos < sorted.len() ==> key_before(key, sorted[pos]),
    ensures
        keys_ordered(sorted.insert(pos, key), w, h),
        key_ids(sorted.insert(pos, key)).no_duplicates(),
        sorted.insert(pos, key).remove(pos) == sorted,
        sorted.insert(pos, key)[pos] == key,
{
    let s = sorted.insert(pos, key);
    let old_ids = key_ids(sorted);
    let new_ids = key_ids(s);
    assert(s.remove(pos) =~= sorted);
    assert forall|k: int| 0 <= k < s.len() implies w.contains_key(#[trigger] s[k].id_spec())
        && s[k].when_spec() == w[s[k].id_spec()] && h.contains(s[k]) by {
        if k < pos {
            assert(s[k] == sorted[k]);
        } else if k > pos {
            assert(s[k] == sorted[k - 1]);
        }
    }
    assert(new_ids =~= old_ids.insert(pos, key.id_spec()));
    assert(new_ids.no_duplicates()) by {
        assert forall|a: int, b: int| 0 <= a < b < new_ids.len() implies new_ids[a] != new_ids[b] by {
            if a == pos {
                assert(old_ids.contains(new_ids[b]));
            } else if b == pos {
                assert(old_ids.contains(new_ids[a]));
            } else {
                let oa = if a < pos { a } else { a - 1 };
                let ob = if b < pos { b } else { b - 1 };
                assert(new_ids[a] == old_ids[oa]);
                assert(new_ids[b] == old_ids[ob]);
            }
        }
    }
    if keys_transitive(h) {
        assert forall|a: int, b: int| 0 <= a < b < s.len() implies key_before(
            #[trigger] s[a],
            #[trigger] s[b],
        ) by {
            if a == pos {
                // the new key comes before the key at `pos`, and that one before the rest
                assert(s[a] == key);
                if b > pos + 1 {
                    assert(s[b] == sorted[b - 1]);
                    assert(key_before(sorted[pos], sorted[b - 1]));
                    assert(h.contains(sorted[pos]) && h.contains(sorted[b - 1]));
                } else {
                    assert(s[b] == sorted[pos]);
                }
            } else if b == pos {
                // every key before `pos` does not follow the new key
                assert(s[a] == sorted[a]);
                assert(s[b] == key);
                assert(old_ids[a] == sorted[a].id_spec());
                assert(old_ids.contains(old_ids[a]));
                crate::event::lemma_key_order_total(key, sorted[a]);
                crate::event::lemma_key_order_precedes(sorted[a], key);
            } else {
                let oa = if a < pos { a } else { a - 1 };
                let ob = if b < pos { b } else { b - 1 };
                assert(s[a] == sorted[oa]);
                assert(s[b] == sorted[ob]);
                assert(key_before(sorted[oa], sorted[ob]));
            }
        }
    }
}

} // verus!
