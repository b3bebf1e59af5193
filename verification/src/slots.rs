//! The slot maps that hold events and tags, and the calls this crate makes
//! into `slotmap`, each behind a small trusted wrapper.
//!
//! A key is handed around as the `u64` that `KeyData::as_ffi` gives for it:
//! the slot's version in the upper half, its index in the lower half. An
//! occupied slot always has an odd version, so every key handed out has bit
//! 32 set; `KeyData::from_ffi` gives back the same key for such a value.

use slotmap::{DefaultKey, Key, KeyData, SlotMap};
use vstd::prelude::*;

use crate::event::EventData;
use crate::tag::TagData;

verus! {

/// A `slotmap::SlotMap` of events. `slotmap::Key`, the bound of the map's
/// key parameter, is a trait Verus cannot read, so the map is held here.
#[verifier::external_body]
pub struct EventSlots {
    map: SlotMap<DefaultKey, EventData>,
}

/// A `slotmap::SlotMap` of tags, held as for events.
#[verifier::external_body]
pub struct TagSlots {
    map: SlotMap<DefaultKey, TagData>,
}

/// Whether `key` has the form of a key that a slot map hands out.
pub open spec fn is_slot_key(key: u64) -> bool {
    key & 0x1_0000_0000u64 != 0
}

/// The events a slot map holds, by key.
pub uninterp spec fn event_slots(m: EventSlots) -> Map<u64, EventData>;

/// The tags a slot map holds, by key.
pub uninterp spec fn tag_slots(m: TagSlots) -> Map<u64, TagData>;

/// `SlotMap::with_key`: an empty slot map of events.
#[verifier::external_body]
pub(crate) fn event_slots_new() -> (r: EventSlots)
    ensures
        event_slots(r).dom() == Set::<u64>::empty(),
{
    EventSlots { map: SlotMap::with_key() }
}

/// `SlotMap::len`: the number of events held.
#[verifier::external_body]
pub(crate) fn event_slots_len(m: &EventSlots) -> (r: usize)
    ensures
        r == event_slots(*m).len(),
{
    m.map.len()
}

/// `SlotMap::insert`: stores `value` under a key that no held event has.
/// The map panics when it is full: it keeps one slot to itself and has at
/// most `u32::MAX` slots, so it never panics below `u32::MAX - 1` values.
#[verifier::external_body]
pub(crate) fn event_slots_insert(m: &mut EventSlots, value: EventData) -> (r:
    u64)
    requires
        event_slots(*old(m)).len() < u32::MAX - 1,
    ensures
        is_slot_key(r),
        !event_slots(*old(m)).contains_key(r),
        event_slots(*final(m)) == event_slots(*old(m)).insert(r, value),
{
    m.map.insert(value).data().as_ffi()
}

/// `SlotMap::remove`: takes out the event under `key`, if there is one.
#[verifier::external_body]
pub(crate) fn event_slots_remove(m: &mut EventSlots, key: u64) -> (r: Option<
    EventData,
>)
    requires
        is_slot_key(key),
    ensures
        r == event_slots(*old(m)).get(key),
        event_slots(*final(m)) == event_slots(*old(m)).remove(key),
{
    m.map.remove(KeyData::from_ffi(key).into())
}

/// `SlotMap::get`: the event under `key`, if there is one.
#[verifier::external_body]
pub(crate) fn event_slots_get(m: &EventSlots, key: u64) -> (r: Option<&EventData>)
    requires
        is_slot_key(key),
    ensures
        r matches Some(v) ==> event_slots(*m).get(key) == Some(*v),
        r is None ==> !event_slots(*m).contains_key(key),
{
    m.map.get(KeyData::from_ffi(key).into())
}

/// `SlotMap::get_mut`: the event under `key`, if there is one, to change
/// in place.
#[verifier::external_body]
pub(crate) fn event_slots_get_mut(m: &mut EventSlots, key: u64) -> (r: Option<
    &mut EventData,
>)
    requires
        is_slot_key(key),
    ensures
        r matches Some(v) ==> {
            &&& event_slots(*old(m)).get(key) == Some(*v)
            &&& event_slots(*final(m)) == event_slots(*old(m)).insert(key, *final(v))
        },
        r is None ==> {
            &&& !event_slots(*old(m)).contains_key(key)
            &&& event_slots(*final(m)) == event_slots(*old(m))
        },
{
    m.map.get_mut(KeyData::from_ffi(key).into())
}

/// `SlotMap::keys`: the keys of all held events, each once, in slot order.
#[verifier::external_body]
pub(crate) fn event_slots_keys(m: &EventSlots) -> (r: Vec<u64>)
    ensures
        r@.to_set() == event_slots(*m).dom(),
        r@.no_duplicates(),
{
    m.map.keys().map(|k| k.data().as_ffi()).collect()
}

/// `SlotMap::with_key`: an empty slot map of tags.
#[verifier::external_body]
pub(crate) fn tag_slots_new() -> (r: TagSlots)
    ensures
        tag_slots(r).dom() == Set::<u64>::empty(),
{
    TagSlots { map: SlotMap::with_key() }
}

/// `SlotMap::len`: the number of tags held.
#[verifier::external_body]
pub(crate) fn tag_slots_len(m: &TagSlots) -> (r: usize)
    ensures
        r == tag_slots(*m).len(),
{
    m.map.len()
}

/// `SlotMap::insert`: stores `value` under a key that no held tag has.
/// The map panics when it is full: it keeps one slot to itself and has at
/// most `u32::MAX` slots, so it never panics below `u32::MAX - 1` values.
#[verifier::external_body]
pub(crate) fn tag_slots_insert(m: &mut TagSlots, value: TagData) -> (r: u64)
    requires
        tag_slots(*old(m)).len() < u32::MAX - 1,
    ensures
        is_slot_key(r),
        !tag_slots(*old(m)).contains_key(r),
        tag_slots(*final(m)) == tag_slots(*old(m)).insert(r, value),
{
    m.map.insert(value).data().as_ffi()
}

/// `SlotMap::remove`: takes out the tag under `key`, if there is one.
#[verifier::external_body]
pub(crate) fn tag_slots_remove(m: &mut TagSlots, key: u64) -> (r: Option<
    TagData,
>)
    requires
        is_slot_key(key),
    ensures
        r == tag_slots(*old(m)).get(key),
        tag_slots(*final(m)) == tag_slots(*old(m)).remove(key),
{
    m.map.remove(KeyData::from_ffi(key).into())
}

/// `SlotMap::get`: the tag under `key`, if there is one.
#[verifier::external_body]
pub(crate) fn tag_slots_get(m: &TagSlots, key: u64) -> (r: Option<&TagData>)
    requires
        is_slot_key(key),
    ensures
        r matches Some(v) ==> tag_slots(*m).get(key) == Some(*v),
        r is None ==> !tag_slots(*m).contains_key(key),
{
    m.map.get(KeyData::from_ffi(key).into())
}

/// `SlotMap::get_mut`: the tag under `key`, if there is one, to change in
/// place.
#[verifier::external_body]
pub(crate) fn tag_slots_get_mut(m: &mut TagSlots, key: u64) -> (r: Option<
    &mut TagData,
>)
    requires
        is_slot_key(key),
    ensures
        r matches Some(v) ==> {
            &&& tag_slots(*old(m)).get(key) == Some(*v)
            &&& tag_slots(*final(m)) == tag_slots(*old(m)).insert(key, *final(v))
        },
        r is None ==> {
            &&& !tag_slots(*old(m)).contains_key(key)
            &&& tag_slots(*final(m)) == tag_slots(*old(m))
        },
{
    m.map.get_mut(KeyData::from_ffi(key).into())
}

/// `SlotMap::keys`: the keys of all held tags, each once, in slot order.
#[verifier::external_body]
pub(crate) fn tag_slots_keys(m: &TagSlots) -> (r: Vec<u64>)
    ensures
        r@.to_set() == tag_slots(*m).dom(),
        r@.no_duplicates(),
{
    m.map.keys().map(|k| k.data().as_ffi()).collect()
}

} // verus!
