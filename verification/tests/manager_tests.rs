use std::collections::HashSet;

use timeline_core::event::EventData;
use timeline_core::tag::TagData;
use timeline_core::when::When;
use timeline_core::zoned_datetime::ZonedDateTime;
use timeline_core::TimelineManager;

fn at(nanos: i128) -> When {
    When::instant(ZonedDateTime::try_new(nanos, "+00:00", "iso8601").unwrap())
}

fn event(nanos: i128, name: &str, tags: &[u64]) -> EventData {
    EventData::new(at(nanos), name.to_string(), tags.iter().copied().collect())
}

#[test]
fn new_manager_is_empty() {
    let m = TimelineManager::new();
    assert_eq!(m.event_count(), 0);
    assert_eq!(m.tag_count(), 0);
    assert!(m.ordered_events().is_empty());
    let d = TimelineManager::default();
    assert_eq!(d.event_count(), 0);
}

#[test]
fn added_event_reads_back() {
    let mut m = TimelineManager::new();
    let id = m.add_event(event(5, "launch", &[])).unwrap();
    let data = m.event_data(id).unwrap();
    assert_eq!(data.name(), "launch");
    assert_eq!(*data.when(), at(5));
    assert!(data.tags().is_empty());
    assert_eq!(m.event_count(), 1);
}

#[test]
fn event_ids_are_fresh() {
    let mut m = TimelineManager::new();
    let a = m.add_event(event(1, "a", &[])).unwrap();
    let b = m.add_event(event(1, "b", &[])).unwrap();
    assert_ne!(a, b);
    m.remove_event(a).unwrap();
    let c = m.add_event(event(2, "c", &[])).unwrap();
    assert_ne!(a, c);
    assert!(m.event_data(a).is_none());
    assert_eq!(m.event_data(c).unwrap().name(), "c");
}

#[test]
fn tagged_event_is_listed_by_its_tag() {
    let mut m = TimelineManager::new();
    let tag = m.add_tag(TagData::new("war".to_string())).unwrap();
    let e = m.add_event(event(3, "battle", &[tag])).unwrap();
    assert!(m.with_tag(tag).unwrap().contains(&e));
    assert_eq!(m.tag_data(tag).unwrap().name(), "war");
    assert!(m.event_data(e).unwrap().tags().contains(&tag));
}

#[test]
fn event_with_missing_tag_is_kept_and_reported() {
    let mut m = TimelineManager::new();
    let missing: u64 = 0x1_0000_0007;
    let err = m.add_event(event(3, "orphan", &[missing])).unwrap_err();
    assert_eq!(err.tags(), &vec![missing]);
    assert_eq!(m.event_count(), 1);
    assert_eq!(m.ordered_events()[0].name(), "orphan");
}

#[test]
fn tag_listing_events_marks_them() {
    let mut m = TimelineManager::new();
    let a = m.add_event(event(1, "a", &[])).unwrap();
    let b = m.add_event(event(2, "b", &[])).unwrap();
    let mut tag = TagData::new("both".to_string());
    tag.add_associated_event(a);
    tag.add_associated_event(b);
    let t = m.add_tag(tag).unwrap();
    assert!(m.event_data(a).unwrap().tags().contains(&t));
    assert!(m.event_data(b).unwrap().tags().contains(&t));
    let listed: HashSet<u64> = m.with_tag(t).unwrap().iter().copied().collect();
    assert_eq!(listed, [a, b].into_iter().collect());
}

#[test]
fn tag_with_missing_event_is_kept_and_reported() {
    let mut m = TimelineManager::new();
    let a = m.add_event(event(1, "a", &[])).unwrap();
    let missing: u64 = 0x1_0000_0009;
    let mut tag = TagData::new("partial".to_string());
    tag.add_associated_event(a);
    tag.add_associated_event(missing);
    let err = m.add_tag(tag).unwrap_err();
    assert_eq!(err.events(), &vec![missing]);
    assert_eq!(m.tag_count(), 1);
    assert_eq!(m.event_data(a).unwrap().tags().len(), 1);
}

#[test]
fn removing_an_event_unlists_it_from_its_tags() {
    let mut m = TimelineManager::new();
    let t = m.add_tag(TagData::new("t".to_string())).unwrap();
    let e = m.add_event(event(1, "e", &[t])).unwrap();
    let data = m.remove_event(e).unwrap();
    assert_eq!(data.name(), "e");
    assert!(m.with_tag(t).unwrap().is_empty());
    assert!(m.remove_event(e).is_none());
    assert_eq!(m.event_count(), 0);
}

#[test]
fn removing_a_tag_unmarks_its_events() {
    let mut m = TimelineManager::new();
    let t = m.add_tag(TagData::new("t".to_string())).unwrap();
    let e = m.add_event(event(1, "e", &[t])).unwrap();
    let data = m.remove_tag(t).unwrap();
    assert_eq!(data.name(), "t");
    assert!(data.associated_events().contains(&e));
    assert!(m.event_data(e).unwrap().tags().is_empty());
    assert!(m.with_tag(t).is_none());
    assert!(m.remove_tag(t).is_none());
}

#[test]
fn add_then_remove_restores_counts() {
    let mut m = TimelineManager::new();
    let t = m.add_tag(TagData::new("t".to_string())).unwrap();
    let before: usize = m.with_tag(t).unwrap().len();
    let e = m.add_event(event(1, "e", &[t])).unwrap();
    m.remove_event(e).unwrap();
    assert_eq!(m.with_tag(t).unwrap().len(), before);
    assert_eq!(m.event_count(), 0);
}

#[test]
fn identifiers_without_the_slot_bit_are_never_found() {
    let m = TimelineManager::new();
    assert!(m.event_data(5).is_none());
    assert!(m.tag_data(5).is_none());
    assert!(m.with_tag(5).is_none());
}

#[test]
fn events_come_out_in_time_order() {
    let mut m = TimelineManager::new();
    let late = m.add_event(event(300, "late", &[])).unwrap();
    let early = m.add_event(event(100, "early", &[])).unwrap();
    let middle = m.add_event(event(200, "middle", &[])).unwrap();
    let ids: Vec<u64> = m.ordered_events().iter().map(|e| e.id()).collect();
    assert_eq!(ids, vec![early, middle, late]);
    let mut all: Vec<u64> = m.events().iter().map(|e| e.id()).collect();
    all.sort();
    let mut expected = vec![early, middle, late];
    expected.sort();
    assert_eq!(all, expected);
}

#[test]
fn simultaneous_events_come_out_by_identifier() {
    let mut m = TimelineManager::new();
    let a = m.add_event(event(50, "a", &[])).unwrap();
    let b = m.add_event(event(50, "b", &[])).unwrap();
    let ids: Vec<u64> = m.ordered_events().iter().map(|e| e.id()).collect();
    let (lo, hi) = if a < b { (a, b) } else { (b, a) };
    assert_eq!(ids, vec![lo, hi]);
}

#[test]
fn event_data_can_be_replaced_in_place() {
    let mut m = TimelineManager::new();
    let e = m.add_event(event(1, "old", &[])).unwrap();
    *m.event_data_mut(e).unwrap() = event(2, "new", &[]);
    assert_eq!(m.event_data(e).unwrap().name(), "new");
    assert!(m.event_data_mut(7).is_none());
}

#[test]
fn event_keys_order_by_time_then_id() {
    let mut m = TimelineManager::new();
    let a = m.add_event(event(10, "a", &[])).unwrap();
    let b = m.add_event(event(20, "b", &[])).unwrap();
    let events = m.ordered_events();
    let ka = events.iter().find(|e| e.id() == a).unwrap().key();
    let kb = events.iter().find(|e| e.id() == b).unwrap().key();
    assert!(ka < kb);
    assert!(ka.is_before(&kb));
    assert_eq!(ka.cmp(&kb), std::cmp::Ordering::Less);
    assert_eq!(ka.id(), a);
    assert_eq!(ka.clone(), ka);
}

#[test]
fn tag_data_tracks_its_events() {
    let mut tag = TagData::new("name".to_string());
    assert_eq!(tag.name(), "name");
    assert!(tag.associated_events().is_empty());
    tag.add_associated_event(4);
    tag.add_associated_event(4);
    assert_eq!(tag.associated_events().len(), 1);
    assert!(tag.remove_associated_event(4));
    assert!(!tag.remove_associated_event(4));
    assert!(tag.associated_events().is_empty());
}

#[test]
fn event_data_clones_with_its_tags() {
    let e = event(9, "copy me", &[0x1_0000_0001, 0x1_0000_0002]);
    let c = e.clone();
    assert_eq!(c.name(), "copy me");
    assert_eq!(*c.when(), at(9));
    assert_eq!(c.tags(), e.tags());
}

#[test]
fn a_changed_event_keeps_the_place_of_the_time_it_was_added_with() {
    let mut m = TimelineManager::new();
    let a = m.add_event(event(100, "a", &[])).unwrap();
    let b = m.add_event(event(200, "b", &[])).unwrap();
    *m.event_data_mut(a).unwrap() = event(300, "a moved", &[]);
    let ids: Vec<u64> = m.ordered_events().iter().map(|e| e.id()).collect();
    assert_eq!(ids, vec![a, b]);
    m.remove_event(b).unwrap();
    let c = m.add_event(event(150, "c", &[])).unwrap();
    let ids: Vec<u64> = m.ordered_events().iter().map(|e| e.id()).collect();
    assert_eq!(ids, vec![a, c]);
}
