use timeline_core::date_iteration::{PlainDate, ToYear, Year, YearError, YearRange};
use timeline_core::date_iterator::LevelTracker;
use timeline_core::render_range::TimelineRenderRange;

fn year(y: i32) -> Year {
    Year::from(PlainDate::try_new(y, 6, 15).unwrap())
}

#[test]
fn plain_dates_are_checked() {
    assert!(PlainDate::try_new(2024, 2, 29).is_some());
    assert!(PlainDate::try_new(2023, 2, 29).is_none());
    assert!(PlainDate::try_new(1900, 2, 29).is_none());
    assert!(PlainDate::try_new(2000, 2, 29).is_some());
    assert!(PlainDate::try_new(2024, 13, 1).is_none());
    assert!(PlainDate::try_new(2024, 4, 31).is_none());
    assert!(PlainDate::try_new(-271821, 4, 19).is_some());
    assert!(PlainDate::try_new(-271821, 4, 18).is_none());
    assert!(PlainDate::try_new(275760, 9, 13).is_some());
    assert!(PlainDate::try_new(275760, 9, 14).is_none());
    let d = PlainDate::try_new(1999, 12, 31).unwrap();
    assert_eq!((d.year(), d.month(), d.day()), (1999, 12, 31));
}

#[test]
fn years_come_from_dates() {
    let d = PlainDate::try_new(1066, 10, 14).unwrap();
    assert_eq!(d.to_year().inner(), 1066);
    assert_eq!(Year::from(d).inner(), 1066);
    assert_eq!(year(-44).inner(), -44);
}

#[test]
fn next_and_previous_years() {
    assert_eq!(year(2024).get_next().unwrap(), year(2025));
    assert_eq!(year(2024).get_previous().unwrap(), year(2023));
    assert_eq!(year(0).get_previous().unwrap().inner(), -1);
    assert_eq!(year(2024).get_next().unwrap().get_previous().unwrap(), year(2024));
}

#[test]
fn next_year_stops_two_years_short_of_the_limit() {
    assert_eq!(year(275758).get_next().unwrap().inner(), 275759);
    assert!(matches!(year(275759).get_next(), Err(YearError::AbruptEnd)));
    assert!(matches!(year(275760).get_next(), Err(YearError::AbruptEnd)));
    assert_eq!(year(-271818).get_previous().unwrap().inner(), -271819);
    assert!(matches!(year(-271819).get_previous(), Err(YearError::AbruptEnd)));
}

#[test]
fn january_first_of_a_year() {
    let d = year(1984).as_date();
    assert_eq!((d.year(), d.month(), d.day()), (1984, 1, 1));
}

#[test]
fn adding_and_subtracting_years() {
    assert_eq!(year(2000).add_years(24).inner(), 2024);
    assert_eq!(year(2000).sub_years(24).inner(), 1976);
    assert_eq!(year(2000).add_years(-3).inner(), 1997);
    assert_eq!(year(10).add_years(5).sub_years(5), year(10));
}

#[test]
fn year_text_is_its_number() {
    assert_eq!(year(2024).to_string(), "2024");
    assert_eq!(year(-500).to_string(), "-500");
    assert_eq!(year(0).to_string(), "0");
}

#[test]
fn years_are_ordered_by_number() {
    assert!(year(1) < year(2));
    assert!(year(-3) < year(0));
    assert!(year(5) >= year(5));
    assert_eq!(year(7).clone(), year(7));
}

#[test]
fn current_year_is_in_range() {
    match Year::current() {
        Ok(y) => assert!(y.inner() >= 2020),
        Err(YearError::Clock(msg)) => assert!(!msg.is_empty()),
        Err(YearError::AbruptEnd) => panic!("reading the clock never ends abruptly"),
    }
}

#[test]
fn months_of_a_year() {
    let mut months = year(2023).months();
    let mut seen = Vec::new();
    while let Some(m) = months.next() {
        seen.push(m);
    }
    assert_eq!(seen, (1..=12).collect::<Vec<u8>>());
    assert_eq!(months.next(), None);
}

#[test]
fn months_of_the_last_year_stop_early() {
    let mut months = year(275760).months();
    let mut seen = Vec::new();
    while let Some(m) = months.next() {
        seen.push(m);
    }
    assert_eq!(seen, (1..=8).collect::<Vec<u8>>());
}

#[test]
fn range_length_and_emptiness() {
    let r = YearRange { start: year(2000), end: year(2009) };
    assert_eq!(r.len(), 10);
    assert_eq!(r.checked_len(), Some(10));
    assert!(!r.is_empty());
    let single = YearRange { start: year(5), end: year(5) };
    assert_eq!(single.len(), 1);
    assert!(single.is_empty());
    let backwards = YearRange { start: year(9), end: year(2) };
    assert_eq!(backwards.len(), 0);
    assert!(backwards.is_empty());
}

#[test]
fn range_iteration_gives_each_year_once() {
    let r = YearRange { start: year(-1), end: year(2) };
    let mut it = r.iter();
    let mut seen = Vec::new();
    while let Some(y) = it.next() {
        seen.push(y.inner());
    }
    assert_eq!(seen, vec![-1, 0, 1, 2]);
    assert_eq!(seen.len(), r.len());
    assert!(it.next().is_none());
}

#[test]
fn year_iterator_goes_both_ways() {
    let mut it = timeline_core::date_iteration::YearIterator::new(&year(100));
    assert_eq!(it.next().unwrap().inner(), 100);
    assert_eq!(it.next().unwrap().inner(), 101);
    assert_eq!(it.next_back().unwrap().inner(), 102);
    assert_eq!(it.next_back().unwrap().inner(), 101);
    let taken: Vec<i32> = it.take_next(3).iter().map(|y| y.inner()).collect();
    assert_eq!(taken, vec![100, 101, 102]);
    let back: Vec<i32> = it.take_next_back(2).iter().map(|y| y.inner()).collect();
    assert_eq!(back, vec![103, 102]);
}

#[test]
fn render_range_moves_by_a_year() {
    let mut r = TimelineRenderRange(YearRange { start: year(1990), end: year(2000) });
    r.inc();
    assert_eq!((r.0.start.inner(), r.0.end.inner()), (1991, 2001));
    r.dec();
    r.dec();
    assert_eq!((r.0.start.inner(), r.0.end.inner()), (1989, 1999));
}

#[test]
fn render_range_grows_at_either_end() {
    let mut r = TimelineRenderRange(YearRange { start: year(10), end: year(20) });
    let right: Vec<i32> = r.extend_right(3).iter().map(|y| y.inner()).collect();
    assert_eq!(right, vec![21, 22, 23]);
    assert_eq!(r.0.end.inner(), 23);
    let left: Vec<i32> = r.extend_left(2).iter().map(|y| y.inner()).collect();
    assert_eq!(left, vec![9, 8]);
    assert_eq!(r.0.start.inner(), 8);
    assert!(r.extend_right(0).is_empty());
    assert_eq!(r.0.end.inner(), 23);
}

#[test]
fn render_range_grows_only_to_the_limit() {
    let mut r = TimelineRenderRange(YearRange { start: year(275700), end: year(275757) });
    let right: Vec<i32> = r.extend_right(10).iter().map(|y| y.inner()).collect();
    assert_eq!(right, vec![275758, 275759]);
    assert_eq!(r.0.end.inner(), 275759);
}

#[test]
fn render_range_shrinks_at_either_end() {
    let mut r = TimelineRenderRange(YearRange { start: year(0), end: year(10) });
    let removed: Vec<i32> = r.remove_years(2, 3).iter().map(|y| y.inner()).collect();
    assert_eq!(removed, vec![0, 1, 10, 9, 8]);
    assert_eq!((r.0.start.inner(), r.0.end.inner()), (2, 7));
    assert!(r.remove_years(0, 0).is_empty());
    assert_eq!((r.0.start.inner(), r.0.end.inner()), (2, 7));
}

#[test]
fn level_tracker_counts_levels() {
    let mut t = LevelTracker { thing: "x", level: 1 };
    t.increase_level();
    assert_eq!(t.level, 2);
    t.lower_level();
    t.lower_level();
    assert_eq!(t.level, 0);
    assert_eq!(t.thing, "x");
}

#[test]
fn render_range_around_a_year() {
    let r = TimelineRenderRange::around(&year(2024), 20);
    assert_eq!((r.0.start.inner(), r.0.end.inner()), (2004, 2044));
    assert_eq!(r.0.len(), 41);
}

#[test]
fn wrapped_lines_show_the_new_ends() {
    let mut r = TimelineRenderRange(YearRange { start: year(100), end: year(110) });
    assert_eq!(r.wrap_left().inner(), 111);
    assert_eq!((r.0.start.inner(), r.0.end.inner()), (101, 111));
    assert_eq!(r.wrap_right().inner(), 100);
    assert_eq!(r.wrap_right().inner(), 99);
    assert_eq!((r.0.start.inner(), r.0.end.inner()), (99, 109));
}

#[test]
fn a_date_reading_gives_its_year_or_its_error() {
    assert_eq!(Year::from_reading(Ok(2026)).unwrap().inner(), 2026);
    match Year::from_reading(Err("no clock".to_string())) {
        Err(YearError::Clock(msg)) => assert_eq!(msg, "no clock"),
        _ => panic!("a failed reading gives its error"),
    }
}

#[test]
fn render_range_grows_left_to_the_limit() {
    let mut r = TimelineRenderRange(YearRange { start: year(-271818), end: year(-271800) });
    let left: Vec<i32> = r.extend_left(5).iter().map(|y| y.inner()).collect();
    assert_eq!(left, vec![-271819]);
    assert_eq!(r.0.start.inner(), -271819);
}

#[test]
fn ranges_and_iterators_clone() {
    let r = YearRange { start: year(1), end: year(3) };
    let c = r.clone();
    assert_eq!((c.start.inner(), c.end.inner()), (1, 3));
    let mut it = r.iter();
    it.next();
    let mut copy = it.clone();
    assert_eq!(copy.next().unwrap().inner(), 2);
    assert_eq!(it.next().unwrap().inner(), 2);
}

#[test]
fn several_wrapped_lines_get_consecutive_years() {
    let mut r = TimelineRenderRange(YearRange { start: year(10), end: year(20) });
    let right: Vec<i32> = r.wrap_left_lines(3).iter().map(|y| y.inner()).collect();
    assert_eq!(right, vec![21, 22, 23]);
    assert_eq!((r.0.start.inner(), r.0.end.inner()), (13, 23));
    let left: Vec<i32> = r.wrap_right_lines(2).iter().map(|y| y.inner()).collect();
    assert_eq!(left, vec![12, 11]);
    assert_eq!((r.0.start.inner(), r.0.end.inner()), (11, 21));
}
