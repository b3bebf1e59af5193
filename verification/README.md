# timeline_core

A library for keeping a timeline of dated events and the tags that group
them, and for walking the calendar year by year and month by month, with
its behaviour stated as Verus contracts and proved.

Layout:

- `src/` — the verified library.
  - `manager.rs`, `manager_laws.rs` — events and tags kept in agreement;
    what adding and removing keep and undo.
  - `timeline.rs`, `event/`, `tag.rs`, `when.rs` — events, their order in
    time, tags.
  - `zoned_datetime.rs`, `duration.rs`, `input.rs` — points in time in a
    time zone and calendar, and reading them and command lines from text.
  - `date_iteration/` — dates, years, ranges of years, months; `laws.rs`
    states what iterating them gives.
  - `render_range.rs` — the span of years a timeline is drawn over.
  - `temporal.rs`, `slots.rs`, `shell.rs` — the calls into `temporal_rs`,
    `slotmap` and `shlex`, each behind a small wrapper whose contract is
    trusted.
- `tests/` — tests run against the compiled library.
- `app/` — an interactive shell around the library (reading commands,
  printing, saving to JSON).
