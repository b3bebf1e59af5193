//! Timeline bookkeeping: dated events, tags that group them, and the
//! calendar arithmetic used to lay years out on a time axis.

pub mod date_iterator;
pub mod date_iteration;
pub mod temporal;
pub mod duration;
pub mod zoned_datetime;
pub mod when;
pub mod event;
pub mod tag;
pub mod slots;
pub mod timeline;
pub mod ids;
pub mod manager;
pub mod manager_laws;
pub mod shell;
pub mod input;
pub mod render_range;

pub use manager::{NonExistantEventsError, NonExistantTagsError, TimelineManager};
