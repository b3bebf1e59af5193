//! Walking the calendar: dates, years, ranges of years and the months of a
//! year, in the ISO calendar.

pub mod laws;
mod month_iterator;
mod plain_date;
mod year;
mod year_iterator;
mod year_range;

pub use month_iterator::{month_iter_next, MonthIterView, MonthIterator};
pub use plain_date::{DateView, PlainDate};
pub use year::{
    decimal_digits, decimal_text, lemma_add_then_sub_years, lemma_same_number_same_year, next_year,
    previous_year, ToYear, Year, YearError,
};
pub use year_iterator::{
    backward_room, forward_room, min_of, year_iter_next, year_iter_next_back, year_number,
    YearIterView, YearIterator,
};
pub use year_range::{range_len, YearRange};
