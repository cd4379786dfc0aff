//! Calendar.app integration.
pub mod add;
pub mod datetime;
pub mod list_calendars;
pub mod list_day;

pub use add::{AddOptions, add_event};
pub use datetime::{DateTimeParts, applescript_date, parse_datetime};
pub use list_calendars::list_calendars;
pub use list_day::list_day;

use vstd::prelude::*;

verus! {

/// The calendar subcommands.
#[derive(Debug)]
pub enum CalendarCommand {
    /// Create a new event.
    Add {
        calendar: String,
        title: String,
        start: String,
        end: String,
        notes: Option<String>,
        location: Option<String>,
    },
    /// List events on a specific date.
    ListDay { date: String, calendar: Option<String> },
    /// List available calendars.
    ListCalendars,
}

} // verus!
