//! The ways a request can be refused before anything is sent to an app.
use vstd::prelude::*;

verus! {

/// Why a `YYYY-MM-DD[ HH:MM]` text was not accepted.
#[derive(Debug, Clone, Copy, PartialEq, Eq, Structural)]
pub enum DateError {
    /// The date has fewer than three `-`-separated parts.
    MissingDatePart,
    /// The time has no `:`-separated minute part.
    MissingTimePart,
    /// The year is not a number that fits an `i32`.
    Year,
    /// The month is not a number that fits a `u32`.
    Month,
    /// The day is not a number that fits a `u32`.
    Day,
    /// The hour is not a number that fits a `u32`.
    Hour,
    /// The minute is not a number that fits a `u32`.
    Minute,
}

/// A refused request.
#[derive(Debug, Clone, PartialEq, Eq)]
pub enum Error {
    /// The event's start could not be read.
    Start(DateError),
    /// The event's end could not be read.
    End(DateError),
    /// The day to list could not be read.
    Date(DateError),
    /// The reminder's due date could not be read.
    Due(DateError),
    /// None of a markdown file, an HTML body or stdin was given for a note.
    MissingBody,
    /// A line of the Photos answer had fewer than five tab-separated fields.
    UnexpectedPhotoLine(String),
    /// Not exactly one of name, index and id was given for a photo lookup.
    QueryNotUnique,
    /// The exported photo's path names no file, so it has no stem.
    NoFileStem,
}

} // verus!
