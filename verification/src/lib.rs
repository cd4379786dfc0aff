//! Scripting the macOS apps through AppleScript: the scripts for each
//! command, the parsing of dates and note bodies, and the reading of what
//! the apps and their databases answer.
pub mod applescript;
pub mod calendar;
pub mod error;
pub mod mail;
pub mod markdown;
pub mod messages;
pub mod notes;
pub mod numbers;
pub mod paths;
pub mod photos;
pub mod reminders;
pub mod terminal;
pub mod text;
