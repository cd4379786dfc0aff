//! Apple Reminders integration.
pub mod complete;
pub mod create;
pub mod delete;
pub mod list;

pub use complete::complete_reminder;
pub use create::{CreateOptions, create_reminder};
pub use delete::delete_reminder;
pub use list::list_reminders;

use vstd::prelude::*;

verus! {

/// The reminders subcommands.
#[derive(Debug)]
pub enum RemindersCommand {
    /// Create a new reminder.
    Create { title: String, due: Option<String>, notes: Option<String>, list: Option<String> },
    /// List reminders (optionally from a specific list).
    List { list: Option<String>, all: bool },
    /// Mark a reminder as completed by id.
    Complete { id: String },
    /// Delete a reminder by id.
    Delete { id: String },
}

} // verus!
