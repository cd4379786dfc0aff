//! Mail.app integration.
pub mod list_recent;
pub mod mailboxes;
pub mod send;

pub use list_recent::list_recent;
pub use mailboxes::list_mailboxes;
pub use send::{SendOptions, send};

use vstd::prelude::*;

verus! {

/// The mail subcommands.
#[derive(Debug)]
pub enum MailCommand {
    /// Send an email via Mail.app.
    Send {
        to: Vec<String>,
        cc: Vec<String>,
        bcc: Vec<String>,
        subject: String,
        body: String,
        from_account: Option<String>,
    },
    /// List mailboxes across all accounts.
    ListMailboxes,
    /// List recent inbox messages.
    ListRecent { limit: u32 },
}

} // verus!
