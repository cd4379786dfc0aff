//! Messages.app integration.
//!
//! Send is a script for Messages.app. List and Read format what a query of
//! `~/Library/Messages/chat.db` returned.
pub mod chatdb;
pub mod list;
pub mod read;
pub mod send;

pub use list::list;
pub use read::read;
pub use send::send_message;

use vstd::prelude::*;

verus! {

/// The messages subcommands.
#[derive(Debug)]
pub enum MessagesCommand {
    /// Send a message via iMessage (falls back to SMS if recipient is not on iMessage).
    Send { to: String, text: String },
    /// List chats sorted by most-recent message.
    List { limit: u32 },
    /// Read recent messages from a chat.
    Read { chat: String, limit: u32 },
}

} // verus!
