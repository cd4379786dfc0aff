//! Apple Notes integration.
pub mod append;
pub mod attach;
pub mod create;
pub mod list;
pub mod move_note;
pub mod read;

pub use append::{AppendOptions, append_note};
pub use attach::attach_image;
pub use create::{CreateOptions, create_note};
pub use list::list_notes;
pub use move_note::move_note;
pub use read::read_note;

use vstd::prelude::*;

verus! {

/// The notes subcommands.
#[derive(Debug)]
pub enum NotesCommand {
    /// Create a new note from a markdown file, stdin or an HTML body.
    Create {
        markdown_file: Option<String>,
        html_body: Option<String>,
        stdin: bool,
        folder: Option<String>,
        title: Option<String>,
    },
    /// List notes (optionally filtered by folder).
    List { folder: Option<String> },
    /// Append content to an existing note by id.
    Append { id: String, markdown_file: Option<String>, html_body: Option<String>, stdin: bool },
    /// Read the HTML body of a note by id.
    Read { id: String },
    /// Move a note to a different folder.
    Move { id: String, folder: String },
    /// Attach a local image file to an existing note.
    Attach { id: String, image: String },
}

} // verus!
