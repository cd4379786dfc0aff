//! Terminal.app integration.
pub mod list_windows;
pub mod new_tab;
pub mod new_window;
pub mod send;

pub use list_windows::list_windows;
pub use new_tab::new_tab;
pub use new_window::new_window;
pub use send::send_command;

use vstd::prelude::*;

verus! {

/// The terminal subcommands.
#[derive(Debug)]
pub enum TerminalCommand {
    /// Open a new Terminal window, optionally running a command.
    NewWindow { command: Option<String> },
    /// Open a new tab in the front Terminal window (or a new window if none).
    NewTab { command: Option<String> },
    /// Send a command to a Terminal window/tab (defaults to front window's selected tab).
    Send { window: Option<String>, tab: Option<u32>, command: String },
    /// List open Terminal windows.
    ListWindows,
}

} // verus!
