//! Sending a command to a Terminal tab.
use vstd::prelude::*;
use vstd::string::*;
use crate::applescript::{escaped, push_escaped};
use crate::numbers::{decimal, push_decimal};
use crate::text::opt_view;

verus! {

broadcast use vstd::string::group_string_axioms;

/// The tab to run in: tab `tab_index` (1-based) or the selected tab, of the
/// window with id `window_id` or of the front window. The window id is
/// escaped but not quoted: it stands where AppleScript expects a number, so
/// an id that is not a number is read as script text.
pub open spec fn send_target(window_id: Option<Seq<char>>, tab_index: Option<u32>) -> Seq<char> {
    match (window_id, tab_index) {
        (Some(w), Some(t)) => "tab "@ + decimal(t as nat) + " of (first window whose id is "@
            + escaped(w) + ")"@,
        (Some(w), None) => "selected tab of (first window whose id is "@ + escaped(w) + ")"@,
        (None, Some(t)) => "tab "@ + decimal(t as nat) + " of front window"@,
        (None, None) => "selected tab of front window"@,
    }
}

/// The script that runs `command` in the target tab.
pub open spec fn send_command_script(window_id: Option<Seq<char>>, tab_index: Option<u32>, command: Seq<char>) -> Seq<char> {
    "\ntell application \"Terminal\"\n    do script \""@ + escaped(command) + "\" in "@ + send_target(
        window_id,
        tab_index,
    ) + "\nend tell\n"@
}

/// Send a command to a specific Terminal window (and optionally a tab within
/// it), or to the front window: the script that does it.
pub fn send_command(window_id: Option<&str>, tab_index: Option<u32>, command: &str) -> (script: String)
    ensures
        script@ == send_command_script(opt_view(window_id), tab_index, command@),
{
    let mut out = String::new();
    out.append("\ntell application \"Terminal\"\n    do script \"");
    push_escaped(&mut out, command);
    out.append("\" in ");
    match (window_id, tab_index) {
        (Some(wid), Some(t)) => {
            out.append("tab ");
            push_decimal(&mut out, t as u64);
            out.append(" of (first window whose id is ");
            push_escaped(&mut out, wid);
            out.append(")");
        },
        (Some(wid), None) => {
            out.append("selected tab of (first window whose id is ");
            push_escaped(&mut out, wid);
            out.append(")");
        },
        (None, Some(t)) => {
            out.append("tab ");
            push_decimal(&mut out, t as u64);
            out.append(" of front window");
        },
        (None, None) => {
            out.append("selected tab of front window");
        },
    }
    out.append("\nend tell\n");
    out
}

} // verus!
