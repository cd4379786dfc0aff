//! Opening a Terminal window.
use vstd::prelude::*;
use vstd::string::*;
use super::new_tab::command_or_empty;
use crate::applescript::{escaped, push_escaped};
use crate::text::opt_view;

verus! {

broadcast use vstd::string::group_string_axioms;

/// The script that opens a window running the command (nothing for the
/// empty command) and returns the window's id.
pub open spec fn new_window_script(command: Seq<char>) -> Seq<char> {
    "\ntell application \"Terminal\"\n    activate\n    set w to do script \""@ + escaped(command)
        + "\"\n    return (id of (window 1) as text)\nend tell\n"@
}

/// Open a new Terminal window, running `command` in it when given: the
/// script whose output is the window's id.
pub fn new_window(command: Option<&str>) -> (script: String)
    ensures
        script@ == new_window_script(command_or_empty(opt_view(command))),
{
    let cmd: &str = match command {
        Some(c) => c,
        None => "",
    };
    proof {
        reveal_strlit("");
        if command is None {
            assert(cmd@ =~= Seq::<char>::empty());
        }
    }
    let mut out = String::new();
    out.append("\ntell application \"Terminal\"\n    activate\n    set w to do script \"");
    push_escaped(&mut out, cmd);
    out.append("\"\n    return (id of (window 1) as text)\nend tell\n");
    out
}

} // verus!
