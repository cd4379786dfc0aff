//! Opening a Terminal tab.
use vstd::prelude::*;
use vstd::string::*;
use crate::applescript::{escaped, push_escaped};
use crate::text::opt_view;

verus! {

broadcast use vstd::string::group_string_axioms;

/// The command to run, or the empty command.
pub open spec fn command_or_empty(command: Option<Seq<char>>) -> Seq<char> {
    match command {
        Some(c) => c,
        None => Seq::empty(),
    }
}

/// The script that opens a tab in the front window with Cmd+T and runs the
/// command in it, or opens a window running it when there is none; it
/// returns the window's id.
pub open spec fn new_tab_script(command: Seq<char>) -> Seq<char> {
    "\ntell application \"Terminal\"\n    activate\n    if (count windows) is 0 then\n        do script \""@
        + escaped(command)
        + "\"\n        return (id of front window) as text\n    end if\nend tell\ntell application \"System Events\" to keystroke \"t\" using {command down}\ndelay 0.25\ntell application \"Terminal\"\n    do script \""@
        + escaped(command)
        + "\" in selected tab of front window\n    return (id of front window) as text\nend tell\n"@
}

/// Open a new tab in Terminal's front window (a new window if there is
/// none): the script whose output is the window id.
pub fn new_tab(command: Option<&str>) -> (script: String)
    ensures
        script@ == new_tab_script(command_or_empty(opt_view(command))),
{
    let cmd: &str = match command {
        Some(c) => c,
        None => "",
    };
    proof {
        reveal_strlit("");
        if command is None {
            assert(cmd@ =~= Seq::<char>::empty());
        }
    }
    let mut out = String::new();
    out.append(
        "\ntell application \"Terminal\"\n    activate\n    if (count windows) is 0 then\n        do script \"",
    );
    push_escaped(&mut out, cmd);
    out.append(
        "\"\n        return (id of front window) as text\n    end if\nend tell\ntell application \"System Events\" to keystroke \"t\" using {command down}\ndelay 0.25\ntell application \"Terminal\"\n    do script \"",
    );
    push_escaped(&mut out, cmd);
    out.append("\" in selected tab of front window\n    return (id of front window) as text\nend tell\n");
    out
}

} // verus!
