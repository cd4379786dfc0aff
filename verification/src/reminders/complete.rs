//! Completing a reminder.
use vstd::prelude::*;
use vstd::string::*;
use crate::applescript::{escaped, push_escaped};

verus! {

broadcast use vstd::string::group_string_axioms;

/// The script that marks the reminder `id` as completed.
pub open spec fn complete_script(id: Seq<char>) -> Seq<char> {
    "\ntell application \"Reminders\"\n    set r to first reminder whose id is \""@ + escaped(id)
        + "\"\n    set completed of r to true\nend tell\n"@
}

/// Mark a reminder as completed by id: the script that does it.
pub fn complete_reminder(id: &str) -> (script: String)
    ensures
        script@ == complete_script(id@),
{
    let mut out = String::new();
    out.append("\ntell application \"Reminders\"\n    set r to first reminder whose id is \"");
    push_escaped(&mut out, id);
    out.append("\"\n    set completed of r to true\nend tell\n");
    out
}

} // verus!
