//! Deleting a reminder.
use vstd::prelude::*;
use vstd::string::*;
use crate::applescript::{escaped, push_escaped};

verus! {

broadcast use vstd::string::group_string_axioms;

/// The script that deletes the reminder `id`.
pub open spec fn delete_script(id: Seq<char>) -> Seq<char> {
    "\ntell application \"Reminders\"\n    set r to first reminder whose id is \""@ + escaped(id)
        + "\"\n    delete r\nend tell\n"@
}

/// Delete a reminder by id: the script that does it.
pub fn delete_reminder(id: &str) -> (script: String)
    ensures
        script@ == delete_script(id@),
{
    let mut out = String::new();
    out.append("\ntell application \"Reminders\"\n    set r to first reminder whose id is \"");
    push_escaped(&mut out, id);
    out.append("\"\n    delete r\nend tell\n");
    out
}

} // verus!
