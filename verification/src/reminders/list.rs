//! Listing reminders.
use vstd::prelude::*;
use vstd::string::*;
use super::create::{push_target_clause, target_clause};
use crate::text::opt_view;

verus! {

broadcast use vstd::string::group_string_axioms;

/// The reminders to go through: all of the list's, or its incomplete ones.
pub open spec fn reminder_filter(include_completed: bool) -> Seq<char> {
    if include_completed {
        "reminders of targetList"@
    } else {
        "(reminders of targetList whose completed is false)"@
    }
}

/// The script that lists the reminders of a list, one
/// `<reminder id>\t<name>\t<completed: true|false>` per line.
pub open spec fn list_reminders_script(list: Option<Seq<char>>, include_completed: bool) -> Seq<char> {
    "\ntell application \"Reminders\"\n    "@ + target_clause(list)
        + "\n    set out to \"\"\n    repeat with r in "@ + reminder_filter(include_completed)
        + "\n        set out to out & (id of r) & tab & (name of r) & tab & (completed of r as text) & linefeed\n    end repeat\n    return out\nend tell\n"@
}

/// List reminders: the script whose output holds one
/// `<reminder id>\t<name>\t<completed: true|false>` per line.
pub fn list_reminders(list: Option<&str>, include_completed: bool) -> (script: String)
    ensures
        script@ == list_reminders_script(opt_view(list), include_completed),
{
    let mut out = String::new();
    out.append("\ntell application \"Reminders\"\n    ");
    push_target_clause(&mut out, list);
    out.append("\n    set out to \"\"\n    repeat with r in ");
    if include_completed {
        out.append("reminders of targetList");
    } else {
        out.append("(reminders of targetList whose completed is false)");
    }
    out.append(
        "\n        set out to out & (id of r) & tab & (name of r) & tab & (completed of r as text) & linefeed\n    end repeat\n    return out\nend tell\n",
    );
    out
}

} // verus!
