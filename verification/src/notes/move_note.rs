//! Moving a note between folders.
use vstd::prelude::*;
use vstd::string::*;
use crate::applescript::{escaped, push_escaped};

verus! {

broadcast use vstd::string::group_string_axioms;

/// The script that moves the note `id` into the first folder named
/// `folder`, making the folder when there is none.
pub open spec fn move_script(id: Seq<char>, folder: Seq<char>) -> Seq<char> {
    "\ntell application \"Notes\"\n    set targetFolder to missing value\n    repeat with f in folders\n        if name of f is \""@
        + escaped(folder)
        + "\" then\n            set targetFolder to f\n            exit repeat\n        end if\n    end repeat\n    if targetFolder is missing value then\n        set targetFolder to make new folder with properties {name:\""@
        + escaped(folder) + "\"}\n    end if\n    set n to first note whose id is \""@ + escaped(id)
        + "\"\n    move n to targetFolder\nend tell\n"@
}

/// Move a note (by id) to a different folder (by name), which is created if
/// missing: the script that does it.
pub fn move_note(id: &str, folder: &str) -> (script: String)
    ensures
        script@ == move_script(id@, folder@),
{
    let mut out = String::new();
    out.append(
        "\ntell application \"Notes\"\n    set targetFolder to missing value\n    repeat with f in folders\n        if name of f is \"",
    );
    push_escaped(&mut out, folder);
    out.append(
        "\" then\n            set targetFolder to f\n            exit repeat\n        end if\n    end repeat\n    if targetFolder is missing value then\n        set targetFolder to make new folder with properties {name:\"",
    );
    push_escaped(&mut out, folder);
    out.append("\"}\n    end if\n    set n to first note whose id is \"");
    push_escaped(&mut out, id);
    out.append("\"\n    move n to targetFolder\nend tell\n");
    out
}

} // verus!
