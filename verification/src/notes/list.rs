//! Listing notes.
use vstd::prelude::*;
use vstd::string::*;
use crate::applescript::{escaped, push_escaped};
use crate::text::opt_view;

verus! {

broadcast use vstd::string::group_string_axioms;

/// The script that lists the notes of the first folder named `folder`, or
/// all notes, one `<note id>\t<note name>` per line.
pub open spec fn list_notes_script(folder: Option<Seq<char>>) -> Seq<char> {
    match folder {
        Some(name) => "\ntell application \"Notes\"\n    set out to \"\"\n    repeat with f in folders\n        if name of f is \""@
            + escaped(name)
            + "\" then\n            repeat with n in notes of f\n                set out to out & (id of n) & tab & (name of n) & linefeed\n            end repeat\n            exit repeat\n        end if\n    end repeat\n    return out\nend tell\n"@,
        None => "\ntell application \"Notes\"\n    set out to \"\"\n    repeat with n in notes\n        set out to out & (id of n) & tab & (name of n) & linefeed\n    end repeat\n    return out\nend tell\n"@,
    }
}

/// List notes optionally filtered by folder name: the script whose output
/// holds one `<note id>\t<note name>` per line.
pub fn list_notes(folder: Option<&str>) -> (script: String)
    ensures
        script@ == list_notes_script(opt_view(folder)),
{
    let mut out = String::new();
    match folder {
        Some(name) => {
            out.append(
                "\ntell application \"Notes\"\n    set out to \"\"\n    repeat with f in folders\n        if name of f is \"",
            );
            push_escaped(&mut out, name);
            out.append(
                "\" then\n            repeat with n in notes of f\n                set out to out & (id of n) & tab & (name of n) & linefeed\n            end repeat\n            exit repeat\n        end if\n    end repeat\n    return out\nend tell\n",
            );
        },
        None => {
            out.append(
                "\ntell application \"Notes\"\n    set out to \"\"\n    repeat with n in notes\n        set out to out & (id of n) & tab & (name of n) & linefeed\n    end repeat\n    return out\nend tell\n",
            );
        },
    }
    out
}

} // verus!
