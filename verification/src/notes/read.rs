//! Reading a note.
use vstd::prelude::*;
use vstd::string::*;
use crate::applescript::{escaped, push_escaped};

verus! {

broadcast use vstd::string::group_string_axioms;

/// The script that returns the HTML body of the note `id`.
pub open spec fn read_script(id: Seq<char>) -> Seq<char> {
    "\ntell application \"Notes\"\n    set n to first note whose id is \""@ + escaped(id)
        + "\"\n    return body of n\nend tell\n"@
}

/// Fetch the HTML body of a note by id: the script whose output is the body.
pub fn read_note(id: &str) -> (script: String)
    ensures
        script@ == read_script(id@),
{
    let mut out = String::new();
    out.append("\ntell application \"Notes\"\n    set n to first note whose id is \"");
    push_escaped(&mut out, id);
    out.append("\"\n    return body of n\nend tell\n");
    out
}

} // verus!
