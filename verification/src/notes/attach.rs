//! Attaching an image to a note.
use vstd::prelude::*;
use vstd::string::*;
use crate::applescript::{escaped, push_escaped};

verus! {

broadcast use vstd::string::group_string_axioms;

/// The script that attaches the file at `abs_path` to the note `id`.
pub open spec fn attach_script(id: Seq<char>, abs_path: Seq<char>) -> Seq<char> {
    "\ntell application \"Notes\"\n    set n to first note whose id is \""@ + escaped(id)
        + "\"\n    make new attachment at end of attachments of n with data POSIX file \""@ + escaped(
        abs_path,
    ) + "\"\nend tell\n"@
}

/// Attach a local image file to an existing note: the script that attaches
/// the file at the absolute path `abs_path` (which the caller has checked
/// to exist and resolved).
pub fn attach_image(id: &str, abs_path: &str) -> (script: String)
    ensures
        script@ == attach_script(id@, abs_path@),
{
    let mut out = String::new();
    out.append("\ntell application \"Notes\"\n    set n to first note whose id is \"");
    push_escaped(&mut out, id);
    out.append("\"\n    make new attachment at end of attachments of n with data POSIX file \"");
    push_escaped(&mut out, abs_path);
    out.append("\"\nend tell\n");
    out
}

} // verus!
