//! File names, stems and extensions of Unix paths, as `std::path` reads them.
use vstd::prelude::*;
use vstd::string::*;
use crate::text::{chars_of, find_last, last_index, opt_string_view, split_on, string_of_range};

verus! {

broadcast use vstd::string::group_string_axioms;

/// The components of a Unix path that can name a file: the pieces between
/// `/` separators, without the empty ones and `.`.
pub open spec fn named_components(path: Seq<char>) -> Seq<Seq<char>> {
    split_on(path, '/').filter(|p: Seq<char>| p.len() > 0 && p != seq!['.'])
}

/// The final component of the path `path`, as `Path::file_name` documents
/// it: the last named component, unless there is none or it is `..`.
pub open spec fn path_file_name(path: Seq<char>) -> Option<Seq<char>> {
    let parts = named_components(path);
    if parts.len() == 0 || parts.last() == seq!['.', '.'] {
        None
    } else {
        Some(parts.last())
    }
}

/// `Path::new(path).file_name()`, as text: the contract claims what std's
/// documentation says of `file_name` on a Unix path (see `path_file_name`).
#[verifier::external_body]
pub(crate) fn file_name(path: &str) -> (name: Option<String>)
    ensures
        opt_string_view(name) == path_file_name(path@),
{
    std::path::Path::new(path).file_name().and_then(|n| n.to_str()).map(|n| n.to_string())
}

/// The stem of a file name, as `Path::file_stem` documents it: the whole
/// name when it has no `.` or only a leading one, else the part before the
/// last `.`.
pub open spec fn file_stem_of(name: Seq<char>) -> Seq<char> {
    let d = last_index(name, '.');
    if d <= 0 {
        name
    } else {
        name.take(d)
    }
}

/// The extension of a file name, as `Path::extension` documents it: none
/// when the name has no `.` or only a leading one, else the part after the
/// last `.`.
pub open spec fn extension_of(name: Seq<char>) -> Option<Seq<char>> {
    let d = last_index(name, '.');
    if d <= 0 {
        None
    } else {
        Some(name.skip(d + 1))
    }
}

/// The stem and the extension of the file name `name`.
pub fn stem_and_extension(name: &str) -> (r: (String, Option<String>))
    ensures
        r.0@ == file_stem_of(name@),
        opt_string_view(r.1) == extension_of(name@),
{
    let cs = chars_of(name);
    match find_last(&cs, '.') {
        Some(d) => {
            if d == 0 {
                assert(cs@.subrange(0, cs.len() as int) =~= cs@);
                (string_of_range(&cs, 0, cs.len()), None)
            } else {
                assert(cs@.subrange(0, d as int) =~= cs@.take(d as int));
                assert(cs@.subrange(d + 1, cs.len() as int) =~= cs@.skip(d + 1));
                (string_of_range(&cs, 0, d), Some(string_of_range(&cs, d + 1, cs.len())))
            }
        },
        None => {
            assert(cs@.subrange(0, cs.len() as int) =~= cs@);
            (string_of_range(&cs, 0, cs.len()), None)
        },
    }
}

} // verus!
