//! What the Photos library database holds, as read from
//! `~/Pictures/Photos Library.photoslibrary/database/Photos.sqlite`, and the
//! values its lookups are keyed by.
use vstd::prelude::*;
use vstd::string::*;
use crate::text::push_char;

verus! {

broadcast use vstd::string::group_string_axioms;

/// One photo, as the lookups return it.
#[derive(Debug, Clone)]
pub struct PhotoRow {
    pub uuid: String,
    pub original_filename: String,
    pub date_local: String,
    pub width: i64,
    pub height: i64,
}

/// The `LIKE` pattern that matches filenames containing `name`.
pub fn name_pattern(name: &str) -> (pattern: String)
    ensures
        pattern@ == seq!['%'] + name@ + seq!['%'],
{
    let mut out = String::new();
    push_char(&mut out, '%');
    out.append(name);
    push_char(&mut out, '%');
    out
}

/// The number of photos before the 1-based library position `index`;
/// none for position 0, which no photo has.
pub fn index_offset(index: u64) -> (offset: Option<u64>)
    ensures
        index == 0 ==> offset is None,
        index > 0 ==> offset == Some((index - 1) as u64),
{
    if index == 0 {
        None
    } else {
        Some(index - 1)
    }
}

} // verus!
