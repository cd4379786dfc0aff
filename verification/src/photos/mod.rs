//! Photos.app integration.
pub mod export;
pub mod find;
pub mod photosdb;

pub use export::ExportFormat;
pub use find::{PhotoInfo, Query, find};

use vstd::prelude::*;
use crate::error::Error;

verus! {

/// The photos subcommands.
#[derive(Debug)]
pub enum PhotosCommand {
    /// List all album names.
    Albums,
    /// Find photo(s) by filename, library index, or stable id.
    Find { name: Option<String>, index: Option<u64>, id: Option<String>, limit: u32 },
    /// Export a photo to a directory, optionally converting to PNG or JPG.
    Export {
        id: Option<String>,
        name: Option<String>,
        index: Option<u64>,
        output_dir: String,
        format: ExportFormat,
    },
}

/// The query that exactly one of a name, an index and an id describes.
pub fn build_query(name: Option<String>, index: Option<u64>, id: Option<String>) -> (r: Result<Query, Error>)
    ensures
        match (name, index, id) {
            (Some(n), None, None) => r matches Ok(Query::Name(q)) && q@ == n@,
            (None, Some(i), None) => r matches Ok(Query::Index(q)) && q == i,
            (None, None, Some(d)) => r matches Ok(Query::Id(q)) && q@ == d@,
            _ => r matches Err(Error::QueryNotUnique),
        },
{
    match (name, index, id) {
        (Some(n), None, None) => Ok(Query::Name(n)),
        (None, Some(i), None) => Ok(Query::Index(i)),
        (None, None, Some(d)) => Ok(Query::Id(d)),
        _ => Err(Error::QueryNotUnique),
    }
}

} // verus!
