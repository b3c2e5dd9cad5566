//! The fields of the extractor's metadata document that callers read.

use vstd::prelude::*;

verus! {

/// The part of a metadata document that the rest of the application uses.
///
/// `id` and `title` are empty when the document does not carry them; the
/// other fields are absent in that case.
#[derive(Debug)]
pub struct VideoInfo {
    pub id: String,
    pub title: String,
    pub thumbnail: Option<String>,
    pub duration: Option<u32>,
    pub uploader: Option<String>,
}

} // verus!
