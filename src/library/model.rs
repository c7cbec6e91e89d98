//! The track descriptor.
use vstd::prelude::*;

verus! {

/// One audio track of the catalog.
#[derive(Clone, Debug)]
pub struct Track {
    /// Filesystem path of the audio file.
    pub path: String,
    /// Track title (from tags, or the file name).
    pub title: String,
    /// Artist, if known.
    pub artist: Option<String>,
    /// Album, if known.
    pub album: Option<String>,
    /// Duration in milliseconds, if known.
    pub duration: Option<u64>,
    /// Display string, used for ordering and shown in the list.
    pub display: String,
}

} // verus!
