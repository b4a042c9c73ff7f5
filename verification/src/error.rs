//! The ways in which a run, an episode or a chunk can fail.

use vstd::prelude::*;

verus! {

/// A failure to obtain the listing. It ends the run: nothing is fetched.
#[derive(Clone, Copy, Debug, PartialEq, Eq, Structural)]
pub enum ListingError {
    /// The catalog page could not be fetched.
    Unreachable,
    /// A selector of the listing was not accepted.
    InvalidSelector,
    /// The page holds no element with the listing marker.
    MissingMarker,
    /// The marked element holds no list.
    MissingList,
}

/// A failure that ends one episode and leaves the others alone.
#[derive(Clone, Copy, Debug, PartialEq, Eq, Structural)]
pub enum EpisodeError {
    /// The request for the episode could not be made or was not answered.
    RequestFailed,
    /// The server answered with the bad-request status.
    BadRequest,
    /// The response declares no content length.
    MissingContentLength,
    /// The declared content length is no number that fits in 64 bits.
    InvalidContentLength,
    /// The output directory could not be made.
    DirectoryFailed,
    /// The destination file could not be made.
    FileFailed,
}

/// A failure on one chunk of a response body. The stream goes on.
#[derive(Clone, Copy, Debug, PartialEq, Eq, Structural)]
pub enum ChunkError {
    /// The chunk did not arrive.
    Transport,
    /// The chunk arrived and could not be written to the file.
    Write,
}

} // verus!
