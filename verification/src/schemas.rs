//! Response and tagging shapes of the HTTP surface, as bare data. The host
//! program keeps derive-bearing copies of these and converts.

use vstd::prelude::*;

verus! {

/// The categories the API's endpoints are grouped under.
#[derive(Clone, Copy, Debug, PartialEq, Eq, Structural)]
pub enum CategoryTags {
    /// Podcast feeds.
    Feed,
    /// Voice demos and similar.
    Demo,
}

/// A file download reply: the payload bytes and the content-type header.
#[derive(Clone, Debug)]
pub enum DownloadFileResponse {
    /// Audio bytes with their MIME type, which the service always sends as
    /// `audio/mpeg`.
    Audio(Vec<u8>, String),
}

} // verus!
