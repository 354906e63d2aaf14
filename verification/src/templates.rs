//! The data behind the web UI's two pages, as bare structs. The host program
//! keeps template-rendering copies of these and converts.

use vstd::prelude::*;

verus! {

/// The feed-builder page: title, description, the available voices, and the
/// API base URL the page submits to.
#[derive(Clone, Debug)]
pub struct Index {
    pub title: String,
    pub description: String,
    pub voices: Vec<String>,
    pub api_base: String,
}

/// The voice-demo page: title, description and the available voices.
#[derive(Clone, Debug)]
pub struct Demo {
    pub title: String,
    pub description: String,
    pub voices: Vec<String>,
}

} // verus!
