//! Process-wide configuration, selected once at startup and immutable for
//! the process lifetime, passed explicitly to whatever needs it.

use vstd::prelude::*;

verus! {

/// The service's own public base URL and the TTS backend's base URL.
#[derive(Clone, Debug)]
pub struct Feed2PodcastURLs {
    /// The public base URL that rewritten enclosures point back at.
    pub base: String,
    /// The base URL of the TTS backend.
    pub tts: String,
}

/// The directories the service writes to.
#[derive(Clone, Debug)]
pub struct Feed2PodcastDirs {
    /// The cache directory holding generated audio.
    pub cache: String,
}

/// The TTS configuration: the model, and an optional static voice list that,
/// when set, spares asking the backend for its voices.
#[derive(Clone, Debug)]
pub struct Feed2PodcastTTSConfig {
    /// The TTS model every synthesis request names.
    pub model: String,
    /// The configured voices; the backend's listing is used when absent.
    pub voices: Option<Vec<String>>,
}

} // verus!
