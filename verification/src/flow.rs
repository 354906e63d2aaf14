//! The generate-or-serve path for one content request.
//!
//! The flow: derive the cache path; if the entry exists, serve its bytes
//! without touching the generation gate (the fast path); otherwise, under the
//! process-wide gate, fetch the feed, extract the article text, synthesize,
//! persist, and serve the new bytes. Awaiting that permit and performing the
//! I/O steps stays with the caller; the decisions between them — what each
//! fetched, parsed or synthesized value leads to — live here. The caller is
//! expected to probe the cache again once the permit is held and serve a
//! fresh entry instead of regenerating: without that re-probe, two
//! concurrent requests for the same uncached key would both pass the first
//! probe and the second would regenerate and overwrite a fresh entry.

use vstd::prelude::*;
use vstd::string::StringExecFns;
use crate::extract::{
    all_valid, extract_text, find_item_description, first_description, first_invalid_is,
    html_full_text, str_views, strip_selectors, ExtractError,
};
use crate::feed::{
    channel_descs, channel_guids, channel_item_fields, channel_parses, descs_of, guids_of,
    parse_channel,
};
use crate::keys::{get_podcast_path, podcast_path_spec, segment_spec, KeyError};
use crate::tts::{tts_body_spec, tts_request_body};

verus! {

/// One content request: everything the generation of one episode needs.
#[derive(Clone, Debug)]
pub struct GenerationRequest {
    /// The URL of the source feed.
    pub feed_url: String,
    /// The GUID of the article within the feed.
    pub uid: String,
    /// The voice to synthesize with.
    pub voice: String,
    /// CSS selectors whose element text is removed before synthesis.
    pub ignore: Vec<String>,
    /// Whether the backend should normalize the text.
    pub normalize: bool,
}

/// Why a generation failed.
#[derive(Clone, Debug, PartialEq, Eq)]
pub enum CacheError {
    /// A cache segment could not be derived from the feed URL or the UID.
    KeyDerivation(KeyError),
    /// The origin feed could not be fetched; carries the upstream message.
    UpstreamFetch(String),
    /// The fetched bytes do not parse as an RSS channel.
    FeedParse,
    /// The article was missing, empty, or an ignore selector was invalid.
    Extraction(ExtractError),
    /// The TTS backend failed; carries the upstream status or message.
    Synthesis(String),
    /// The synthesized audio could not be persisted; carries the I/O message.
    LocalIo(String),
}

/// The user-facing kinds that failures are reported under.
#[derive(Clone, Copy, Debug, PartialEq, Eq, Structural)]
pub enum FailureKind {
    /// Caller input or upstream content problem.
    BadRequest,
    /// Origin or TTS backend unreachable or non-2xx.
    UpstreamFailure,
    /// The article UID is absent from the feed.
    NotFound,
    /// A local filesystem failure.
    InternalIo,
    /// A violated internal invariant: a bug signal, not a user error.
    InternalAssertion,
}

impl CacheError {
    /// The kind a failure is reported under.
    pub fn kind(&self) -> (k: FailureKind)
        ensures
            k == match self {
                CacheError::KeyDerivation(_) => FailureKind::BadRequest,
                CacheError::UpstreamFetch(_) => FailureKind::UpstreamFailure,
                CacheError::FeedParse => FailureKind::BadRequest,
                CacheError::Extraction(e) => if e is NotFound {
                    FailureKind::NotFound
                } else {
                    FailureKind::BadRequest
                },
                CacheError::Synthesis(_) => FailureKind::UpstreamFailure,
                CacheError::LocalIo(_) => FailureKind::InternalIo,
            },
    {
        match self {
            CacheError::KeyDerivation(_) => FailureKind::BadRequest,
            CacheError::UpstreamFetch(_) => FailureKind::UpstreamFailure,
            CacheError::FeedParse => FailureKind::BadRequest,
            CacheError::Extraction(e) => match e {
                ExtractError::NotFound => FailureKind::NotFound,
                _ => FailureKind::BadRequest,
            },
            CacheError::Synthesis(_) => FailureKind::UpstreamFailure,
            CacheError::LocalIo(_) => FailureKind::InternalIo,
        }
    }

    /// The HTTP status the service answers with for this failure: bad input
    /// and upstream content problems as 400, a missing description as 404,
    /// backend and local failures as 500.
    pub fn status_code(&self) -> (s: u16)
        ensures
            s == match self {
                CacheError::KeyDerivation(_) => 400u16,
                CacheError::UpstreamFetch(_) => 400u16,
                CacheError::FeedParse => 400u16,
                CacheError::Extraction(e) => if e is NoContent {
                    404u16
                } else {
                    400u16
                },
                CacheError::Synthesis(_) => 500u16,
                CacheError::LocalIo(_) => 500u16,
            },
    {
        match self {
            CacheError::KeyDerivation(_) => 400,
            CacheError::UpstreamFetch(_) => 400,
            CacheError::FeedParse => 400,
            CacheError::Extraction(e) => match e {
                ExtractError::NoContent => 404,
                _ => 400,
            },
            CacheError::Synthesis(_) => 500,
            CacheError::LocalIo(_) => 500,
        }
    }
}

/// A generation that has a cache path but no audio yet.
pub struct PendingGeneration {
    /// The derived cache path of the entry.
    pub path: String,
    /// The request being served.
    pub request: GenerationRequest,
    /// The TTS model configured for the process.
    pub tts_model: String,
}

/// Derive the cache path for a request: the first step of the
/// generate-or-serve path. Fails exactly when a cache segment cannot be
/// derived, reporting the feed URL's failure first.
pub fn begin_generation(cache_dir: &str, request: GenerationRequest, tts_model: &str) -> (r: Result<
    PendingGeneration,
    CacheError,
>)
    ensures
        (r is Ok) == (segment_spec(request.feed_url@) is Ok && segment_spec(request.uid@) is Ok),
        r matches Ok(p) ==> {
            &&& p.path@ == podcast_path_spec(
                cache_dir@,
                segment_spec(request.feed_url@)->Ok_0,
                segment_spec(request.uid@)->Ok_0,
                request.voice@,
            )
            &&& p.request == request
            &&& p.tts_model@ == tts_model@
        },
        r matches Err(e) ==> e matches CacheError::KeyDerivation(ke) && if segment_spec(
            request.feed_url@,
        ) is Err {
            ke == segment_spec(request.feed_url@)->Err_0
        } else {
            segment_spec(request.uid@) matches Err(ke2) && ke == ke2
        },
{
    let path = match get_podcast_path(
        cache_dir,
        request.feed_url.as_str(),
        request.uid.as_str(),
        request.voice.as_str(),
    ) {
        Ok(p) => p,
        Err(e) => {
            return Err(CacheError::KeyDerivation(e));
        },
    };
    Ok(PendingGeneration { path, request, tts_model: tts_model.to_owned() })
}

/// What a cache probe led to: the entry's bytes, or the generation to run.
pub enum ProbeStep {
    /// The entry exists: serve its bytes; `was_generated` is false and the
    /// generation gate is never acquired.
    Served(Vec<u8>),
    /// The entry is missing: the generation goes ahead.
    Generate(PendingGeneration),
}

impl PendingGeneration {
    /// Decide between the fast path and generation, from what a probe of the
    /// cache found at the derived path. Also the decision after the caller
    /// re-probes while holding the generation permit: an entry that appeared
    /// meanwhile is served, closing the regenerate-and-overwrite race.
    pub fn resolve_probe(self, cached: Option<Vec<u8>>) -> (r: ProbeStep)
        ensures
            cached matches Some(bytes) ==> (r matches ProbeStep::Served(b) && b@ == bytes@),
            cached is None ==> (r matches ProbeStep::Generate(p) && p == self),
    {
        match cached {
            Option::Some(bytes) => ProbeStep::Served(bytes),
            Option::None => ProbeStep::Generate(self),
        }
    }

    /// Turn the outcome of fetching the origin feed into the feed bytes,
    /// wrapping the upstream failure message.
    pub fn accept_fetch(&self, fetched: Result<Vec<u8>, String>) -> (r: Result<Vec<u8>, CacheError>)
        ensures
            fetched matches Ok(b) ==> r matches Ok(b2) && b2@ == b@,
            fetched matches Err(m) ==> r == Err::<Vec<u8>, CacheError>(
                CacheError::UpstreamFetch(m),
            ),
    {
        match fetched {
            Ok(bytes) => Ok(bytes),
            Err(m) => Err(CacheError::UpstreamFetch(m)),
        }
    }

    /// Build the synthesis request body from a parsed feed: locate the item
    /// with the requested UID, take its description, extract its text with
    /// the request's ignore selectors, and frame the body with the process
    /// model, the requested voice and the normalize toggle.
    pub fn prepare_synthesis_from_channel(&self, ch: &rss::Channel) -> (r: Result<
        String,
        CacheError,
    >)
        requires
            channel_guids(*ch).len() == channel_descs(*ch).len(),
        ensures
            ({
                let found = first_description(
                    channel_guids(*ch),
                    channel_descs(*ch),
                    self.request.uid@,
                );
                let sels = str_views(self.request.ignore@) + seq!["style"@, "script"@];
                &&& (r is Ok) == (found matches Some(Some(_)) && all_valid(sels))
                &&& r matches Ok(body) ==> found matches Some(Some(d)) && body@ == tts_body_spec(
                    strip_selectors(html_full_text(d), d, sels),
                    self.tts_model@,
                    self.request.voice@,
                    self.request.normalize,
                )
                &&& (r == Err::<String, CacheError>(CacheError::Extraction(ExtractError::NotFound)))
                    == (found is None)
                &&& (r == Err::<String, CacheError>(CacheError::Extraction(ExtractError::NoContent)))
                    == (found == Some(Option::<Seq<char>>::None))
                &&& r matches Err(
                    CacheError::Extraction(ExtractError::InvalidSelector(bad)),
                ) ==> first_invalid_is(sels, bad@)
                &&& r matches Err(e) ==> e matches CacheError::Extraction(_)
            }),
    {
        let (guids, descs) = channel_item_fields(ch);
        let description = match find_item_description(&guids, &descs, self.request.uid.as_str()) {
            Ok(d) => d,
            Err(e) => {
                return Err(CacheError::Extraction(e));
            },
        };
        let text = match extract_text(description.as_str(), &self.request.ignore) {
            Ok(t) => t,
            Err(e) => {
                return Err(CacheError::Extraction(e));
            },
        };
        Ok(
            tts_request_body(
                text.as_str(),
                self.tts_model.as_str(),
                self.request.voice.as_str(),
                self.request.normalize,
            ),
        )
    }

    /// Build the synthesis request body from the fetched feed bytes: parse
    /// them, then proceed as from a parsed feed. Fails with `FeedParse`
    /// exactly when the bytes are not an RSS channel, else exactly as the
    /// channel step does.
    pub fn prepare_synthesis(&self, feed_bytes: &Vec<u8>) -> (r: Result<String, CacheError>)
        ensures
            ({
                let found = first_description(
                    guids_of(feed_bytes@),
                    descs_of(feed_bytes@),
                    self.request.uid@,
                );
                let sels = str_views(self.request.ignore@) + seq!["style"@, "script"@];
                &&& (r == Err::<String, CacheError>(CacheError::FeedParse)) == !channel_parses(
                    feed_bytes@,
                )
                &&& (r is Ok) == (channel_parses(feed_bytes@) && (found matches Some(Some(_)))
                    && all_valid(sels))
                &&& r matches Ok(body) ==> found matches Some(Some(d)) && body@ == tts_body_spec(
                    strip_selectors(html_full_text(d), d, sels),
                    self.tts_model@,
                    self.request.voice@,
                    self.request.normalize,
                )
                &&& (r == Err::<String, CacheError>(CacheError::Extraction(ExtractError::NotFound)))
                    == (channel_parses(feed_bytes@) && found is None)
                &&& (r == Err::<String, CacheError>(
                    CacheError::Extraction(ExtractError::NoContent),
                )) == (channel_parses(feed_bytes@) && found == Some(Option::<Seq<char>>::None))
                &&& r matches Err(
                    CacheError::Extraction(ExtractError::InvalidSelector(bad)),
                ) ==> first_invalid_is(sels, bad@)
                &&& r matches Err(e) ==> (e == CacheError::FeedParse || e matches
                    CacheError::Extraction(_))
            }),
    {
        let ch = match parse_channel(feed_bytes) {
            Option::Some(ch) => ch,
            Option::None => {
                return Err(CacheError::FeedParse);
            },
        };
        self.prepare_synthesis_from_channel(&ch)
    }

    /// Turn the TTS backend's reply into the audio bytes, wrapping the
    /// upstream failure message. Never retried: one upstream failure fails
    /// the whole request.
    pub fn accept_synthesis(&self, response: Result<Vec<u8>, String>) -> (r: Result<
        Vec<u8>,
        CacheError,
    >)
        ensures
            response matches Ok(b) ==> r matches Ok(b2) && b2@ == b@,
            response matches Err(m) ==> r == Err::<Vec<u8>, CacheError>(CacheError::Synthesis(m)),
    {
        match response {
            Ok(audio) => Ok(audio),
            Err(m) => Err(CacheError::Synthesis(m)),
        }
    }

    /// Conclude the generation from the outcome of persisting the audio at
    /// the derived path: on success the audio is served with
    /// `was_generated` true — the signal to schedule a retention sweep — and
    /// a write failure is wrapped as a local I/O error.
    pub fn finish(self, persisted: Result<(), String>, audio: Vec<u8>) -> (r: Result<
        (Vec<u8>, bool),
        CacheError,
    >)
        ensures
            persisted matches Ok(u) ==> r matches Ok(pair) && pair.0@ == audio@ && pair.1 == true,
            persisted matches Err(m) ==> r == Err::<(Vec<u8>, bool), CacheError>(
                CacheError::LocalIo(m),
            ),
    {
        match persisted {
            Ok(_) => Ok((audio, true)),
            Err(m) => Err(CacheError::LocalIo(m)),
        }
    }
}

/// The cache contents after a generate-or-serve call at `path`, over a model
/// of the cache as a map from paths to bytes: an existing entry is never
/// overwritten, a missing one is filled with the generated bytes.
pub open spec fn cache_after(
    fs: Map<Seq<char>, Seq<u8>>,
    path: Seq<char>,
    generated: Seq<u8>,
) -> Map<Seq<char>, Seq<u8>> {
    if fs.contains_key(path) {
        fs
    } else {
        fs.insert(path, generated)
    }
}

/// The bytes a generate-or-serve call at `path` serves.
pub open spec fn served_bytes(fs: Map<Seq<char>, Seq<u8>>, path: Seq<char>, generated: Seq<u8>) -> Seq<
    u8,
> {
    if fs.contains_key(path) {
        fs[path]
    } else {
        generated
    }
}

/// Whether a generate-or-serve call at `path` generates.
pub open spec fn generates(fs: Map<Seq<char>, Seq<u8>>, path: Seq<char>) -> bool {
    !fs.contains_key(path)
}

/// Law (idempotence): after a first generate-or-serve call succeeded at a
/// path, a second call with an identical request serves byte-identical
/// output, does not generate, and leaves the cache unchanged — whatever a
/// second synthesis would have produced.
pub proof fn lemma_get_or_generate_idempotent(
    fs: Map<Seq<char>, Seq<u8>>,
    path: Seq<char>,
    gen1: Seq<u8>,
    gen2: Seq<u8>,
)
    ensures
        served_bytes(cache_after(fs, path, gen1), path, gen2) == served_bytes(fs, path, gen1),
        !generates(cache_after(fs, path, gen1), path),
        cache_after(cache_after(fs, path, gen1), path, gen2) == cache_after(fs, path, gen1),
{
}

} // verus!
