//! Framing of text-to-speech requests and of the voices listing.
//!
//! A synthesis request carries the input text, the model, the voice and the
//! normalization toggle as one JSON object; the demo request carries a fixed
//! sample phrase. The bodies are built here character-exactly, with only the
//! JSON string quoting taken from serde_json. Issuing the HTTP calls, and
//! every failure policy around them (no automatic retries, a single upstream
//! failure fails the whole request) stays with the caller.

use vstd::prelude::*;
use vstd::string::StringExecFns;
use crate::extract::str_views;

verus! {

/// A text-to-speech backend reply that the library's logic rejects.
#[derive(Clone, Copy, Debug, PartialEq, Eq, Structural)]
pub enum TtsError {
    /// The voices listing was not a JSON object with a `voices` array of strings.
    InvalidVoicesPayload,
}

/// The JSON string literal for `s` — quoted and escaped — as serde_json
/// writes it: a function of the characters alone.
pub uninterp spec fn json_quoted(s: Seq<char>) -> Seq<char>;

/// Relies on `serde_json::to_string` for `str`: serializing a string never
/// fails and yields its JSON string literal, determined by the characters
/// alone.
#[verifier::external_body]
fn json_quote(s: &str) -> (r: String)
    ensures
        r@ == json_quoted(s@),
{
    serde_json::to_string(s).unwrap()
}

/// The synthesis request body for one article text: a JSON object holding
/// the input text, the model, the normalization toggle and the voice, with
/// the keys in the order serde_json writes them (sorted).
pub open spec fn tts_body_spec(
    text: Seq<char>,
    model: Seq<char>,
    voice: Seq<char>,
    normalize: bool,
) -> Seq<char> {
    "{\"input\":"@ + json_quoted(text) + ",\"model\":"@ + json_quoted(model)
        + ",\"normalization_options\":{\"normalize\":"@ + (if normalize {
        "true"@
    } else {
        "false"@
    }) + "},\"voice\":"@ + json_quoted(voice) + "}"@
}

/// Build the synthesis request body for one article text.
pub fn tts_request_body(text: &str, model: &str, voice: &str, normalize: bool) -> (r: String)
    ensures
        r@ == tts_body_spec(text@, model@, voice@, normalize),
{
    let q_text = json_quote(text);
    let q_model = json_quote(model);
    let q_voice = json_quote(voice);
    let mut b = String::new();
    b.append("{\"input\":");
    b.append(q_text.as_str());
    b.append(",\"model\":");
    b.append(q_model.as_str());
    b.append(",\"normalization_options\":{\"normalize\":");
    if normalize {
        b.append("true");
    } else {
        b.append("false");
    }
    b.append("},\"voice\":");
    b.append(q_voice.as_str());
    b.append("}");
    proof {
        assert(b@ =~= tts_body_spec(text@, model@, voice@, normalize));
    }
    b
}

/// The demo request body for one voice: a JSON object holding the fixed
/// sample phrase, the model and the voice, with the keys in the order
/// serde_json writes them (sorted). The phrase needs no escaping, so the
/// whole literal is spelled out.
pub open spec fn demo_body_spec(model: Seq<char>, voice: Seq<char>) -> Seq<char> {
    "{\"input\":\"The quick brown fox jumps over the lazy dog.\",\"model\":"@ + json_quoted(model)
        + ",\"voice\":"@ + json_quoted(voice) + "}"@
}

/// Build the demo request body for one voice.
pub fn demo_request_body(model: &str, voice: &str) -> (r: String)
    ensures
        r@ == demo_body_spec(model@, voice@),
{
    let q_model = json_quote(model);
    let q_voice = json_quote(voice);
    let mut b = String::new();
    b.append("{\"input\":\"The quick brown fox jumps over the lazy dog.\",\"model\":");
    b.append(q_model.as_str());
    b.append(",\"voice\":");
    b.append(q_voice.as_str());
    b.append("}");
    proof {
        assert(b@ =~= demo_body_spec(model@, voice@));
    }
    b
}

/// What a probe of the demo entry led to: the cached bytes to serve, or the
/// synthesis request to send.
pub enum DemoStep {
    /// The demo entry exists: serve its bytes; the backend is not asked.
    Cached(Vec<u8>),
    /// The entry is missing: send this body to the backend and persist the
    /// audio that comes back at the demo path.
    Synthesize(String),
}

/// Decide between serving a cached demo sample and synthesizing it, from
/// what a probe of the demo path found: the demo counterpart of the
/// generate-or-serve decision, with the request body already framed on a
/// miss.
pub fn demo_probe(cached: Option<Vec<u8>>, model: &str, voice: &str) -> (r: DemoStep)
    ensures
        cached matches Some(bytes) ==> (r matches DemoStep::Cached(b) && b@ == bytes@),
        cached is None ==> (r matches DemoStep::Synthesize(body) && body@ == demo_body_spec(
            model@,
            voice@,
        )),
{
    match cached {
        Option::Some(bytes) => DemoStep::Cached(bytes),
        Option::None => DemoStep::Synthesize(demo_request_body(model, voice)),
    }
}

/// The `voices` array of strings of a JSON document, when the document is an
/// object carrying one: a function of the document text alone.
pub uninterp spec fn voices_of(body: Seq<char>) -> Option<Seq<Seq<char>>>;

/// Relies on `serde_json::from_str`, `Value::get`, `Value::as_array` and
/// `Value::as_str`: whether a document parses and what its `voices` array of
/// strings holds are functions of the document text alone.
#[verifier::external_body]
fn parse_voices_json(body: &str) -> (r: Option<Vec<String>>)
    ensures
        (r is Some) == (voices_of(body@) is Some),
        r matches Some(v) ==> voices_of(body@) == Some(str_views(v@)),
{
    let value: serde_json::Value = serde_json::from_str(body).ok()?;
    let arr = value.get("voices")?.as_array()?;
    let mut out: Vec<String> = Vec::new();
    for item in arr {
        out.push(item.as_str()?.to_owned());
    }
    Some(out)
}

/// Read the voice names out of the backend's voices listing.
///
/// Succeeds exactly when the reply is a JSON object with a `voices` array of
/// strings, and then returns those names in listing order.
pub fn voices_from_response(body: &str) -> (r: Result<Vec<String>, TtsError>)
    ensures
        (r is Ok) == (voices_of(body@) is Some),
        r matches Ok(v) ==> voices_of(body@) == Some(str_views(v@)),
        r matches Err(e) ==> e == TtsError::InvalidVoicesPayload,
{
    match parse_voices_json(body) {
        Option::Some(v) => Ok(v),
        Option::None => Err(TtsError::InvalidVoicesPayload),
    }
}

/// The statically configured voice list, when one was set at startup: with
/// one configured, the backend is never asked; without one, the caller must
/// fetch the listing and read it with [`voices_from_response`].
pub fn configured_voices(configured: &Option<Vec<String>>) -> (r: Option<Vec<String>>)
    ensures
        (r is Some) == (configured is Some),
        r matches Some(v) ==> configured matches Some(c) && str_views(v@) == str_views(c@),
{
    match configured {
        Option::Some(v) => {
            let copy = v.clone();
            proof {
                assert forall|i: int| 0 <= i < v@.len() implies copy@[i]@ == v@[i]@ by {
                    assert(cloned::<String>(v@[i], copy@[i]));
                }
                assert(str_views(copy@) =~= str_views(v@));
            }
            Option::Some(copy)
        },
        Option::None => Option::None,
    }
}

} // verus!
