use std::collections::HashMap;

use feed2podcast::extract::ExtractError;
use feed2podcast::flow::{
    begin_generation, CacheError, FailureKind, GenerationRequest, ProbeStep,
};
use feed2podcast::keys::KeyError;

fn scenario_request() -> GenerationRequest {
    GenerationRequest {
        feed_url: String::from("http://example.com/feed.xml"),
        uid: String::from("abc123"),
        voice: String::from("alloy"),
        ignore: vec![],
        normalize: true,
    }
}

fn scenario_feed_bytes() -> Vec<u8> {
    let mut guid = rss::Guid::default();
    guid.set_value("abc123");
    let mut item = rss::Item::default();
    item.set_guid(guid);
    item.description = Some(String::from("<p>Hello <script>x</script>World</p>"));
    let mut ch = rss::Channel::default();
    ch.set_title("t");
    ch.set_link("http://example.com/");
    ch.set_description("d");
    ch.set_items(vec![item]);
    ch.to_string().into_bytes()
}

#[test]
fn generate_then_serve_cached_is_idempotent() {
    // A cache modeled as a map from paths to bytes, driven through the whole
    // generate-or-serve flow twice with an identical request.
    let mut fs: HashMap<String, Vec<u8>> = HashMap::new();
    let mut synthesis_calls = 0;
    let audio = b"AUDIO-BYTES".to_vec();

    // First request: miss, generate, persist.
    let pending = begin_generation("cache", scenario_request(), "kokoro").unwrap();
    assert_eq!(pending.path, "cache/example.com/feed.xml/abc123/alloy.mp3");
    let pending = match pending.resolve_probe(fs.get("cache/example.com/feed.xml/abc123/alloy.mp3").cloned()) {
        ProbeStep::Generate(p) => p,
        ProbeStep::Served(_) => panic!("the cache is empty, nothing to serve"),
    };
    let feed = pending.accept_fetch(Ok(scenario_feed_bytes())).unwrap();
    let body = pending.prepare_synthesis(&feed).unwrap();
    assert_eq!(
        body,
        "{\"input\":\"Hello World\",\"model\":\"kokoro\",\
         \"normalization_options\":{\"normalize\":true},\"voice\":\"alloy\"}"
    );
    synthesis_calls += 1;
    let got = pending.accept_synthesis(Ok(audio.clone())).unwrap();
    fs.insert(pending.path.clone(), got.clone());
    let (served, was_generated) = pending.finish(Ok(()), got).unwrap();
    assert!(was_generated);
    assert_eq!(served, audio);

    // Second identical request: hit, byte-identical, no second synthesis.
    let pending = begin_generation("cache", scenario_request(), "kokoro").unwrap();
    let cached = fs.get(pending.path.as_str()).cloned();
    match pending.resolve_probe(cached) {
        ProbeStep::Served(bytes) => assert_eq!(bytes, audio),
        ProbeStep::Generate(_) => panic!("the entry exists, nothing to generate"),
    }
    assert_eq!(synthesis_calls, 1);
}

#[test]
fn begin_generation_rejects_underivable_keys() {
    let mut request = scenario_request();
    request.feed_url = String::from("mailto:alice@example.com");
    let r = begin_generation("cache", request, "kokoro");
    assert!(matches!(
        r,
        Err(CacheError::KeyDerivation(KeyError::MissingHost))
    ));
}

#[test]
fn fetch_failure_is_wrapped() {
    let pending = begin_generation("cache", scenario_request(), "kokoro").unwrap();
    let r = pending.accept_fetch(Err(String::from("connection refused")));
    assert_eq!(
        r,
        Err(CacheError::UpstreamFetch(String::from("connection refused")))
    );
}

#[test]
fn garbage_feed_bytes_fail_as_parse_error() {
    let pending = begin_generation("cache", scenario_request(), "kokoro").unwrap();
    let r = pending.prepare_synthesis(&b"not xml".to_vec());
    assert_eq!(r, Err(CacheError::FeedParse));
}

#[test]
fn unknown_uid_fails_as_not_found() {
    let mut request = scenario_request();
    request.uid = String::from("no-such-guid");
    let pending = begin_generation("cache", request, "kokoro").unwrap();
    let r = pending.prepare_synthesis(&scenario_feed_bytes());
    assert_eq!(r, Err(CacheError::Extraction(ExtractError::NotFound)));
}

#[test]
fn missing_description_fails_as_no_content() {
    let mut guid = rss::Guid::default();
    guid.set_value("abc123");
    let mut item = rss::Item::default();
    item.set_guid(guid);
    let mut ch = rss::Channel::default();
    ch.set_title("t");
    ch.set_link("http://example.com/");
    ch.set_description("d");
    ch.set_items(vec![item]);
    let bytes = ch.to_string().into_bytes();

    let pending = begin_generation("cache", scenario_request(), "kokoro").unwrap();
    let r = pending.prepare_synthesis(&bytes);
    assert_eq!(r, Err(CacheError::Extraction(ExtractError::NoContent)));
}

#[test]
fn invalid_ignore_selector_fails_extraction() {
    let mut request = scenario_request();
    request.ignore = vec![String::from(":::")];
    let pending = begin_generation("cache", request, "kokoro").unwrap();
    let r = pending.prepare_synthesis(&scenario_feed_bytes());
    assert_eq!(
        r,
        Err(CacheError::Extraction(ExtractError::InvalidSelector(
            String::from(":::")
        )))
    );
}

#[test]
fn synthesis_failure_is_wrapped() {
    let pending = begin_generation("cache", scenario_request(), "kokoro").unwrap();
    let r = pending.accept_synthesis(Err(String::from("502 bad gateway")));
    assert_eq!(
        r,
        Err(CacheError::Synthesis(String::from("502 bad gateway")))
    );
}

#[test]
fn persist_failure_is_wrapped() {
    let pending = begin_generation("cache", scenario_request(), "kokoro").unwrap();
    let r = pending.finish(Err(String::from("disk full")), b"audio".to_vec());
    assert_eq!(r, Err(CacheError::LocalIo(String::from("disk full"))));
}

#[test]
fn failure_kinds_follow_the_taxonomy() {
    assert_eq!(
        CacheError::KeyDerivation(KeyError::MissingHost).kind(),
        FailureKind::BadRequest
    );
    assert_eq!(
        CacheError::UpstreamFetch(String::from("x")).kind(),
        FailureKind::UpstreamFailure
    );
    assert_eq!(CacheError::FeedParse.kind(), FailureKind::BadRequest);
    assert_eq!(
        CacheError::Extraction(ExtractError::NotFound).kind(),
        FailureKind::NotFound
    );
    assert_eq!(
        CacheError::Extraction(ExtractError::NoContent).kind(),
        FailureKind::BadRequest
    );
    assert_eq!(
        CacheError::Synthesis(String::from("x")).kind(),
        FailureKind::UpstreamFailure
    );
    assert_eq!(
        CacheError::LocalIo(String::from("x")).kind(),
        FailureKind::InternalIo
    );
}

#[test]
fn status_codes_match_the_http_mapping() {
    assert_eq!(
        CacheError::KeyDerivation(KeyError::MissingHost).status_code(),
        400
    );
    assert_eq!(CacheError::UpstreamFetch(String::from("x")).status_code(), 400);
    assert_eq!(CacheError::FeedParse.status_code(), 400);
    assert_eq!(
        CacheError::Extraction(ExtractError::NotFound).status_code(),
        400
    );
    assert_eq!(
        CacheError::Extraction(ExtractError::NoContent).status_code(),
        404
    );
    assert_eq!(
        CacheError::Extraction(ExtractError::InvalidSelector(String::from("x"))).status_code(),
        400
    );
    assert_eq!(CacheError::Synthesis(String::from("x")).status_code(), 500);
    assert_eq!(CacheError::LocalIo(String::from("x")).status_code(), 500);
}
