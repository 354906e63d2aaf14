use feed2podcast::tts::{
    configured_voices, demo_probe, demo_request_body, tts_request_body, voices_from_response,
    DemoStep, TtsError,
};

#[test]
fn tts_body_is_exact_json() {
    let body = tts_request_body("Hello World", "kokoro", "alloy", true);
    assert_eq!(
        body,
        "{\"input\":\"Hello World\",\"model\":\"kokoro\",\
         \"normalization_options\":{\"normalize\":true},\"voice\":\"alloy\"}"
    );
}

#[test]
fn tts_body_escapes_through_serde() {
    let body = tts_request_body("He said \"hi\"\nbye", "kokoro", "alloy", false);
    assert!(body.contains("\"normalize\":false"));
    // The body parses back, and the input survives the quoting unchanged.
    let value: serde_json::Value = serde_json::from_str(&body).unwrap();
    assert_eq!(
        value.get("input").and_then(|v| v.as_str()),
        Some("He said \"hi\"\nbye")
    );
    assert_eq!(value.get("model").and_then(|v| v.as_str()), Some("kokoro"));
    assert_eq!(
        value
            .get("normalization_options")
            .and_then(|v| v.get("normalize"))
            .and_then(|v| v.as_bool()),
        Some(false)
    );
}

#[test]
fn demo_body_carries_the_sample_phrase() {
    let body = demo_request_body("kokoro", "alloy");
    assert_eq!(
        body,
        "{\"input\":\"The quick brown fox jumps over the lazy dog.\",\
         \"model\":\"kokoro\",\"voice\":\"alloy\"}"
    );
}

#[test]
fn demo_probe_serves_cache_or_frames_the_request() {
    match demo_probe(Some(b"CACHED".to_vec()), "kokoro", "alloy") {
        DemoStep::Cached(bytes) => assert_eq!(bytes, b"CACHED".to_vec()),
        DemoStep::Synthesize(_) => panic!("a cached entry must be served"),
    }
    match demo_probe(None, "kokoro", "alloy") {
        DemoStep::Synthesize(body) => assert_eq!(body, demo_request_body("kokoro", "alloy")),
        DemoStep::Cached(_) => panic!("a miss must lead to synthesis"),
    }
}

#[test]
fn voices_listing_is_read_in_order() {
    let r = voices_from_response("{\"voices\":[\"alloy\",\"echo\",\"fable\"]}");
    assert_eq!(
        r,
        Ok(vec![
            String::from("alloy"),
            String::from("echo"),
            String::from("fable")
        ])
    );
}

#[test]
fn voices_listing_ignores_extra_fields() {
    let r = voices_from_response("{\"voices\":[\"alloy\"],\"other\":1}");
    assert_eq!(r, Ok(vec![String::from("alloy")]));
}

#[test]
fn voices_listing_rejects_wrong_shapes() {
    assert_eq!(
        voices_from_response("{\"voices\":\"alloy\"}"),
        Err(TtsError::InvalidVoicesPayload)
    );
    assert_eq!(
        voices_from_response("{\"voices\":[1,2]}"),
        Err(TtsError::InvalidVoicesPayload)
    );
    assert_eq!(
        voices_from_response("not json at all"),
        Err(TtsError::InvalidVoicesPayload)
    );
}

#[test]
fn configured_voices_spare_the_backend() {
    let configured = Some(vec![String::from("alloy"), String::from("echo")]);
    assert_eq!(configured_voices(&configured), configured);
    assert_eq!(configured_voices(&None), None);
}
