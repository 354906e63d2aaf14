use feed2podcast::keys::{derive_segment, get_demo_path, get_podcast_path, KeyError};

#[test]
fn derive_segment_url_with_host() {
    let r = derive_segment("http://example.com/feed.xml");
    assert_eq!(r, Ok(String::from("example.com/feed.xml")));
}

#[test]
fn derive_segment_https_with_port_path() {
    let r = derive_segment("https://host.test:8080/a/b?q=1");
    assert_eq!(r, Ok(String::from("host.test/a/b")));
}

#[test]
fn derive_segment_plain_string_unchanged() {
    assert_eq!(derive_segment("abc123"), Ok(String::from("abc123")));
    assert_eq!(
        derive_segment("some guid with spaces"),
        Ok(String::from("some guid with spaces"))
    );
}

#[test]
fn derive_segment_url_without_host_fails() {
    assert_eq!(
        derive_segment("mailto:alice@example.com"),
        Err(KeyError::MissingHost)
    );
}

#[test]
fn derive_segment_deterministic() {
    let a = derive_segment("http://example.com/feed.xml");
    let b = derive_segment("http://example.com/feed.xml");
    assert_eq!(a, b);
}

#[test]
fn podcast_path_for_scenario_request() {
    let p = get_podcast_path("cache", "http://example.com/feed.xml", "abc123", "alloy");
    assert_eq!(p, Ok(String::from("cache/example.com/feed.xml/abc123/alloy.mp3")));
}

#[test]
fn podcast_path_uid_may_be_a_url() {
    let p = get_podcast_path(
        "/var/cache",
        "http://example.com/feed.xml",
        "https://example.com/articles/42",
        "echo",
    );
    assert_eq!(
        p,
        Ok(String::from(
            "/var/cache/example.com/feed.xml/example.com/articles/42/echo.mp3"
        ))
    );
}

#[test]
fn podcast_path_reports_feed_url_failure_first() {
    let p = get_podcast_path("cache", "mailto:a@b", "mailto:c@d", "alloy");
    assert_eq!(p, Err(KeyError::MissingHost));
}

#[test]
fn slash_bearing_segments_share_one_path() {
    // Inherent in the one-directory-per-segment layout and kept: a segment
    // may hold the separator, and two distinct triples then join to one
    // cache entry.
    let a = get_podcast_path("c", "x/y", "z", "v");
    let b = get_podcast_path("c", "x", "y/z", "v");
    assert_eq!(a, Ok(String::from("c/x/y/z/v.mp3")));
    assert_eq!(a, b);
}

#[test]
fn separator_free_triples_never_collide() {
    let a = get_podcast_path("c", "feed-one", "id1", "alloy").unwrap();
    let b = get_podcast_path("c", "feed-two", "id1", "alloy").unwrap();
    let c = get_podcast_path("c", "feed-one", "id2", "alloy").unwrap();
    let d = get_podcast_path("c", "feed-one", "id1", "echo").unwrap();
    assert_ne!(a, b);
    assert_ne!(a, c);
    assert_ne!(a, d);
    assert_ne!(b, c);
    assert_ne!(b, d);
    assert_ne!(c, d);
}

#[test]
fn demo_path_sits_under_demo_subtree() {
    assert_eq!(
        get_demo_path("cache", "kokoro", "alloy"),
        String::from("cache/demo/kokoro/alloy.mp3")
    );
}
