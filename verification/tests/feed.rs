use feed2podcast::feed::{build_feed_url, rewrite_channel, rewrite_feed, RewriteError};

fn item_with(guid: Option<&str>, description: Option<&str>) -> rss::Item {
    let mut item = rss::Item::default();
    if let Some(g) = guid {
        let mut guid = rss::Guid::default();
        guid.set_value(g);
        item.set_guid(guid);
    }
    item.description = description.map(String::from);
    item.title = description.map(|d| format!("title of {d}"));
    item
}

fn channel_with(items: Vec<rss::Item>) -> rss::Channel {
    let mut ch = rss::Channel::default();
    ch.set_title("t");
    ch.set_link("http://example.com/");
    ch.set_description("d");
    ch.set_items(items);
    ch
}

#[test]
fn rewrite_keeps_items_in_order_with_uid_and_voice() {
    let ch = channel_with(vec![
        item_with(Some("g1"), Some("one")),
        item_with(Some("g2"), Some("two")),
        item_with(Some("g3"), Some("three")),
    ]);
    let (out, urls) = rewrite_channel(
        &ch,
        "http://127.0.0.1:3000",
        "alloy",
        "http://example.com/feed.xml",
        &vec![],
        true,
    )
    .unwrap();
    assert_eq!(out.items().len(), 3);
    assert_eq!(urls.len(), 3);
    for (i, guid) in ["g1", "g2", "g3"].iter().enumerate() {
        let item = &out.items()[i];
        assert_eq!(item.guid.as_ref().unwrap().value, *guid);
        let enclosure = item.enclosure.as_ref().unwrap();
        assert_eq!(enclosure.url, urls[i]);
        assert_eq!(enclosure.mime_type, "audio/mpeg");
        assert!(urls[i].starts_with("http://127.0.0.1:3000/api/content/alloy?"));
        assert!(urls[i].contains(&format!("uid={}", guid)));
    }
    // Every field other than the enclosure is preserved, on the items and on
    // the channel itself.
    assert_eq!(out.items()[0].description.as_deref(), Some("one"));
    assert_eq!(out.items()[0].title.as_deref(), Some("title of one"));
    assert_eq!(out.title(), "t");
    assert_eq!(out.link(), "http://example.com/");
    assert_eq!(out.description(), "d");
}

#[test]
fn rewrite_url_matches_the_url_crate() {
    let ch = channel_with(vec![item_with(Some("g1"), Some("one"))]);
    let (_, urls) = rewrite_channel(
        &ch,
        "http://127.0.0.1:3000",
        "alloy",
        "http://example.com/feed.xml",
        &vec![String::from("span.ad")],
        true,
    )
    .unwrap();
    let expected = url::Url::parse_with_params(
        "http://127.0.0.1:3000/api/content/alloy",
        &[
            ("ignore", "span.ad"),
            ("url", "http://example.com/feed.xml"),
            ("uid", "g1"),
            ("normalize", "true"),
        ],
    )
    .unwrap();
    assert_eq!(urls[0], expected.as_str());
}

#[test]
fn rewrite_fails_on_missing_guid() {
    let ch = channel_with(vec![
        item_with(Some("g1"), Some("one")),
        item_with(None, Some("two")),
    ]);
    let r = rewrite_channel(
        &ch,
        "http://127.0.0.1:3000",
        "alloy",
        "http://example.com/feed.xml",
        &vec![],
        false,
    );
    assert!(matches!(r, Err(RewriteError::MissingGuid)));
}

#[test]
fn rewrite_fails_on_bad_base_url() {
    let ch = channel_with(vec![item_with(Some("g1"), Some("one"))]);
    let r = rewrite_channel(
        &ch,
        "not a base url",
        "alloy",
        "http://example.com/feed.xml",
        &vec![],
        false,
    );
    assert!(matches!(r, Err(RewriteError::BadBaseUrl)));
}

#[test]
fn rewrite_feed_roundtrip_through_xml() {
    let ch = channel_with(vec![
        item_with(Some("g1"), Some("one")),
        item_with(Some("g2"), Some("two")),
    ]);
    let bytes = ch.to_string().into_bytes();
    let (out, urls) = rewrite_feed(
        &bytes,
        "http://127.0.0.1:3000",
        "echo",
        "http://example.com/feed.xml",
        &vec![],
        false,
    )
    .unwrap();
    assert_eq!(urls.len(), 2);
    assert!(urls[1].contains("uid=g2"));
    assert!(urls[1].contains("normalize=false"));
    assert_eq!(out.items()[1].enclosure.as_ref().unwrap().url, urls[1]);
}

#[test]
fn rewrite_feed_rejects_garbage_bytes() {
    let r = rewrite_feed(
        &b"this is not xml".to_vec(),
        "http://127.0.0.1:3000",
        "alloy",
        "http://example.com/feed.xml",
        &vec![],
        true,
    );
    assert!(matches!(r, Err(RewriteError::FeedParse)));
}

#[test]
fn feed_url_builder_matches_the_url_crate() {
    let built = build_feed_url(
        "http://127.0.0.1:3000",
        "alloy",
        "http://example.com/feed.xml",
        &vec![String::from("nav")],
        true,
    )
    .unwrap();
    let expected = url::Url::parse_with_params(
        "http://127.0.0.1:3000/api/feed/alloy",
        &[
            ("ignore", "nav"),
            ("url", "http://example.com/feed.xml"),
            ("normalize", "true"),
        ],
    )
    .unwrap();
    assert_eq!(built, expected.as_str());
    assert_eq!(
        built,
        "http://127.0.0.1:3000/api/feed/alloy?ignore=nav&url=http%3A%2F%2Fexample.com%2Ffeed.xml&normalize=true"
    );
}

#[test]
fn feed_url_builder_rejects_bad_base() {
    let r = build_feed_url("::nope::", "alloy", "http://example.com/feed.xml", &vec![], true);
    assert!(matches!(r, Err(RewriteError::BadBaseUrl)));
}
