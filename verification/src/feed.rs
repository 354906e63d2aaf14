//! Rewriting of a feed toward the audio endpoint.
//!
//! Every item of the source feed must carry a GUID — the strict policy: one
//! missing GUID fails the whole rewrite rather than skipping the item, so a
//! rewritten feed never silently drops articles. Each item's enclosure is
//! replaced by a URL at
//! `<base>/api/content/<voice>` whose query encodes the ignore selectors,
//! the original feed URL, the item's GUID and the normalize toggle, with
//! MIME type `audio/mpeg`; every other item field is preserved, and item
//! order is kept.

use vstd::prelude::*;
use vstd::string::StringExecFns;
use crate::extract::{opt_str_views, str_views};
use crate::keys::url_host_path;

verus! {

/// Why a feed could not be rewritten.
#[derive(Clone, Copy, Debug, PartialEq, Eq, Structural)]
pub enum RewriteError {
    /// The bytes do not parse as an RSS channel.
    FeedParse,
    /// Some item of the feed has no GUID.
    MissingGuid,
    /// The public base URL does not parse as an absolute URL.
    BadBaseUrl,
}

#[verifier::external_type_specification]
#[verifier::external_body]
pub struct ExChannel(rss::Channel);

/// The GUID of each item of the channel, in feed order.
pub uninterp spec fn channel_guids(ch: rss::Channel) -> Seq<Option<Seq<char>>>;

/// The description of each item of the channel, in feed order.
pub uninterp spec fn channel_descs(ch: rss::Channel) -> Seq<Option<Seq<char>>>;

/// The enclosure of each item of the channel, in feed order: its URL and its
/// MIME type, when the item has one.
pub uninterp spec fn channel_enclosures(ch: rss::Channel) -> Seq<Option<(Seq<char>, Seq<char>)>>;

/// A reading of everything in the channel except the items' enclosures: the
/// channel-level fields and, per item, every field but the enclosure. Two
/// channels that differ only in their items' enclosures read equal.
pub uninterp spec fn channel_except_enclosures(ch: rss::Channel) -> Seq<Seq<char>>;

/// Whether `rss::Channel::read_from` accepts these bytes: a function of the
/// bytes alone.
pub uninterp spec fn channel_parses(bytes: Seq<u8>) -> bool;

/// The GUID of each item of the channel parsed from these bytes, in feed
/// order: a function of the bytes alone.
pub uninterp spec fn guids_of(bytes: Seq<u8>) -> Seq<Option<Seq<char>>>;

/// The description of each item of the channel parsed from these bytes, in
/// feed order: a function of the bytes alone.
pub uninterp spec fn descs_of(bytes: Seq<u8>) -> Seq<Option<Seq<char>>>;

/// The reading of everything except the items' enclosures of the channel
/// parsed from these bytes: a function of the bytes alone.
pub uninterp spec fn except_enclosures_of(bytes: Seq<u8>) -> Seq<Seq<char>>;

/// Relies on `rss::Channel::read_from`: whether bytes parse as a channel,
/// and every field of the parsed channel, are functions of the bytes alone;
/// a channel has one GUID slot and one description slot per item.
#[verifier::external_body]
pub(crate) fn parse_channel(bytes: &Vec<u8>) -> (r: Option<rss::Channel>)
    ensures
        (r is Some) == channel_parses(bytes@),
        r matches Some(ch) ==> {
            &&& channel_guids(ch) == guids_of(bytes@)
            &&& channel_descs(ch) == descs_of(bytes@)
            &&& channel_except_enclosures(ch) == except_enclosures_of(bytes@)
            &&& channel_guids(ch).len() == channel_descs(ch).len()
        },
{
    match rss::Channel::read_from(&bytes[..]) {
        Ok(ch) => Some(ch),
        Err(_) => None,
    }
}

/// Relies on `rss::Channel::items`, `rss::Item::guid` and
/// `rss::Item::description`: each item's GUID value and description, in feed
/// order.
#[verifier::external_body]
pub(crate) fn channel_item_fields(ch: &rss::Channel) -> (r: (
    Vec<Option<String>>,
    Vec<Option<String>>,
))
    ensures
        opt_str_views(r.0@) == channel_guids(*ch),
        opt_str_views(r.1@) == channel_descs(*ch),
{
    let mut guids: Vec<Option<String>> = Vec::new();
    let mut descs: Vec<Option<String>> = Vec::new();
    for item in ch.items() {
        guids.push(item.guid.clone().map(|g| g.value));
        descs.push(item.description.clone());
    }
    (guids, descs)
}

/// Relies on `rss::Item::set_enclosure`, `rss::Enclosure::set_url` and
/// `rss::Enclosure::set_mime_type`: setting an item's enclosure installs
/// exactly the given URL and MIME type there and touches nothing else, so
/// every other item field, the item order, and the channel's own fields stay
/// unchanged.
#[verifier::external_body]
fn with_enclosures(ch: &rss::Channel, urls: &Vec<String>, mime: &str) -> (out: rss::Channel)
    requires
        urls@.len() == channel_guids(*ch).len(),
    ensures
        channel_guids(out) == channel_guids(*ch),
        channel_descs(out) == channel_descs(*ch),
        channel_except_enclosures(out) == channel_except_enclosures(*ch),
        channel_enclosures(out).len() == urls@.len(),
        forall|i: int|
            #![trigger channel_enclosures(out)[i]]
            0 <= i < urls@.len() ==> channel_enclosures(out)[i] == Some((urls@[i]@, mime@)),
{
    let mut out = ch.clone();
    for (i, item) in out.items_mut().iter_mut().enumerate() {
        let mut enclosure = rss::Enclosure::default();
        enclosure.set_url(urls[i].as_str());
        enclosure.set_mime_type(mime);
        item.set_enclosure(enclosure);
    }
    out
}

/// The views of a vector of query parameter pairs.
pub open spec fn pair_views(v: Seq<(String, String)>) -> Seq<(Seq<char>, Seq<char>)> {
    v.map_values(|p: (String, String)| (p.0@, p.1@))
}

/// The URL that `url::Url::parse_with_params` builds from a base and query
/// parameter pairs: a function of those texts alone.
pub uninterp spec fn url_with_params(base: Seq<char>, params: Seq<(Seq<char>, Seq<char>)>) -> Seq<
    char,
>;

/// Relies on `url::Url::parse_with_params`: it fails exactly when the base
/// does not parse as an absolute URL — the same parse as `url::Url::parse` —
/// and otherwise appends the pairs to the query, a function of the texts
/// alone.
#[verifier::external_body]
fn build_url_with_params(base: &str, params: &Vec<(String, String)>) -> (r: Option<String>)
    ensures
        (r is Some) == (url_host_path(base@) is Some),
        r matches Some(u) ==> u@ == url_with_params(base@, pair_views(params@)),
{
    match url::Url::parse_with_params(base, params.iter()) {
        Ok(u) => Some(u.as_str().to_owned()),
        Err(_) => None,
    }
}

/// The base of every rewritten enclosure URL: the content endpoint at the
/// requested voice.
pub open spec fn content_base_spec(base: Seq<char>, voice: Seq<char>) -> Seq<char> {
    base + "/api/content/"@ + voice
}

/// The base of a generated feed URL: the feed endpoint at the requested
/// voice.
pub open spec fn feed_base_spec(base: Seq<char>, voice: Seq<char>) -> Seq<char> {
    base + "/api/feed/"@ + voice
}

/// The query pairs of a rewritten enclosure URL: one `ignore` pair per
/// selector, then the original feed URL, the item's GUID and the normalize
/// toggle.
pub open spec fn rewrite_params(
    ignore: Seq<Seq<char>>,
    feed_url: Seq<char>,
    uid: Seq<char>,
    normalize: bool,
) -> Seq<(Seq<char>, Seq<char>)> {
    ignore.map_values(|s: Seq<char>| ("ignore"@, s)) + seq![
        ("url"@, feed_url),
        ("uid"@, uid),
        ("normalize"@, if normalize { "true"@ } else { "false"@ }),
    ]
}

/// The query pairs of a generated feed URL: one `ignore` pair per selector,
/// then the feed URL and the normalize toggle.
pub open spec fn feed_params(ignore: Seq<Seq<char>>, feed_url: Seq<char>, normalize: bool) -> Seq<
    (Seq<char>, Seq<char>),
> {
    ignore.map_values(|s: Seq<char>| ("ignore"@, s)) + seq![
        ("url"@, feed_url),
        ("normalize"@, if normalize { "true"@ } else { "false"@ }),
    ]
}

/// Build the query pairs shared by both endpoints: the `ignore` pairs, then
/// `url`, then — when one is given — `uid`, then `normalize`.
fn build_params(
    feed_url: &str,
    uid: Option<&String>,
    ignore: &Vec<String>,
    normalize: bool,
) -> (r: Vec<(String, String)>)
    ensures
        uid matches Some(u) ==> pair_views(r@) == rewrite_params(
            str_views(ignore@),
            feed_url@,
            u@,
            normalize,
        ),
        uid is None ==> pair_views(r@) == feed_params(str_views(ignore@), feed_url@, normalize),
{
    let mut r: Vec<(String, String)> = Vec::new();
    let mut i: usize = 0;
    while i < ignore.len()
        invariant
            i <= ignore@.len(),
            r@.len() == i,
            forall|k: int|
                #![trigger r@[k]]
                0 <= k < i ==> r@[k].0@ == "ignore"@ && r@[k].1@ == ignore@[k]@,
        decreases ignore@.len() - i,
    {
        r.push((String::from_str("ignore"), ignore[i].clone()));
        i += 1;
    }
    r.push((String::from_str("url"), feed_url.to_owned()));
    if let Option::Some(u) = uid {
        r.push((String::from_str("uid"), u.clone()));
    }
    r.push(
        (
            String::from_str("normalize"),
            if normalize {
                String::from_str("true")
            } else {
                String::from_str("false")
            },
        ),
    );
    proof {
        if uid is Some {
            assert(pair_views(r@) =~= rewrite_params(
                str_views(ignore@),
                feed_url@,
                uid->0@,
                normalize,
            ));
        } else {
            assert(pair_views(r@) =~= feed_params(str_views(ignore@), feed_url@, normalize));
        }
    }
    r
}

/// Build the feed endpoint URL for the given source feed and options: the
/// convenience helper behind the feed-URL builder route.
pub fn build_feed_url(base: &str, voice: &str, url: &str, ignore: &Vec<String>, normalize: bool)
    -> (r: Result<String, RewriteError>)
    ensures
        (r is Ok) == (url_host_path(feed_base_spec(base@, voice@)) is Some),
        r matches Ok(u) ==> u@ == url_with_params(
            feed_base_spec(base@, voice@),
            feed_params(str_views(ignore@), url@, normalize),
        ),
        r matches Err(e) ==> e == RewriteError::BadBaseUrl,
{
    let mut fb = String::new();
    fb.append(base);
    fb.append("/api/feed/");
    fb.append(voice);
    proof {
        assert(fb@ =~= feed_base_spec(base@, voice@));
    }
    let params = build_params(url, Option::None, ignore, normalize);
    match build_url_with_params(fb.as_str(), &params) {
        Option::Some(u) => Ok(u),
        Option::None => Err(RewriteError::BadBaseUrl),
    }
}

/// Whether every item carries a GUID.
pub open spec fn all_guids_present(guids: Seq<Option<Seq<char>>>) -> bool {
    forall|i: int| 0 <= i < guids.len() ==> guids[i] is Some
}

/// Rewrite every item of a channel toward the content endpoint.
///
/// Succeeds exactly when every item carries a GUID and — unless the feed is
/// empty — the content endpoint base parses as an absolute URL. On success
/// the result pairs the rewritten channel with each item's new enclosure
/// URL, index-aligned: everything but the enclosures is preserved in order,
/// and item `i`'s enclosure becomes the `i`th URL with MIME type
/// `audio/mpeg`. One item without a GUID fails the whole rewrite: the strict
/// policy.
pub fn rewrite_channel(
    ch: &rss::Channel,
    base: &str,
    voice: &str,
    feed_url: &str,
    ignore: &Vec<String>,
    normalize: bool,
) -> (r: Result<(rss::Channel, Vec<String>), RewriteError>)
    ensures
        (r is Ok) == (all_guids_present(channel_guids(*ch)) && (channel_guids(*ch).len() == 0
            || url_host_path(content_base_spec(base@, voice@)) is Some)),
        r matches Ok(pair) ==> {
            &&& channel_guids(pair.0) == channel_guids(*ch)
            &&& channel_descs(pair.0) == channel_descs(*ch)
            &&& channel_except_enclosures(pair.0) == channel_except_enclosures(*ch)
            &&& pair.1@.len() == channel_guids(*ch).len()
            &&& channel_enclosures(pair.0).len() == channel_guids(*ch).len()
            &&& forall|i: int|
                #![trigger pair.1@[i]]
                0 <= i < pair.1@.len() ==> pair.1@[i]@ == url_with_params(
                    content_base_spec(base@, voice@),
                    rewrite_params(
                        str_views(ignore@),
                        feed_url@,
                        channel_guids(*ch)[i]->0,
                        normalize,
                    ),
                )
            &&& forall|i: int|
                #![trigger channel_enclosures(pair.0)[i]]
                0 <= i < pair.1@.len() ==> channel_enclosures(pair.0)[i] == Some(
                    (pair.1@[i]@, "audio/mpeg"@),
                )
        },
        (r == Err::<(rss::Channel, Vec<String>), RewriteError>(RewriteError::MissingGuid)) == (
        !all_guids_present(channel_guids(*ch)) && (url_host_path(content_base_spec(base@, voice@))
            is Some || channel_guids(*ch)[0] is None)),
        (r == Err::<(rss::Channel, Vec<String>), RewriteError>(RewriteError::BadBaseUrl)) == (
        channel_guids(*ch).len() > 0 && channel_guids(*ch)[0] is Some && !(url_host_path(
            content_base_spec(base@, voice@),
        ) is Some)),
{
    let ghost gv = channel_guids(*ch);
    let (guids, _descs) = channel_item_fields(ch);
    let mut cb = String::new();
    cb.append(base);
    cb.append("/api/content/");
    cb.append(voice);
    proof {
        assert(cb@ =~= content_base_spec(base@, voice@));
    }
    let n = guids.len();
    let mut urls: Vec<String> = Vec::new();
    let mut i: usize = 0;
    while i < n
        invariant
            gv == channel_guids(*ch),
            gv == opt_str_views(guids@),
            n == guids@.len(),
            gv.len() == n,
            cb@ == content_base_spec(base@, voice@),
            i <= n,
            urls@.len() == i,
            i > 0 ==> url_host_path(content_base_spec(base@, voice@)) is Some,
            forall|k: int| 0 <= k < i ==> #[trigger] gv[k] is Some,
            forall|k: int|
                #![trigger urls@[k]]
                0 <= k < i ==> urls@[k]@ == url_with_params(
                    content_base_spec(base@, voice@),
                    rewrite_params(str_views(ignore@), feed_url@, gv[k]->0, normalize),
                ),
        decreases n - i,
    {
        let uid = match &guids[i] {
            Option::Some(u) => u,
            Option::None => {
                proof {
                    assert(gv[i as int] is None);
                    assert(!all_guids_present(gv));
                }
                return Err(RewriteError::MissingGuid);
            },
        };
        proof {
            assert(gv[i as int] is Some);
        }
        let params = build_params(feed_url, Option::Some(uid), ignore, normalize);
        match build_url_with_params(cb.as_str(), &params) {
            Option::Some(u) => {
                urls.push(u);
            },
            Option::None => {
                proof {
                    assert(gv[0] is Some);
                }
                return Err(RewriteError::BadBaseUrl);
            },
        }
        i += 1;
    }
    let out = with_enclosures(ch, &urls, "audio/mpeg");
    Ok((out, urls))
}

/// Parse feed bytes and rewrite every item toward the content endpoint.
///
/// Succeeds exactly when the bytes parse as an RSS channel, every item
/// carries a GUID, and — unless the feed is empty — the content endpoint
/// base parses as an absolute URL. On success, everything but the
/// enclosures is preserved in order, and item `i`'s enclosure becomes the
/// `i`th returned URL — built from the content endpoint base and that
/// item's own GUID — with MIME type `audio/mpeg`. Fails with `FeedParse`
/// exactly when the bytes are not an RSS channel, and otherwise exactly as
/// the channel rewrite does.
pub fn rewrite_feed(
    bytes: &Vec<u8>,
    base: &str,
    voice: &str,
    feed_url: &str,
    ignore: &Vec<String>,
    normalize: bool,
) -> (r: Result<(rss::Channel, Vec<String>), RewriteError>)
    ensures
        (r is Ok) == (channel_parses(bytes@) && all_guids_present(guids_of(bytes@)) && (guids_of(
            bytes@,
        ).len() == 0 || url_host_path(content_base_spec(base@, voice@)) is Some)),
        (r == Err::<(rss::Channel, Vec<String>), RewriteError>(RewriteError::FeedParse))
            == !channel_parses(bytes@),
        (r == Err::<(rss::Channel, Vec<String>), RewriteError>(RewriteError::MissingGuid)) == (
        channel_parses(bytes@) && !all_guids_present(guids_of(bytes@)) && (url_host_path(
            content_base_spec(base@, voice@),
        ) is Some || guids_of(bytes@)[0] is None)),
        (r == Err::<(rss::Channel, Vec<String>), RewriteError>(RewriteError::BadBaseUrl)) == (
        channel_parses(bytes@) && guids_of(bytes@).len() > 0 && guids_of(bytes@)[0] is Some && !(
        url_host_path(content_base_spec(base@, voice@)) is Some)),
        r matches Ok(pair) ==> {
            &&& channel_guids(pair.0) == guids_of(bytes@)
            &&& channel_descs(pair.0) == descs_of(bytes@)
            &&& channel_except_enclosures(pair.0) == except_enclosures_of(bytes@)
            &&& pair.1@.len() == guids_of(bytes@).len()
            &&& channel_enclosures(pair.0).len() == guids_of(bytes@).len()
            &&& forall|i: int|
                #![trigger pair.1@[i]]
                0 <= i < pair.1@.len() ==> pair.1@[i]@ == url_with_params(
                    content_base_spec(base@, voice@),
                    rewrite_params(str_views(ignore@), feed_url@, guids_of(bytes@)[i]->0, normalize),
                )
            &&& forall|i: int|
                #![trigger channel_enclosures(pair.0)[i]]
                0 <= i < pair.1@.len() ==> channel_enclosures(pair.0)[i] == Some(
                    (pair.1@[i]@, "audio/mpeg"@),
                )
        },
{
    let ch = match parse_channel(bytes) {
        Option::Some(ch) => ch,
        Option::None => {
            return Err(RewriteError::FeedParse);
        },
    };
    let r = rewrite_channel(&ch, base, voice, feed_url, ignore, normalize);
    proof {
        let gs = channel_guids(ch);
        let base_ok = url_host_path(content_base_spec(base@, voice@)) is Some;
        if !all_guids_present(gs) {
            let j = choose|j: int| 0 <= j < gs.len() && !(gs[j] is Some);
            assert(gs.len() > 0);
            if !(base_ok || gs[0] is None) {
                assert(r == Err::<(rss::Channel, Vec<String>), RewriteError>(
                    RewriteError::BadBaseUrl,
                ));
            }
        }
    }
    r
}

/// Law: a feed whose bytes parse to items that all carry GUIDs rewrites —
/// provided the content endpoint base, the service's base URL at the
/// requested voice, parses as an absolute URL — to a channel with exactly
/// those items in the same order: GUIDs, descriptions and every field but
/// the enclosures preserved, and item `i`'s enclosure set to the content
/// endpoint URL carrying `("uid", that item's own GUID)` among its query
/// pairs, with MIME type `audio/mpeg`.
pub proof fn lemma_rewrite_feed_rewrites_items(
    bytes: &Vec<u8>,
    base: &str,
    voice: &str,
    feed_url: &str,
    ignore: &Vec<String>,
    normalize: bool,
    r: Result<(rss::Channel, Vec<String>), RewriteError>,
)
    requires
        call_ensures(rewrite_feed, (bytes, base, voice, feed_url, ignore, normalize), r),
        channel_parses(bytes@),
        all_guids_present(guids_of(bytes@)),
        url_host_path(content_base_spec(base@, voice@)) is Some,
    ensures
        r is Ok,
        channel_guids(r->Ok_0.0) == guids_of(bytes@),
        channel_descs(r->Ok_0.0) == descs_of(bytes@),
        channel_except_enclosures(r->Ok_0.0) == except_enclosures_of(bytes@),
        channel_enclosures(r->Ok_0.0).len() == guids_of(bytes@).len(),
        forall|i: int|
            #![trigger channel_enclosures(r->Ok_0.0)[i]]
            0 <= i < guids_of(bytes@).len() ==> channel_enclosures(r->Ok_0.0)[i] == Some(
                (
                    url_with_params(
                        content_base_spec(base@, voice@),
                        rewrite_params(
                            str_views(ignore@),
                            feed_url@,
                            guids_of(bytes@)[i]->0,
                            normalize,
                        ),
                    ),
                    "audio/mpeg"@,
                ),
            ),
{
    let pair = r->Ok_0;
    assert forall|i: int| 0 <= i < guids_of(bytes@).len() implies channel_enclosures(pair.0)[i]
        == Some(
        (
            url_with_params(
                content_base_spec(base@, voice@),
                rewrite_params(str_views(ignore@), feed_url@, guids_of(bytes@)[i]->0, normalize),
            ),
            "audio/mpeg"@,
        ),
    ) by {
        assert(pair.1@[i]@ == url_with_params(
            content_base_spec(base@, voice@),
            rewrite_params(str_views(ignore@), feed_url@, guids_of(bytes@)[i]->0, normalize),
        ));
        assert(channel_enclosures(pair.0)[i] == Some((pair.1@[i]@, "audio/mpeg"@)));
    }
}

/// Law: among the query pairs of a rewritten enclosure URL, the pair right
/// after the ignore pairs and the feed URL is `uid` with that item's own
/// GUID, and the toggle pair follows it — so every rewritten item points at
/// the content endpoint under its own identifier.
pub proof fn lemma_rewrite_uid_pair(
    ignore: Seq<Seq<char>>,
    feed_url: Seq<char>,
    uid: Seq<char>,
    normalize: bool,
)
    ensures
        rewrite_params(ignore, feed_url, uid, normalize).len() == ignore.len() + 3,
        rewrite_params(ignore, feed_url, uid, normalize)[ignore.len() as int + 1] == ("uid"@, uid),
        rewrite_params(ignore, feed_url, uid, normalize)[ignore.len() as int] == ("url"@, feed_url),
        rewrite_params(ignore, feed_url, uid, normalize)[ignore.len() as int + 2] == ("normalize"@,
        if normalize {
            "true"@
        } else {
            "false"@
        }),
{
}

} // verus!
