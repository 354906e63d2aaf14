//! Derivation of cache paths from feed URLs, article identifiers and voices.
//!
//! A cache entry lives at `<cache_dir>/<feed segment>/<uid segment>/<voice>.mp3`,
//! where each segment comes from [`derive_segment`]: a string that parses as an
//! absolute URL with a host maps to its host followed by its path, a string
//! that is no URL at all is used verbatim, and a URL without a host is
//! rejected. Demo entries live under the reserved `demo` subtree instead.
//!
//! A derived segment may itself contain `/` — a URL's host followed by its
//! path always does — and then spans several directories of the layout. Two
//! triples whose joined renderings coincide therefore share one cache entry
//! (feed segment `x/y` with UID segment `z` meets feed segment `x` with UID
//! segment `y/z`): a collision inherent in the one-directory-per-segment
//! layout, and accepted here. For segments and voices free of the
//! separator, [`lemma_podcast_path_injective`] shows that paths never
//! collide except by genuine string equality of the derived segments.

use vstd::prelude::*;
use vstd::string::StringExecFns;

verus! {

/// Why a cache segment could not be derived from an input string.
#[derive(Clone, Copy, Debug, PartialEq, Eq, Structural)]
pub enum KeyError {
    /// The input parses as an absolute URL, but that URL has no host component.
    MissingHost,
}

/// What `url::Url::parse` makes of a string, reduced to what cache keys need:
/// `None` when the string does not parse as an absolute URL, `Some(None)` when
/// it parses but the URL has no host, and `Some(Some(hp))` when it parses with
/// a host, where `hp` is the host text immediately followed by the path text.
pub uninterp spec fn url_host_path(s: Seq<char>) -> Option<Option<Seq<char>>>;

/// Relies on `url::Url::parse`, `Url::host_str` and `Url::path`: parsing
/// either fails, or yields a URL whose host (when present) and path are
/// plain texts determined by the input alone; the segment name above reads
/// as their concatenation, which the caller performs.
#[verifier::external_body]
fn parse_url_parts(s: &str) -> (r: Option<Option<(String, String)>>)
    ensures
        (r is None) == (url_host_path(s@) is None),
        r matches Some(inner) ==> (inner is None) == (url_host_path(s@) matches Some(None)),
        r matches Some(Some(parts)) ==> url_host_path(s@) == Some(Some(parts.0@ + parts.1@)),
{
    match url::Url::parse(s) {
        Ok(u) => match u.host_str() {
            Some(h) => Some(Some((h.to_owned(), u.path().to_owned()))),
            None => Some(None),
        },
        Err(_) => None,
    }
}

/// The segment derived from one input string: host and path for an absolute
/// URL with a host, the input itself for a non-URL, and an error for a URL
/// without a host.
pub open spec fn segment_spec(s: Seq<char>) -> Result<Seq<char>, KeyError> {
    match url_host_path(s) {
        Option::None => Ok(s),
        Option::Some(Option::None) => Err(KeyError::MissingHost),
        Option::Some(Option::Some(hp)) => Ok(hp),
    }
}

/// Derive a filesystem-safe cache segment from a URL-like string.
///
/// Pure: same input, same segment, and no side effect.
pub fn derive_segment(input: &str) -> (r: Result<String, KeyError>)
    ensures
        (r is Ok) == (segment_spec(input@) is Ok),
        r matches Ok(seg) ==> segment_spec(input@) == Ok::<Seq<char>, KeyError>(seg@),
        r matches Err(e) ==> segment_spec(input@) == Err::<Seq<char>, KeyError>(e),
{
    match parse_url_parts(input) {
        Option::None => Ok(input.to_owned()),
        Option::Some(Option::None) => Err(KeyError::MissingHost),
        Option::Some(Option::Some(parts)) => {
            let (host, path) = parts;
            let mut seg = host;
            seg.append(path.as_str());
            Ok(seg)
        },
    }
}

/// Law: the segment derived from an input is a function of its text alone —
/// for an absolute URL with a host it is the host followed by the path, a
/// non-URL string comes back unchanged, and a URL without a host is rejected.
pub proof fn lemma_derive_segment_cases(s: Seq<char>)
    ensures
        url_host_path(s) matches Some(Some(hp)) ==> segment_spec(s) == Ok::<Seq<char>, KeyError>(
            hp,
        ),
        url_host_path(s) matches Some(inner) && inner is None ==> segment_spec(s) == Err::<
            Seq<char>,
            KeyError,
        >(KeyError::MissingHost),
        url_host_path(s) is None ==> segment_spec(s) == Ok::<Seq<char>, KeyError>(s),
{
}

/// Law: segment derivation is deterministic — two calls on the same input
/// return the same outcome, character for character.
pub proof fn lemma_derive_segment_deterministic(
    s: &str,
    r1: Result<String, KeyError>,
    r2: Result<String, KeyError>,
)
    requires
        call_ensures(derive_segment, (s,), r1),
        call_ensures(derive_segment, (s,), r2),
    ensures
        (r1 is Ok) == (r2 is Ok),
        r1 matches Ok(a) ==> (r2 matches Ok(b) && a@ == b@),
        r1 is Err ==> r1 == r2,
{
}

/// The path of the cache entry for one (feed URL, article UID, voice) triple,
/// given the two derived segments.
pub open spec fn podcast_path_spec(
    cache_dir: Seq<char>,
    feed_seg: Seq<char>,
    uid_seg: Seq<char>,
    voice: Seq<char>,
) -> Seq<char> {
    cache_dir + "/"@ + feed_seg + "/"@ + uid_seg + "/"@ + voice + ".mp3"@
}

proof fn lemma_prefix_cancel(c: Seq<char>, x: Seq<char>, y: Seq<char>)
    requires
        c + x == c + y,
    ensures
        x == y,
{
    assert((c + x).len() == c.len() + x.len());
    assert((c + y).len() == c.len() + y.len());
    assert(x.len() == y.len());
    assert forall|i: int| 0 <= i < x.len() implies x[i] == y[i] by {
        assert((c + x)[c.len() + i] == x[i]);
        assert((c + y)[c.len() + i] == y[i]);
    }
    assert(x =~= y);
}

proof fn lemma_suffix_cancel(x: Seq<char>, y: Seq<char>, e: Seq<char>)
    requires
        x + e == y + e,
    ensures
        x == y,
{
    assert((x + e).len() == x.len() + e.len());
    assert((y + e).len() == y.len() + e.len());
    assert(x.len() == y.len());
    assert forall|i: int| 0 <= i < x.len() implies x[i] == y[i] by {
        assert((x + e)[i] == x[i]);
        assert((y + e)[i] == y[i]);
    }
    assert(x =~= y);
}

proof fn lemma_split_at_separator(a1: Seq<char>, b1: Seq<char>, a2: Seq<char>, b2: Seq<char>)
    requires
        !a1.contains('/'),
        !a2.contains('/'),
        a1 + seq!['/'] + b1 == a2 + seq!['/'] + b2,
    ensures
        a1 == a2,
        b1 == b2,
{
    let s1 = a1 + seq!['/'] + b1;
    let s2 = a2 + seq!['/'] + b2;
    if a1.len() < a2.len() {
        assert(s1[a1.len() as int] == '/');
        assert(s2[a1.len() as int] == a2[a1.len() as int]);
        assert(a2.contains('/'));
        assert(false);
    }
    if a2.len() < a1.len() {
        assert(s2[a2.len() as int] == '/');
        assert(s1[a2.len() as int] == a1[a2.len() as int]);
        assert(a1.contains('/'));
        assert(false);
    }
    assert forall|i: int| 0 <= i < a1.len() implies a1[i] == a2[i] by {
        assert(s1[i] == a1[i]);
        assert(s2[i] == a2[i]);
    }
    assert(a1 =~= a2);
    lemma_prefix_cancel(a1 + seq!['/'], b1, b2);
}

/// Law: cache paths never collide except by genuine string equality of the
/// derived segments and the voice — stated for segments and voices free of
/// the path separator. A derived segment may itself contain `/` (a URL's
/// host followed by its path always does) and then spans several
/// directories; for such inputs two distinct triples can join to one path —
/// feed segment `x/y` with UID segment `z` meets feed segment `x` with UID
/// segment `y/z` — a collision inherent in the one-directory-per-segment
/// layout, which this crate keeps; the law therefore leaves those inputs
/// out.
pub proof fn lemma_podcast_path_injective(
    cache_dir: Seq<char>,
    f1: Seq<char>,
    u1: Seq<char>,
    v1: Seq<char>,
    f2: Seq<char>,
    u2: Seq<char>,
    v2: Seq<char>,
)
    requires
        !f1.contains('/'),
        !u1.contains('/'),
        !v1.contains('/'),
        !f2.contains('/'),
        !u2.contains('/'),
        !v2.contains('/'),
        podcast_path_spec(cache_dir, f1, u1, v1) == podcast_path_spec(cache_dir, f2, u2, v2),
    ensures
        f1 == f2,
        u1 == u2,
        v1 == v2,
{
    reveal_strlit("/");
    assert("/"@ =~= seq!['/']);
    let tail1 = u1 + seq!['/'] + (v1 + ".mp3"@);
    let tail2 = u2 + seq!['/'] + (v2 + ".mp3"@);
    assert(podcast_path_spec(cache_dir, f1, u1, v1) =~= (cache_dir + seq!['/']) + (f1 + seq!['/']
        + tail1));
    assert(podcast_path_spec(cache_dir, f2, u2, v2) =~= (cache_dir + seq!['/']) + (f2 + seq!['/']
        + tail2));
    lemma_prefix_cancel(cache_dir + seq!['/'], f1 + seq!['/'] + tail1, f2 + seq!['/'] + tail2);
    lemma_split_at_separator(f1, tail1, f2, tail2);
    lemma_split_at_separator(u1, v1 + ".mp3"@, u2, v2 + ".mp3"@);
    lemma_suffix_cancel(v1, v2, ".mp3"@);
}

/// Law: two successful path derivations under one cache root yield equal
/// paths only by genuine equality — equal paths force equal derived
/// segments and an equal voice — whenever the derived segments and the
/// voices are free of the path separator.
pub proof fn lemma_get_podcast_path_no_collision(
    cache_dir: &str,
    url1: &str,
    uid1: &str,
    voice1: &str,
    url2: &str,
    uid2: &str,
    voice2: &str,
    r1: Result<String, KeyError>,
    r2: Result<String, KeyError>,
)
    requires
        call_ensures(get_podcast_path, (cache_dir, url1, uid1, voice1), r1),
        call_ensures(get_podcast_path, (cache_dir, url2, uid2, voice2), r2),
        r1 is Ok,
        r2 is Ok,
        r1->Ok_0@ == r2->Ok_0@,
        !segment_spec(url1@)->Ok_0.contains('/'),
        !segment_spec(uid1@)->Ok_0.contains('/'),
        !voice1@.contains('/'),
        !segment_spec(url2@)->Ok_0.contains('/'),
        !segment_spec(uid2@)->Ok_0.contains('/'),
        !voice2@.contains('/'),
    ensures
        segment_spec(url1@) == segment_spec(url2@),
        segment_spec(uid1@) == segment_spec(uid2@),
        voice1@ == voice2@,
{
    lemma_podcast_path_injective(
        cache_dir@,
        segment_spec(url1@)->Ok_0,
        segment_spec(uid1@)->Ok_0,
        voice1@,
        segment_spec(url2@)->Ok_0,
        segment_spec(uid2@)->Ok_0,
        voice2@,
    );
}

/// Derive the cache path for a podcast episode.
///
/// The feed URL segment is derived first, so when both inputs are rejected the
/// error reported is the feed URL's. Creating the directory chain is left to
/// the caller: this function only computes the path.
///
/// A segment containing `/` spans several directories, so two triples whose
/// joined renderings coincide share one entry (see the module notes);
/// [`lemma_get_podcast_path_no_collision`] rules collisions out for
/// separator-free segments and voices.
pub fn get_podcast_path(cache_dir: &str, url: &str, uid: &str, voice: &str) -> (r: Result<
    String,
    KeyError,
>)
    ensures
        (r is Ok) == (segment_spec(url@) is Ok && segment_spec(uid@) is Ok),
        r matches Ok(p) ==> p@ == podcast_path_spec(
            cache_dir@,
            segment_spec(url@)->Ok_0,
            segment_spec(uid@)->Ok_0,
            voice@,
        ),
        r matches Err(e) ==> if segment_spec(url@) is Err {
            e == segment_spec(url@)->Err_0
        } else {
            segment_spec(uid@) matches Err(e2) && e == e2
        },
{
    let feed_seg = match derive_segment(url) {
        Ok(s) => s,
        Err(e) => {
            return Err(e);
        },
    };
    let uid_seg = match derive_segment(uid) {
        Ok(s) => s,
        Err(e) => {
            return Err(e);
        },
    };
    let mut p = String::new();
    p.append(cache_dir);
    p.append("/");
    p.append(feed_seg.as_str());
    p.append("/");
    p.append(uid_seg.as_str());
    p.append("/");
    p.append(voice);
    p.append(".mp3");
    proof {
        assert(p@ =~= podcast_path_spec(cache_dir@, feed_seg@, uid_seg@, voice@));
    }
    Ok(p)
}

/// The path of the demo entry for one (model, voice) pair, under the reserved
/// `demo` subtree that retention sweeps never touch.
pub open spec fn demo_path_spec(cache_dir: Seq<char>, model: Seq<char>, voice: Seq<char>) -> Seq<
    char,
> {
    cache_dir + "/demo/"@ + model + "/"@ + voice + ".mp3"@
}

/// Derive the cache path for a voice demo sample.
///
/// The model and voice names are used verbatim; the entry sits under the
/// `demo` subtree, which both retention sweeps leave alone.
pub fn get_demo_path(cache_dir: &str, model: &str, voice: &str) -> (r: String)
    ensures
        r@ == demo_path_spec(cache_dir@, model@, voice@),
{
    let mut p = String::new();
    p.append(cache_dir);
    p.append("/demo/");
    p.append(model);
    p.append("/");
    p.append(voice);
    p.append(".mp3");
    proof {
        assert(p@ =~= demo_path_spec(cache_dir@, model@, voice@));
    }
    p
}

} // verus!
