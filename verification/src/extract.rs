//! Extraction of TTS-ready text from article content.
//!
//! Two shapes are supported. For an article taken out of a feed, the
//! description is parsed as HTML and the text of all its text nodes is
//! concatenated in document order. For a raw HTML document, the text of every
//! element matching a body selector is joined by newlines, skipping elements
//! whose trimmed text is empty. In both shapes the trimmed text of every
//! element matching an ignore selector is then removed from the accumulated
//! text by plain substring removal — not by DOM-level exclusion, so repeated
//! or overlapping text may be imperfectly removed; that looseness is part of
//! the contract, not to be strengthened silently. For the feed shape, the
//! ignore list implicitly ends with `style` and `script`.

use vstd::prelude::*;
use vstd::string::StringExecFns;
use crate::text::{
    chars_to_string, remove_all, remove_all_spec, str_to_chars, trim_chars, trim_spec,
};

verus! {

/// Why no text could be extracted.
#[derive(Clone, Debug, PartialEq, Eq)]
pub enum ExtractError {
    /// No feed item carries the requested GUID.
    NotFound,
    /// The matching feed item has no description.
    NoContent,
    /// This ignore or body selector is not valid CSS selector syntax.
    InvalidSelector(String),
}

/// The views of a vector of strings.
pub open spec fn str_views(v: Seq<String>) -> Seq<Seq<char>> {
    v.map_values(|s: String| s@)
}

/// The views of a vector of optional strings.
pub open spec fn opt_str_views(v: Seq<Option<String>>) -> Seq<Option<Seq<char>>> {
    v.map_values(
        |o: Option<String>|
            match o {
                Option::Some(s) => Option::Some(s@),
                Option::None => Option::None,
            },
    )
}

/// The concatenated text of all text nodes of the HTML document parsed from
/// `html`, in document order: a function of the text alone.
pub uninterp spec fn html_full_text(html: Seq<char>) -> Seq<char>;

/// Relies on `scraper::Html::parse_document` and `ElementRef::text`: parsing
/// is deterministic, and the collected text of the root element is the text
/// of all text nodes in document order.
#[verifier::external_body]
fn document_full_text(html: &str) -> (r: String)
    ensures
        r@ == html_full_text(html@),
{
    scraper::Html::parse_document(html).root_element().text().collect::<String>()
}

/// Whether `scraper::Selector::parse` accepts `sel`: a function of the
/// selector text alone.
pub uninterp spec fn selector_valid(sel: Seq<char>) -> bool;

/// Relies on `scraper::Selector::parse`: whether a selector parses depends on
/// its text alone.
#[verifier::external_body]
fn check_selector(sel: &str) -> (r: bool)
    ensures
        r == selector_valid(sel@),
{
    scraper::Selector::parse(sel).is_ok()
}

/// The text of each element of the document parsed from `html` that matches
/// the selector `sel`, in document order: a function of the two texts alone.
pub uninterp spec fn selected_texts(html: Seq<char>, sel: Seq<char>) -> Seq<Seq<char>>;

/// Relies on `scraper::Selector::parse`, `Html::parse_document`, `Html::select`
/// and `ElementRef::text`: for a selector that parses, selection yields the
/// matching elements in document order, each with its concatenated text.
#[verifier::external_body]
fn texts_matching(html: &str, sel: &str) -> (r: Vec<String>)
    requires
        selector_valid(sel@),
    ensures
        str_views(r@) == selected_texts(html@, sel@),
{
    let selector = scraper::Selector::parse(sel).unwrap();
    let doc = scraper::Html::parse_document(html);
    let mut out: Vec<String> = Vec::new();
    for el in doc.select(&selector) {
        out.push(el.text().collect::<String>());
    }
    out
}

/// `base` after removing, in order, the trimmed text of each entry of `texts`.
pub open spec fn strip_texts(base: Seq<char>, texts: Seq<Seq<char>>) -> Seq<char>
    decreases texts.len(),
{
    if texts.len() == 0 {
        base
    } else {
        strip_texts(remove_all_spec(base, trim_spec(texts[0])), texts.drop_first())
    }
}

/// `base` after removing, selector by selector, the trimmed texts of the
/// elements of `html` that each selector of `sels` matches.
pub open spec fn strip_selectors(base: Seq<char>, html: Seq<char>, sels: Seq<Seq<char>>) -> Seq<
    char,
>
    decreases sels.len(),
{
    if sels.len() == 0 {
        base
    } else {
        strip_selectors(strip_texts(base, selected_texts(html, sels[0])), html, sels.drop_first())
    }
}

/// Whether every selector of the list parses.
pub open spec fn all_valid(sels: Seq<Seq<char>>) -> bool {
    forall|i: int| 0 <= i < sels.len() ==> selector_valid(#[trigger] sels[i])
}

/// Whether `bad` is the first selector of the list that does not parse.
pub open spec fn first_invalid_is(sels: Seq<Seq<char>>, bad: Seq<char>) -> bool {
    exists|i: int|
        #![trigger sels[i]]
        0 <= i < sels.len() && !selector_valid(sels[i]) && bad == sels[i] && (forall|k: int|
            0 <= k < i ==> selector_valid(#[trigger] sels[k]))
}

/// Remove from `chars` the trimmed text of every element of `article_html`
/// matched by each selector of `sels`, in list order, failing on the first
/// selector that does not parse.
fn strip_ignored(chars: Vec<char>, article_html: &str, sels: &Vec<String>) -> (r: Result<
    Vec<char>,
    ExtractError,
>)
    ensures
        (r is Ok) == all_valid(str_views(sels@)),
        r matches Ok(c) ==> c@ == strip_selectors(chars@, article_html@, str_views(sels@)),
        r matches Err(e) ==> (e matches ExtractError::InvalidSelector(bad) && first_invalid_is(
            str_views(sels@),
            bad@,
        )),
{
    let ghost gsels = str_views(sels@);
    let ghost base0 = chars@;
    let mut cur = chars;
    let mut si: usize = 0;
    proof {
        assert(gsels.skip(0) =~= gsels);
    }
    while si < sels.len()
        invariant
            gsels == str_views(sels@),
            gsels.len() == sels@.len(),
            si <= sels@.len(),
            forall|k: int| 0 <= k < si ==> selector_valid(#[trigger] gsels[k]),
            strip_selectors(base0, article_html@, gsels) == strip_selectors(
                cur@,
                article_html@,
                gsels.skip(si as int),
            ),
        decreases sels@.len() - si,
    {
        let sel = &sels[si];
        proof {
            assert(gsels[si as int] == sel@);
        }
        if !check_selector(sel.as_str()) {
            proof {
                assert(!selector_valid(gsels[si as int]));
            }
            return Err(ExtractError::InvalidSelector(sel.clone()));
        }
        let ts = texts_matching(article_html, sel.as_str());
        let ghost gts = selected_texts(article_html@, gsels[si as int]);
        let ghost at_sel = cur@;
        let mut ti: usize = 0;
        proof {
            assert(gts.skip(0) =~= gts);
        }
        while ti < ts.len()
            invariant
                gts == str_views(ts@),
                gts.len() == ts@.len(),
                ti <= ts@.len(),
                strip_texts(at_sel, gts) == strip_texts(cur@, gts.skip(ti as int)),
            decreases ts@.len() - ti,
        {
            let tc = str_to_chars(ts[ti].as_str());
            let trimmed = trim_chars(&tc);
            proof {
                assert(gts.skip(ti as int)[0] == gts[ti as int]);
                assert(gts.skip(ti as int).drop_first() =~= gts.skip(ti + 1));
            }
            cur = remove_all(&cur, &trimmed);
            ti += 1;
        }
        proof {
            assert(gts.skip(ts@.len() as int) =~= Seq::<Seq<char>>::empty());
            assert(cur@ == strip_texts(at_sel, gts));
            assert(gsels.skip(si as int)[0] == gsels[si as int]);
            assert(gsels.skip(si as int).drop_first() =~= gsels.skip(si + 1));
        }
        si += 1;
    }
    proof {
        assert(gsels.skip(sels@.len() as int) =~= Seq::<Seq<char>>::empty());
    }
    Ok(cur)
}

/// Extract TTS-ready text from a feed article's description.
///
/// The description is parsed as an HTML document and the text of all its
/// text nodes is concatenated in document order; then the trimmed text of
/// every element matching each ignore selector — the caller's list followed
/// by the implicit `style` and `script` — is removed from that text by
/// substring removal. Fails with the first ignore selector that is not valid
/// CSS selector syntax, and only then.
pub fn extract_text(article_html: &str, ignore: &Vec<String>) -> (r: Result<String, ExtractError>)
    ensures
        (r is Ok) == all_valid(str_views(ignore@) + seq!["style"@, "script"@]),
        r matches Ok(t) ==> t@ == strip_selectors(
            html_full_text(article_html@),
            article_html@,
            str_views(ignore@) + seq!["style"@, "script"@],
        ),
        r matches Err(e) ==> (e matches ExtractError::InvalidSelector(bad) && first_invalid_is(
            str_views(ignore@) + seq!["style"@, "script"@],
            bad@,
        )),
{
    let base = document_full_text(article_html);
    let chars = str_to_chars(base.as_str());
    let mut sels: Vec<String> = Vec::new();
    let mut qi: usize = 0;
    while qi < ignore.len()
        invariant
            qi <= ignore@.len(),
            sels@.len() == qi,
            forall|k: int| 0 <= k < qi ==> #[trigger] sels@[k]@ == ignore@[k]@,
        decreases ignore@.len() - qi,
    {
        sels.push(ignore[qi].clone());
        qi += 1;
    }
    sels.push(String::from_str("style"));
    sels.push(String::from_str("script"));
    proof {
        assert(str_views(sels@) =~= str_views(ignore@) + seq!["style"@, "script"@]);
    }
    match strip_ignored(chars, article_html, &sels) {
        Ok(c) => Ok(chars_to_string(&c)),
        Err(e) => Err(e),
    }
}

/// Whether some entry of `texts` still has text once trimmed.
pub open spec fn any_kept(texts: Seq<Seq<char>>) -> bool
    decreases texts.len(),
{
    if texts.len() == 0 {
        false
    } else {
        trim_spec(texts[0]).len() > 0 || any_kept(texts.drop_first())
    }
}

/// The entries of `texts` whose trimmed text is non-empty, joined by
/// newlines.
pub open spec fn join_kept(texts: Seq<Seq<char>>) -> Seq<char>
    decreases texts.len(),
{
    if texts.len() == 0 {
        Seq::<char>::empty()
    } else if trim_spec(texts[0]).len() == 0 {
        join_kept(texts.drop_first())
    } else if any_kept(texts.drop_first()) {
        texts[0] + "\n"@ + join_kept(texts.drop_first())
    } else {
        texts[0]
    }
}

proof fn lemma_join_all_skipped(texts: Seq<Seq<char>>)
    requires
        !any_kept(texts),
    ensures
        join_kept(texts) == Seq::<char>::empty(),
    decreases texts.len(),
{
    if texts.len() > 0 {
        lemma_join_all_skipped(texts.drop_first());
    }
}

proof fn lemma_any_push(texts: Seq<Seq<char>>, t: Seq<char>)
    ensures
        any_kept(texts.push(t)) == (any_kept(texts) || trim_spec(t).len() > 0),
    decreases texts.len(),
{
    let p = texts.push(t);
    assert(p.len() == texts.len() + 1);
    if texts.len() == 0 {
        assert(p[0] == t);
        assert(p.drop_first() =~= Seq::<Seq<char>>::empty());
        assert(any_kept(p) == (trim_spec(p[0]).len() > 0 || any_kept(p.drop_first())));
    } else {
        assert(p[0] == texts[0]);
        assert(p.drop_first() =~= texts.drop_first().push(t));
        lemma_any_push(texts.drop_first(), t);
        assert(any_kept(p) == (trim_spec(p[0]).len() > 0 || any_kept(p.drop_first())));
        assert(any_kept(texts) == (trim_spec(texts[0]).len() > 0 || any_kept(texts.drop_first())));
    }
}

proof fn lemma_join_push(texts: Seq<Seq<char>>, t: Seq<char>)
    ensures
        join_kept(texts.push(t)) == if trim_spec(t).len() == 0 {
            join_kept(texts)
        } else if any_kept(texts) {
            join_kept(texts) + "\n"@ + t
        } else {
            t
        },
    decreases texts.len(),
{
    lemma_any_push(texts, t);
    let p = texts.push(t);
    if texts.len() == 0 {
        assert(p[0] == t);
        assert(p.drop_first() =~= Seq::<Seq<char>>::empty());
        assert(join_kept(p) == if trim_spec(p[0]).len() == 0 {
            join_kept(p.drop_first())
        } else if any_kept(p.drop_first()) {
            p[0] + "\n"@ + join_kept(p.drop_first())
        } else {
            p[0]
        });
    } else {
        assert(p[0] == texts[0]);
        assert(p.drop_first() =~= texts.drop_first().push(t));
        lemma_join_push(texts.drop_first(), t);
        lemma_any_push(texts.drop_first(), t);
        assert(join_kept(p) == if trim_spec(p[0]).len() == 0 {
            join_kept(p.drop_first())
        } else if any_kept(p.drop_first()) {
            p[0] + "\n"@ + join_kept(p.drop_first())
        } else {
            p[0]
        });
        if trim_spec(texts[0]).len() > 0 && trim_spec(t).len() > 0 && any_kept(
            texts.drop_first(),
        ) {
            assert(texts[0] + "\n"@ + (join_kept(texts.drop_first()) + "\n"@ + t) =~= (texts[0]
                + "\n"@ + join_kept(texts.drop_first())) + "\n"@ + t);
        }
    }
}

/// Join the texts whose trimmed text is non-empty with newlines.
fn join_texts(ts: &Vec<String>) -> (r: Vec<char>)
    ensures
        r@ == join_kept(str_views(ts@)),
{
    let ghost gts = str_views(ts@);
    let mut out: Vec<char> = Vec::new();
    let mut started = false;
    let mut i: usize = 0;
    proof {
        assert(gts.take(0) =~= Seq::<Seq<char>>::empty());
    }
    while i < ts.len()
        invariant
            gts == str_views(ts@),
            gts.len() == ts@.len(),
            i <= ts@.len(),
            started == any_kept(gts.take(i as int)),
            out@ == join_kept(gts.take(i as int)),
        decreases ts@.len() - i,
    {
        let tc = str_to_chars(ts[i].as_str());
        let trimmed = trim_chars(&tc);
        proof {
            assert(tc@ == gts[i as int]);
            assert(gts.take(i + 1) =~= gts.take(i as int).push(gts[i as int]));
            lemma_any_push(gts.take(i as int), gts[i as int]);
            lemma_join_push(gts.take(i as int), gts[i as int]);
        }
        if trimmed.len() > 0 {
            if started {
                out.push('\n');
                proof {
                    assert(out@ =~= join_kept(gts.take(i as int)) + "\n"@) by {
                        reveal_strlit("\n");
                    }
                }
            } else {
                proof {
                    lemma_join_all_skipped(gts.take(i as int));
                }
            }
            let mut k: usize = 0;
            let ghost before = out@;
            while k < tc.len()
                invariant
                    k <= tc@.len(),
                    out@ == before + tc@.take(k as int),
                decreases tc@.len() - k,
            {
                out.push(tc[k]);
                proof {
                    assert(before + tc@.take(k + 1) =~= (before + tc@.take(k as int)).push(
                        tc@[k as int],
                    ));
                }
                k += 1;
            }
            proof {
                assert(tc@.take(tc@.len() as int) =~= tc@);
                if started {
                    assert(out@ == (join_kept(gts.take(i as int)) + "\n"@) + tc@);
                    assert((join_kept(gts.take(i as int)) + "\n"@) + tc@ =~= join_kept(
                        gts.take(i as int),
                    ) + "\n"@ + tc@);
                } else {
                    assert(out@ =~= tc@);
                }
            }
            started = true;
        }
        i += 1;
    }
    proof {
        assert(gts.take(ts@.len() as int) =~= gts);
    }
    out
}

/// Extract TTS-ready text from a raw HTML document.
///
/// The text of every element matching the body selector is joined by
/// newlines, skipping elements whose trimmed text is empty; then the trimmed
/// text of every element matching each caller-supplied ignore selector is
/// removed by substring removal. Fails with the body selector when it does
/// not parse, else with the first unparsable ignore selector, and only then.
pub fn extract_body_text(html: &str, body_selector: &str, ignore: &Vec<String>) -> (r: Result<
    String,
    ExtractError,
>)
    ensures
        (r is Ok) == (selector_valid(body_selector@) && all_valid(str_views(ignore@))),
        r matches Ok(t) ==> t@ == strip_selectors(
            join_kept(selected_texts(html@, body_selector@)),
            html@,
            str_views(ignore@),
        ),
        r matches Err(e) ==> (e matches ExtractError::InvalidSelector(bad) && ((bad@
            == body_selector@ && !selector_valid(body_selector@)) || (selector_valid(body_selector@)
            && first_invalid_is(str_views(ignore@), bad@)))),
{
    if !check_selector(body_selector) {
        return Err(ExtractError::InvalidSelector(body_selector.to_owned()));
    }
    let ts = texts_matching(html, body_selector);
    let joined = join_texts(&ts);
    match strip_ignored(joined, html, ignore) {
        Ok(c) => Ok(chars_to_string(&c)),
        Err(e) => Err(e),
    }
}

/// The description of the first item whose GUID equals `uid`: `None` when no
/// item matches, `Some(None)` when the first matching item has no
/// description, and `Some(Some(d))` when it has description `d`.
pub open spec fn first_description(
    guids: Seq<Option<Seq<char>>>,
    descs: Seq<Option<Seq<char>>>,
    uid: Seq<char>,
) -> Option<Option<Seq<char>>>
    decreases guids.len(),
{
    if guids.len() == 0 {
        Option::None
    } else if guids[0] matches Some(g) && g == uid {
        Option::Some(descs[0])
    } else {
        first_description(guids.drop_first(), descs.drop_first(), uid)
    }
}

/// Locate the article with GUID `uid` among the feed's items and take its
/// description: the feed half of the description shape of extraction.
///
/// `guids` and `descs` carry, index-aligned, the GUID and the description of
/// each item, in feed order. Fails with `NotFound` when no item carries the
/// GUID, with `NoContent` when the first matching item has no description.
pub fn find_item_description(
    guids: &Vec<Option<String>>,
    descs: &Vec<Option<String>>,
    uid: &str,
) -> (r: Result<String, ExtractError>)
    requires
        guids@.len() == descs@.len(),
    ensures
        (r is Ok) == (first_description(opt_str_views(guids@), opt_str_views(descs@), uid@) matches
            Some(Some(_))),
        r matches Ok(d) ==> first_description(opt_str_views(guids@), opt_str_views(descs@), uid@)
            == Some(Some(d@)),
        (r == Err::<String, ExtractError>(ExtractError::NotFound)) == (first_description(
            opt_str_views(guids@),
            opt_str_views(descs@),
            uid@,
        ) is None),
        (r == Err::<String, ExtractError>(ExtractError::NoContent)) == (first_description(
            opt_str_views(guids@),
            opt_str_views(descs@),
            uid@,
        ) == Some(Option::<Seq<char>>::None)),
{
    let ghost gv = opt_str_views(guids@);
    let ghost dv = opt_str_views(descs@);
    let uid_owned = uid.to_owned();
    let n = guids.len();
    let mut i: usize = 0;
    proof {
        assert(gv.skip(0) =~= gv);
        assert(dv.skip(0) =~= dv);
    }
    while i < n
        invariant
            gv == opt_str_views(guids@),
            dv == opt_str_views(descs@),
            gv.len() == guids@.len(),
            dv.len() == descs@.len(),
            guids@.len() == descs@.len(),
            n == guids@.len(),
            i <= n,
            uid_owned@ == uid@,
            first_description(gv, dv, uid@) == first_description(
                gv.skip(i as int),
                dv.skip(i as int),
                uid@,
            ),
        decreases n - i,
    {
        proof {
            assert(gv.skip(i as int)[0] == gv[i as int]);
            assert(dv.skip(i as int)[0] == dv[i as int]);
            assert(gv.skip(i as int).drop_first() =~= gv.skip(i + 1));
            assert(dv.skip(i as int).drop_first() =~= dv.skip(i + 1));
        }
        let matched = match &guids[i] {
            Option::Some(g) => *g == uid_owned,
            Option::None => false,
        };
        if matched {
            match &descs[i] {
                Option::Some(d) => {
                    return Ok(d.clone());
                },
                Option::None => {
                    return Err(ExtractError::NoContent);
                },
            }
        }
        i += 1;
    }
    proof {
        assert(gv.skip(n as int) =~= Seq::<Option<Seq<char>>>::empty());
    }
    Err(ExtractError::NotFound)
}

} // verus!
