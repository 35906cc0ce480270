//! The operations on URLs that the library needs, done by the `url` crate.
//! A URL is held as its text.

use vstd::prelude::*;
use crate::text::{fits, text_fits, text_of};

verus! {

/// The text of the URL `url` after the pair `name`, `value` was appended to
/// its query, or `None` where `url` is not the text of a URL.
pub uninterp spec fn url_with_pair(url: Seq<char>, name: Seq<char>, value: Seq<char>) -> Option<
    Seq<char>,
>;

/// The text of the URL `url` after `segment` was appended to its path, or
/// `None` where `url` is not the text of a URL or is one whose path takes no
/// segments.
pub uninterp spec fn url_with_segment(url: Seq<char>, segment: Seq<char>) -> Option<Seq<char>>;

/// Whether `url` is the text of a URL: whether it parses as one.
pub uninterp spec fn url_parses(url: Seq<char>) -> bool;

/// `url::Url::parse`: whether the text parses as a URL. Nothing is claimed
/// of the answer but that it depends on the text alone.
#[verifier::external_body]
pub(crate) fn parses(url: &str) -> (ok: bool)
    ensures
        ok == url_parses(url@),
{
    url::Url::parse(url).is_ok()
}

/// The fragment of the URL `url`, if it has one, or `None` where `url` is not
/// the text of a URL.
pub uninterp spec fn url_fragment(url: Seq<char>) -> Option<Option<Seq<char>>>;

/// `url::Url::parse`, then `fragment`: what follows the `#` of the URL, if it
/// has one, and `None` where the text does not parse. Nothing is claimed of
/// the text but that it depends on the argument alone.
#[verifier::external_body]
pub(crate) fn fragment_of(url: &str) -> (fragment: Option<Option<String>>)
    ensures
        match fragment {
            Some(fragment) => url_fragment(url@) == Some(text_of(fragment)),
            None => url_fragment(url@) is None,
        },
{
    let parsed = url::Url::parse(url).ok()?;
    Some(parsed.fragment().map(str::to_string))
}

/// The path of the URL `url`, or `None` where `url` is not the text of a URL.
pub uninterp spec fn url_path(url: Seq<char>) -> Option<Seq<char>>;

/// `url::Url::parse`, then `path`: the path of the URL as its serialization
/// holds it, and `None` where the text does not parse. Nothing is claimed of
/// the text but that it depends on the argument alone.
#[verifier::external_body]
pub(crate) fn path_of(url: &str) -> (path: Option<String>)
    ensures
        text_of(path) == url_path(url@),
{
    let parsed = url::Url::parse(url).ok()?;
    Some(parsed.path().to_string())
}

/// `url::Url::parse`, then `append_pair` on the URL's `query_pairs_mut`: the
/// result is the serialization of the changed URL, and `None` where the text
/// does not parse. A pair can be appended to every URL, so there is a
/// result exactly where the text parses. Nothing more is claimed of the
/// text than that it depends on the three arguments alone. The crate keeps positions within a URL in 32 bits
/// and panics where a URL outgrows them, so long texts are left out.
#[verifier::external_body]
pub(crate) fn append_pair(url: &str, name: &str, value: &str) -> (out: Option<String>)
    requires
        text_fits(url@),
        text_fits(name@),
        text_fits(value@),
    ensures
        text_of(out) == url_with_pair(url@, name@, value@),
        out is Some == url_parses(url@),
{
    let mut parsed = url::Url::parse(url).ok()?;
    parsed.query_pairs_mut().append_pair(name, value);
    Some(String::from(parsed))
}

/// `url::Url::parse`, then `push` on the URL's `path_segments_mut`: the
/// result is the serialization of the changed URL, and `None` where the text
/// does not parse or the URL cannot be a base. Nothing is claimed of the text
/// but that it depends on the two arguments alone. Long texts are left out
/// for the same reason as in `append_pair`.
#[verifier::external_body]
pub(crate) fn push_segment(url: &str, segment: &str) -> (out: Option<String>)
    requires
        text_fits(url@),
        text_fits(segment@),
    ensures
        text_of(out) == url_with_segment(url@, segment@),
{
    let mut parsed = url::Url::parse(url).ok()?;
    parsed.path_segments_mut().ok()?.push(segment);
    Some(String::from(parsed))
}

/// The text of `url` after the pair `token`, `value` was appended to its
/// query. There is none where a text is too long for the URL routines.
pub open spec fn url_with_token(url: Seq<char>, value: Seq<char>) -> Option<Seq<char>> {
    url_with_named_pair(url, "token"@, value)
}

/// The text of `url` after the pair `name`, `value` was appended to its
/// query. There is none where a text is too long for the URL routines.
pub open spec fn url_with_named_pair(url: Seq<char>, name: Seq<char>, value: Seq<char>) -> Option<
    Seq<char>,
> {
    if text_fits(url) && text_fits(name) && text_fits(value) {
        url_with_pair(url, name, value)
    } else {
        None
    }
}

/// The text of `url` after the segments were appended to its path, one
/// after the other. There is none where a text on the way is too long for
/// the URL routines.
pub open spec fn url_with_segments(url: Seq<char>, segments: Seq<Seq<char>>) -> Option<Seq<char>>
    decreases segments.len(),
{
    if segments.len() == 0 {
        Some(url)
    } else {
        match url_with_segments(url, segments.drop_last()) {
            None => None,
            Some(before) => if text_fits(before) && text_fits(segments.last()) {
                url_with_segment(before, segments.last())
            } else {
                None
            },
        }
    }
}

/// No segments can be appended where appending the first ones fails.
pub proof fn lemma_segments_failure(url: Seq<char>, segments: Seq<Seq<char>>, k: int)
    requires
        0 <= k <= segments.len(),
        url_with_segments(url, segments.take(k)) is None,
    ensures
        url_with_segments(url, segments) is None,
    decreases segments.len(),
{
    if k == segments.len() {
        assert(segments.take(k) == segments);
    } else {
        assert(segments.drop_last().take(k) == segments.take(k));
        lemma_segments_failure(url, segments.drop_last(), k);
    }
}

/// The texts of the strings.
pub open spec fn string_texts(strings: Seq<String>) -> Seq<Seq<char>> {
    Seq::new(strings.len(), |i: int| strings[i]@)
}

/// Appends the pair `name`, `value` to the query of `url`. There is a
/// result exactly where `url` is the text of a URL and the three texts are
/// within the limit.
pub fn with_pair(url: &str, name: &str, value: &str) -> (out: Option<String>)
    ensures
        text_of(out) == url_with_named_pair(url@, name@, value@),
        out is Some == (url_parses(url@) && text_fits(url@) && text_fits(name@) && text_fits(
            value@,
        )),
{
    if fits(url) && fits(name) && fits(value) {
        append_pair(url, name, value)
    } else {
        None
    }
}

/// Appends the pair `token`, `value` to the query of `url`. There is a
/// result exactly where `url` is the text of a URL and both texts are within
/// the limit.
pub fn with_token(url: &str, value: &str) -> (out: Option<String>)
    ensures
        text_of(out) == url_with_token(url@, value@),
        out is Some == (url_parses(url@) && text_fits(url@) && text_fits(value@)),
{
    proof {
        reveal_strlit("token");
    }
    with_pair(url, "token", value)
}

/// Whether `url` is the text of a URL.
pub fn is_url(url: &str) -> (ok: bool)
    ensures
        ok == url_parses(url@),
{
    parses(url)
}

/// Appends the segments to the path of `url`, one after the other.
pub fn with_segments(url: &str, segments: &Vec<String>) -> (out: Option<String>)
    ensures
        text_of(out) == url_with_segments(url@, string_texts(segments@)),
{
    let mut current: String = url.to_owned();
    let mut i: usize = 0;
    let ghost all = string_texts(segments@);
    assert(all.take(0).len() == 0);
    while i < segments.len()
        invariant
            i <= segments.len(),
            all == string_texts(segments@),
            url_with_segments(url@, all.take(i as int)) == Some(current@),
        decreases segments.len() - i,
    {
        proof {
            let upto = all.take(i + 1);
            assert(upto.drop_last() == all.take(i as int));
            assert(upto.last() == segments@[i as int]@);
        }
        let next = if fits(current.as_str()) && fits(segments[i].as_str()) {
            push_segment(current.as_str(), segments[i].as_str())
        } else {
            None
        };
        match next {
            Some(next) => {
                current = next;
            },
            None => {
                proof {
                    lemma_segments_failure(url@, all, i + 1);
                }
                return None;
            },
        }
        i += 1;
    }
    assert(all.take(segments.len() as int) == all);
    Some(current)
}

} // verus!
