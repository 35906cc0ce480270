//! A work in short: its identity, its texts, and the URLs of its files.

use vstd::prelude::*;
use crate::commands::download::{additional_media_url, additional_url_of};
use crate::extension::last_index_of;
use crate::links::{path_of, url_path};
use crate::text::{from_chars, str_eq, to_chars};
use crate::template::{plain_options, GetFullviewUrlOptions};
use crate::text::text_of;
use crate::types::deviation::{token_url, Deviation};
use crate::types::media::{fullview_url_of, Media};
use crate::types::scraped_webpage_info::{AdditionalMedia, DeviationExtended};

verus! {

/// A work in short.
#[derive(Clone, Debug, PartialEq, Eq)]
pub struct DeviationSummary {
    /// The identity of the work.
    pub id: u64,
    /// The title.
    pub title: String,
    /// The description, as HTML.
    pub description: Option<String>,
    /// The kind of work.
    pub kind: String,
    /// The URL of the download.
    pub download_url: Option<String>,
    /// The URL of the fullview.
    pub fullview_url: Option<String>,
    /// The download URL of each further image.
    pub additional_media_download_urls: Option<Vec<Option<String>>>,
    /// The fullview URL of each further image.
    pub additional_media_fullview_urls: Option<Vec<Option<String>>>,
}

/// The fullview URL of `media` as the template writes it, if it can be
/// built.
pub open spec fn plain_fullview_of(media: Media) -> Option<Seq<char>> {
    match fullview_url_of(media, plain_options()) {
        Ok(url) => Some(url),
        Err(_) => None,
    }
}

/// The download URL of a work: the one that the extended data offers, else
/// the work's own.
pub open spec fn summary_download_of(deviation: Deviation, extended: DeviationExtended) -> Option<
    Seq<char>,
> {
    match extended.download {
        Some(download) => Some(download.url@),
        None => token_url(deviation.media.base_uri, deviation.media.token@, 1),
    }
}

/// The texts of a list of optional URLs.
pub open spec fn url_texts(urls: Seq<Option<String>>) -> Seq<Option<Seq<char>>> {
    Seq::new(urls.len(), |i: int| text_of(urls[i]))
}

/// The download URL of each further image.
pub open spec fn additional_downloads_of(list: Seq<AdditionalMedia>, protected: bool) -> Seq<
    Option<Seq<char>>,
> {
    Seq::new(list.len(), |i: int| additional_url_of(list[i].media, protected))
}

/// The fullview URL of each further image.
pub open spec fn additional_fullviews_of(list: Seq<AdditionalMedia>) -> Seq<Option<Seq<char>>> {
    Seq::new(list.len(), |i: int| plain_fullview_of(list[i].media))
}

/// The fullview URL of `media` as the template writes it, if it can be
/// built.
pub fn plain_fullview_url(media: &Media) -> (url: Option<String>)
    ensures
        text_of(url) == plain_fullview_of(*media),
{
    let options = GetFullviewUrlOptions::new();
    match media.get_fullview_url(&options) {
        Ok(url) => Some(url),
        Err(_) => None,
    }
}

/// The download URL of each further image. A protected work gives none.
pub fn additional_download_urls(list: &Vec<AdditionalMedia>, protected: bool) -> (urls: Vec<
    Option<String>,
>)
    ensures
        url_texts(urls@) == additional_downloads_of(list@, protected),
{
    let mut urls: Vec<Option<String>> = Vec::new();
    let mut i: usize = 0;
    while i < list.len()
        invariant
            i <= list.len(),
            url_texts(urls@) == additional_downloads_of(list@, protected).take(i as int),
        decreases list.len() - i,
    {
        let url = additional_media_url(&list[i].media, protected);
        let ghost before = url_texts(urls@);
        urls.push(url);
        assert(url_texts(urls@) == before.push(text_of(url)));
        assert(additional_downloads_of(list@, protected).take(i + 1) == additional_downloads_of(
            list@,
            protected,
        ).take(i as int).push(text_of(url)));
        i += 1;
    }
    assert(additional_downloads_of(list@, protected).take(list.len() as int)
        == additional_downloads_of(list@, protected));
    urls
}

/// The fullview URL of each further image.
pub fn additional_fullview_urls(list: &Vec<AdditionalMedia>) -> (urls: Vec<Option<String>>)
    ensures
        url_texts(urls@) == additional_fullviews_of(list@),
{
    let mut urls: Vec<Option<String>> = Vec::new();
    let mut i: usize = 0;
    while i < list.len()
        invariant
            i <= list.len(),
            url_texts(urls@) == additional_fullviews_of(list@).take(i as int),
        decreases list.len() - i,
    {
        let url = plain_fullview_url(&list[i].media);
        let ghost before = url_texts(urls@);
        urls.push(url);
        assert(url_texts(urls@) == before.push(text_of(url)));
        assert(additional_fullviews_of(list@).take(i + 1) == additional_fullviews_of(list@).take(
            i as int,
        ).push(text_of(url)));
        i += 1;
    }
    assert(additional_fullviews_of(list@).take(list.len() as int) == additional_fullviews_of(
        list@,
    ));
    urls
}

/// Sums up a work and its extended data.
pub fn summarize(deviation: &Deviation, extended: &DeviationExtended) -> (summary:
    DeviationSummary)
    ensures
        summary.id == deviation.deviation_id,
        summary.title@ == deviation.title@,
        text_of(summary.description) == text_of(extended.description),
        summary.kind@ == deviation.kind@,
        text_of(summary.download_url) == summary_download_of(*deviation, *extended),
        text_of(summary.fullview_url) == plain_fullview_of(deviation.media),
        match extended.additional_media {
            Some(list) => {
                &&& summary.additional_media_download_urls is Some
                &&& summary.additional_media_fullview_urls is Some
                &&& url_texts(summary.additional_media_download_urls.unwrap()@)
                    == additional_downloads_of(
                    list@,
                    match extended.is_da_protected {
                        Some(protected) => protected,
                        None => false,
                    },
                )
                &&& url_texts(summary.additional_media_fullview_urls.unwrap()@)
                    == additional_fullviews_of(list@)
            },
            None => summary.additional_media_download_urls is None
                && summary.additional_media_fullview_urls is None,
        },
{
    let protected = match extended.is_da_protected {
        Some(protected) => protected,
        None => false,
    };
    let download_url = match &extended.download {
        Some(download) => Some(download.url.clone()),
        None => deviation.get_download_url(),
    };
    let description = match &extended.description {
        Some(description) => Some(description.clone()),
        None => None,
    };
    let (downloads, fullviews) = match &extended.additional_media {
        Some(list) => (
            Some(additional_download_urls(list, protected)),
            Some(additional_fullview_urls(list)),
        ),
        None => (None, None),
    };
    DeviationSummary {
        id: deviation.deviation_id,
        title: deviation.title.clone(),
        description,
        kind: deviation.kind.clone(),
        download_url,
        fullview_url: plain_fullview_url(&deviation.media),
        additional_media_download_urls: downloads,
        additional_media_fullview_urls: fullviews,
    }
}

/// Why a URL of a summary names no file.
#[derive(Clone, Copy, Debug, PartialEq, Eq)]
pub enum FileNameError {
    /// The text is not a URL.
    InvalidUrl,
    /// The URL has no path of segments.
    MissingPath,
    /// The kind of URL is neither `download` nor `fullview`.
    UnknownKind,
}

/// The last segment of a path that begins with a slash: what follows its
/// last slash.
pub open spec fn last_segment(path: Seq<char>) -> Option<Seq<char>> {
    if path.len() > 0 && path[0] == '/' {
        match last_index_of(path, '/') {
            Some(slash) => Some(path.skip(slash + 1)),
            None => None,
        }
    } else {
        None
    }
}

/// The name of the file that the URL `url` names: the last segment of its
/// path.
pub open spec fn url_file_name_of(url: Seq<char>) -> Result<Seq<char>, FileNameError> {
    match url_path(url) {
        None => Err(FileNameError::InvalidUrl),
        Some(path) => match last_segment(path) {
            Some(name) => Ok(name),
            None => Err(FileNameError::MissingPath),
        },
    }
}

/// The last segment of a path.
pub fn path_file_name(path: &str) -> (name: Option<String>)
    ensures
        text_of(name) == last_segment(path@),
{
    let chars = to_chars(path);
    if chars.len() == 0 || chars[0] != '/' {
        return None;
    }
    let mut k: usize = chars.len();
    assert(chars@.take(k as int) == chars@);
    while k > 0 && chars[k - 1] != '/'
        invariant
            k <= chars.len(),
            chars@.len() > 0,
            chars@[0] == '/',
            last_index_of(chars@.take(k as int), '/') == last_index_of(chars@, '/'),
        decreases k,
    {
        proof {
            let upto = chars@.take(k as int);
            assert(upto.last() == chars@[k - 1]);
            assert(upto.drop_last() == chars@.take(k - 1));
        }
        k -= 1;
    }
    proof {
        let upto = chars@.take(k as int);
        if k > 0 {
            assert(upto.last() == chars@[k - 1]);
        } else {
            assert(chars@.take(1).last() == '/');
        }
    }
    if k == 0 {
        return None;
    }
    let mut name: Vec<char> = Vec::new();
    let mut i: usize = k;
    while i < chars.len()
        invariant
            k <= i <= chars.len(),
            name@ == chars@.subrange(k as int, i as int),
        decreases chars.len() - i,
    {
        name.push(chars[i]);
        assert(chars@.subrange(k as int, i + 1) == chars@.subrange(k as int, i as int).push(
            chars@[i as int],
        ));
        i += 1;
    }
    assert(chars@.subrange(k as int, chars.len() as int) == chars@.skip(k as int));
    Some(from_chars(&name))
}

/// The name of the file that the URL `url` names.
pub fn url_file_name(url: &str) -> (name: Result<String, FileNameError>)
    ensures
        match url_file_name_of(url@) {
            Ok(text) => name is Ok && name.unwrap()@ == text,
            Err(e) => name == Err::<String, FileNameError>(e),
        },
{
    match path_of(url) {
        None => Err(FileNameError::InvalidUrl),
        Some(path) => match path_file_name(path.as_str()) {
            Some(name) => Ok(name),
            None => Err(FileNameError::MissingPath),
        },
    }
}

/// The name of the file behind an optional URL.
fn optional_file_name(url: &Option<String>) -> (name: Result<Option<String>, FileNameError>)
    ensures
        match *url {
            None => name == Ok::<Option<String>, FileNameError>(None),
            Some(url) => match url_file_name_of(url@) {
                Ok(text) => name is Ok && name.unwrap() is Some && name.unwrap().unwrap()@ == text,
                Err(e) => name == Err::<Option<String>, FileNameError>(e),
            },
        },
{
    match url {
        None => Ok(None),
        Some(url) => match url_file_name(url.as_str()) {
            Ok(name) => Ok(Some(name)),
            Err(e) => Err(e),
        },
    }
}

impl DeviationSummary {
    /// The URL of the kind `kind`: the download for `download`, the
    /// fullview for `fullview`.
    pub open spec fn url_of_kind(&self, kind: Seq<char>) -> Option<Option<String>> {
        if kind == "download"@ {
            Some(self.download_url)
        } else if kind == "fullview"@ {
            Some(self.fullview_url)
        } else {
            None
        }
    }

    /// The name of the file behind the URL of the kind `kind`, which is
    /// `download` or `fullview`. There is none where the summary has no such
    /// URL.
    pub fn get_file_name(&self, kind: &str) -> (name: Result<Option<String>, FileNameError>)
        ensures
            match self.url_of_kind(kind@) {
                None => name == Err::<Option<String>, FileNameError>(FileNameError::UnknownKind),
                Some(None) => name == Ok::<Option<String>, FileNameError>(None),
                Some(Some(url)) => match url_file_name_of(url@) {
                    Ok(text) => name is Ok && name.unwrap() is Some && name.unwrap().unwrap()@
                        == text,
                    Err(e) => name == Err::<Option<String>, FileNameError>(e),
                },
            },
    {
        if str_eq(kind, "download") {
            optional_file_name(&self.download_url)
        } else if str_eq(kind, "fullview") {
            optional_file_name(&self.fullview_url)
        } else {
            Err(FileNameError::UnknownKind)
        }
    }
}

} // verus!
