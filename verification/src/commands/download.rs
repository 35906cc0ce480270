//! The download command: which file of a work to fetch, from where, and
//! under which name to keep it.

use vstd::prelude::*;
use crate::decimal::{decimal_text, format_u64, parse_bounded, parse_text};
use crate::links::{fragment_of, url_fragment, url_with_token, with_token};
use crate::template::{
    plain_options, FullviewFailure, GetFullviewUrlError, GetFullviewUrlOptions,
};
use crate::text::{append_chars, from_chars, matches_at, occurs_at, text_of, to_chars};
use crate::types::deviation::{image_download_url_of, Deviation};
use crate::types::media::{fullview_url_of, Media};
use crate::types::scraped_webpage_info::DeviationExtended;
use crate::util::{sanitize_path, sanitized};

verus! {

/// What the download command is asked to do.
#[derive(Clone, Debug, PartialEq, Eq)]
pub struct Options {
    /// The URL of the work's page.
    pub url: String,
    /// Whether the fullview may stand in where there is no download.
    pub allow_fullview: bool,
    /// Whether signing in is left out.
    pub no_login: bool,
}

/// Why no image URL was chosen.
#[derive(Clone, Debug, PartialEq, Eq)]
pub enum SelectImageError {
    /// Images are counted from one.
    InvalidImageNumber,
    /// A further image was asked for, and the work has none.
    NoAdditionalMedia,
    /// The work has fewer images than the number asks for.
    MissingAdditionalImage,
    /// Neither a download nor, where it may stand in, a fullview is there.
    NoUrl,
    /// The fullview may stand in, and could not be built.
    Fullview(GetFullviewUrlError),
}

/// A `SelectImageError` with its texts as sequences.
pub enum SelectImageFailure {
    InvalidImageNumber,
    NoAdditionalMedia,
    MissingAdditionalImage,
    NoUrl,
    Fullview(FullviewFailure),
}

impl View for SelectImageError {
    type V = SelectImageFailure;

    open spec fn view(&self) -> SelectImageFailure {
        match *self {
            SelectImageError::InvalidImageNumber => SelectImageFailure::InvalidImageNumber,
            SelectImageError::NoAdditionalMedia => SelectImageFailure::NoAdditionalMedia,
            SelectImageError::MissingAdditionalImage => SelectImageFailure::MissingAdditionalImage,
            SelectImageError::NoUrl => SelectImageFailure::NoUrl,
            SelectImageError::Fullview(e) => SelectImageFailure::Fullview(e@),
        }
    }
}

/// Where a further image of a work stands among its additional media: the
/// image shown as number 2 is the first of them. The image number 1 is the
/// work's own image, and there is no image 0.
pub open spec fn additional_index_of(image_number: u8) -> Option<int> {
    if image_number >= 2 {
        Some(image_number - 2)
    } else {
        None
    }
}

/// Where a further image of a work stands among its additional media.
pub fn additional_media_index(image_number: u8) -> (index: Option<usize>)
    ensures
        match additional_index_of(image_number) {
            Some(i) => index == Some(i as usize),
            None => index is None,
        },
{
    if image_number >= 2 {
        Some((image_number - 2) as usize)
    } else {
        None
    }
}

/// The URL of a further image: its base URI, with its first token where it
/// has one. A protected work gives none.
pub open spec fn additional_url_of(media: Media, protected: bool) -> Option<Seq<char>> {
    if protected {
        None
    } else {
        match media.base_uri {
            Some(base) => if media.token@.len() == 0 {
                Some(base@)
            } else {
                url_with_token(base@, media.token@[0]@)
            },
            None => None,
        }
    }
}

/// The URL of a further image.
pub fn additional_media_url(media: &Media, protected: bool) -> (url: Option<String>)
    ensures
        text_of(url) == additional_url_of(*media, protected),
{
    if protected {
        return None;
    }
    match &media.base_uri {
        Some(base) => if media.token.len() == 0 {
            Some(base.clone())
        } else {
            with_token(base.as_str(), media.token[0].as_str())
        },
        None => None,
    }
}

/// The direct URL where there is one; else the fullview of `media`, where it
/// may stand in.
pub open spec fn direct_or_fullview(
    direct: Option<Seq<char>>,
    media: Media,
    allow_fullview: bool,
) -> Result<Seq<char>, SelectImageFailure> {
    match direct {
        Some(url) => Ok(url),
        None => if allow_fullview {
            match fullview_url_of(media, plain_options()) {
                Ok(url) => Ok(url),
                Err(e) => Err(SelectImageFailure::Fullview(e)),
            }
        } else {
            Err(SelectImageFailure::NoUrl)
        },
    }
}

/// The URL to download the image number `image_number` of a work from.
///
/// The first image comes from the download that the extended data offers,
/// else from the work's own download or gif URL. A further image comes from
/// the additional media. Where none of these gives a URL, the fullview
/// stands in if the caller allows it.
pub open spec fn image_url_of(
    deviation: Deviation,
    extended: DeviationExtended,
    image_number: u8,
    allow_fullview: bool,
) -> Result<Seq<char>, SelectImageFailure> {
    if image_number == 0 {
        Err(SelectImageFailure::InvalidImageNumber)
    } else if image_number == 1 {
        direct_or_fullview(
            match extended.download {
                Some(download) => Some(download.url@),
                None => image_download_url_of(deviation.media),
            },
            deviation.media,
            allow_fullview,
        )
    } else {
        match extended.additional_media {
            None => Err(SelectImageFailure::NoAdditionalMedia),
            Some(list) => if image_number - 2 >= list@.len() {
                Err(SelectImageFailure::MissingAdditionalImage)
            } else {
                let media = list@[image_number - 2].media;
                direct_or_fullview(
                    additional_url_of(
                        media,
                        match extended.is_da_protected {
                            Some(protected) => protected,
                            None => false,
                        },
                    ),
                    media,
                    allow_fullview,
                )
            },
        }
    }
}

/// The outcome of a choice, with its texts as sequences.
pub open spec fn choice_view(choice: Result<String, SelectImageError>) -> Result<
    Seq<char>,
    SelectImageFailure,
> {
    match choice {
        Ok(url) => Ok(url@),
        Err(e) => Err(e@),
    }
}

/// The direct URL where there is one; else the fullview of `media`, where it
/// may stand in.
fn or_fullview(direct: Option<String>, media: &Media, allow_fullview: bool) -> (choice: Result<
    String,
    SelectImageError,
>)
    ensures
        choice_view(choice) == direct_or_fullview(text_of(direct), *media, allow_fullview),
{
    match direct {
        Some(url) => Ok(url),
        None => if allow_fullview {
            let options = GetFullviewUrlOptions::new();
            match media.get_fullview_url(&options) {
                Ok(url) => Ok(url),
                Err(e) => Err(SelectImageError::Fullview(e)),
            }
        } else {
            Err(SelectImageError::NoUrl)
        },
    }
}

/// Chooses the URL to download the image number `image_number` of a work
/// from.
pub fn select_image_url(
    deviation: &Deviation,
    extended: &DeviationExtended,
    image_number: u8,
    allow_fullview: bool,
) -> (choice: Result<String, SelectImageError>)
    ensures
        choice_view(choice) == image_url_of(*deviation, *extended, image_number, allow_fullview),
{
    if image_number == 0 {
        return Err(SelectImageError::InvalidImageNumber);
    }
    if image_number == 1 {
        let direct = match &extended.download {
            Some(download) => Some(download.url.clone()),
            None => deviation.get_image_download_url(),
        };
        return or_fullview(direct, &deviation.media, allow_fullview);
    }
    let list = match &extended.additional_media {
        Some(list) => list,
        None => {
            return Err(SelectImageError::NoAdditionalMedia);
        },
    };
    let index: usize = (image_number - 2) as usize;
    if index >= list.len() {
        return Err(SelectImageError::MissingAdditionalImage);
    }
    let media = &list[index].media;
    let protected = match extended.is_da_protected {
        Some(protected) => protected,
        None => false,
    };
    or_fullview(additional_media_url(media, protected), media, allow_fullview)
}

/// The name under which a file of a work is kept: title, identity and, for
/// a further image, its number, joined by hyphens; then a dot and the
/// extension. Characters that may not stand in a file name give way to
/// hyphens.
pub open spec fn file_name_of(
    title: Seq<char>,
    deviation_id: u64,
    image_number: u8,
    extension: Seq<char>,
) -> Seq<char> {
    sanitized(
        title + seq!['-'] + decimal_text(deviation_id as nat) + (if image_number == 1 {
            seq![]
        } else {
            seq!['-'] + decimal_text(image_number as nat)
        }) + seq!['.'] + extension,
    )
}

/// The name under which a file of a work is kept.
pub fn file_name(title: &str, deviation_id: u64, image_number: u8, extension: &str) -> (name:
    String)
    ensures
        name@ == file_name_of(title@, deviation_id, image_number, extension@),
{
    let mut name = to_chars(title);
    name.push('-');
    let id = format_u64(deviation_id);
    let id_chars = to_chars(id.as_str());
    append_chars(&mut name, &id_chars);
    if image_number != 1 {
        name.push('-');
        let number = format_u64(image_number as u64);
        let number_chars = to_chars(number.as_str());
        append_chars(&mut name, &number_chars);
        assert(name@ == title@ + seq!['-'] + decimal_text(deviation_id as nat) + (seq!['-']
            + decimal_text(image_number as nat)));
    } else {
        assert(name@ == title@ + seq!['-'] + decimal_text(deviation_id as nat) + Seq::<
            char,
        >::empty());
    }
    name.push('.');
    let extension_chars = to_chars(extension);
    append_chars(&mut name, &extension_chars);
    let joined = from_chars(&name);
    sanitize_path(joined.as_str())
}

/// Why a page URL names no image.
#[derive(Clone, Copy, Debug, PartialEq, Eq)]
pub enum ImageNumberError {
    /// The text is not a URL.
    InvalidUrl,
    /// The fragment begins with `image-`, and no number up to 255 follows.
    InvalidNumber,
}

/// The image that a fragment names: `image-` and a number up to 255. Any
/// other fragment, and none at all, names no image.
pub open spec fn image_number_of(fragment: Option<Seq<char>>) -> Result<Option<u8>, ImageNumberError> {
    match fragment {
        None => Ok(None),
        Some(fragment) => if occurs_at(fragment, 0, "image-"@) {
            match parse_text(fragment.skip("image-"@.len() as int), u8::MAX as nat) {
                Some(n) => Ok(Some(n as u8)),
                None => Err(ImageNumberError::InvalidNumber),
            }
        } else {
            Ok(None)
        },
    }
}

/// Reads the image that a fragment names.
pub fn image_number(fragment: &Option<String>) -> (number: Result<Option<u8>, ImageNumberError>)
    ensures
        number == image_number_of(text_of(*fragment)),
{
    let fragment = match fragment {
        Some(fragment) => to_chars(fragment.as_str()),
        None => {
            return Ok(None);
        },
    };
    let prefix = to_chars("image-");
    if !matches_at(&fragment, 0, &prefix) {
        return Ok(None);
    }
    let mut digits: Vec<char> = Vec::new();
    let mut i: usize = prefix.len();
    while i < fragment.len()
        invariant
            prefix.len() <= i <= fragment.len(),
            digits@ == fragment@.subrange(prefix.len() as int, i as int),
        decreases fragment.len() - i,
    {
        digits.push(fragment[i]);
        assert(fragment@.subrange(prefix.len() as int, i + 1) == fragment@.subrange(
            prefix.len() as int,
            i as int,
        ).push(fragment@[i as int]));
        i += 1;
    }
    assert(fragment@.subrange(prefix.len() as int, fragment.len() as int) == fragment@.skip(
        prefix.len() as int,
    ));
    match parse_bounded(&digits, 0xff) {
        Some(n) => Ok(Some(n as u8)),
        None => Err(ImageNumberError::InvalidNumber),
    }
}

/// The image that the page URL `url` names in its fragment.
pub open spec fn url_image_number_of(url: Seq<char>) -> Result<Option<u8>, ImageNumberError> {
    match url_fragment(url) {
        Some(fragment) => image_number_of(fragment),
        None => Err(ImageNumberError::InvalidUrl),
    }
}

/// Reads the image that the page URL `url` names in its fragment.
pub fn url_image_number(url: &str) -> (number: Result<Option<u8>, ImageNumberError>)
    ensures
        number == url_image_number_of(url@),
{
    match fragment_of(url) {
        Some(fragment) => image_number(&fragment),
        None => Err(ImageNumberError::InvalidUrl),
    }
}

} // verus!
