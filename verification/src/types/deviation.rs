//! A posted work and the URLs of its files.

use vstd::prelude::*;
use crate::extension::{extension_of, path_extension};
use crate::links::{url_parses, url_with_token, with_token};
use crate::template::{GetFullviewUrlError, GetFullviewUrlOptions};
use crate::text::{str_eq, text_fits, text_of};
use crate::types::media::{
    best_video, first_of_kind, fullview_url_of, url_view, Media, UnknownField,
};

verus! {

/// The author of a work.
#[derive(Clone, Debug, PartialEq, Eq)]
pub struct Author {
    /// Whether the user is new.
    pub is_new_deviant: bool,
    /// The UUID of the user.
    pub userid_uuid: String,
    /// The URL of the user's icon.
    pub usericon: String,
    /// The identity of the user.
    pub user_id: u64,
    /// The name of the user.
    pub username: String,
    /// Members of unknown purpose.
    pub unknown: Vec<UnknownField>,
}

/// Text of a literature work, as markup.
#[derive(Clone, Debug, PartialEq, Eq)]
pub struct Html {
    /// The features of the text.
    pub features: String,
    /// The markup: a JSON document, or plain HTML.
    pub markup: Option<String>,
    /// The kind of text data.
    pub kind: String,
    /// Members of unknown purpose.
    pub unknown: Vec<UnknownField>,
}

/// Text content of a literature work.
#[derive(Clone, Debug, PartialEq, Eq)]
pub struct TextContext {
    /// An excerpt of the text.
    pub excerpt: String,
    /// The text itself.
    pub html: Html,
    /// Members of unknown purpose.
    pub unknown: Vec<UnknownField>,
}

/// A posted work.
#[derive(Clone, Debug, PartialEq, Eq)]
pub struct Deviation {
    /// The JSON texts of the reasons for which the work is blocked.
    pub block_reasons: Vec<String>,
    /// The identity of the work.
    pub deviation_id: u64,
    /// The kind of work: `image`, `literature`, `film` and others.
    pub kind: String,
    /// The canonical URL of the work's page.
    pub url: String,
    /// The media metadata.
    pub media: Media,
    /// The title.
    pub title: String,
    /// The text, for literature.
    pub text_content: Option<TextContext>,
    /// Whether the site offers the work for download.
    pub is_downloadable: bool,
    /// Members of unknown purpose.
    pub unknown: Vec<UnknownField>,
}

/// `base` with the token at `index` in its query. There is none without a
/// base or without that token.
pub open spec fn token_url(base: Option<String>, tokens: Seq<String>, index: int) -> Option<
    Seq<char>,
> {
    match base {
        Some(base) => if 0 <= index < tokens.len() {
            url_with_token(base@, tokens[index]@)
        } else {
            None
        },
        None => None,
    }
}

/// The direct URL of the gif rendition with the first token in its query.
pub open spec fn gif_url_of(media: Media) -> Option<Seq<char>> {
    match first_of_kind(media.types@, "gif"@) {
        Some(i) => token_url(media.types@[i].b, media.token@, 0),
        None => None,
    }
}

/// The direct URL of the best video rendition.
pub open spec fn best_video_url_of(media: Media) -> Option<String> {
    match best_video(media.types@) {
        Some(i) => media.types@[i].b,
        None => None,
    }
}

/// The download URL where there is one, else the gif URL.
pub open spec fn image_download_url_of(media: Media) -> Option<Seq<char>> {
    match token_url(media.base_uri, media.token@, 1) {
        Some(url) => Some(url),
        None => gif_url_of(media),
    }
}

/// The URL whose file name gives the extension of the work `deviation`: for
/// an image the direct URL of the gif rendition, else the base URI; for a
/// film the direct URL of the best video; for any other work none.
pub open spec fn extension_source(deviation: Deviation) -> Option<String> {
    if deviation.has_kind("image"@) {
        match first_of_kind(deviation.media.types@, "gif"@) {
            Some(i) => if deviation.media.types@[i].b is Some {
                deviation.media.types@[i].b
            } else {
                deviation.media.base_uri
            },
            None => deviation.media.base_uri,
        }
    } else if deviation.has_kind("literature"@) {
        None
    } else if deviation.has_kind("film"@) {
        best_video_url_of(deviation.media)
    } else {
        None
    }
}

/// The preview carries the first token and the download the second, each in
/// the query of the base URI; and there is no download URL where there are
/// fewer than two tokens.
pub proof fn lemma_tokens_by_position(media: Media)
    ensures
        media.base_uri is Some && media.token@.len() >= 1 ==> token_url(
            media.base_uri,
            media.token@,
            0,
        ) == url_with_token(media.base_uri.unwrap()@, media.token@[0]@),
        media.base_uri is Some && media.token@.len() >= 2 ==> token_url(
            media.base_uri,
            media.token@,
            1,
        ) == url_with_token(media.base_uri.unwrap()@, media.token@[1]@),
        media.token@.len() < 2 ==> token_url(media.base_uri, media.token@, 1) is None,
        media.token@.len() < 1 ==> token_url(media.base_uri, media.token@, 0) is None,
{
}

/// `base` with the token at `index` in its query.
fn url_with_token_at(base: &Option<String>, tokens: &Vec<String>, index: usize) -> (url: Option<
    String,
>)
    ensures
        text_of(url) == token_url(*base, tokens@, index as int),
        url is Some == (base is Some && index < tokens@.len() && url_parses(base.unwrap()@)
            && text_fits(base.unwrap()@) && text_fits(tokens@[index as int]@)),
{
    match base {
        Some(base) => if index < tokens.len() {
            with_token(base.as_str(), tokens[index].as_str())
        } else {
            None
        },
        None => None,
    }
}

impl Deviation {
    /// Whether this work is of the kind `kind`.
    pub open spec fn has_kind(&self, kind: Seq<char>) -> bool {
        self.kind@ == kind
    }

    /// The preview URL of this work: the base URI with the first token. There
    /// is none without a base URI or without a token; for media that is well
    /// formed there is one in every other case.
    pub fn get_media_url(&self) -> (url: Option<String>)
        ensures
            text_of(url) == token_url(self.media.base_uri, self.media.token@, 0),
            self.media.base_uri is None || self.media.token@.len() < 1 ==> url is None,
            self.media.well_formed() ==> (url is Some <==> self.media.base_uri is Some
                && self.media.token@.len() >= 1),
    {
        url_with_token_at(&self.media.base_uri, &self.media.token, 0)
    }

    /// The download URL of this work: the base URI with the second token.
    /// There is none without a base URI or with fewer than two tokens,
    /// whatever else the media holds; for media that is well formed there is
    /// one in every other case.
    pub fn get_download_url(&self) -> (url: Option<String>)
        ensures
            text_of(url) == token_url(self.media.base_uri, self.media.token@, 1),
            self.media.base_uri is None || self.media.token@.len() < 2 ==> url is None,
            self.media.well_formed() ==> (url is Some <==> self.media.base_uri is Some
                && self.media.token@.len() >= 2),
    {
        url_with_token_at(&self.media.base_uri, &self.media.token, 1)
    }

    /// The fullview URL of this work, for the caller's choices.
    pub fn get_fullview_url(&self, options: &GetFullviewUrlOptions) -> (url: Result<
        String,
        GetFullviewUrlError,
    >)
        ensures
            url_view(url) == fullview_url_of(self.media, *options),
    {
        self.media.get_fullview_url(options)
    }

    /// The gif URL of this work: the direct URL of the gif rendition with the
    /// first token.
    pub fn get_gif_url(&self) -> (url: Option<String>)
        ensures
            text_of(url) == gif_url_of(self.media),
    {
        match self.media.get_gif_media_type() {
            Some(gif) => url_with_token_at(&gif.b, &self.media.token, 0),
            None => None,
        }
    }

    /// The URL of the best video: the direct URL of the widest video
    /// rendition, as it is.
    pub fn get_best_video_url(&self) -> (url: Option<&String>)
        ensures
            match best_video_url_of(self.media) {
                Some(best) => url == Some(&best),
                None => url is None,
            },
    {
        match self.media.get_best_video_media_type() {
            Some(video) => match &video.b {
                Some(url) => Some(url),
                None => None,
            },
            None => None,
        }
    }

    /// Whether this is an image.
    pub fn is_image(&self) -> (yes: bool)
        ensures
            yes == self.has_kind("image"@),
    {
        str_eq(self.kind.as_str(), "image")
    }

    /// Whether this is literature.
    pub fn is_literature(&self) -> (yes: bool)
        ensures
            yes == self.has_kind("literature"@),
    {
        str_eq(self.kind.as_str(), "literature")
    }

    /// Whether this is a film.
    pub fn is_film(&self) -> (yes: bool)
        ensures
            yes == self.has_kind("film"@),
    {
        str_eq(self.kind.as_str(), "film")
    }

    /// The most fitting URL to download an image from: the download URL, or
    /// else the gif URL.
    pub fn get_image_download_url(&self) -> (url: Option<String>)
        ensures
            text_of(url) == image_download_url_of(self.media),
    {
        match self.get_download_url() {
            Some(url) => Some(url),
            None => self.get_gif_url(),
        }
    }

    /// The extension of the work's file, as its URL names it.
    pub fn get_extension(&self) -> (extension: Option<String>)
        ensures
            text_of(extension) == match extension_source(*self) {
                Some(url) => extension_of(url@),
                None => None,
            },
    {
        if self.is_image() {
            let gif = match self.media.get_gif_media_type() {
                Some(gif) => &gif.b,
                None => &None,
            };
            let url = match gif {
                Some(url) => url,
                None => match &self.media.base_uri {
                    Some(url) => url,
                    None => {
                        return None;
                    },
                },
            };
            path_extension(url.as_str())
        } else if self.is_literature() {
            None
        } else if self.is_film() {
            match self.get_best_video_url() {
                Some(url) => path_extension(url.as_str()),
                None => None,
            }
        } else {
            None
        }
    }
}

/// One run of text within a block of markup.
#[derive(Clone, Debug, PartialEq, Eq)]
pub struct MarkupDocumentContentInner {
    /// The kind of run: `text`, `hardBreak` and others.
    pub kind: String,
    /// The text, for a run of the kind `text`.
    pub text: Option<String>,
}

/// An attribute of a block of markup.
#[derive(Clone, Debug, PartialEq, Eq)]
pub struct MarkupAttribute {
    /// The name of the attribute.
    pub key: String,
    /// The value, where it is a JSON string.
    pub text: Option<String>,
    /// The JSON text of the value.
    pub json: String,
}

/// One block of markup.
#[derive(Clone, Debug, PartialEq, Eq)]
pub struct MarkupDocumentContent {
    /// The kind of block: `paragraph`, `da-video` and others.
    pub kind: String,
    /// The attributes of the block.
    pub attrs: Vec<MarkupAttribute>,
    /// The runs of text within the block.
    pub content: Option<Vec<MarkupDocumentContentInner>>,
}

/// The document of a markup.
#[derive(Clone, Debug, PartialEq, Eq)]
pub struct MarkupDocument {
    /// The blocks of the document.
    pub content: Vec<MarkupDocumentContent>,
    /// The kind of document.
    pub kind: String,
}

/// The markup of a literature work.
#[derive(Clone, Debug, PartialEq, Eq)]
pub struct Markup {
    /// The version of the format.
    pub version: u32,
    /// The document.
    pub document: MarkupDocument,
}

} // verus!
