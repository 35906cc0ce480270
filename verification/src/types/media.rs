//! Media metadata, from which the URLs of a work's files are built.

use vstd::prelude::*;
use crate::links::{
    is_url, url_parses, url_with_segments, url_with_token, with_segments, with_token,
};
use crate::template::{
    fullview_path, fullview_path_of, FullviewFailure, GetFullviewUrlError, GetFullviewUrlOptions,
};
use crate::text::{chars_eq, fits, str_eq, text_fits, text_of, to_chars};

verus! {

/// A JSON member that the model gives no field: its key and the JSON text of
/// its value.
#[derive(Clone, Debug, PartialEq, Eq)]
pub struct UnknownField {
    /// The member's key.
    pub key: String,
    /// The JSON text of the member's value.
    pub json: String,
}

/// One rendition of a work.
#[derive(Clone, Debug, PartialEq, Eq)]
pub struct MediaType {
    /// The path template of the rendition, used with the base URI.
    pub content: Option<String>,
    /// The height in pixels.
    pub height: u64,
    /// The kind of rendition: `fullview`, `gif`, `video` and others.
    pub kind: String,
    /// The width in pixels.
    pub width: u64,
    /// A direct URL of the rendition.
    pub b: Option<String>,
    /// Members of unknown purpose.
    pub unknown: Vec<UnknownField>,
}

impl MediaType {
    /// Whether this rendition is of the kind `kind`.
    pub open spec fn has_kind(&self, kind: Seq<char>) -> bool {
        self.kind@ == kind
    }

    /// Whether this is the fullview.
    pub fn is_fullview(&self) -> (yes: bool)
        ensures
            yes == self.has_kind("fullview"@),
    {
        str_eq(self.kind.as_str(), "fullview")
    }

    /// Whether this is a gif.
    pub fn is_gif(&self) -> (yes: bool)
        ensures
            yes == self.has_kind("gif"@),
    {
        str_eq(self.kind.as_str(), "gif")
    }

    /// Whether this is a video.
    pub fn is_video(&self) -> (yes: bool)
        ensures
            yes == self.has_kind("video"@),
    {
        str_eq(self.kind.as_str(), "video")
    }
}

/// Media metadata of a work: what is needed to build the URLs of its files.
#[derive(Clone, Debug, PartialEq, Eq)]
pub struct Media {
    /// The base URI.
    pub base_uri: Option<String>,
    /// The tokens. The first one opens the preview, the second the download.
    pub token: Vec<String>,
    /// The renditions.
    pub types: Vec<MediaType>,
    /// The name that stands for `<prettyName>` in a path template.
    pub pretty_name: Option<String>,
    /// Members of unknown purpose.
    pub unknown: Vec<UnknownField>,
}

/// Whether `types[i]` is the first rendition of the kind `kind`.
pub open spec fn is_first_of_kind(types: Seq<MediaType>, kind: Seq<char>, i: int) -> bool {
    &&& 0 <= i < types.len()
    &&& types[i].has_kind(kind)
    &&& forall|j: int| 0 <= j < i ==> !(#[trigger] types[j]).has_kind(kind)
}

/// The index of the first rendition of the kind `kind`, if there is one.
pub open spec fn first_of_kind(types: Seq<MediaType>, kind: Seq<char>) -> Option<int> {
    if exists|i: int| is_first_of_kind(types, kind, i) {
        Some(choose|i: int| is_first_of_kind(types, kind, i))
    } else {
        None
    }
}

/// Whether `types[i]` is a video that no video is wider than, and the first
/// such one.
pub open spec fn is_best_video(types: Seq<MediaType>, i: int) -> bool {
    &&& 0 <= i < types.len()
    &&& types[i].has_kind("video"@)
    &&& forall|j: int|
        0 <= j < types.len() && (#[trigger] types[j]).has_kind("video"@) ==> types[j].width
            <= types[i].width
    &&& forall|j: int|
        0 <= j < i && (#[trigger] types[j]).has_kind("video"@) ==> types[j].width
            < types[i].width
}

/// The index of the widest video, the first one among equals, if there is a
/// video.
pub open spec fn best_video(types: Seq<MediaType>) -> Option<int> {
    if exists|i: int| is_best_video(types, i) {
        Some(choose|i: int| is_best_video(types, i))
    } else {
        None
    }
}

/// At most one rendition is the first of its kind.
pub proof fn lemma_first_of_kind_unique(types: Seq<MediaType>, kind: Seq<char>, i: int, j: int)
    requires
        is_first_of_kind(types, kind, i),
        is_first_of_kind(types, kind, j),
    ensures
        i == j,
{
    if i < j {
        assert(!types[i].has_kind(kind));
    }
    if j < i {
        assert(!types[j].has_kind(kind));
    }
}

/// At most one rendition is the best video.
pub proof fn lemma_best_video_unique(types: Seq<MediaType>, i: int, j: int)
    requires
        is_best_video(types, i),
        is_best_video(types, j),
    ensures
        i == j,
{
    if i < j {
        assert(types[i].width < types[j].width);
        assert(types[j].width <= types[i].width);
    }
    if j < i {
        assert(types[j].width < types[i].width);
        assert(types[i].width <= types[j].width);
    }
}

/// The choice among videos: the result is a video, no video is wider, and
/// every video before it is strictly narrower, so that among videos of the
/// greatest width the first one in the list is taken. There is a result
/// whenever there is a video.
pub proof fn lemma_best_video_is_first_widest(types: Seq<MediaType>)
    ensures
        match best_video(types) {
            Some(i) => is_best_video(types, i),
            None => forall|j: int| 0 <= j < types.len() ==> !(#[trigger] types[j]).has_kind(
                "video"@,
            ),
        },
    decreases types.len(),
{
    if best_video(types) is None {
        if exists|j: int| 0 <= j < types.len() && (#[trigger] types[j]).has_kind("video"@) {
            let front = types.drop_last();
            lemma_best_video_is_first_widest(front);
            let last = types.len() - 1;
            match best_video(front) {
                Some(i) => {
                    assert(forall|j: int| 0 <= j < front.len() ==> front[j] == types[j]);
                    if types[last].has_kind("video"@) && types[last].width > types[i].width {
                        assert(is_best_video(types, last));
                    } else {
                        assert(is_best_video(types, i));
                    }
                },
                None => {
                    assert(forall|j: int| 0 <= j < front.len() ==> front[j] == types[j]);
                    assert(types[last].has_kind("video"@));
                    assert(is_best_video(types, last));
                },
            }
        }
    }
}

impl Media {
    /// Whether the media is as a decoded page gives it: the base URI, where
    /// there is one, is the text of a URL, and the base URI and every token
    /// are within the limit of the URL routines.
    pub open spec fn well_formed(&self) -> bool {
        &&& match self.base_uri {
            Some(base) => url_parses(base@) && text_fits(base@),
            None => true,
        }
        &&& forall|i: int| 0 <= i < self.token@.len() ==> text_fits((#[trigger] self.token@[i])@)
    }

    /// Tests `well_formed`.
    pub fn is_well_formed(&self) -> (ok: bool)
        ensures
            ok == self.well_formed(),
    {
        match &self.base_uri {
            Some(base) => {
                if !is_url(base.as_str()) || !fits(base.as_str()) {
                    return false;
                }
            },
            None => {},
        }
        let mut i: usize = 0;
        while i < self.token.len()
            invariant
                i <= self.token.len(),
                forall|j: int| 0 <= j < i ==> text_fits((#[trigger] self.token@[j])@),
            decreases self.token.len() - i,
        {
            if !fits(self.token[i].as_str()) {
                return false;
            }
            i += 1;
        }
        true
    }

    /// The first rendition of the kind `kind`.
    fn find_kind(&self, kind: &str) -> (found: Option<usize>)
        ensures
            match found {
                Some(i) => first_of_kind(self.types@, kind@) == Some(i as int),
                None => first_of_kind(self.types@, kind@) is None,
            },
    {
        let wanted = to_chars(kind);
        let mut i: usize = 0;
        while i < self.types.len()
            invariant
                i <= self.types.len(),
                wanted@ == kind@,
                forall|j: int| 0 <= j < i ==> !(#[trigger] self.types@[j]).has_kind(kind@),
            decreases self.types.len() - i,
        {
            let have = to_chars(self.types[i].kind.as_str());
            if chars_eq(&have, &wanted) {
                proof {
                    assert(is_first_of_kind(self.types@, kind@, i as int));
                    let k = choose|k: int| is_first_of_kind(self.types@, kind@, k);
                    lemma_first_of_kind_unique(self.types@, kind@, i as int, k);
                }
                return Some(i);
            }
            i += 1;
        }
        None
    }

    /// The fullview rendition: the first one of that kind.
    pub fn get_fullview_media_type(&self) -> (found: Option<&MediaType>)
        ensures
            match first_of_kind(self.types@, "fullview"@) {
                Some(i) => found == Some(&self.types@[i]),
                None => found is None,
            },
    {
        match self.find_kind("fullview") {
            Some(i) => Some(&self.types[i]),
            None => None,
        }
    }

    /// The gif rendition: the first one of that kind.
    pub fn get_gif_media_type(&self) -> (found: Option<&MediaType>)
        ensures
            match first_of_kind(self.types@, "gif"@) {
                Some(i) => found == Some(&self.types@[i]),
                None => found is None,
            },
    {
        match self.find_kind("gif") {
            Some(i) => Some(&self.types[i]),
            None => None,
        }
    }

    /// The best video rendition: the widest one, and among equally wide ones
    /// the first in the list.
    pub fn get_best_video_media_type(&self) -> (found: Option<&MediaType>)
        ensures
            match best_video(self.types@) {
                Some(i) => found == Some(&self.types@[i]),
                None => found is None,
            },
            match found {
                Some(t) => exists|i: int| is_best_video(self.types@, i) && *t == self.types@[i],
                None => forall|j: int|
                    0 <= j < self.types.len() ==> !(#[trigger] self.types@[j]).has_kind("video"@),
            },
    {
        let mut best: Option<usize> = None;
        let mut i: usize = 0;
        while i < self.types.len()
            invariant
                i <= self.types.len(),
                match best {
                    Some(b) => b < i && is_best_video(self.types@.take(i as int), b as int),
                    None => forall|j: int|
                        0 <= j < i ==> !(#[trigger] self.types@[j]).has_kind("video"@),
                },
            decreases self.types.len() - i,
        {
            let ghost before = self.types@.take(i as int);
            let ghost after = self.types@.take(i + 1);
            assert(forall|j: int| 0 <= j < i ==> before[j] == after[j]);
            assert(forall|j: int| 0 <= j <= i ==> after[j] == self.types@[j]);
            if self.types[i].is_video() {
                match best {
                    Some(b) => {
                        if self.types[i].width > self.types[b].width {
                            best = Some(i);
                        }
                        assert(is_best_video(after, best.unwrap() as int));
                    },
                    None => {
                        best = Some(i);
                        assert(is_best_video(after, i as int));
                    },
                }
            } else {
                match best {
                    Some(b) => {
                        assert(is_best_video(after, b as int));
                    },
                    None => {},
                }
            }
            i += 1;
        }
        assert(self.types@.take(self.types.len() as int) == self.types@);
        match best {
            Some(b) => {
                proof {
                    let k = choose|k: int| is_best_video(self.types@, k);
                    lemma_best_video_unique(self.types@, b as int, k);
                }
                Some(&self.types[b])
            },
            None => {
                assert(forall|k: int| !is_best_video(self.types@, k));
                None
            },
        }
    }
}

/// `url` with the first token of `tokens` in its query, or `url` itself
/// where there is no token.
pub open spec fn with_first_token(url: Seq<char>, tokens: Seq<String>) -> Result<
    Seq<char>,
    FullviewFailure,
> {
    if tokens.len() == 0 {
        Ok(url)
    } else {
        match url_with_token(url, tokens[0]@) {
            Some(with) => Ok(with),
            None => Err(FullviewFailure::InvalidBaseUri),
        }
    }
}

/// `base` with the path that the template `content` gives, or `base` itself
/// where there is no template.
pub open spec fn with_fullview_path(
    base: Seq<char>,
    content: Option<Seq<char>>,
    pretty_name: Option<Seq<char>>,
    options: GetFullviewUrlOptions,
) -> Result<Seq<char>, FullviewFailure> {
    match content {
        None => Ok(base),
        Some(content) => match fullview_path_of(content, pretty_name, options) {
            Err(e) => Err(e),
            Ok(path) => match url_with_segments(base, path) {
                Some(with) => Ok(with),
                None => Err(FullviewFailure::InvalidBaseUri),
            },
        },
    }
}

/// The fullview URL of `media` for the caller's choices, or why there is
/// none: the base URI, followed by the path that the fullview rendition's
/// template gives, with the first token in the query where there is one.
pub open spec fn fullview_url_of(media: Media, options: GetFullviewUrlOptions) -> Result<
    Seq<char>,
    FullviewFailure,
> {
    match media.base_uri {
        None => Err(FullviewFailure::MissingBaseUri),
        Some(base) => match first_of_kind(media.types@, "fullview"@) {
            None => Err(FullviewFailure::MissingMediaType),
            Some(i) => match with_fullview_path(
                base@,
                text_of(media.types@[i].content),
                text_of(media.pretty_name),
                options,
            ) {
                Err(e) => Err(e),
                Ok(with) => with_first_token(with, media.token@),
            },
        },
    }
}

/// The result of building a URL, with its texts as sequences.
pub open spec fn url_view(url: Result<String, GetFullviewUrlError>) -> Result<
    Seq<char>,
    FullviewFailure,
> {
    match url {
        Ok(url) => Ok(url@),
        Err(e) => Err(e@),
    }
}

impl Media {
    /// The fullview URL of this media, for the caller's choices.
    pub fn get_fullview_url(&self, options: &GetFullviewUrlOptions) -> (url: Result<
        String,
        GetFullviewUrlError,
    >)
        ensures
            url_view(url) == fullview_url_of(*self, *options),
    {
        let base = match &self.base_uri {
            Some(base) => base,
            None => {
                return Err(GetFullviewUrlError::MissingBaseUri);
            },
        };
        let fullview = match self.get_fullview_media_type() {
            Some(fullview) => fullview,
            None => {
                return Err(GetFullviewUrlError::MissingMediaType);
            },
        };
        let with_path: String = match &fullview.content {
            None => base.clone(),
            Some(content) => {
                let path = match fullview_path(content.as_str(), &self.pretty_name, options) {
                    Ok(path) => path,
                    Err(e) => {
                        return Err(e);
                    },
                };
                match with_segments(base.as_str(), &path) {
                    Some(with) => with,
                    None => {
                        return Err(GetFullviewUrlError::InvalidBaseUri);
                    },
                }
            },
        };
        if self.token.len() == 0 {
            return Ok(with_path);
        }
        match with_token(with_path.as_str(), self.token[0].as_str()) {
            Some(with) => Ok(with),
            None => Err(GetFullviewUrlError::InvalidBaseUri),
        }
    }
}

} // verus!
