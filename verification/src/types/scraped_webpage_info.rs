//! The state that a page embeds: where it stands in the page's HTML, and the
//! entity graph that it decodes to.

use vstd::prelude::*;
use crate::decimal::{decimal_text, format_u64, parse_bounded, parse_text};
use crate::pattern::{capture_first_group, first_group};
use crate::text::{append_chars, from_chars, replace_all, replace_chars, to_chars};
use crate::types::deviation::Deviation;
use crate::types::entries::{distinct_keys, entry_index, find_entry, lemma_removed_is_gone, Entry};
use crate::types::media::{Media, UnknownField};

verus! {

/// The pattern that finds the state in a page: the first group is the
/// escaped JSON text.
pub const STATE_PATTERN: &'static str = r#"window\.__INITIAL_STATE__ = JSON\.parse\("(.*)"\);"#;

/// Why no state could be had from a page.
#[derive(Clone, Debug, PartialEq, Eq)]
pub enum FromHtmlStrError {
    /// The page holds no state.
    MissingInitialState,
    /// The state is not the JSON of a page; the text says why.
    InvalidJson(String),
}

/// The JSON text that the escaped text `capture` stands for: `\"` gives `"`,
/// then `\'` gives `'`, then `\\` gives `\`, each from left to right.
pub open spec fn unescaped(capture: Seq<char>) -> Seq<char> {
    replace_all(
        replace_all(replace_all(capture, seq!['\\', '"'], seq!['"']), seq!['\\', '\''], seq!['\'']),
        seq!['\\', '\\'],
        seq!['\\'],
    )
}

/// The JSON text of the state that the page `html` embeds, if it embeds one.
pub open spec fn state_json_of(html: Seq<char>) -> Option<Seq<char>> {
    match first_group(STATE_PATTERN@, html) {
        Some(capture) => Some(unescaped(capture)),
        None => None,
    }
}

/// Undoes the escaping of an embedded state.
pub fn unescape_state(capture: &str) -> (json: String)
    ensures
        json@ == unescaped(capture@),
{
    let chars = to_chars(capture);
    let mut backslash_quote: Vec<char> = Vec::new();
    backslash_quote.push('\\');
    backslash_quote.push('"');
    let mut quote: Vec<char> = Vec::new();
    quote.push('"');
    let mut backslash_tick: Vec<char> = Vec::new();
    backslash_tick.push('\\');
    backslash_tick.push('\'');
    let mut tick: Vec<char> = Vec::new();
    tick.push('\'');
    let mut two_backslashes: Vec<char> = Vec::new();
    two_backslashes.push('\\');
    two_backslashes.push('\\');
    let mut backslash: Vec<char> = Vec::new();
    backslash.push('\\');
    assert(backslash_quote@ == seq!['\\', '"']);
    assert(quote@ == seq!['"']);
    assert(backslash_tick@ == seq!['\\', '\'']);
    assert(tick@ == seq!['\'']);
    assert(two_backslashes@ == seq!['\\', '\\']);
    assert(backslash@ == seq!['\\']);
    let first = replace_chars(&chars, &backslash_quote, &quote);
    let second = replace_chars(&first, &backslash_tick, &tick);
    let third = replace_chars(&second, &two_backslashes, &backslash);
    from_chars(&third)
}

/// An identity as the site writes it: a number, or a text.
#[derive(Clone, Debug, PartialEq, Eq)]
pub enum ItemId {
    /// A number that fits 64 bits without sign.
    Number(u64),
    /// A text.
    Text(String),
    /// Any other JSON value, as its JSON text.
    Other(String),
}

impl ItemId {
    /// The number, for an identity that is written as a number.
    pub open spec fn number(self) -> Option<u64> {
        match self {
            ItemId::Number(n) => Some(n),
            _ => None,
        }
    }

    /// The identity as a number: the number itself, or the number that the
    /// text writes in decimal digits.
    pub open spec fn normalized(self) -> Option<u64> {
        match self {
            ItemId::Number(n) => Some(n),
            ItemId::Text(text) => match parse_text(text@, u64::MAX as nat) {
                Some(n) => Some(n as u64),
                None => None,
            },
            ItemId::Other(_) => None,
        }
    }

    /// The number, for an identity that is written as a number.
    pub fn as_u64(&self) -> (n: Option<u64>)
        ensures
            n == self.number(),
    {
        match self {
            ItemId::Number(n) => Some(*n),
            _ => None,
        }
    }

    /// The identity as a number.
    pub fn to_u64(&self) -> (n: Option<u64>)
        ensures
            n == self.normalized(),
    {
        match self {
            ItemId::Number(n) => Some(*n),
            ItemId::Text(text) => {
                let chars = to_chars(text.as_str());
                parse_bounded(&chars, 0xffff_ffff_ffff_ffff)
            },
            ItemId::Other(_) => None,
        }
    }
}

/// Page configuration.
#[derive(Clone, Debug, PartialEq, Eq)]
pub struct Config {
    /// The page's CSRF token.
    pub csrf_token: String,
    /// Members of unknown purpose.
    pub unknown: Vec<UnknownField>,
}

/// A file that the site offers for download.
#[derive(Clone, Debug, PartialEq, Eq)]
pub struct Download {
    /// The file size in bytes.
    pub filesize: u64,
    /// The image height.
    pub height: u32,
    /// The image width.
    pub width: u32,
    /// The kind of file.
    pub kind: String,
    /// The URL of the file.
    pub url: String,
    /// Members of unknown purpose.
    pub unknown: Vec<UnknownField>,
}

/// One more image or video of a work.
#[derive(Clone, Debug, PartialEq, Eq)]
pub struct AdditionalMedia {
    /// The media metadata.
    pub media: Media,
    /// Members of unknown purpose.
    pub unknown: Vec<UnknownField>,
}

/// Extended data of a work.
#[derive(Clone, Debug, PartialEq, Eq)]
pub struct DeviationExtended {
    /// The file offered for download.
    pub download: Option<Download>,
    /// The description, as HTML.
    pub description: Option<String>,
    /// Other media of this work.
    pub additional_media: Option<Vec<AdditionalMedia>>,
    /// Whether the work is protected.
    pub is_da_protected: Option<bool>,
    /// Members of unknown purpose.
    pub unknown: Vec<UnknownField>,
}

/// A gallery folder.
#[derive(Clone, Debug, PartialEq, Eq)]
pub struct GalleryFolder {
    /// The folder's identity. The site writes -1 at times.
    pub folder_id: i64,
    /// The name of the folder.
    pub name: String,
    /// The identity of the user who owns the folder.
    pub owner: u64,
    /// Members of unknown purpose.
    pub unknown: Vec<UnknownField>,
}

/// A user.
#[derive(Clone, Debug, PartialEq, Eq)]
pub struct User {
    /// The user's identity.
    pub user_id: u64,
    /// The user's name.
    pub username: String,
    /// Members of unknown purpose.
    pub unknown: Vec<UnknownField>,
}

/// The entities of a page, by kind and by the decimal text of their
/// identity.
#[derive(Clone, Debug, PartialEq, Eq)]
pub struct Entities {
    /// The works.
    pub deviation: Vec<Entry<Deviation>>,
    /// Extended data of works.
    pub deviation_extended: Option<Vec<Entry<DeviationExtended>>>,
    /// The gallery folders.
    pub gallery_folder: Option<Vec<Entry<GalleryFolder>>>,
    /// The users.
    pub user: Option<Vec<Entry<User>>>,
    /// Members of unknown purpose.
    pub unknown: Vec<UnknownField>,
}

/// The stream that a page of a single work is part of.
#[derive(Clone, Debug, PartialEq, Eq)]
pub struct RootStream {
    /// The identity of the work that the page shows.
    pub current_open_item: ItemId,
    /// Members of unknown purpose.
    pub unknown: Vec<UnknownField>,
}

/// The browsing context of a page.
#[derive(Clone, Debug, PartialEq, Eq)]
pub struct DuperBrowse {
    /// The stream that the page is part of.
    pub root_stream: Option<RootStream>,
    /// Members of unknown purpose.
    pub unknown: Vec<UnknownField>,
}

/// The session that a page was made for.
#[derive(Clone, Debug, PartialEq, Eq)]
pub struct PublicSession {
    /// Whether the user is logged in.
    pub is_logged_in: bool,
    /// Members of unknown purpose.
    pub unknown: Vec<UnknownField>,
}

/// A stream that is read by offset: the contents of a folder.
#[derive(Clone, Debug, PartialEq, Eq)]
pub struct WithOffsetStream {
    /// The identities of the works in the stream.
    pub items: Vec<u64>,
    /// The number of items per fetch.
    pub items_per_fetch: u32,
    /// Whether more items follow.
    pub has_more: bool,
    /// Whether items precede.
    pub has_less: bool,
    /// Members of unknown purpose.
    pub unknown: Vec<UnknownField>,
}

/// A request parameter of a stream.
#[derive(Clone, Debug, PartialEq, Eq)]
pub struct RequestParam {
    /// The parameter's name.
    pub name: String,
    /// The parameter's value.
    pub value: String,
}

/// The parameters of a stream.
#[derive(Clone, Debug, PartialEq, Eq)]
pub struct StreamParams {
    /// The request parameters.
    pub request_params: Vec<RequestParam>,
    /// The kind of item.
    pub item_type: String,
    /// The endpoint that gives more items.
    pub request_endpoint: String,
    /// The offset of the first item.
    pub initial_offset: u64,
    /// Members of unknown purpose.
    pub unknown: Vec<UnknownField>,
}

/// The stream of search results.
#[derive(Clone, Debug, PartialEq, Eq)]
pub struct BrowsePageStream {
    /// The cursor that asks for the page after this one.
    pub cursor: String,
    /// Whether results precede.
    pub has_less: bool,
    /// Whether more results follow.
    pub has_more: bool,
    /// The identities of the results: most are numbers, some are texts.
    pub items: Vec<ItemId>,
    /// The number of items per page.
    pub items_per_fetch: u64,
    /// The parameters of the stream.
    pub stream_params: StreamParams,
    /// The type of the stream.
    pub stream_type: String,
    /// The identity of the stream.
    pub stream_id: String,
    /// The callback that fetches the next page.
    pub fetch_next_callback: String,
    /// Members of unknown purpose.
    pub unknown: Vec<UnknownField>,
}

/// A named stream.
#[derive(Clone, Debug, PartialEq, Eq)]
pub enum Stream {
    /// A stream that is read by offset.
    WithOffset(WithOffsetStream),
    /// A stream of any other type, as its JSON text.
    Unknown(String),
}

impl Stream {
    /// This stream, if it is one that is read by offset.
    pub fn as_with_offset_stream(&self) -> (stream: Option<&WithOffsetStream>)
        ensures
            match *self {
                Stream::WithOffset(inner) => stream == Some(&inner),
                Stream::Unknown(_) => stream is None,
            },
    {
        match self {
            Stream::WithOffset(stream) => Some(stream),
            _ => None,
        }
    }
}

/// The streams of a page.
#[derive(Clone, Debug, PartialEq, Eq)]
pub struct Streams {
    /// The stream of search results.
    pub browse_page_stream: Option<BrowsePageStream>,
    /// The other streams, by name.
    pub streams: Vec<Entry<Stream>>,
}

/// The gallery that a page shows.
#[derive(Clone, Debug, PartialEq, Eq)]
pub struct GallectionSection {
    /// The current page.
    pub page: u64,
    /// The identity of the folder that is selected.
    pub selected_folder_id: u64,
    /// The number of pages.
    pub total_pages: u64,
    /// Members of unknown purpose.
    pub unknown: Vec<UnknownField>,
}

/// The state of a page.
#[derive(Clone, Debug, PartialEq, Eq)]
pub struct ScrapedWebPageInfo {
    /// Page configuration.
    pub config: Config,
    /// The entities of the page. A login page has none.
    pub entities: Option<Entities>,
    /// The browsing context.
    pub duper_browse: Option<DuperBrowse>,
    /// The session.
    pub public_session: PublicSession,
    /// The streams of the page. A login page has none.
    pub streams: Option<Streams>,
    /// The CSRF token of the login form: not the one of the configuration.
    pub csrf_token: Option<String>,
    /// The gallery, on the page of a folder.
    pub gallection_section: Option<GallectionSection>,
    /// The first token of the login form.
    pub lu_token: Option<String>,
    /// The second token of the login form.
    pub lu_token2: Option<String>,
    /// Members of unknown purpose.
    pub unknown: Vec<UnknownField>,
}

/// The works that `page` holds, with their keys.
pub open spec fn works_of(page: ScrapedWebPageInfo) -> Seq<Entry<Deviation>> {
    match page.entities {
        Some(entities) => entities.deviation@,
        None => seq![],
    }
}

/// The name of the stream that lists the works of the folder `folder_id`.
pub open spec fn folder_stream_key(folder_id: u64) -> Seq<char> {
    "folder-deviations-gallery-"@ + decimal_text(folder_id as nat)
}

/// The entity that `entries` holds under the decimal text of `id`.
pub open spec fn entity_by_id<T>(entries: Option<Vec<Entry<T>>>, id: u64) -> Option<T> {
    match entries {
        Some(entries) => match entry_index(entries@, decimal_text(id as nat)) {
            Some(i) => Some(entries@[i].value),
            None => None,
        },
        None => None,
    }
}

/// Looks up the entity that `entries` holds under the decimal text of `id`.
fn find_by_id<T>(entries: &Option<Vec<Entry<T>>>, id: u64) -> (found: Option<&T>)
    ensures
        match entity_by_id(*entries, id) {
            Some(entity) => found == Some(&entity),
            None => found is None,
        },
{
    match entries {
        Some(entries) => {
            let key = format_u64(id);
            match find_entry(entries, key.as_str()) {
                Some(i) => Some(&entries[i].value),
                None => None,
            }
        },
        None => None,
    }
}

impl ScrapedWebPageInfo {
    /// The identity of the work that the page shows, as a number.
    pub open spec fn current_id(self) -> Option<u64> {
        match self.duper_browse {
            Some(duper_browse) => match duper_browse.root_stream {
                Some(root_stream) => root_stream.current_open_item.normalized(),
                None => None,
            },
            None => None,
        }
    }

    /// The position, among the works of the page, of the one with the
    /// identity `id`.
    pub open spec fn deviation_index(self, id: u64) -> Option<int> {
        match self.entities {
            Some(entities) => entry_index(entities.deviation@, decimal_text(id as nat)),
            None => None,
        }
    }

    /// The work with the identity `id`.
    pub open spec fn deviation(self, id: u64) -> Option<Deviation> {
        match self.deviation_index(id) {
            Some(i) => Some(self.entities.unwrap().deviation@[i].value),
            None => None,
        }
    }

    /// The extended data of the work with the identity `id`.
    pub open spec fn deviation_extended(self, id: u64) -> Option<DeviationExtended> {
        match self.entities {
            Some(entities) => entity_by_id(entities.deviation_extended, id),
            None => None,
        }
    }

    /// The folder stream of the folder `folder_id`: the stream of that
    /// folder's name, if it is one that is read by offset.
    pub open spec fn folder_stream(self, folder_id: u64) -> Option<WithOffsetStream> {
        match self.streams {
            Some(streams) => match entry_index(streams.streams@, folder_stream_key(folder_id)) {
                Some(i) => match streams.streams@[i].value {
                    Stream::WithOffset(stream) => Some(stream),
                    Stream::Unknown(_) => None,
                },
                None => None,
            },
            None => None,
        }
    }

    /// Finds the state that the page `input` embeds and undoes its escaping.
    /// The result is the JSON text of the state.
    pub fn from_html_str(input: &str) -> (json: Result<String, FromHtmlStrError>)
        ensures
            match state_json_of(input@) {
                Some(text) => json is Ok && json.unwrap()@ == text,
                None => json == Err::<String, FromHtmlStrError>(
                    FromHtmlStrError::MissingInitialState,
                ),
            },
    {
        match capture_first_group(STATE_PATTERN, input) {
            Some(capture) => Ok(unescape_state(capture.as_str())),
            None => Err(FromHtmlStrError::MissingInitialState),
        }
    }

    /// Whether the page was made for a user who is logged in.
    pub fn is_logged_in(&self) -> (yes: bool)
        ensures
            yes == self.public_session.is_logged_in,
    {
        self.public_session.is_logged_in
    }

    /// The identity of the work that the page shows, as a number.
    pub fn get_current_deviation_id(&self) -> (id: Option<u64>)
        ensures
            id == self.current_id(),
    {
        match &self.duper_browse {
            Some(duper_browse) => match &duper_browse.root_stream {
                Some(root_stream) => root_stream.current_open_item.to_u64(),
                None => None,
            },
            None => None,
        }
    }

    /// The work that the page shows.
    pub fn get_current_deviation(&self) -> (found: Option<&Deviation>)
        ensures
            match self.current_id() {
                Some(id) => match self.deviation(id) {
                    Some(deviation) => found == Some(&deviation),
                    None => found is None,
                },
                None => found is None,
            },
    {
        match self.get_current_deviation_id() {
            Some(id) => self.get_deviation_by_id(id),
            None => None,
        }
    }

    /// The extended data of the work that the page shows.
    pub fn get_current_deviation_extended(&self) -> (found: Option<&DeviationExtended>)
        ensures
            match self.current_id() {
                Some(id) => match self.deviation_extended(id) {
                    Some(extended) => found == Some(&extended),
                    None => found is None,
                },
                None => found is None,
            },
    {
        match self.get_current_deviation_id() {
            Some(id) => self.get_deviation_extended_by_id(id),
            None => None,
        }
    }

    /// The work with the identity `id`: the one that the page holds under
    /// the decimal text of `id`.
    pub fn get_deviation_by_id(&self, id: u64) -> (found: Option<&Deviation>)
        ensures
            match self.deviation(id) {
                Some(deviation) => found == Some(&deviation),
                None => found is None,
            },
    {
        match &self.entities {
            Some(entities) => {
                let key = format_u64(id);
                match find_entry(&entities.deviation, key.as_str()) {
                    Some(i) => Some(&entities.deviation[i].value),
                    None => None,
                }
            },
            None => None,
        }
    }

    /// The extended data of the work with the identity `id`.
    pub fn get_deviation_extended_by_id(&self, id: u64) -> (found: Option<&DeviationExtended>)
        ensures
            match self.deviation_extended(id) {
                Some(extended) => found == Some(&extended),
                None => found is None,
            },
    {
        match &self.entities {
            Some(entities) => find_by_id(&entities.deviation_extended, id),
            None => None,
        }
    }

    /// Takes the work with the identity `id` out of the page. The other
    /// works stay, in their order, and nothing else changes. Where no key
    /// occurs twice among the works, as in a page that was decoded, the work
    /// is found no more afterwards.
    pub fn take_deviation_by_id(&mut self, id: u64) -> (taken: Option<Deviation>)
        ensures
            taken == old(self).deviation(id),
            distinct_keys(works_of(*old(self))) ==> final(self).deviation(id) is None
                && distinct_keys(works_of(*final(self))),
            match old(self).deviation_index(id) {
                Some(i) => *final(self) == (ScrapedWebPageInfo {
                    entities: Some(
                        Entities {
                            deviation: final(self).entities.unwrap().deviation,
                            ..old(self).entities.unwrap()
                        },
                    ),
                    ..*old(self)
                }) && final(self).entities.unwrap().deviation@ == old(
                    self,
                ).entities.unwrap().deviation@.remove(i),
                None => *final(self) == *old(self),
            },
    {
        let mut entities = match self.entities.take() {
            Some(entities) => entities,
            None => {
                return None;
            },
        };
        let key = format_u64(id);
        let ghost before = entities.deviation@;
        let taken = match find_entry(&entities.deviation, key.as_str()) {
            Some(i) => {
                proof {
                    if distinct_keys(before) {
                        lemma_removed_is_gone(before, i as int);
                    }
                }
                Some(entities.deviation.remove(i).value)
            },
            None => None,
        };
        self.entities = Some(entities);
        taken
    }

    /// The identity of the folder that the page shows, on a gallery page.
    pub fn get_current_folder_id(&self) -> (id: Option<u64>)
        ensures
            id == match self.gallection_section {
                Some(section) => Some(section.selected_folder_id),
                None => None,
            },
    {
        match &self.gallection_section {
            Some(section) => Some(section.selected_folder_id),
            None => None,
        }
    }

    /// The stream that lists the works of the folder `folder_id`: the stream
    /// named `folder-deviations-gallery-` and the decimal text of the
    /// identity. A stream of that name that is not read by offset counts as
    /// absent.
    pub fn get_folder_deviations_stream(&self, folder_id: u64) -> (found: Option<
        &WithOffsetStream,
    >)
        ensures
            match self.folder_stream(folder_id) {
                Some(stream) => found == Some(&stream),
                None => found is None,
            },
    {
        let mut key = to_chars("folder-deviations-gallery-");
        let digits = format_u64(folder_id);
        let digit_chars = to_chars(digits.as_str());
        append_chars(&mut key, &digit_chars);
        let key = from_chars(&key);
        match &self.streams {
            Some(streams) => match find_entry(&streams.streams, key.as_str()) {
                Some(i) => streams.streams[i].value.as_with_offset_stream(),
                None => None,
            },
            None => None,
        }
    }

    /// The gallery folder with the identity `folder_id`.
    pub fn get_gallery_folder_entity(&self, folder_id: u64) -> (found: Option<&GalleryFolder>)
        ensures
            match self.entities {
                Some(entities) => match entity_by_id(entities.gallery_folder, folder_id) {
                    Some(folder) => found == Some(&folder),
                    None => found is None,
                },
                None => found is None,
            },
    {
        match &self.entities {
            Some(entities) => find_by_id(&entities.gallery_folder, folder_id),
            None => None,
        }
    }

    /// The user with the identity `user_id`.
    pub fn get_user_entity(&self, user_id: u64) -> (found: Option<&User>)
        ensures
            match self.entities {
                Some(entities) => match entity_by_id(entities.user, user_id) {
                    Some(user) => found == Some(&user),
                    None => found is None,
                },
                None => found is None,
            },
    {
        match &self.entities {
            Some(entities) => find_by_id(&entities.user, user_id),
            None => None,
        }
    }
}

} // verus!
