//! Paging through search results. The cursor says which page to ask for and
//! takes in the page that came back; fetching is the caller's part.

use vstd::prelude::*;
use crate::error::Error;
use crate::links::{url_with_named_pair, with_pair};
use crate::text::text_of;
use crate::types::deviation::Deviation;
use crate::decimal::decimal_text;
use crate::types::entries::{
    distinct_keys, entry_index, is_first_entry, lemma_has_first, lemma_remove_keeps_others,
    lemma_removed_is_gone, Entry,
};
use crate::types::scraped_webpage_info::{works_of, ItemId, ScrapedWebPageInfo};

verus! {

/// The address of the search page.
pub const SEARCH_URL: &'static str = "https://www.deviantart.com/search";

/// The URL that asks for the results of `query`, from `cursor` on where
/// there is one.
pub open spec fn search_url_of(query: Seq<char>, cursor: Option<Seq<char>>) -> Option<Seq<char>> {
    match url_with_named_pair(SEARCH_URL@, "q"@, query) {
        Some(url) => match cursor {
            Some(cursor) => url_with_named_pair(url, "cursor"@, cursor),
            None => Some(url),
        },
        None => None,
    }
}

/// Builds the URL that asks for the results of `query`, from `cursor` on
/// where there is one.
pub fn search_url(query: &str, cursor: &Option<String>) -> (url: Option<String>)
    ensures
        text_of(url) == search_url_of(query@, text_of(*cursor)),
{
    match with_pair(SEARCH_URL, "q", query) {
        Some(url) => match cursor {
            Some(cursor) => with_pair(url.as_str(), "cursor", cursor.as_str()),
            None => Some(url),
        },
        None => None,
    }
}

/// The identities among `items` that are written as numbers, in order.
pub open spec fn numbered_items(items: Seq<ItemId>) -> Seq<u64>
    decreases items.len(),
{
    if items.len() == 0 {
        seq![]
    } else {
        match items.last().number() {
            Some(n) => numbered_items(items.drop_last()).push(n),
            None => numbered_items(items.drop_last()),
        }
    }
}

/// The works of `page` with the identities `ids`, in that order, or the
/// first identity that the page holds no work for.
pub open spec fn deviations_of(page: ScrapedWebPageInfo, ids: Seq<u64>) -> Result<
    Seq<Deviation>,
    Error,
>
    decreases ids.len(),
{
    if ids.len() == 0 {
        Ok(seq![])
    } else {
        match deviations_of(page, ids.drop_last()) {
            Err(e) => Err(e),
            Ok(found) => match page.deviation(ids.last()) {
                Some(deviation) => Ok(found.push(deviation)),
                None => Err(Error::MissingDeviation(ids.last())),
            },
        }
    }
}

/// An identity that is missing among the first ones is missing in the whole
/// list.
pub proof fn lemma_deviations_missing(page: ScrapedWebPageInfo, ids: Seq<u64>, k: int)
    requires
        0 <= k <= ids.len(),
        deviations_of(page, ids.take(k)) is Err,
    ensures
        deviations_of(page, ids) == deviations_of(page, ids.take(k)),
    decreases ids.len(),
{
    if k == ids.len() {
        assert(ids.take(k) == ids);
    } else {
        assert(ids.drop_last().take(k) == ids.take(k));
        lemma_deviations_missing(page, ids.drop_last(), k);
    }
}

/// The works among `works` with the identities `ids`, each taken out before
/// the next one is looked up, or the first identity for which no work is
/// left.
pub open spec fn taken_from(works: Seq<Entry<Deviation>>, ids: Seq<u64>) -> Result<
    Seq<Deviation>,
    Error,
>
    decreases ids.len(),
{
    if ids.len() == 0 {
        Ok(seq![])
    } else {
        match entry_index(works, decimal_text(ids[0] as nat)) {
            None => Err(Error::MissingDeviation(ids[0])),
            Some(i) => match taken_from(works.remove(i), ids.skip(1)) {
                Err(e) => Err(e),
                Ok(rest) => Ok(seq![works[i].value] + rest),
            },
        }
    }
}

/// The works that are left of `works` after those with the identities `ids`
/// were taken out, one after the other, up to the first identity for which
/// no work is left.
pub open spec fn left_of(works: Seq<Entry<Deviation>>, ids: Seq<u64>) -> Seq<Entry<Deviation>>
    decreases ids.len(),
{
    if ids.len() == 0 {
        works
    } else {
        match entry_index(works, decimal_text(ids[0] as nat)) {
            None => works,
            Some(i) => left_of(works.remove(i), ids.skip(1)),
        }
    }
}

/// A work that is not among `works` is not among those that are left after
/// others were taken out.
pub proof fn lemma_absent_stays_absent(
    works: Seq<Entry<Deviation>>,
    ids: Seq<u64>,
    key: Seq<char>,
)
    requires
        entry_index(works, key) is None,
    ensures
        entry_index(left_of(works, ids), key) is None,
    decreases ids.len(),
{
    if ids.len() > 0 {
        let first = decimal_text(ids[0] as nat);
        match entry_index(works, first) {
            None => {},
            Some(i) => {
                assert(is_first_entry(works, first, i));
                if works[i].key@ == key {
                    lemma_has_first(works, key, i);
                }
                lemma_remove_keeps_others(works, i, key);
                lemma_absent_stays_absent(works.remove(i), ids.skip(1), key);
            },
        }
    }
}

/// Where no key occurs twice among `works`, none occurs twice among those
/// that are left.
pub proof fn lemma_left_keeps_distinct(works: Seq<Entry<Deviation>>, ids: Seq<u64>)
    requires
        distinct_keys(works),
    ensures
        distinct_keys(left_of(works, ids)),
    decreases ids.len(),
{
    if ids.len() > 0 {
        match entry_index(works, decimal_text(ids[0] as nat)) {
            None => {},
            Some(i) => {
                assert(is_first_entry(works, decimal_text(ids[0] as nat), i));
                lemma_removed_is_gone(works, i);
                lemma_left_keeps_distinct(works.remove(i), ids.skip(1));
            },
        }
    }
}

/// Where no key occurs twice among `works` and every work that is asked for
/// is there, none of the works that were taken is among those that are
/// left.
pub proof fn lemma_taken_are_gone(works: Seq<Entry<Deviation>>, ids: Seq<u64>, k: int)
    requires
        distinct_keys(works),
        taken_from(works, ids) is Ok,
        0 <= k < ids.len(),
    ensures
        entry_index(left_of(works, ids), decimal_text(ids[k] as nat)) is None,
    decreases ids.len(),
{
    let first = decimal_text(ids[0] as nat);
    let i = entry_index(works, first)->0;
    assert(is_first_entry(works, first, i));
    lemma_removed_is_gone(works, i);
    if k == 0 {
        lemma_absent_stays_absent(works.remove(i), ids.skip(1), first);
    } else {
        assert(ids.skip(1)[k - 1] == ids[k]);
        lemma_taken_are_gone(works.remove(i), ids.skip(1), k - 1);
    }
}

/// Whether the two pages differ in their works at most.
pub open spec fn same_but_works(a: ScrapedWebPageInfo, b: ScrapedWebPageInfo) -> bool {
    &&& a.config == b.config
    &&& a.duper_browse == b.duper_browse
    &&& a.public_session == b.public_session
    &&& a.streams == b.streams
    &&& a.csrf_token == b.csrf_token
    &&& a.gallection_section == b.gallection_section
    &&& a.lu_token == b.lu_token
    &&& a.lu_token2 == b.lu_token2
    &&& a.unknown == b.unknown
    &&& a.entities is Some == b.entities is Some
    &&& a.entities is Some ==> {
        &&& a.entities.unwrap().deviation_extended == b.entities.unwrap().deviation_extended
        &&& a.entities.unwrap().gallery_folder == b.entities.unwrap().gallery_folder
        &&& a.entities.unwrap().user == b.entities.unwrap().user
        &&& a.entities.unwrap().unknown == b.entities.unwrap().unknown
    }
}

/// The works of `page` with the identities `ids`, each taken out of the page
/// before the next one is looked up, or the first identity for which no work
/// is left.
pub open spec fn taken_deviations_of(page: ScrapedWebPageInfo, ids: Seq<u64>) -> Result<
    Seq<Deviation>,
    Error,
> {
    taken_from(works_of(page), ids)
}

/// The numbers among `items`, in order.
pub fn item_numbers(items: &Vec<ItemId>) -> (ids: Vec<u64>)
    ensures
        ids@ == numbered_items(items@),
{
    let mut ids: Vec<u64> = Vec::new();
    let mut i: usize = 0;
    assert(items@.take(0).len() == 0);
    while i < items.len()
        invariant
            i <= items.len(),
            ids@ == numbered_items(items@.take(i as int)),
        decreases items.len() - i,
    {
        proof {
            let upto = items@.take(i + 1);
            assert(upto.drop_last() == items@.take(i as int));
            assert(upto.last() == items@[i as int]);
        }
        match items[i].as_u64() {
            Some(n) => {
                ids.push(n);
            },
            None => {},
        }
        i += 1;
    }
    assert(items@.take(items.len() as int) == items@);
    ids
}

/// The works that the references point to.
pub open spec fn referents(found: Seq<&Deviation>) -> Seq<Deviation> {
    Seq::new(found.len(), |i: int| *found[i])
}

/// The outcome of a lookup with the works themselves.
pub open spec fn found_view(found: Result<Vec<&Deviation>, Error>) -> Result<Seq<Deviation>, Error> {
    match found {
        Ok(found) => Ok(referents(found@)),
        Err(e) => Err(e),
    }
}

/// The outcome of a taking with the works themselves.
pub open spec fn taken_view(taken: Result<Vec<Deviation>, Error>) -> Result<Seq<Deviation>, Error> {
    match taken {
        Ok(taken) => Ok(taken@),
        Err(e) => Err(e),
    }
}

/// Looks up the works of `page` with the identities `ids`.
pub fn find_deviations<'a>(page: &'a ScrapedWebPageInfo, ids: &Vec<u64>) -> (found: Result<
    Vec<&'a Deviation>,
    Error,
>)
    ensures
        found_view(found) == deviations_of(*page, ids@),
{
    let mut found: Vec<&Deviation> = Vec::new();
    let mut i: usize = 0;
    assert(ids@.take(0).len() == 0);
    assert(referents(found@) == Seq::<Deviation>::empty());
    while i < ids.len()
        invariant
            i <= ids.len(),
            deviations_of(*page, ids@.take(i as int)) == Ok::<Seq<Deviation>, Error>(
                referents(found@),
            ),
        decreases ids.len() - i,
    {
        proof {
            let upto = ids@.take(i + 1);
            assert(upto.drop_last() == ids@.take(i as int));
            assert(upto.last() == ids@[i as int]);
        }
        match page.get_deviation_by_id(ids[i]) {
            Some(deviation) => {
                let ghost before = referents(found@);
                found.push(deviation);
                assert(referents(found@) == before.push(*deviation));
            },
            None => {
                proof {
                    lemma_deviations_missing(*page, ids@, i + 1);
                }
                return Err(Error::MissingDeviation(ids[i]));
            },
        }
        i += 1;
    }
    assert(ids@.take(ids.len() as int) == ids@);
    Ok(found)
}

/// Takes the works with the identities `ids` out of `page`, one after the
/// other. The works that are not asked for stay in the page.
pub fn take_deviations(page: &mut ScrapedWebPageInfo, ids: &Vec<u64>) -> (taken: Result<
    Vec<Deviation>,
    Error,
>)
    ensures
        taken_view(taken) == taken_deviations_of(*old(page), ids@),
        works_of(*final(page)) == left_of(works_of(*old(page)), ids@),
        same_but_works(*final(page), *old(page)),
{
    let mut taken: Vec<Deviation> = Vec::new();
    let mut i: usize = 0;
    assert(ids@.skip(0) == ids@);
    while i < ids.len()
        invariant
            i <= ids.len(),
            same_but_works(*page, *old(page)),
            left_of(works_of(*page), ids@.skip(i as int)) == left_of(works_of(*old(page)), ids@),
            match taken_deviations_of(*page, ids@.skip(i as int)) {
                Ok(rest) => taken_deviations_of(*old(page), ids@) == Ok::<Seq<Deviation>, Error>(
                    taken@ + rest,
                ),
                Err(e) => taken_deviations_of(*old(page), ids@) == Err::<Seq<Deviation>, Error>(e),
            },
        decreases ids.len() - i,
    {
        let ghost before = *page;
        let ghost rest_ids = ids@.skip(i as int);
        assert(rest_ids[0] == ids@[i as int]);
        assert(rest_ids.skip(1) == ids@.skip(i + 1));
        match page.take_deviation_by_id(ids[i]) {
            Some(deviation) => {
                assert(works_of(*page) == works_of(before).remove(
                    before.deviation_index(ids@[i as int]).unwrap(),
                ));
                proof {
                    match taken_deviations_of(*page, ids@.skip(i + 1)) {
                        Ok(rest) => {
                            assert((taken@ + seq![deviation]) + rest == taken@ + (seq![deviation]
                                + rest));
                            assert(taken@.push(deviation) == taken@ + seq![deviation]);
                        },
                        Err(_) => {},
                    }
                }
                taken.push(deviation);
            },
            None => {
                return Err(Error::MissingDeviation(ids[i]));
            },
        }
        i += 1;
    }
    assert(ids@.skip(ids.len() as int).len() == 0);
    assert(taken@ + Seq::<Deviation>::empty() == taken@);
    Ok(taken)
}

/// What a search cursor holds.
pub struct SearchCursorView {
    /// The page that was taken in last, without the works that were taken
    /// out of it since.
    pub page: Option<ScrapedWebPageInfo>,
    /// The query.
    pub query: Seq<char>,
    /// The cursor that asks for the next page.
    pub cursor: Option<Seq<char>>,
}

/// Whether `page` can be taken in as a page of search results, or why not.
pub open spec fn page_check(page: ScrapedWebPageInfo) -> Result<Seq<char>, Error> {
    match page.streams {
        None => Err(Error::MissingStreams),
        Some(streams) => match streams.browse_page_stream {
            None => Err(Error::MissingBrowsePageStream),
            Some(stream) => Ok(stream.cursor@),
        },
    }
}

/// A page without streams is refused for that reason, and never for the
/// want of the stream of search results; a page with streams and without
/// that stream is refused for the want of it.
pub proof fn lemma_missing_streams_is_told_apart(page: ScrapedWebPageInfo)
    ensures
        page.streams is None ==> page_check(page) == Err::<Seq<char>, Error>(Error::MissingStreams),
        page.streams is Some && page.streams.unwrap().browse_page_stream is None ==> page_check(
            page,
        ) == Err::<Seq<char>, Error>(Error::MissingBrowsePageStream),
        Error::MissingStreams != Error::MissingBrowsePageStream,
{
}

/// The identities of the results of `page` that are written as numbers.
pub open spec fn result_ids(page: ScrapedWebPageInfo) -> Seq<u64> {
    numbered_items(page.streams.unwrap().browse_page_stream.unwrap().items@)
}

/// A walk through the pages of a search.
#[derive(Debug)]
pub struct SearchCursor {
    page: Option<ScrapedWebPageInfo>,
    query: String,
    cursor: Option<String>,
}

impl View for SearchCursor {
    type V = SearchCursorView;

    closed spec fn view(&self) -> SearchCursorView {
        SearchCursorView { page: self.page, query: self.query@, cursor: text_of(self.cursor) }
    }
}

impl SearchCursor {
    /// Whether the page of this cursor, if it has one, holds a stream of
    /// search results.
    pub open spec fn well_formed(&self) -> bool {
        match self@.page {
            Some(page) => page_check(page) is Ok,
            None => true,
        }
    }

    /// A cursor for `query` that starts at `cursor`, or at the first page.
    pub fn new(query: &str, cursor: Option<&str>) -> (made: Self)
        ensures
            made.well_formed(),
            made@.page is None,
            made@.query == query@,
            made@.cursor == match cursor {
                Some(cursor) => Some(cursor@),
                None => None,
            },
    {
        Self {
            page: None,
            query: query.to_owned(),
            cursor: match cursor {
                Some(cursor) => Some(cursor.to_owned()),
                None => None,
            },
        }
    }

    /// The query.
    pub fn query(&self) -> (query: &String)
        ensures
            query@ == self@.query,
    {
        &self.query
    }

    /// The cursor that asks for the next page.
    pub fn cursor(&self) -> (cursor: &Option<String>)
        ensures
            text_of(*cursor) == self@.cursor,
    {
        &self.cursor
    }

    /// The page that was taken in last.
    pub fn page(&self) -> (page: &Option<ScrapedWebPageInfo>)
        ensures
            *page == self@.page,
    {
        &self.page
    }

    /// The URL of the page to fetch next.
    pub fn next_page_url(&self) -> (url: Option<String>)
        ensures
            text_of(url) == search_url_of(self@.query, self@.cursor),
    {
        search_url(self.query.as_str(), &self.cursor)
    }

    /// The works of the current page: those that the page lists by number,
    /// in the order of the list. There is no answer before the first page.
    pub fn current_deviations(&self) -> (found: Option<Result<Vec<&Deviation>, Error>>)
        requires
            self.well_formed(),
        ensures
            match self@.page {
                Some(page) => found is Some && found_view(found.unwrap()) == deviations_of(
                    page,
                    result_ids(page),
                ),
                None => found is None,
            },
    {
        match &self.page {
            Some(page) => match &page.streams {
                Some(streams) => match &streams.browse_page_stream {
                    Some(stream) => {
                        let ids = item_numbers(&stream.items);
                        Some(find_deviations(page, &ids))
                    },
                    None => None,
                },
                None => None,
            },
            None => None,
        }
    }

    /// Takes the works of the current page out of it: those that the page
    /// lists by number, in the order of the list, each taken before the next
    /// is looked up. The page stays with the cursor; what was not taken
    /// stays in it, and nothing else of it changes.
    pub fn take_current_deviations(&mut self) -> (taken: Option<Result<Vec<Deviation>, Error>>)
        requires
            old(self).well_formed(),
        ensures
            final(self).well_formed(),
            final(self)@.query == old(self)@.query,
            final(self)@.cursor == old(self)@.cursor,
            match old(self)@.page {
                Some(page) => {
                    &&& taken is Some
                    &&& taken_view(taken.unwrap()) == taken_deviations_of(page, result_ids(page))
                    &&& final(self)@.page is Some
                    &&& works_of(final(self)@.page.unwrap()) == left_of(
                        works_of(page),
                        result_ids(page),
                    )
                    &&& same_but_works(final(self)@.page.unwrap(), page)
                },
                None => taken is None && final(self)@.page is None,
            },
    {
        let mut page = match self.page.take() {
            Some(page) => page,
            None => {
                return None;
            },
        };
        let ids = match &page.streams {
            Some(streams) => match &streams.browse_page_stream {
                Some(stream) => item_numbers(&stream.items),
                None => Vec::new(),
            },
            None => Vec::new(),
        };
        let taken = take_deviations(&mut page, &ids);
        self.page = Some(page);
        Some(taken)
    }

    /// Takes in the page that was fetched from `next_page_url`. A page
    /// without streams, or without the stream of search results, is refused
    /// and changes nothing. Any other page becomes the current page, and its
    /// cursor the cursor of this walk.
    pub fn next_page(&mut self, page: ScrapedWebPageInfo) -> (taken_in: Result<(), Error>)
        requires
            old(self).well_formed(),
        ensures
            final(self).well_formed(),
            final(self)@.query == old(self)@.query,
            match page_check(page) {
                Ok(cursor) => {
                    &&& taken_in is Ok
                    &&& final(self)@.page == Some(page)
                    &&& final(self)@.cursor == Some(cursor)
                },
                Err(e) => taken_in == Err::<(), Error>(e) && final(self)@ == old(self)@,
            },
    {
        let cursor = match &page.streams {
            None => {
                return Err(Error::MissingStreams);
            },
            Some(streams) => match &streams.browse_page_stream {
                None => {
                    return Err(Error::MissingBrowsePageStream);
                },
                Some(stream) => stream.cursor.clone(),
            },
        };
        self.cursor = Some(cursor);
        self.page = Some(page);
        Ok(())
    }
}

} // verus!
