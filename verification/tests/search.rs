use deviantart::search::{find_deviations, item_numbers, search_url, take_deviations, SearchCursor};
use deviantart::types::deviation::Deviation;
use deviantart::types::entries::Entry;
use deviantart::types::media::Media;
use deviantart::types::scraped_webpage_info::{
    BrowsePageStream, Config, DeviationExtended, Entities, GalleryFolder, ItemId, PublicSession,
    ScrapedWebPageInfo, StreamParams, Streams, User,
};
use deviantart::Error;

fn deviation(id: u64) -> Deviation {
    Deviation {
        block_reasons: Vec::new(),
        deviation_id: id,
        kind: "image".to_string(),
        url: format!("https://www.deviantart.com/someone/art/work-{id}"),
        media: Media {
            base_uri: None,
            token: Vec::new(),
            types: Vec::new(),
            pretty_name: None,
            unknown: Vec::new(),
        },
        title: format!("work {id}"),
        text_content: None,
        is_downloadable: false,
        unknown: Vec::new(),
    }
}

fn bare_page() -> ScrapedWebPageInfo {
    ScrapedWebPageInfo {
        config: Config { csrf_token: "config-csrf".to_string(), unknown: Vec::new() },
        entities: None,
        duper_browse: None,
        public_session: PublicSession { is_logged_in: false, unknown: Vec::new() },
        streams: None,
        csrf_token: None,
        gallection_section: None,
        lu_token: None,
        lu_token2: None,
        unknown: Vec::new(),
    }
}

fn browse_stream(cursor: &str, items: Vec<ItemId>) -> BrowsePageStream {
    BrowsePageStream {
        cursor: cursor.to_string(),
        has_less: false,
        has_more: true,
        items,
        items_per_fetch: 24,
        stream_params: StreamParams {
            request_params: Vec::new(),
            item_type: "deviation".to_string(),
            request_endpoint: "dabrowse/search/deviations".to_string(),
            initial_offset: 0,
            unknown: Vec::new(),
        },
        stream_type: "WITH_CURSOR".to_string(),
        stream_id: "@@BROWSE_PAGE_STREAM".to_string(),
        fetch_next_callback: "cb".to_string(),
        unknown: Vec::new(),
    }
}

fn results_page(cursor: &str, listed: &[u64], held: &[u64]) -> ScrapedWebPageInfo {
    let mut page = bare_page();
    page.entities = Some(Entities {
        deviation: held.iter().map(|id| Entry { key: id.to_string(), value: deviation(*id) }).collect(),
        deviation_extended: None,
        gallery_folder: None,
        user: None,
        unknown: Vec::new(),
    });
    page.streams = Some(Streams {
        browse_page_stream: Some(browse_stream(
            cursor,
            listed.iter().map(|id| ItemId::Number(*id)).collect(),
        )),
        streams: Vec::new(),
    });
    page
}

fn held(page: &ScrapedWebPageInfo) -> Vec<u64> {
    page.entities.as_ref().unwrap().deviation.iter().map(|e| e.value.deviation_id).collect()
}

fn ids(found: &[&Deviation]) -> Vec<u64> {
    found.iter().map(|d| d.deviation_id).collect()
}

#[test]
fn search_url_carries_query_and_cursor() {
    assert_eq!(search_url("sun", &None), Some("https://www.deviantart.com/search?q=sun".to_string()));
    assert_eq!(
        search_url("sun set", &Some("MTQw".to_string())),
        Some("https://www.deviantart.com/search?q=sun+set&cursor=MTQw".to_string())
    );
    let cursor = SearchCursor::new("a&b", Some("c=d"));
    assert_eq!(
        cursor.next_page_url(),
        Some("https://www.deviantart.com/search?q=a%26b&cursor=c%3Dd".to_string())
    );
    assert_eq!(cursor.query(), "a&b");
    assert_eq!(cursor.cursor().as_deref(), Some("c=d"));
    assert!(cursor.page().is_none());
}

#[test]
fn page_without_streams_is_refused_as_such() {
    let mut cursor = SearchCursor::new("sun", None);
    assert_eq!(cursor.next_page(bare_page()), Err(Error::MissingStreams));
    assert!(cursor.page().is_none());
    assert_eq!(cursor.cursor(), &None);
    assert!(cursor.current_deviations().is_none());
}

#[test]
fn page_without_browse_page_stream_is_refused_as_such() {
    let mut cursor = SearchCursor::new("sun", Some("start"));
    let mut page = bare_page();
    page.streams = Some(Streams { browse_page_stream: None, streams: Vec::new() });
    assert_eq!(cursor.next_page(page), Err(Error::MissingBrowsePageStream));
    assert!(cursor.page().is_none());
    assert_eq!(cursor.cursor().as_deref(), Some("start"));
}

#[test]
fn a_refused_page_keeps_the_page_before_it() {
    let mut cursor = SearchCursor::new("sun", None);
    assert_eq!(cursor.next_page(results_page("one", &[1, 2], &[1, 2])), Ok(()));
    assert_eq!(cursor.next_page(bare_page()), Err(Error::MissingStreams));
    assert_eq!(cursor.cursor().as_deref(), Some("one"));
    assert_eq!(ids(&cursor.current_deviations().unwrap().unwrap()), vec![1, 2]);
}

#[test]
fn two_pages_advance_the_cursor() {
    let mut cursor = SearchCursor::new("sun", None);
    assert_eq!(cursor.next_page_url().as_deref(), Some("https://www.deviantart.com/search?q=sun"));
    cursor.next_page(results_page("MjQ", &[11, 12, 13], &[13, 12, 11, 10])).expect("failed to get next page");
    assert_eq!(cursor.cursor().as_deref(), Some("MjQ"));
    let first = ids(&cursor.current_deviations().expect("missing page").expect("failed to look up deviations"));
    assert_eq!(first, vec![11, 12, 13]);
    assert_eq!(
        cursor.next_page_url().as_deref(),
        Some("https://www.deviantart.com/search?q=sun&cursor=MjQ")
    );
    cursor.next_page(results_page("NDg", &[14, 15], &[14, 15])).expect("failed to get next page");
    assert_eq!(cursor.cursor().as_deref(), Some("NDg"));
    assert_ne!(cursor.cursor().as_deref(), Some("MjQ"));
    let second = ids(&cursor.current_deviations().expect("missing page").expect("failed to look up deviations"));
    assert_eq!(second, vec![14, 15]);
    assert!(second.iter().all(|id| !first.contains(id)));
    assert_eq!(
        cursor.next_page_url().as_deref(),
        Some("https://www.deviantart.com/search?q=sun&cursor=NDg")
    );
}

#[test]
fn a_listed_work_that_is_not_held_is_named() {
    let mut cursor = SearchCursor::new("sun", None);
    cursor.next_page(results_page("c", &[1, 2, 3, 4], &[1, 3])).unwrap();
    assert_eq!(cursor.current_deviations().unwrap().unwrap_err(), Error::MissingDeviation(2));
    assert_eq!(cursor.take_current_deviations().unwrap().unwrap_err(), Error::MissingDeviation(2));
    let page = cursor.page().as_ref().expect("missing page");
    assert_eq!(held(page), vec![3]);
    assert!(page.streams.is_some());
}

#[test]
fn items_that_are_not_numbers_are_passed_over() {
    let items = vec![
        ItemId::Number(3),
        ItemId::Text("xx-4".to_string()),
        ItemId::Text("5".to_string()),
        ItemId::Other("null".to_string()),
        ItemId::Number(1),
    ];
    assert_eq!(item_numbers(&items), vec![3, 1]);
    assert_eq!(item_numbers(&Vec::new()), Vec::<u64>::new());
    let mut page = results_page("c", &[], &[1, 3, 4, 5]);
    page.streams.as_mut().unwrap().browse_page_stream.as_mut().unwrap().items = items;
    let mut cursor = SearchCursor::new("sun", None);
    cursor.next_page(page).unwrap();
    assert_eq!(ids(&cursor.current_deviations().unwrap().unwrap()), vec![3, 1]);
}

#[test]
fn taking_the_current_deviations_leaves_the_rest_of_the_page() {
    let mut cursor = SearchCursor::new("sun", None);
    assert!(cursor.take_current_deviations().is_none());
    assert!(cursor.page().is_none());
    let mut page = results_page("c", &[4, 2], &[1, 2, 3, 4, 5]);
    {
        let entities = page.entities.as_mut().unwrap();
        entities.deviation_extended = Some(vec![Entry {
            key: "2".to_string(),
            value: DeviationExtended {
                download: None,
                description: Some("second".to_string()),
                additional_media: None,
                is_da_protected: None,
                unknown: Vec::new(),
            },
        }]);
        entities.gallery_folder = Some(vec![Entry {
            key: "42".to_string(),
            value: GalleryFolder {
                folder_id: 42,
                name: "Featured".to_string(),
                owner: 9,
                unknown: Vec::new(),
            },
        }]);
        entities.user = Some(vec![Entry {
            key: "9".to_string(),
            value: User { user_id: 9, username: "someone".to_string(), unknown: Vec::new() },
        }]);
    }
    let before = page.clone();
    cursor.next_page(page).unwrap();
    let taken = cursor.take_current_deviations().unwrap().unwrap();
    assert_eq!(taken.iter().map(|d| d.deviation_id).collect::<Vec<_>>(), vec![4, 2]);
    assert_eq!(taken[0], deviation(4));
    assert_eq!(taken[1], deviation(2));

    let after = cursor.page().as_ref().expect("missing page");
    assert_eq!(held(after), vec![1, 3, 5]);
    assert_eq!(after.get_deviation_by_id(3), Some(&deviation(3)));
    assert!(after.get_deviation_by_id(4).is_none());
    assert!(after.get_deviation_by_id(2).is_none());
    let left = after.entities.as_ref().unwrap();
    let had = before.entities.as_ref().unwrap();
    assert_eq!(left.deviation_extended, had.deviation_extended);
    assert_eq!(left.gallery_folder, had.gallery_folder);
    assert_eq!(left.user, had.user);
    assert_eq!(left.unknown, had.unknown);
    assert_eq!(after.streams, before.streams);
    assert_eq!(after.config, before.config);
    assert_eq!(after.public_session, before.public_session);
    assert_eq!(after.get_deviation_extended_by_id(2).and_then(|e| e.description.as_deref()), Some("second"));
    assert_eq!(after.get_user_entity(9).map(|u| u.username.as_str()), Some("someone"));

    assert_eq!(cursor.current_deviations().unwrap().unwrap_err(), Error::MissingDeviation(4));
    assert_eq!(cursor.take_current_deviations().unwrap().unwrap_err(), Error::MissingDeviation(4));
    assert_eq!(held(cursor.page().as_ref().unwrap()), vec![1, 3, 5]);
    assert_eq!(cursor.cursor().as_deref(), Some("c"));
    assert_eq!(cursor.query(), "sun");
}

#[test]
fn taking_everything_leaves_an_empty_entity_map() {
    let mut cursor = SearchCursor::new("sun", None);
    cursor.next_page(results_page("c", &[2, 1], &[1, 2])).unwrap();
    let taken = cursor.take_current_deviations().unwrap().unwrap();
    assert_eq!(taken.iter().map(|d| d.deviation_id).collect::<Vec<_>>(), vec![2, 1]);
    let after = cursor.page().as_ref().expect("missing page");
    assert_eq!(held(after), Vec::<u64>::new());
    assert!(after.entities.is_some());
    cursor.next_page(results_page("d", &[7], &[7, 8])).unwrap();
    let taken = cursor.take_current_deviations().unwrap().unwrap();
    assert_eq!(taken.iter().map(|d| d.deviation_id).collect::<Vec<_>>(), vec![7]);
    assert_eq!(held(cursor.page().as_ref().unwrap()), vec![8]);
    assert_eq!(cursor.cursor().as_deref(), Some("d"));
}

#[test]
fn taking_leaves_the_other_works_in_the_page() {
    let mut page = results_page("c", &[], &[1, 2, 3, 4]);
    let taken = take_deviations(&mut page, &vec![3, 1]).unwrap();
    assert_eq!(taken.iter().map(|d| d.deviation_id).collect::<Vec<_>>(), vec![3, 1]);
    let left: Vec<u64> =
        page.entities.as_ref().unwrap().deviation.iter().map(|e| e.value.deviation_id).collect();
    assert_eq!(left, vec![2, 4]);
    assert_eq!(take_deviations(&mut page, &vec![2, 2]), Err(Error::MissingDeviation(2)));
    let found = find_deviations(&page, &vec![4, 4]).unwrap();
    assert_eq!(ids(&found), vec![4, 4]);
    assert_eq!(find_deviations(&page, &vec![4, 9, 8]), Err(Error::MissingDeviation(9)));
    assert_eq!(find_deviations(&bare_page(), &vec![1]), Err(Error::MissingDeviation(1)));
    assert_eq!(find_deviations(&bare_page(), &Vec::new()), Ok(Vec::new()));
}
