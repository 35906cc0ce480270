use deviantart::types::deviation::Deviation;
use deviantart::types::entries::Entry;
use deviantart::types::media::Media;
use deviantart::types::scraped_webpage_info::{
    unescape_state, Config, DeviationExtended, DuperBrowse, Entities, FromHtmlStrError,
    GallectionSection, GalleryFolder, ItemId, PublicSession, RootStream, ScrapedWebPageInfo, Stream,
    Streams, User, WithOffsetStream,
};

fn deviation(id: u64, title: &str) -> Deviation {
    Deviation {
        block_reasons: Vec::new(),
        deviation_id: id,
        kind: "image".to_string(),
        url: format!("https://www.deviantart.com/someone/art/{title}-{id}"),
        media: Media {
            base_uri: None,
            token: Vec::new(),
            types: Vec::new(),
            pretty_name: None,
            unknown: Vec::new(),
        },
        title: title.to_string(),
        text_content: None,
        is_downloadable: false,
        unknown: Vec::new(),
    }
}

fn extended(description: &str) -> DeviationExtended {
    DeviationExtended {
        download: None,
        description: Some(description.to_string()),
        additional_media: None,
        is_da_protected: None,
        unknown: Vec::new(),
    }
}

fn entry<T>(key: &str, value: T) -> Entry<T> {
    Entry { key: key.to_string(), value }
}

fn bare_page() -> ScrapedWebPageInfo {
    ScrapedWebPageInfo {
        config: Config { csrf_token: "config-csrf".to_string(), unknown: Vec::new() },
        entities: None,
        duper_browse: None,
        public_session: PublicSession { is_logged_in: false, unknown: Vec::new() },
        streams: None,
        csrf_token: None,
        gallection_section: None,
        lu_token: None,
        lu_token2: None,
        unknown: Vec::new(),
    }
}

fn deviation_page(current: ItemId) -> ScrapedWebPageInfo {
    let mut page = bare_page();
    page.entities = Some(Entities {
        deviation: vec![
            entry("1", deviation(1, "one")),
            entry("119577071", deviation(119577071, "chaos-gerbil-RAWR")),
            entry("007", deviation(7, "padded")),
        ],
        deviation_extended: Some(vec![entry("119577071", extended("a gerbil"))]),
        gallery_folder: None,
        user: None,
        unknown: Vec::new(),
    });
    page.duper_browse = Some(DuperBrowse {
        root_stream: Some(RootStream { current_open_item: current, unknown: Vec::new() }),
        unknown: Vec::new(),
    });
    page
}

fn item_id(value: &serde_json::Value) -> ItemId {
    if let Some(n) = value.as_u64() {
        ItemId::Number(n)
    } else if let Some(s) = value.as_str() {
        ItemId::Text(s.to_string())
    } else {
        ItemId::Other(value.to_string())
    }
}

#[test]
fn parse_scraped_webpage() {
    let html = r#"<html><script>window.__INITIAL_STATE__ = JSON.parse("{\"@@config\":{\"csrfToken\":\"abc\"},\"@@DUPERBROWSE\":{\"rootStream\":{\"currentOpenItem\":119577071}},\"@@publicSession\":{\"isLoggedIn\":false}}");</script></html>"#;
    let json = ScrapedWebPageInfo::from_html_str(html).expect("failed to parse scraped webpage info");
    let value: serde_json::Value = serde_json::from_str(&json).expect("invalid json");
    let current = item_id(&value["@@DUPERBROWSE"]["rootStream"]["currentOpenItem"]);
    let scraped_webpage_info = deviation_page(current);
    assert_eq!(
        scraped_webpage_info.get_current_deviation_id().expect("missing current deviation id"),
        119577071
    );
}

#[test]
fn parse_login_webpage() {
    let html = r#"window.__INITIAL_STATE__ = JSON.parse("{\"@@config\":{\"csrfToken\":\"abc\"},\"@@publicSession\":{\"isLoggedIn\":false},\"csrfToken\":\"form-csrf\",\"luToken\":\"lu\"}");"#;
    let json = ScrapedWebPageInfo::from_html_str(html).expect("failed to parse scraped webpage info");
    let value: serde_json::Value = serde_json::from_str(&json).expect("invalid json");
    let mut page = bare_page();
    page.csrf_token = value["csrfToken"].as_str().map(String::from);
    page.lu_token = value["luToken"].as_str().map(String::from);
    assert_eq!(page.csrf_token.as_deref(), Some("form-csrf"));
    assert_eq!(page.lu_token.as_deref(), Some("lu"));
    assert!(!page.is_logged_in());
    assert_eq!(page.get_current_deviation_id(), None);
    assert!(page.get_current_deviation().is_none());
    assert!(page.get_deviation_by_id(1).is_none());
}

#[test]
fn state_is_found_and_unescaped() {
    let html = r#"<script>window.__INITIAL_STATE__ = JSON.parse("{\"k\":\"it\'s\",\"p\":\"a\\\\b\"}");</script>"#;
    assert_eq!(
        ScrapedWebPageInfo::from_html_str(html),
        Ok(r#"{"k":"it's","p":"a\\b"}"#.to_string())
    );
}

#[test]
fn state_ends_at_the_last_closing_on_its_line() {
    let html = "window.__INITIAL_STATE__ = JSON.parse(\"{}\");f(\"x\");\ng(\"y\");";
    assert_eq!(ScrapedWebPageInfo::from_html_str(html), Ok("{}\");f(\"x".to_string()));
}

#[test]
fn page_without_state_is_refused() {
    assert_eq!(
        ScrapedWebPageInfo::from_html_str("<html></html>"),
        Err(FromHtmlStrError::MissingInitialState)
    );
    assert_eq!(
        ScrapedWebPageInfo::from_html_str("window.__INITIAL_STATE__ = JSON.parse('{}');"),
        Err(FromHtmlStrError::MissingInitialState)
    );
    assert_eq!(
        ScrapedWebPageInfo::from_html_str("windowX__INITIAL_STATE__ = JSON.parse(\"{}\");"),
        Err(FromHtmlStrError::MissingInitialState)
    );
}

#[test]
fn unescaping_goes_in_three_passes() {
    assert_eq!(unescape_state(r#"\""#), "\"");
    assert_eq!(unescape_state(r#"\'"#), "'");
    assert_eq!(unescape_state(r#"\\"#), "\\");
    assert_eq!(unescape_state(r#"\\\""#), "\\\"");
    assert_eq!(unescape_state(r#"\\\\"#), "\\\\");
    assert_eq!(unescape_state(r#"\\\"#), "\\\\");
    assert_eq!(unescape_state(r#"plain"#), "plain");
    assert_eq!(unescape_state(""), "");
    assert_eq!(unescape_state(r#"\\'"#), "\\'");
}

#[test]
fn current_deviation_id_is_normalized() {
    assert_eq!(deviation_page(ItemId::Number(119577071)).get_current_deviation_id(), Some(119577071));
    let page = deviation_page(ItemId::Text("119577071".to_string()));
    assert_eq!(page.get_current_deviation_id(), Some(119577071));
    assert_eq!(page.get_current_deviation().map(|d| d.title.as_str()), Some("chaos-gerbil-RAWR"));
    assert_eq!(
        page.get_current_deviation_extended().and_then(|e| e.description.as_deref()),
        Some("a gerbil")
    );
    let page = deviation_page(ItemId::Text("0119577071".to_string()));
    assert_eq!(page.get_current_deviation_id(), Some(119577071));
    assert!(page.get_current_deviation().is_some());
    for bad in ["", "abc", "12a", "-1", "18446744073709551616", " 1"] {
        let page = deviation_page(ItemId::Text(bad.to_string()));
        assert_eq!(page.get_current_deviation_id(), None, "{bad}");
        assert!(page.get_current_deviation().is_none());
        assert!(page.get_current_deviation_extended().is_none());
    }
    let page = deviation_page(ItemId::Text("18446744073709551615".to_string()));
    assert_eq!(page.get_current_deviation_id(), Some(u64::MAX));
    let page = deviation_page(ItemId::Other("null".to_string()));
    assert_eq!(page.get_current_deviation_id(), None);
    assert_eq!(ItemId::Text("5".to_string()).as_u64(), None);
    assert_eq!(ItemId::Text("5".to_string()).to_u64(), Some(5));
    assert_eq!(ItemId::Number(5).as_u64(), Some(5));
}

#[test]
fn deviations_are_found_by_the_decimal_text_of_their_id() {
    let page = deviation_page(ItemId::Number(1));
    assert_eq!(page.get_deviation_by_id(1).map(|d| d.deviation_id), Some(1));
    assert_eq!(page.get_deviation_by_id(119577071).map(|d| d.deviation_id), Some(119577071));
    assert!(page.get_deviation_by_id(7).is_none());
    assert!(page.get_deviation_by_id(2).is_none());
    assert!(page.get_deviation_extended_by_id(119577071).is_some());
    assert!(page.get_deviation_extended_by_id(1).is_none());
    assert!(bare_page().get_deviation_extended_by_id(1).is_none());
}

#[test]
fn taking_a_deviation_leaves_the_others() {
    let mut page = deviation_page(ItemId::Number(1));
    let before = page.clone();
    assert_eq!(page.take_deviation_by_id(5), None);
    assert_eq!(page, before);
    let taken = page.take_deviation_by_id(119577071).expect("missing deviation");
    assert_eq!(taken.title, "chaos-gerbil-RAWR");
    assert!(page.get_deviation_by_id(119577071).is_none());
    assert!(page.get_deviation_by_id(1).is_some());
    assert_eq!(page.take_deviation_by_id(119577071), None);
    let left: Vec<&str> =
        page.entities.as_ref().unwrap().deviation.iter().map(|e| e.key.as_str()).collect();
    assert_eq!(left, vec!["1", "007"]);
    assert_eq!(page.entities.as_ref().unwrap().deviation_extended, before.entities.as_ref().unwrap().deviation_extended);
    assert_eq!(page.duper_browse, before.duper_browse);
    assert_eq!(bare_page().take_deviation_by_id(1), None);
}

fn offset_stream(items: &[u64], has_more: bool) -> WithOffsetStream {
    WithOffsetStream {
        items: items.to_vec(),
        items_per_fetch: 24,
        has_more,
        has_less: false,
        unknown: Vec::new(),
    }
}

#[test]
fn folder_stream_is_found_under_its_name() {
    let mut page = bare_page();
    page.streams = Some(Streams {
        browse_page_stream: None,
        streams: vec![
            entry("folder-deviations-gallery-4", Stream::WithOffset(offset_stream(&[4], false))),
            entry("folder-deviations-gallery-42", Stream::WithOffset(offset_stream(&[1, 2, 3], true))),
            entry("folder-deviations-gallery-43", Stream::Unknown("{\"streamType\":\"OTHER\"}".to_string())),
            entry("folder-deviations-gallery-042", Stream::WithOffset(offset_stream(&[9], false))),
            entry("folder-deviations-collection-44", Stream::WithOffset(offset_stream(&[8], false))),
        ],
    });
    assert_eq!(page.get_folder_deviations_stream(42).map(|s| s.items.clone()), Some(vec![1, 2, 3]));
    assert_eq!(page.get_folder_deviations_stream(4).map(|s| s.items.clone()), Some(vec![4]));
    assert!(page.get_folder_deviations_stream(43).is_none());
    assert!(page.get_folder_deviations_stream(44).is_none());
    assert!(page.get_folder_deviations_stream(0).is_none());
    assert!(bare_page().get_folder_deviations_stream(42).is_none());
    let unknown = Stream::Unknown("{}".to_string());
    assert!(unknown.as_with_offset_stream().is_none());
    let known = Stream::WithOffset(offset_stream(&[5], false));
    assert_eq!(known.as_with_offset_stream().map(|s| s.items.len()), Some(1));
}

#[test]
fn folder_and_user_entities_are_found_by_id() {
    let mut page = bare_page();
    assert_eq!(page.get_current_folder_id(), None);
    page.gallection_section =
        Some(GallectionSection { page: 1, selected_folder_id: 42, total_pages: 3, unknown: Vec::new() });
    assert_eq!(page.get_current_folder_id(), Some(42));
    assert!(page.get_gallery_folder_entity(42).is_none());
    page.entities = Some(Entities {
        deviation: Vec::new(),
        deviation_extended: None,
        gallery_folder: Some(vec![entry(
            "42",
            GalleryFolder { folder_id: 42, name: "Featured".to_string(), owner: 9, unknown: Vec::new() },
        )]),
        user: Some(vec![entry(
            "9",
            User { user_id: 9, username: "someone".to_string(), unknown: Vec::new() },
        )]),
        unknown: Vec::new(),
    });
    assert_eq!(page.get_gallery_folder_entity(42).map(|f| f.name.as_str()), Some("Featured"));
    assert!(page.get_gallery_folder_entity(9).is_none());
    assert_eq!(page.get_user_entity(9).map(|u| u.username.as_str()), Some("someone"));
    assert!(page.get_user_entity(42).is_none());
}

#[test]
fn a_key_that_occurs_twice_is_taken_once_at_a_time() {
    let mut page = deviation_page(ItemId::Number(1));
    page.entities.as_mut().unwrap().deviation.push(entry("1", deviation(1, "again")));
    assert_eq!(page.take_deviation_by_id(1).map(|d| d.title), Some("one".to_string()));
    assert_eq!(page.get_deviation_by_id(1).map(|d| d.title.as_str()), Some("again"));
    assert_eq!(page.take_deviation_by_id(1).map(|d| d.title), Some("again".to_string()));
    assert!(page.get_deviation_by_id(1).is_none());
}
