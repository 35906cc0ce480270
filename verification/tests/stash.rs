use deviantart::types::entries::{find_entry, Entry};
use deviantart::types::scraped_stash_info::{Film, FromHtmlStrError, ScrapedStashInfo, Size};

fn size(width: u32, height: u32, src: &str) -> Size {
    Size { height, width, src: src.to_string(), unknown: Vec::new() }
}

fn film(sizes: Vec<(&str, Size)>) -> Film {
    Film {
        sizes: sizes.into_iter().map(|(key, value)| Entry { key: key.to_string(), value }).collect(),
        unknown: Vec::new(),
    }
}

#[test]
fn page_data_is_found() {
    let html = "<script>deviantART.pageData={\"csrf\":\"x\",\"deviationid\":590293385};</script>";
    assert_eq!(
        ScrapedStashInfo::from_html_str(html),
        Ok("{\"csrf\":\"x\",\"deviationid\":590293385}".to_string())
    );
    assert_eq!(
        ScrapedStashInfo::from_html_str("<script>deviantART.pageData = {};</script>"),
        Err(FromHtmlStrError::MissingPageData)
    );
}

#[test]
fn the_page_data_marker_is_matched_to_the_letter() {
    for html in [
        "deviantARTxpageData={};",
        "deviantART pageData={};",
        "deviantART/pageData={};",
        "deviantart.pageData={};",
        "deviantART.pageData={}",
    ] {
        assert_eq!(
            ScrapedStashInfo::from_html_str(html),
            Err(FromHtmlStrError::MissingPageData),
            "{html}"
        );
    }
    assert_eq!(ScrapedStashInfo::from_html_str("deviantART.pageData={};"), Ok("{}".to_string()));
    assert_eq!(
        ScrapedStashInfo::from_html_str("x;deviantART.pageData={\"a\":1};y;\nz;"),
        Ok("{\"a\":1};y".to_string())
    );
}

#[test]
fn best_size_has_the_greatest_area() {
    let f = film(vec![
        ("360p", size(640, 360, "https://example.com/360.mp4")),
        ("1080p", size(1920, 1080, "https://example.com/1080.mp4")),
        ("720p", size(1280, 720, "https://example.com/720.mp4")),
        ("1080p-b", size(1080, 1920, "https://example.com/other.mp4")),
    ]);
    assert_eq!(f.get_best_size().map(|s| s.src.as_str()), Some("https://example.com/1080.mp4"));
    assert!(film(Vec::new()).get_best_size().is_none());
    let huge = film(vec![
        ("a", size(u32::MAX, u32::MAX - 1, "a")),
        ("b", size(u32::MAX, u32::MAX, "b")),
        ("c", size(1, 1, "c")),
    ]);
    assert_eq!(huge.get_best_size().map(|s| s.src.as_str()), Some("b"));
    assert_eq!(size(u32::MAX, u32::MAX, "m").pixels(), 18446744065119617025);
}

#[test]
fn entries_are_found_by_their_first_key() {
    let entries = vec![
        Entry { key: "a".to_string(), value: 1 },
        Entry { key: "b".to_string(), value: 2 },
        Entry { key: "a".to_string(), value: 3 },
        Entry { key: "".to_string(), value: 4 },
    ];
    assert_eq!(find_entry(&entries, "a"), Some(0));
    assert_eq!(find_entry(&entries, "b"), Some(1));
    assert_eq!(find_entry(&entries, ""), Some(3));
    assert_eq!(find_entry(&entries, "c"), None);
    assert_eq!(find_entry(&Vec::<Entry<u8>>::new(), "a"), None);
}

#[test]
fn a_size_has_the_extension_of_its_path() {
    assert_eq!(size(1, 1, "https://example.com/v/film.mp4?sig=a.b").get_extension(), Some("mp4".to_string()));
    assert_eq!(size(1, 1, "https://example.com/v/film").get_extension(), None);
    assert_eq!(size(1, 1, "https://example.com").get_extension(), None);
    assert_eq!(size(1, 1, "film.mp4").get_extension(), None);
}
