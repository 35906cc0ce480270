use deviantart::template::{
    fullview_path, read_options, with_option, write_options, FullviewParams, GetFullviewUrlError,
    GetFullviewUrlOptions,
};
use deviantart::types::deviation::Deviation;
use deviantart::types::media::{Media, MediaType};

const TEMPLATE: &str = "/v1/fit/w_1280,h_1024,q_80,strp/<prettyName>-fullview.jpg";

fn plain() -> GetFullviewUrlOptions {
    GetFullviewUrlOptions::new()
}

#[test]
fn plain_options_choose_nothing() {
    assert_eq!(
        GetFullviewUrlOptions::new(),
        GetFullviewUrlOptions { quality: None, strip: None, png: false }
    );
}

fn media_type(kind: &str, width: u64, content: Option<&str>, b: Option<&str>) -> MediaType {
    MediaType {
        content: content.map(String::from),
        height: width / 2,
        kind: kind.to_string(),
        width,
        b: b.map(String::from),
        unknown: Vec::new(),
    }
}

fn media(base: Option<&str>, tokens: &[&str], types: Vec<MediaType>, name: Option<&str>) -> Media {
    Media {
        base_uri: base.map(String::from),
        token: tokens.iter().map(|t| t.to_string()).collect(),
        types,
        pretty_name: name.map(String::from),
        unknown: Vec::new(),
    }
}

fn deviation(kind: &str, media: Media) -> Deviation {
    Deviation {
        block_reasons: Vec::new(),
        deviation_id: 119577071,
        kind: kind.to_string(),
        url: "https://www.deviantart.com/zilla774/art/chaos-gerbil-RAWR-119577071".to_string(),
        media,
        title: "chaos gerbil RAWR".to_string(),
        text_content: None,
        is_downloadable: true,
        unknown: Vec::new(),
    }
}

fn chars(s: &str) -> Vec<char> {
    s.chars().collect()
}

#[test]
fn fullview_path_fills_in_the_pretty_name() {
    let path = fullview_path(TEMPLATE, &Some("sample".to_string()), &plain());
    assert_eq!(
        path,
        Ok(vec![
            "v1".to_string(),
            "fit".to_string(),
            "w_1280,h_1024,q_80,strp".to_string(),
            "sample-fullview.jpg".to_string(),
        ])
    );
}

#[test]
fn fullview_path_png_replaces_the_jpg_suffix() {
    let options = GetFullviewUrlOptions { quality: None, strip: None, png: true };
    let path = fullview_path(TEMPLATE, &Some("sample".to_string()), &options).unwrap();
    assert_eq!(path[3], "sample-fullview.png");
    assert_eq!(path.len(), 4);
}

#[test]
fn fullview_path_png_needs_a_jpg() {
    let options = GetFullviewUrlOptions { quality: None, strip: None, png: true };
    let template = "/v1/fill/w_100,h_100/<prettyName>-fullview.gif";
    assert_eq!(
        fullview_path(template, &Some("sample".to_string()), &options),
        Err(GetFullviewUrlError::NotJpg)
    );
    let short = "/v1/fill/w_100,h_100/jpg";
    assert_eq!(
        fullview_path(short, &Some("sample".to_string()), &options),
        Err(GetFullviewUrlError::NotJpg)
    );
    assert!(fullview_path(template, &Some("sample".to_string()), &plain()).is_ok());
}

#[test]
fn fullview_path_refuses_an_unknown_mode() {
    let template = "/v1/crop/w_1280,h_1024,q_80,strp/<prettyName>-fullview.jpg";
    assert_eq!(
        fullview_path(template, &Some("sample".to_string()), &plain()),
        Err(GetFullviewUrlError::InvalidPathPart {
            expected: "fit|fill",
            actual: "crop".to_string(),
        })
    );
}

#[test]
fn fullview_path_refuses_an_unknown_version() {
    let template = "/v2/fit/w_1280,h_1024,q_80,strp/<prettyName>-fullview.jpg";
    assert_eq!(
        fullview_path(template, &Some("sample".to_string()), &plain()),
        Err(GetFullviewUrlError::InvalidPathPart { expected: "v1", actual: "v2".to_string() })
    );
}

#[test]
fn fullview_path_names_the_missing_part() {
    let name = Some("sample".to_string());
    assert_eq!(
        fullview_path("", &name, &plain()),
        Err(GetFullviewUrlError::MissingPathPart { expected: "v1" })
    );
    assert_eq!(
        fullview_path("///", &name, &plain()),
        Err(GetFullviewUrlError::MissingPathPart { expected: "v1" })
    );
    assert_eq!(
        fullview_path("/v1", &name, &plain()),
        Err(GetFullviewUrlError::MissingPathPart { expected: "fit|fill" })
    );
    assert_eq!(
        fullview_path("/v1/fill/", &name, &plain()),
        Err(GetFullviewUrlError::MissingPathPart { expected: "options" })
    );
    assert_eq!(
        fullview_path("/v1/fill/w_1,h_2", &name, &plain()),
        Err(GetFullviewUrlError::MissingPathPart { expected: "file name" })
    );
}

#[test]
fn fullview_path_refuses_a_fifth_part() {
    let template = "/v1/fit/w_1,h_2/<prettyName>.jpg/more/and-more";
    assert_eq!(
        fullview_path(template, &Some("sample".to_string()), &plain()),
        Err(GetFullviewUrlError::UnexpectedPathPart { actual: "more".to_string() })
    );
}

#[test]
fn fullview_path_needs_the_pretty_name() {
    assert_eq!(
        fullview_path(TEMPLATE, &None, &plain()),
        Err(GetFullviewUrlError::MissingPrettyName)
    );
}

#[test]
fn fullview_path_skips_empty_parts() {
    let template = "//v1///fill/w_10,h_20//<prettyName>.jpg/";
    assert_eq!(
        fullview_path(template, &Some("n".to_string()), &plain()),
        Ok(vec![
            "v1".to_string(),
            "fill".to_string(),
            "w_10,h_20".to_string(),
            "n.jpg".to_string()
        ])
    );
}

#[test]
fn fullview_path_refuses_a_duplicate_option() {
    let name = Some("sample".to_string());
    assert_eq!(
        fullview_path("/v1/fit/w_1,h_2,w_3/<prettyName>.jpg", &name, &plain()),
        Err(GetFullviewUrlError::DuplicateOption { option: "w_3".to_string() })
    );
    assert_eq!(
        fullview_path("/v1/fit/strp,strp/<prettyName>.jpg", &name, &plain()),
        Err(GetFullviewUrlError::DuplicateOption { option: "strp".to_string() })
    );
    assert_eq!(
        fullview_path("/v1/fit/q_1,h_2,q_1/<prettyName>.jpg", &name, &plain()),
        Err(GetFullviewUrlError::DuplicateOption { option: "q_1".to_string() })
    );
    assert_eq!(
        fullview_path("/v1/fit/h_2,h_2/<prettyName>.jpg", &name, &plain()),
        Err(GetFullviewUrlError::DuplicateOption { option: "h_2".to_string() })
    );
}

#[test]
fn fullview_path_refuses_an_invalid_option() {
    let name = Some("sample".to_string());
    for bad in ["x_1", "w_", "w_abc", "q_256", "w_4294967296", "strip", "w_1 ", "", "h_-1"] {
        let template = format!("/v1/fit/w_5,{bad},q_80/<prettyName>.jpg");
        assert_eq!(
            fullview_path(&template, &name, &plain()),
            Err(GetFullviewUrlError::InvalidOption { option: bad.to_string() }),
            "{bad}"
        );
    }
    assert_eq!(
        fullview_path("/v1/fit/w_5,w_x/<prettyName>.jpg", &name, &plain()),
        Err(GetFullviewUrlError::InvalidOption { option: "w_x".to_string() })
    );
}

#[test]
fn fullview_path_takes_the_largest_numbers() {
    let name = Some("sample".to_string());
    let template = "/v1/fit/w_4294967295,h_0,q_255/<prettyName>.jpg";
    let path = fullview_path(template, &name, &plain()).unwrap();
    assert_eq!(path[2], "w_4294967295,h_0,q_255");
}

#[test]
fn fullview_path_writes_options_in_a_fixed_order() {
    let name = Some("sample".to_string());
    let template = "/v1/fit/strp,q_80,h_1024,w_1280/<prettyName>.jpg";
    let path = fullview_path(template, &name, &plain()).unwrap();
    assert_eq!(path[2], "w_1280,h_1024,q_80,strp");
    let again = fullview_path(&format!("/v1/fit/{}/<prettyName>.jpg", path[2]), &name, &plain());
    assert_eq!(again.unwrap(), path);
}

#[test]
fn fullview_path_is_stable_under_its_own_output() {
    let name = Some("sample".to_string());
    let first = fullview_path(TEMPLATE, &name, &plain()).unwrap();
    let template = format!("/{}", first.join("/"));
    let second = fullview_path(&template, &name, &plain()).unwrap();
    assert_eq!(first, second);
}

#[test]
fn fullview_path_lets_the_caller_choose_quality_and_stripping() {
    let name = Some("sample".to_string());
    let options = GetFullviewUrlOptions { quality: Some(100), strip: Some(false), png: false };
    let path = fullview_path(TEMPLATE, &name, &options).unwrap();
    assert_eq!(path[2], "w_1280,h_1024,q_100");
    let options = GetFullviewUrlOptions { quality: None, strip: Some(true), png: false };
    let path = fullview_path("/v1/fit/w_1,h_2/<prettyName>.jpg", &name, &options).unwrap();
    assert_eq!(path[2], "w_1,h_2,strp");
}

#[test]
fn fullview_path_replaces_every_placeholder() {
    let name = Some("ab".to_string());
    let template = "/v1/fit/w_1/<prettyName>-<prettyName>-<prettyNam>.jpg";
    let path = fullview_path(template, &name, &plain()).unwrap();
    assert_eq!(path[3], "ab-ab-<prettyNam>.jpg");
}

#[test]
fn options_are_read_and_written() {
    let none = FullviewParams { width: None, height: None, quality: None, strip: false };
    assert_eq!(
        with_option(none, &chars("w_12")),
        Ok(FullviewParams { width: Some(12), height: None, quality: None, strip: false })
    );
    assert_eq!(
        with_option(none, &chars("w_+012")),
        Ok(FullviewParams { width: Some(12), height: None, quality: None, strip: false })
    );
    let items = vec![chars("h_7"), chars("strp"), chars("q_9")];
    let params = read_options(&items).unwrap();
    assert_eq!(
        params,
        FullviewParams { width: None, height: Some(7), quality: Some(9), strip: true }
    );
    assert_eq!(write_options(&params), chars("h_7,q_9,strp"));
    assert_eq!(write_options(&none), chars(""));
    assert_eq!(read_options(&Vec::new()), Ok(none));
}

#[test]
fn fullview_url_joins_base_path_and_token() {
    let fullview = media_type("fullview", 1280, Some(TEMPLATE), None);
    let m = media(
        Some("https://images.example.com/f/abc/file.jpg"),
        &["tok"],
        vec![fullview],
        Some("sample"),
    );
    assert_eq!(
        m.get_fullview_url(&plain()),
        Ok("https://images.example.com/f/abc/file.jpg/v1/fit/w_1280,h_1024,q_80,strp/sample-fullview.jpg?token=tok".to_string())
    );
    let d = deviation("image", m);
    let options = GetFullviewUrlOptions { quality: Some(90), strip: None, png: true };
    assert_eq!(
        d.get_fullview_url(&options),
        Ok("https://images.example.com/f/abc/file.jpg/v1/fit/w_1280,h_1024,q_90,strp/sample-fullview.png?token=tok".to_string())
    );
}

#[test]
fn fullview_url_without_template_is_the_base() {
    let fullview = media_type("fullview", 1280, None, None);
    let m = media(Some("https://images.example.com/f/file.gif"), &[], vec![fullview], None);
    assert_eq!(
        m.get_fullview_url(&plain()),
        Ok("https://images.example.com/f/file.gif".to_string())
    );
    let fullview = media_type("fullview", 1280, None, None);
    let m = media(Some("https://images.example.com/f/file.gif"), &["t1", "t2"], vec![fullview], None);
    assert_eq!(
        m.get_fullview_url(&plain()),
        Ok("https://images.example.com/f/file.gif?token=t1".to_string())
    );
}

#[test]
fn fullview_url_without_token_has_no_query() {
    let fullview = media_type("fullview", 1280, Some(TEMPLATE), None);
    let m = media(Some("https://images.example.com/f"), &[], vec![fullview], Some("sample"));
    assert_eq!(
        m.get_fullview_url(&plain()),
        Ok("https://images.example.com/f/v1/fit/w_1280,h_1024,q_80,strp/sample-fullview.jpg".to_string())
    );
}

#[test]
fn fullview_url_names_what_is_missing() {
    let fullview = media_type("fullview", 1280, Some(TEMPLATE), None);
    let m = media(None, &["tok"], vec![fullview], Some("sample"));
    assert_eq!(m.get_fullview_url(&plain()), Err(GetFullviewUrlError::MissingBaseUri));
    let gif = media_type("gif", 1280, None, None);
    let m = media(Some("https://images.example.com/f"), &["tok"], vec![gif], Some("sample"));
    assert_eq!(m.get_fullview_url(&plain()), Err(GetFullviewUrlError::MissingMediaType));
    let fullview = media_type("fullview", 1280, Some(TEMPLATE), None);
    let m = media(Some("not a url"), &["tok"], vec![fullview], Some("sample"));
    assert_eq!(m.get_fullview_url(&plain()), Err(GetFullviewUrlError::InvalidBaseUri));
    let fullview = media_type("fullview", 1280, Some(TEMPLATE), None);
    let m = media(Some("mailto:someone@example.com"), &[], vec![fullview], Some("sample"));
    assert_eq!(m.get_fullview_url(&plain()), Err(GetFullviewUrlError::InvalidBaseUri));
    let fullview = media_type("fullview", 1280, Some(TEMPLATE), None);
    let m = media(Some("https://images.example.com/f"), &["tok"], vec![fullview], None);
    assert_eq!(m.get_fullview_url(&plain()), Err(GetFullviewUrlError::MissingPrettyName));
}

#[test]
fn media_types_are_found_by_kind() {
    let m = media(
        None,
        &[],
        vec![
            media_type("150", 150, None, None),
            media_type("gif", 10, None, Some("https://example.com/a.gif")),
            media_type("fullview", 20, None, None),
            media_type("gif", 30, None, Some("https://example.com/b.gif")),
            media_type("fullview", 40, None, None),
        ],
        None,
    );
    assert_eq!(m.get_fullview_media_type().map(|t| t.width), Some(20));
    assert_eq!(m.get_gif_media_type().map(|t| t.width), Some(10));
    assert!(m.get_best_video_media_type().is_none());
    assert!(m.types[2].is_fullview() && !m.types[2].is_gif() && !m.types[2].is_video());
    assert!(m.types[1].is_gif() && !m.types[0].is_gif());
}

#[test]
fn best_video_is_the_first_of_the_widest() {
    let m = media(
        None,
        &[],
        vec![
            media_type("video", 640, None, Some("https://example.com/640.mp4")),
            media_type("fullview", 4000, None, None),
            media_type("video", 1920, None, Some("https://example.com/first.mp4")),
            media_type("video", 1280, None, Some("https://example.com/1280.mp4")),
            media_type("video", 1920, None, Some("https://example.com/second.mp4")),
        ],
        None,
    );
    let best = m.get_best_video_media_type().unwrap();
    assert_eq!(best.width, 1920);
    assert_eq!(best.b.as_deref(), Some("https://example.com/first.mp4"));
    let d = deviation("film", m);
    assert_eq!(d.get_best_video_url(), Some(&"https://example.com/first.mp4".to_string()));
    assert_eq!(d.get_extension(), Some("mp4".to_string()));
}

#[test]
fn preview_takes_the_first_token_and_download_the_second() {
    let d = deviation(
        "image",
        media(Some("https://images.example.com/f/file.jpg"), &["aaa", "bbb", "ccc"], vec![], None),
    );
    assert_eq!(
        d.get_media_url(),
        Some("https://images.example.com/f/file.jpg?token=aaa".to_string())
    );
    assert_eq!(
        d.get_download_url(),
        Some("https://images.example.com/f/file.jpg?token=bbb".to_string())
    );
    assert_eq!(d.get_image_download_url(), d.get_download_url());
}

#[test]
fn download_needs_two_tokens() {
    let d = deviation(
        "image",
        media(Some("https://images.example.com/f/file.jpg"), &["aaa"], vec![], None),
    );
    assert_eq!(
        d.get_media_url(),
        Some("https://images.example.com/f/file.jpg?token=aaa".to_string())
    );
    assert_eq!(d.get_download_url(), None);
    assert_eq!(d.get_image_download_url(), None);
    let d = deviation("image", media(Some("https://images.example.com/f/file.jpg"), &[], vec![], None));
    assert_eq!(d.get_media_url(), None);
    assert_eq!(d.get_download_url(), None);
    let d = deviation("image", media(None, &["aaa", "bbb"], vec![], None));
    assert_eq!(d.get_media_url(), None);
    assert_eq!(d.get_download_url(), None);
}

#[test]
fn tokens_are_encoded_for_the_query() {
    let d = deviation(
        "image",
        media(Some("https://images.example.com/f/file.jpg?x=1"), &["a b&c"], vec![], None),
    );
    assert_eq!(
        d.get_media_url(),
        Some("https://images.example.com/f/file.jpg?x=1&token=a+b%26c".to_string())
    );
}

#[test]
fn gif_url_takes_the_direct_url_and_the_first_token() {
    let types = vec![media_type("gif", 10, None, Some("https://example.com/anim.gif"))];
    let d = deviation("image", media(Some("https://example.com/base.png"), &["aaa"], types, None));
    assert_eq!(d.get_gif_url(), Some("https://example.com/anim.gif?token=aaa".to_string()));
    assert_eq!(d.get_image_download_url(), d.get_gif_url());
    assert_eq!(d.get_extension(), Some("gif".to_string()));
    let types = vec![media_type("gif", 10, None, None)];
    let d = deviation("image", media(Some("https://example.com/base.png"), &["aaa"], types, None));
    assert_eq!(d.get_gif_url(), None);
    assert_eq!(d.get_extension(), Some("png".to_string()));
}

#[test]
fn kinds_and_extensions() {
    let d = deviation("image", media(Some("https://example.com/a/b/file.name.JPG"), &[], vec![], None));
    assert!(d.is_image() && !d.is_literature() && !d.is_film());
    assert_eq!(d.get_extension(), Some("JPG".to_string()));
    let d = deviation("literature", media(Some("https://example.com/a.jpg"), &[], vec![], None));
    assert!(d.is_literature());
    assert_eq!(d.get_extension(), None);
    let d = deviation("film", media(Some("https://example.com/a.jpg"), &[], vec![], None));
    assert!(d.is_film());
    assert_eq!(d.get_extension(), None);
    let d = deviation("journal", media(Some("https://example.com/a.jpg"), &[], vec![], None));
    assert_eq!(d.get_extension(), None);
    let d = deviation("image", media(None, &[], vec![], None));
    assert_eq!(d.get_extension(), None);
}

#[test]
fn well_formed_media_has_a_base_that_is_a_url() {
    assert!(media(Some("https://images.example.com/f/file.jpg"), &["a", "b"], vec![], None).is_well_formed());
    assert!(media(None, &["a"], vec![], None).is_well_formed());
    assert!(media(None, &[], vec![], None).is_well_formed());
    assert!(media(Some("mailto:someone@example.com"), &[], vec![], None).is_well_formed());
    assert!(!media(Some("not a url"), &["a", "b"], vec![], None).is_well_formed());
    assert!(!media(Some(""), &[], vec![], None).is_well_formed());
    assert!(!media(Some("/f/file.jpg"), &[], vec![], None).is_well_formed());
}

#[test]
fn a_download_url_comes_exactly_with_base_and_two_tokens() {
    let gif = || vec![media_type("gif", 10, None, Some("https://example.com/anim.gif"))];
    for (base, tokens, expected) in [
        (Some("https://example.com/f.jpg"), vec!["a", "b"], true),
        (Some("https://example.com/f.jpg"), vec!["a", "b", "c"], true),
        (Some("https://example.com/f.jpg"), vec!["a"], false),
        (Some("https://example.com/f.jpg"), vec![], false),
        (None, vec!["a", "b"], false),
        (None, vec![], false),
    ] {
        let m = media(base, &tokens, gif(), None);
        assert!(m.is_well_formed());
        let d = deviation("image", m);
        assert_eq!(d.get_download_url().is_some(), expected, "{base:?} {tokens:?}");
        assert_eq!(d.get_media_url().is_some(), base.is_some() && !tokens.is_empty());
    }
    let d = deviation("image", media(Some("https://example.com/f.jpg"), &["a"], gif(), None));
    assert_eq!(d.get_download_url(), None);
    assert_eq!(d.get_gif_url(), Some("https://example.com/anim.gif?token=a".to_string()));
    let d = deviation("image", media(Some("no url"), &["a", "b"], vec![], None));
    assert!(!d.media.is_well_formed());
    assert_eq!(d.get_download_url(), None);
    assert_eq!(d.get_media_url(), None);
}
