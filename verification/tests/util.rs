use deviantart::util::{escape_filename, sanitize_path};

#[test]
fn sanitize_path_replaces_reserved_characters() {
    assert_eq!(sanitize_path("a:b?c/d|e*f"), "a-b-c-d-e-f");
}

#[test]
fn sanitize_path_keeps_other_characters() {
    assert_eq!(sanitize_path("Title-123.jpg"), "Title-123.jpg");
    assert_eq!(sanitize_path(""), "");
    assert_eq!(sanitize_path("日本語 <>\\"), "日本語 <>\\");
}

#[test]
fn escape_filename_is_the_same_replacement() {
    assert_eq!(escape_filename("what?*.png"), "what--.png");
}
