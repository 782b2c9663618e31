use zdownload::extract::{extract_url, URL_PATTERN};

#[test]
fn pattern_is_accepted_by_the_regex_crate() {
    assert!(regex::Regex::new(URL_PATTERN).is_ok());
}

#[test]
fn extracts_the_url_from_surrounding_text() {
    assert_eq!(
        extract_url("看看这个 https://example.com/v?id=1 不错"),
        Some("https://example.com/v?id=1".to_string())
    );
    assert_eq!(
        extract_url("first http://a.example/x and then https://b.example/y"),
        Some("http://a.example/x".to_string())
    );
}

#[test]
fn extracts_each_shape_of_url() {
    assert_eq!(extract_url("ftp://host/file.mp4"), Some("ftp://host/file.mp4".to_string()));
    assert_eq!(extract_url("go to www.example.com now"), Some("www.example.com".to_string()));
    assert_eq!(extract_url("see example.com/path here"), Some("example.com/path".to_string()));
    assert_eq!(extract_url("HTTPS://EXAMPLE.COM/V"), Some("HTTPS://EXAMPLE.COM/V".to_string()));
}

#[test]
fn url_ends_at_space_bracket_or_quote() {
    assert_eq!(extract_url("<https://example.com/a>"), Some("https://example.com/a".to_string()));
    assert_eq!(extract_url("\"https://example.com/a\""), Some("https://example.com/a".to_string()));
    assert_eq!(extract_url("https://example.com/a\tb"), Some("https://example.com/a".to_string()));
}

#[test]
fn text_without_a_url_gives_nothing() {
    assert_eq!(extract_url(""), None);
    assert_eq!(extract_url("no link in here"), None);
    assert_eq!(extract_url("example.com"), None);
    assert_eq!(extract_url("https://"), None);
}

#[test]
fn extracted_url_is_a_piece_of_the_text() {
    for text in ["a https://x.y/z b", "www.a.b", "q example.org/ r", "nothing"] {
        if let Some(url) = extract_url(text) {
            assert!(text.contains(&url));
            assert!(!url.is_empty());
        }
    }
}
