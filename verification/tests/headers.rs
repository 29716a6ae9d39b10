use rust_starter::web::headers::header_text;

#[test]
fn visible_ascii_and_tabs_read_as_text() {
    assert_eq!(header_text(Some(b"session=abc; theme=dark")), Some("session=abc; theme=dark".to_string()));
    assert_eq!(header_text(Some(b"a\tb")), Some("a\tb".to_string()));
    assert_eq!(header_text(Some(b"")), Some(String::new()));
}

#[test]
fn other_bytes_and_missing_headers_have_no_text() {
    assert_eq!(header_text(None), None);
    assert_eq!(header_text(Some(b"caf\xc3\xa9")), None);
    assert_eq!(header_text(Some(b"a\x7fb")), None);
    assert_eq!(header_text(Some(b"line\nbreak")), None);
}
