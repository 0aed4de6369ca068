use galacritty::dropped::dropped_text;

#[test]
fn uris_lose_file_scheme_and_join_with_spaces() {
    let uris = vec![" file:///home/a.txt\r\n".to_string(), "file:///tmp/b c".to_string()];
    assert_eq!(dropped_text(&uris, &None), Some("/home/a.txt /tmp/b c".to_string()));
}

#[test]
fn uris_take_precedence_over_text() {
    let uris = vec!["http://example.org/".to_string()];
    let text = Some("ignored".to_string());
    assert_eq!(dropped_text(&uris, &text), Some("http://example.org/".to_string()));
}

#[test]
fn text_is_trimmed_and_stripped() {
    let text = Some("\u{a0} file:///etc/hosts\n".to_string());
    assert_eq!(dropped_text(&vec![], &text), Some("/etc/hosts".to_string()));
    let plain = Some("  hello world ".to_string());
    assert_eq!(dropped_text(&vec![], &plain), Some("hello world".to_string()));
}

#[test]
fn drop_without_text_does_nothing() {
    assert_eq!(dropped_text(&vec![], &None), None);
}

#[test]
fn whitespace_only_text_is_empty() {
    let text = Some(" \t\u{3000}".to_string());
    assert_eq!(dropped_text(&vec![], &text), Some(String::new()));
}

#[test]
fn scheme_must_lead() {
    let text = Some("see file://x".to_string());
    assert_eq!(dropped_text(&vec![], &text), Some("see file://x".to_string()));
}

#[test]
fn text_is_trimmed_again_after_the_scheme_goes() {
    let text = Some("file:// x".to_string());
    assert_eq!(dropped_text(&vec![], &text), Some("x".to_string()));
    let lead = Some(" file://x".to_string());
    assert_eq!(dropped_text(&vec![], &lead), Some("x".to_string()));
}

#[test]
fn uri_keeps_space_after_scheme() {
    let uris = vec!["file:// x".to_string()];
    assert_eq!(dropped_text(&uris, &None), Some(" x".to_string()));
}
