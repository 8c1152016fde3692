use hlscp::error::HlsError;
use hlscp::resolver::{local_filename, parse_absolute, resolve_url};

#[test]
fn resolve_joins_a_relative_reference() {
    let url = resolve_url("seg1.ts", "https://example.com/a/master.m3u8").unwrap();
    assert_eq!(url, "https://example.com/a/seg1.ts");
}

#[test]
fn resolve_keeps_an_absolute_reference() {
    let url = resolve_url("https://cdn.example.com/seg1.ts", "https://example.com/a/master.m3u8")
        .unwrap();
    assert_eq!(url, "https://cdn.example.com/seg1.ts");
    let other = resolve_url("https://cdn.example.com/seg1.ts", "no base at all").unwrap();
    assert_eq!(other, "https://cdn.example.com/seg1.ts");
}

#[test]
fn resolve_collapses_dot_segments() {
    let base = "https://example.com/a/b/master.m3u8?x=1#frag";
    assert_eq!(resolve_url("../c/seg.ts", base).unwrap(), "https://example.com/a/c/seg.ts");
    assert_eq!(resolve_url("./seg.ts?t=2", base).unwrap(), "https://example.com/a/b/seg.ts?t=2");
    assert_eq!(resolve_url("/root.ts", base).unwrap(), "https://example.com/root.ts");
    assert_eq!(resolve_url("//cdn.example.com/s.ts", base).unwrap(), "https://cdn.example.com/s.ts");
}

#[test]
fn resolve_writes_the_url_as_it_was_parsed() {
    let url = resolve_url("HTTPS://EXAMPLE.com/a/../b c", "https://example.org/").unwrap();
    assert_eq!(url, "https://example.com/b%20c");
}

#[test]
fn resolve_fails_on_what_cannot_be_joined() {
    match resolve_url("seg1.ts", "no base at all") {
        Err(HlsError::InvalidReference(text)) => assert_eq!(text, "seg1.ts"),
        other => panic!("unexpected: {:?}", other),
    }
    match resolve_url("https://exa mple.com/seg1.ts", "https://example.com/a/master.m3u8") {
        Err(HlsError::InvalidReference(text)) => assert_eq!(text, "https://exa mple.com/seg1.ts"),
        other => panic!("unexpected: {:?}", other),
    }
}

#[test]
fn parse_absolute_tells_urls_from_other_text() {
    assert_eq!(parse_absolute("https://example.com").unwrap(), "https://example.com/");
    match parse_absolute("master.m3u8") {
        Err(HlsError::InvalidUrl(text)) => assert_eq!(text, "master.m3u8"),
        other => panic!("unexpected: {:?}", other),
    }
}

#[test]
fn filename_is_the_last_segment() {
    assert_eq!(local_filename("https://example.com/a/b/seg1.ts", "fallback"), "seg1.ts");
    assert_eq!(local_filename("https://example.com/a/b/seg1.ts?x=1#t", "fallback"), "seg1.ts");
    assert_eq!(local_filename("https://example.com/a/na me.ts", "fallback"), "na%20me.ts");
}

#[test]
fn filename_falls_back_without_a_path() {
    assert_eq!(local_filename("https://example.com", "fallback"), "fallback");
    assert_eq!(local_filename("https://example.com/", "fallback"), "fallback");
    assert_eq!(local_filename("sc://host", "fallback"), "fallback");
    assert_eq!(local_filename("data:text/plain,hello", "fallback"), "fallback");
    assert_eq!(local_filename("mailto:someone@example.com", "fallback"), "fallback");
}

#[test]
fn filename_falls_back_on_what_is_no_url() {
    assert_eq!(local_filename("seg1.ts", "seg1.ts"), "seg1.ts");
    assert_eq!(local_filename("", "fallback"), "fallback");
}

#[test]
fn filename_of_a_directory_is_empty() {
    assert_eq!(local_filename("https://example.com/a/b/", "fallback"), "");
}

#[test]
fn filenames_of_different_paths_collide() {
    assert_eq!(
        local_filename("https://example.com/low/seg0.ts", "x"),
        local_filename("https://example.com/high/seg0.ts", "y")
    );
}
