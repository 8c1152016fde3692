use hlscp::attribute::{find_value, localize_attribute, localize_values};
use hlscp::text::{chars_of, contains, join_lines, split_lines, starts_with, string_of, trim};

fn chars(s: &str) -> Vec<char> {
    s.chars().collect()
}

fn lines(s: &str) -> Vec<String> {
    split_lines(&chars(s)).iter().map(|line| line.iter().collect()).collect()
}

fn trimmed(s: &str) -> String {
    trim(&chars(s)).iter().collect()
}

#[test]
fn characters_and_back() {
    assert_eq!(chars_of("a\u{e9}\u{1f600}z"), vec!['a', '\u{e9}', '\u{1f600}', 'z']);
    assert_eq!(string_of(&vec!['a', '\u{e9}', '\u{1f600}', 'z']), "a\u{e9}\u{1f600}z");
    assert_eq!(chars_of(""), Vec::<char>::new());
}

#[test]
fn lines_as_the_standard_library_splits_them() {
    for text in ["", "\n", "a", "a\n", "a\nb", "a\n\n", "\n\na\n\n\nb\n", "a\r\nb\r\n", "  a  \n\t\n"] {
        let expected: Vec<String> = text.lines().map(|line| line.trim().to_string()).collect();
        let found: Vec<String> = lines(text).iter().map(|line| trimmed(line)).collect();
        assert_eq!(found, expected, "for {:?}", text);
    }
}

#[test]
fn lines_of_given_texts() {
    assert_eq!(lines(""), Vec::<String>::new());
    assert_eq!(lines("\n"), vec![""]);
    assert_eq!(lines("a\nb"), vec!["a", "b"]);
    assert_eq!(lines("a\nb\n"), vec!["a", "b"]);
    assert_eq!(lines("a\n\n"), vec!["a", ""]);
    assert_eq!(lines("a\r\nb"), vec!["a\r", "b"]);
}

#[test]
fn trim_removes_white_space_at_both_ends() {
    assert_eq!(trimmed("  a b \t\r\n"), "a b");
    assert_eq!(trimmed("\u{a0}\u{3000}x\u{2028}\u{85}"), "x");
    assert_eq!(trimmed("\u{b}\u{c}x y\u{1680}"), "x y");
    assert_eq!(trimmed(" \t "), "");
    assert_eq!(trimmed(""), "");
    assert_eq!(trimmed("\u{200b}x"), "\u{200b}x");
}

#[test]
fn prefix_and_search() {
    assert!(starts_with(&chars("#EXT-X-MAP:URI"), &chars("#EXT-X-MAP:")));
    assert!(starts_with(&chars("abc"), &chars("")));
    assert!(starts_with(&chars("abc"), &chars("abc")));
    assert!(!starts_with(&chars("ab"), &chars("abc")));
    assert!(!starts_with(&chars("xabc"), &chars("abc")));
    assert!(contains(&chars("xxabcxx"), &chars("abc")));
    assert!(contains(&chars("abc"), &chars("abc")));
    assert!(contains(&chars("aabc"), &chars("abc")));
    assert!(contains(&chars("abc"), &chars("")));
    assert!(contains(&chars(""), &chars("")));
    assert!(!contains(&chars("ab"), &chars("abc")));
    assert!(!contains(&chars("abxc"), &chars("abc")));
}

#[test]
fn join_puts_one_line_feed_between_lines() {
    assert_eq!(join_lines(&vec![]), "");
    assert_eq!(join_lines(&vec![chars("a")]), "a");
    assert_eq!(join_lines(&vec![chars("a"), chars(""), chars("b")]), "a\n\nb");
    assert_eq!(join_lines(&vec![chars("a"), chars("")]), "a\n");
}

#[test]
fn the_leftmost_attribute_is_found() {
    assert_eq!(find_value("#EXT-X-MAP:URI=\"init.mp4\",X=\"y\""), Some("init.mp4".to_string()));
    assert_eq!(find_value("URI=\"\"URI=\"b\""), Some("b".to_string()));
    assert_eq!(find_value("URI=\"a\nb\""), Some("a\nb".to_string()));
    assert_eq!(find_value("xURI=\"aURI=\"b\""), Some("aURI=".to_string()));
    assert_eq!(find_value("URI=\"a"), None);
    assert_eq!(find_value("URI=\"\""), None);
    assert_eq!(find_value("uri=\"a\""), None);
    assert_eq!(find_value("URI=\"\u{e9}t\u{e9}\""), Some("\u{e9}t\u{e9}".to_string()));
    assert_eq!(find_value(""), None);
}

#[test]
fn attributes_are_made_local() {
    assert_eq!(localize_attribute("https://example.com/a/key.bin"), "URI=\"key.bin\"");
    assert_eq!(localize_attribute("key.bin"), "URI=\"key.bin\"");
    assert_eq!(
        localize_values("a URI=\"https://e.com/x/1.ts\" b URI=\"2.ts\" URI=\"\" URI=\"https://e.com/3.ts\" c"),
        "a URI=\"1.ts\" b URI=\"2.ts\" URI=\"\" URI=\"3.ts\" c"
    );
    assert_eq!(localize_values("no attribute\nat all\n"), "no attribute\nat all\n");
    assert_eq!(localize_values("\u{e9}URI=\"https://e.com/\u{e9}.ts\"\u{e9}"), "\u{e9}URI=\"%C3%A9.ts\"\u{e9}");
}
