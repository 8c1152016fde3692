//! The library against the regular expression, the URL parser and the
//! standard library, on texts put together from the pieces of playlists.

use hlscp::attribute::{find_value, localize_values, URI_PATTERN};
use hlscp::playlist::Playlist;
use hlscp::resolver::local_filename;
use hlscp::text::{contains, split_lines, starts_with, trim};
use regex::Regex;
use url::Url;

const PIECES: [&str; 32] = [
    "#EXTM3U",
    "#EXT-X-MAP:",
    "#EXT-X-STREAM-INF",
    "#EXT-X-MEDIA",
    "#EXT-X-I-FRAME-STREAM-INF",
    "#EXTINF:4.0,",
    "URI=\"",
    "URI=",
    "\"",
    "\"\"",
    "https://example.com/a/",
    "https://example.com",
    "http://cdn.example.com/x/y/",
    "data:text/plain,",
    "seg",
    "0",
    ".ts",
    ".m3u8",
    "/",
    "..",
    "?t=1",
    "#",
    ":",
    ",",
    " ",
    "\t",
    "\n",
    "\n",
    "\r\n",
    "\r",
    "\u{e9}",
    "\u{a0}",
];

struct Dice(u64);

impl Dice {
    fn roll(&mut self, sides: usize) -> usize {
        self.0 = self.0.wrapping_mul(6364136223846793005).wrapping_add(1442695040888963407);
        ((self.0 >> 33) as usize) % sides
    }

    fn text(&mut self) -> String {
        let count = self.roll(24);
        let mut text = String::new();
        for _ in 0..count {
            text.push_str(PIECES[self.roll(PIECES.len())]);
        }
        text
    }
}

fn chars(s: &str) -> Vec<char> {
    s.chars().collect()
}

fn name_by_the_parser(address: &str, fallback: &str) -> String {
    match Url::parse(address) {
        Ok(url) => match url.path_segments() {
            Some(parts) => {
                let parts: Vec<&str> = parts.collect();
                if parts.len() == 1 && parts[0].is_empty() {
                    fallback.to_string()
                } else {
                    parts[parts.len() - 1].to_string()
                }
            }
            None => fallback.to_string(),
        },
        Err(_) => fallback.to_string(),
    }
}

fn quote_from(s: &[char], from: usize) -> usize {
    (from..s.len()).find(|&i| s[i] == '"').unwrap_or(s.len())
}

fn attribute_at(s: &[char], i: usize) -> bool {
    let opening = ['U', 'R', 'I', '=', '"'];
    i + 5 <= s.len() && s[i..i + 5] == opening && {
        let quote = quote_from(s, i + 5);
        i + 5 < quote && quote < s.len()
    }
}

fn first_value_by_definition(s: &[char]) -> Option<String> {
    (0..s.len())
        .find(|&i| attribute_at(s, i))
        .map(|i| s[i + 5..quote_from(s, i + 5)].iter().collect())
}

fn localized_by_definition(s: &[char]) -> String {
    let mut out = String::new();
    let mut from = 0;
    while from < s.len() {
        if attribute_at(s, from) {
            let quote = quote_from(s, from + 5);
            let value: String = s[from + 5..quote].iter().collect();
            out.push_str("URI=\"");
            out.push_str(&name_by_the_parser(&value, &value));
            out.push('"');
            from = quote + 1;
        } else {
            out.push(s[from]);
            from += 1;
        }
    }
    out
}

#[test]
fn lines_and_trimming_agree_with_the_standard_library() {
    let mut dice = Dice(1);
    for _ in 0..3000 {
        let text = dice.text();
        let expected: Vec<String> = text.lines().map(|line| line.trim().to_string()).collect();
        let found: Vec<String> =
            split_lines(&chars(&text)).iter().map(|line| trim(line).iter().collect()).collect();
        assert_eq!(found, expected, "for {:?}", text);
    }
}

#[test]
fn search_agrees_with_the_standard_library() {
    let mut dice = Dice(2);
    for _ in 0..3000 {
        let text = dice.text();
        let pattern = PIECES[dice.roll(PIECES.len())];
        assert_eq!(contains(&chars(&text), &chars(pattern)), text.contains(pattern));
        assert_eq!(starts_with(&chars(&text), &chars(pattern)), text.starts_with(pattern));
    }
}

#[test]
fn the_attribute_agrees_with_the_regular_expression() {
    let pattern = Regex::new(URI_PATTERN).unwrap();
    let mut dice = Dice(3);
    for _ in 0..3000 {
        let text = dice.text();
        let expected = pattern.captures(&text).map(|found| found[1].to_string());
        assert_eq!(find_value(&text), expected, "for {:?}", text);
        assert_eq!(first_value_by_definition(&chars(&text)), expected, "for {:?}", text);
    }
}

#[test]
fn local_attributes_agree_with_their_definition() {
    let mut dice = Dice(4);
    for _ in 0..3000 {
        let text = dice.text();
        assert_eq!(localize_values(&text), localized_by_definition(&chars(&text)), "for {:?}", text);
    }
}

#[test]
fn file_names_agree_with_the_parser() {
    let mut dice = Dice(5);
    for _ in 0..3000 {
        let address = dice.text();
        assert_eq!(
            local_filename(&address, "fallback"),
            name_by_the_parser(&address, "fallback"),
            "for {:?}",
            address
        );
    }
}

#[test]
fn references_agree_with_a_reading_line_by_line() {
    let pattern = Regex::new(URI_PATTERN).unwrap();
    let mut dice = Dice(6);
    for _ in 0..3000 {
        let text = dice.text();
        let mut expected = Vec::new();
        for line in text.lines() {
            let line = line.trim();
            if line.starts_with("#EXT-X-MAP:") {
                if let Some(found) = pattern.captures(line) {
                    expected.push(found[1].to_string());
                }
            } else if !line.starts_with('#') && !line.is_empty() {
                expected.push(line.to_string());
            }
        }
        let playlist = Playlist::parse(&text, "https://example.com/a/index.m3u8").unwrap();
        assert_eq!(playlist.segments, expected, "for {:?}", text);
    }
}

#[test]
fn variants_agree_with_a_reading_line_by_line() {
    let pattern = Regex::new(URI_PATTERN).unwrap();
    let mut dice = Dice(7);
    for _ in 0..3000 {
        let text = dice.text();
        let lines: Vec<&str> = text.lines().collect();
        let mut expected = Vec::new();
        for (i, line) in lines.iter().enumerate() {
            let line = line.trim();
            if line.starts_with("#EXT-X-STREAM-INF") {
                if let Some(next) = lines.get(i + 1) {
                    let next = next.trim();
                    if !next.starts_with('#') && !next.is_empty() {
                        expected.push(next.to_string());
                    }
                }
            } else if line.starts_with("#EXT-X-MEDIA") || line.starts_with("#EXT-X-I-FRAME-STREAM-INF")
            {
                if let Some(found) = pattern.captures(line) {
                    expected.push(found[1].to_string());
                }
            }
        }
        assert_eq!(Playlist::extract_all_playlists(&text), expected, "for {:?}", text);
        let master = text.contains("#EXT-X-STREAM-INF")
            || text.contains("#EXT-X-MEDIA")
            || text.contains("#EXT-X-I-FRAME-STREAM-INF");
        assert_eq!(Playlist::is_master_playlist(&text), master, "for {:?}", text);
    }
}

#[test]
fn rewriting_agrees_with_a_reading_line_by_line() {
    let pattern = Regex::new(URI_PATTERN).unwrap();
    let mut dice = Dice(8);
    for _ in 0..3000 {
        let text = dice.text();
        let replaced = pattern
            .replace_all(&text, |found: &regex::Captures| {
                format!("URI=\"{}\"", name_by_the_parser(&found[1], &found[1]))
            })
            .to_string();
        let mut lines: Vec<String> = Vec::new();
        for line in replaced.lines() {
            let line = line.trim();
            if !line.starts_with('#') && !line.is_empty() {
                lines.push(name_by_the_parser(line, line));
            } else {
                lines.push(line.to_string());
            }
        }
        let expected = lines.join("\n");
        let playlist = Playlist::parse(&text, "https://example.com/a/index.m3u8").unwrap();
        assert_eq!(playlist.rewrite_content(), expected, "for {:?}", text);
    }
}

#[test]
fn rewriting_twice_agrees_with_rewriting_once() {
    let mut dice = Dice(9);
    let mut held = 0;
    for _ in 0..3000 {
        let text = dice.text();
        let once = Playlist::parse(&text, "https://example.com/a/index.m3u8")
            .unwrap()
            .rewrite_content();
        let local = Regex::new(URI_PATTERN)
            .unwrap()
            .captures_iter(&once)
            .all(|found| name_by_the_parser(&found[1], &found[1]) == found[1])
            && once.lines().map(|line| line.trim()).all(|line| {
                line.is_empty() || line.starts_with('#') || name_by_the_parser(line, line) == line
            });
        if local && !once.ends_with('\n') {
            let twice = Playlist::parse(&once, "https://example.com/a/index.m3u8")
                .unwrap()
                .rewrite_content();
            assert_eq!(twice, once, "for {:?}", text);
            held += 1;
        }
    }
    assert!(held > 1000);
}
