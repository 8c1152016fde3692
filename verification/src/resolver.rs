//! From a reference in a playlist to the address to fetch and the name of the
//! file to store it under.
//!
//! Addresses are parsed, joined and taken apart by the `url` crate. The library
//! holds an address as text, in the form in which a parsed URL writes itself.

use crate::error::{HlsError, HlsErrorView};
use crate::text::chars_of;
use url::Url;
use vstd::prelude::*;

verus! {

/// The error of the `url` crate's parser, `url::ParseError`. The library
/// looks at nothing in it.
#[verifier::external_type_specification]
#[verifier::external_body]
pub struct ExParseError(url::ParseError);

/// What `Url::parse` makes of `input`: the parsed URL as it writes itself, or
/// `None` where `input` is no absolute URL.
pub uninterp spec fn url_parse(input: Seq<char>) -> Option<Seq<char>>;

/// What `Url::join` makes of `reference` against the URL that `base` parses
/// to: the joined URL as it writes itself, or `None` where `base` is no
/// absolute URL or the two cannot be joined.
pub uninterp spec fn url_join(base: Seq<char>, reference: Seq<char>) -> Option<Seq<char>>;

/// What `Url::path_segments` hands out for the URL that `input` parses to: the
/// parts of its path between slashes, or `None` where the URL cannot be a base.
pub uninterp spec fn url_path_segments(input: Seq<char>) -> Option<Seq<Seq<char>>>;

/// Calls `Url::parse` and hands back the URL as text. Which texts are absolute
/// URLs, and how such a URL writes itself, is left to the name `url_parse`.
#[verifier::external_body]
fn parse_url(input: &str) -> (r: Result<String, url::ParseError>)
    ensures
        match r {
            Ok(href) => url_parse(input@) == Some(href@),
            Err(_) => url_parse(input@) is None,
        },
{
    Url::parse(input).map(String::from)
}

/// Calls `Url::join` on the URL that `base` parses to and hands back the
/// joined URL as text. It fails where `base` does not parse or the join does;
/// the outcome is left to the name `url_join`.
#[verifier::external_body]
fn join_url(base: &str, reference: &str) -> (r: Result<String, url::ParseError>)
    ensures
        match r {
            Ok(href) => url_join(base@, reference@) == Some(href@),
            Err(_) => url_join(base@, reference@) is None,
        },
{
    Url::parse(base)?.join(reference).map(String::from)
}

/// Calls `Url::path_segments` on the URL that `input` parses to and hands the
/// segments back as strings. It fails exactly where `Url::parse` does; the
/// segments are left to the name `url_path_segments`.
#[verifier::external_body]
fn path_segments(input: &str) -> (r: Result<Option<Vec<String>>, url::ParseError>)
    ensures
        match r {
            Ok(segments) => url_parse(input@) is Some && segments.deep_view()
                == url_path_segments(input@),
            Err(_) => url_parse(input@) is None,
        },
{
    let parsed = Url::parse(input)?;
    Ok(parsed.path_segments().map(|parts| parts.map(String::from).collect()))
}

/// A name made of visible ASCII characters only, `!` to `~`: what a path
/// segment of a URL is, since a URL writes every other character of its path
/// percent-encoded.
pub open spec fn is_visible(name: Seq<char>) -> bool {
    forall|i: int| 0 <= i < name.len() ==> '!' <= #[trigger] name[i] <= '~'
}

/// The segments hold a file name: there is a segment, the path is more than
/// the root alone, and the last segment is made of visible characters.
pub open spec fn names_a_file(segments: Seq<Seq<char>>) -> bool {
    &&& segments.len() > 0
    &&& !(segments.len() == 1 && segments[0].len() == 0)
    &&& is_visible(segments.last())
}

/// The file name for a URL with these path segments: its last segment, or
/// `fallback` where the segments hold no file name.
pub open spec fn file_name(segments: Option<Seq<Seq<char>>>, fallback: Seq<char>) -> Seq<char> {
    match segments {
        Some(parts) => if names_a_file(parts) {
            parts.last()
        } else {
            fallback
        },
        None => fallback,
    }
}

/// The local file name for `address`: the file name of the URL it parses to,
/// or `fallback` where it is no absolute URL.
pub open spec fn local_name(address: Seq<char>, fallback: Seq<char>) -> Seq<char> {
    if url_parse(address) is Some {
        file_name(url_path_segments(address), fallback)
    } else {
        fallback
    }
}

/// `name` is the local file name for itself: rewriting it changes nothing.
pub open spec fn is_local(name: Seq<char>) -> bool {
    local_name(name, name) == name
}

/// The absolute URL that `reference` stands for in a playlist fetched from
/// `base`: `reference` itself where it is an absolute URL, else `reference`
/// joined to `base`.
pub open spec fn resolved(reference: Seq<char>, base: Seq<char>) -> Option<Seq<char>> {
    if url_parse(reference) is Some {
        url_parse(reference)
    } else {
        url_join(base, reference)
    }
}

/// A reference that is an absolute URL resolves to itself, as the parsed URL
/// writes it, whatever the base.
pub proof fn an_absolute_reference_needs_no_base(
    reference: Seq<char>,
    base: Seq<char>,
    other: Seq<char>,
)
    requires
        url_parse(reference) is Some,
    ensures
        resolved(reference, base) == url_parse(reference),
        resolved(reference, base) == resolved(reference, other),
{
}

/// Whether every character of `name` is visible ASCII.
pub fn check_visible(name: &Vec<char>) -> (b: bool)
    ensures
        b == is_visible(name@),
{
    let mut i: usize = 0;
    while i < name.len()
        invariant
            i <= name.len(),
            forall|j: int| 0 <= j < i ==> '!' <= #[trigger] name@[j] <= '~',
        decreases name.len() - i,
    {
        let c = name[i];
        if c < '!' || c > '~' {
            return false;
        }
        i += 1;
    }
    true
}

/// Parses `input` as an absolute URL and returns it as the URL writes itself.
/// Fails with `InvalidUrl`, carrying `input`, where it is none.
pub fn parse_absolute(input: &str) -> (r: Result<String, HlsError>)
    ensures
        match r {
            Ok(href) => url_parse(input@) == Some(href@),
            Err(error) => url_parse(input@) is None && error@ == HlsErrorView::InvalidUrl(input@),
        },
{
    match parse_url(input) {
        Ok(href) => Ok(href),
        Err(_) => Err(HlsError::InvalidUrl(input.to_string())),
    }
}

/// Resolves `reference`, found in a playlist fetched from `base`, to an
/// absolute URL. Fails with `InvalidReference`, carrying `reference`, where it
/// is no absolute URL and cannot be joined to `base`.
pub fn resolve_url(reference: &str, base: &str) -> (r: Result<String, HlsError>)
    ensures
        match r {
            Ok(href) => resolved(reference@, base@) == Some(href@),
            Err(error) => resolved(reference@, base@) is None && error@
                == HlsErrorView::InvalidReference(reference@),
        },
{
    match parse_url(reference) {
        Ok(href) => Ok(href),
        Err(_) => match join_url(base, reference) {
            Ok(href) => Ok(href),
            Err(_) => Err(HlsError::InvalidReference(reference.to_string())),
        },
    }
}

/// The file name for a URL with these path segments: the last segment, or
/// `fallback` where the segments hold no file name.
pub fn file_name_of(segments: Option<Vec<String>>, fallback: &str) -> (name: String)
    ensures
        name@ == file_name(segments.deep_view(), fallback@),
{
    match segments {
        Some(mut parts) => {
            let count: usize = parts.len();
            match parts.pop() {
                Some(last) => {
                    let letters = chars_of(last.as_str());
                    if count == 1 && letters.len() == 0 {
                        fallback.to_string()
                    } else if check_visible(&letters) {
                        last
                    } else {
                        fallback.to_string()
                    }
                },
                None => fallback.to_string(),
            }
        },
        None => fallback.to_string(),
    }
}

/// The name of the local file for `address`: the last path segment of the URL
/// it parses to, or `fallback` where there is none.
pub fn local_filename(address: &str, fallback: &str) -> (name: String)
    ensures
        name@ == local_name(address@, fallback@),
{
    match path_segments(address) {
        Ok(segments) => file_name_of(segments, fallback),
        Err(_) => fallback.to_string(),
    }
}

} // verus!
