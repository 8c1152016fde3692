//! The attribute `URI="..."` of a playlist tag: where it stands in a text,
//! which value it holds, and the text with every such value made local.
//!
//! The attributes are found by the `regex` crate, with one pattern.

use crate::resolver::{is_local, local_filename, local_name};
use crate::text::occurs_at;
use regex::Regex;
use vstd::prelude::*;
use vstd::string::StringExecFns;

verus! {

/// The pattern of the attribute: the letters `URI="`, a value of one or more
/// characters other than a double quote, and a closing double quote.
pub const URI_PATTERN: &'static str = "URI=\"([^\"]+)\"";

/// The five characters that open the attribute.
pub open spec fn opening() -> Seq<char> {
    seq!['U', 'R', 'I', '=', '"']
}

/// The index of the first double quote of `s` at or after `from`, or the
/// length of `s` where there is none.
pub open spec fn quote_from(s: Seq<char>, from: int) -> int
    decreases s.len() - from,
{
    if from < 0 || from >= s.len() {
        s.len() as int
    } else if s[from] == '"' {
        from
    } else {
        quote_from(s, from + 1)
    }
}

/// An attribute begins at index `i` of `s`: the opening stands there, at least
/// one character follows that is no double quote, and a double quote closes
/// the value.
pub open spec fn attribute_at(s: Seq<char>, i: int) -> bool {
    &&& occurs_at(s, opening(), i)
    &&& i + 5 < quote_from(s, i + 5) < s.len()
}

/// The value of the attribute that begins at `i`: what stands between the
/// opening and the next double quote.
pub open spec fn value_at(s: Seq<char>, i: int) -> Seq<char> {
    s.subrange(i + 5, quote_from(s, i + 5))
}

/// The index after the closing double quote of the attribute that begins at `i`.
pub open spec fn end_at(s: Seq<char>, i: int) -> int {
    quote_from(s, i + 5) + 1
}

/// The index at which the first attribute at or after `from` begins.
pub open spec fn next_attribute(s: Seq<char>, from: int) -> Option<int>
    decreases s.len() - from,
{
    if from >= s.len() {
        None
    } else if attribute_at(s, from) {
        Some(from)
    } else {
        next_attribute(s, from + 1)
    }
}

/// The value of the leftmost attribute of `s`.
pub open spec fn first_value(s: Seq<char>) -> Option<Seq<char>> {
    match next_attribute(s, 0) {
        Some(i) => Some(value_at(s, i)),
        None => None,
    }
}

/// The attribute with its value replaced by the local file name for it.
pub open spec fn local_attribute(value: Seq<char>) -> Seq<char> {
    opening() + local_name(value, value) + seq!['"']
}

/// The text of `s` from index `from` on, with every attribute made local. The
/// attributes are taken from left to right, and the search goes on behind the
/// closing double quote of each.
pub open spec fn localized_from(s: Seq<char>, from: int) -> Seq<char>
    decreases s.len() - from,
{
    if from >= s.len() {
        Seq::<char>::empty()
    } else if attribute_at(s, from) {
        local_attribute(value_at(s, from)) + localized_from(s, end_at(s, from))
    } else {
        seq![s[from]] + localized_from(s, from + 1)
    }
}

/// `s` with every attribute made local.
pub open spec fn localized(s: Seq<char>) -> Seq<char> {
    localized_from(s, 0)
}

/// The values of the attributes of `s` from index `from` on are local file
/// names already.
pub open spec fn values_are_local(s: Seq<char>, from: int) -> bool
    decreases s.len() - from,
{
    if from >= s.len() {
        true
    } else if attribute_at(s, from) {
        is_local(value_at(s, from)) && values_are_local(s, end_at(s, from))
    } else {
        values_are_local(s, from + 1)
    }
}

/// The first double quote at or after `from` stands within the text or is its
/// length, and a double quote stands there.
pub proof fn lemma_quote_from(s: Seq<char>, from: int)
    requires
        0 <= from <= s.len(),
    ensures
        from <= quote_from(s, from) <= s.len(),
        quote_from(s, from) < s.len() ==> s[quote_from(s, from)] == '"',
    decreases s.len() - from,
{
    if from < s.len() && s[from] != '"' {
        lemma_quote_from(s, from + 1);
    }
}

/// Where the values of the attributes are local already, making them local
/// changes nothing.
pub proof fn lemma_local_values_stay(s: Seq<char>, from: int)
    requires
        0 <= from <= s.len(),
        values_are_local(s, from),
    ensures
        localized_from(s, from) == s.skip(from),
    decreases s.len() - from,
{
    if from >= s.len() {
    } else if attribute_at(s, from) {
        let quote = quote_from(s, from + 5);
        lemma_quote_from(s, from + 5);
        lemma_local_values_stay(s, quote + 1);
        assert(opening() + value_at(s, from) + seq!['"'] =~= s.subrange(from, quote + 1)) by {
        }
    } else {
        lemma_local_values_stay(s, from + 1);
    }
}

/// The attribute `URI="..."` whose value is the local file name for `value`.
pub fn localize_attribute(value: &str) -> (out: String)
    ensures
        out@ == local_attribute(value@),
{
    let name = local_filename(value, value);
    let mut out = String::from_str("URI=\"");
    proof {
        reveal_strlit("URI=\"");
    }
    out.append(name.as_str());
    out.push('"');
    out
}

/// Calls `Regex::captures` for the attribute pattern and hands back what the
/// first group caught. The crate reports the leftmost match. With this
/// pattern a match begins where `URI="` stands, a character other than a
/// double quote follows and a double quote comes later; the group is what
/// stands before that double quote.
#[verifier::external_body]
fn capture_value(pattern: &str, text: &str) -> (r: Option<String>)
    requires
        pattern@ == URI_PATTERN@,
    ensures
        r.deep_view() == first_value(text@),
{
    let compiled = Regex::new(pattern).unwrap();
    compiled.captures(text).and_then(|found| found.get(1)).map(|value| value.as_str().to_string())
}

/// Calls `Regex::replace_all` for the attribute pattern, with
/// `localize_attribute` of the first group as the replacement. The crate
/// replaces the matches that do not overlap, from left to right, and keeps the
/// text between them.
#[verifier::external_body]
fn replace_values(pattern: &str, text: &str) -> (r: String)
    requires
        pattern@ == URI_PATTERN@,
    ensures
        r@ == localized(text@),
{
    let compiled = Regex::new(pattern).unwrap();
    compiled.replace_all(text, |found: &regex::Captures| localize_attribute(&found[1])).into_owned()
}

/// The value of the leftmost attribute `URI="..."` of `text`, if it has one.
pub fn find_value(text: &str) -> (r: Option<String>)
    ensures
        r.deep_view() == first_value(text@),
{
    capture_value(URI_PATTERN, text)
}

/// `text` with the value of every attribute `URI="..."` replaced by the local
/// file name for it.
pub fn localize_values(text: &str) -> (r: String)
    ensures
        r@ == localized(text@),
{
    replace_values(URI_PATTERN, text)
}

} // verus!
