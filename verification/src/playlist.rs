//! The playlist: what a playlist text refers to, whether it is a master
//! playlist, and the text with every reference made local.

use crate::attribute::{
    find_value, first_value, lemma_local_values_stay, localize_values, localized,
    values_are_local,
};
use crate::error::HlsError;
use crate::resolver::{is_local, local_filename, local_name};
use crate::text::{
    chars_of, contains, ends_with_line_feed, has_text, is_one_line, is_trimmed, join_lines,
    joined, lemma_pieces_are_lines, lemma_pieces_of_joined, lemma_trimmed, lines_of, rows, split_lines, starts_with, string_of, trim, trimmed, trimmed_lines,
};
use vstd::prelude::*;

verus! {

/// The tag that names the initialization segment of a media playlist.
pub open spec fn map_tag() -> Seq<char> {
    "#EXT-X-MAP:"@
}

/// The tag that announces a variant stream; its playlist stands on the next line.
pub open spec fn stream_tag() -> Seq<char> {
    "#EXT-X-STREAM-INF"@
}

/// The tag of an alternate rendition.
pub open spec fn media_tag() -> Seq<char> {
    "#EXT-X-MEDIA"@
}

/// The tag of an I-frame stream.
pub open spec fn i_frame_tag() -> Seq<char> {
    "#EXT-X-I-FRAME-STREAM-INF"@
}

/// A trimmed line that is a reference by itself: neither blank nor a comment.
pub open spec fn is_reference(line: Seq<char>) -> bool {
    line.len() > 0 && line[0] != '#'
}

/// The value of the leftmost attribute `URI="..."` of a line, as a list of
/// none or one.
pub open spec fn attribute_reference(line: Seq<char>) -> Seq<Seq<char>> {
    match first_value(line) {
        Some(value) => seq![value],
        None => Seq::<Seq<char>>::empty(),
    }
}

/// What one trimmed line of a media playlist refers to: the value of the
/// attribute of a map tag, or the line itself where it is a reference.
pub open spec fn line_references(line: Seq<char>) -> Seq<Seq<char>> {
    if map_tag().is_prefix_of(line) {
        attribute_reference(line)
    } else if is_reference(line) {
        seq![line]
    } else {
        Seq::<Seq<char>>::empty()
    }
}

/// What the trimmed lines of a media playlist refer to, in the order of the lines.
pub open spec fn references_in(lines: Seq<Seq<char>>) -> Seq<Seq<char>>
    decreases lines.len(),
{
    if lines.len() == 0 {
        Seq::<Seq<char>>::empty()
    } else {
        references_in(lines.drop_last()) + line_references(lines.last())
    }
}

/// The references of a media playlist: segments and initialization segments,
/// in the order of the text, with repetitions.
pub open spec fn media_references(text: Seq<char>) -> Seq<Seq<char>> {
    references_in(trimmed_lines(text))
}

/// What line `i` of a master playlist refers to. A stream tag refers to the
/// next line, where there is one and it is a reference; a media tag and an
/// I-frame tag refer to the value of their attribute.
pub open spec fn variant_at(lines: Seq<Seq<char>>, i: int) -> Seq<Seq<char>> {
    if stream_tag().is_prefix_of(lines[i]) {
        if i + 1 < lines.len() && is_reference(lines[i + 1]) {
            seq![lines[i + 1]]
        } else {
            Seq::<Seq<char>>::empty()
        }
    } else if media_tag().is_prefix_of(lines[i]) || i_frame_tag().is_prefix_of(lines[i]) {
        attribute_reference(lines[i])
    } else {
        Seq::<Seq<char>>::empty()
    }
}

/// What the first `n` trimmed lines of a master playlist refer to, in the
/// order of the tags.
pub open spec fn variants_in(lines: Seq<Seq<char>>, n: int) -> Seq<Seq<char>>
    decreases n,
{
    if n <= 0 {
        Seq::<Seq<char>>::empty()
    } else {
        variants_in(lines, n - 1) + variant_at(lines, n - 1)
    }
}

/// The playlists that a master playlist refers to.
pub open spec fn variant_references(text: Seq<char>) -> Seq<Seq<char>> {
    variants_in(trimmed_lines(text), trimmed_lines(text).len() as int)
}

/// A text is a master playlist where one of the three tags of a master
/// playlist stands somewhere in it.
pub open spec fn is_master(text: Seq<char>) -> bool {
    has_text(text, stream_tag()) || has_text(text, media_tag()) || has_text(text, i_frame_tag())
}

/// A trimmed line made local: a reference gives way to the local file name
/// for it, every other line stays.
pub open spec fn localized_line(line: Seq<char>) -> Seq<char> {
    if is_reference(line) {
        local_name(line, line)
    } else {
        line
    }
}

/// The playlist text with every reference made local: first the values of the
/// attributes `URI="..."`, then the lines that are references. The lines come
/// out trimmed, in their order, with one line feed between two neighbours.
pub open spec fn rewritten(text: Seq<char>) -> Seq<char> {
    joined(trimmed_lines(localized(text)).map_values(|line: Seq<char>| localized_line(line)))
}

/// The references of `text` are local already: the values of its attributes
/// and the lines that are references are the local file names for themselves.
pub open spec fn references_are_local(text: Seq<char>) -> bool {
    &&& values_are_local(text, 0)
    &&& forall|k: int|
        0 <= k < trimmed_lines(text).len() && is_reference(#[trigger] trimmed_lines(text)[k])
            ==> is_local(trimmed_lines(text)[k])
}

/// The references of two runs of lines are those of the first run, then those
/// of the second: references come in the order of their lines.
pub proof fn references_follow_the_lines(first: Seq<Seq<char>>, second: Seq<Seq<char>>)
    ensures
        references_in(first + second) == references_in(first) + references_in(second),
    decreases second.len(),
{
    if second.len() == 0 {
    } else {
        references_follow_the_lines(first, second.drop_last());
        assert((first + second).drop_last() =~= first + second.drop_last());
    }
}

/// A stream tag refers to the line after it where that line is a reference,
/// and to nothing where the text ends with the tag or another tag, a comment
/// or a blank line follows.
pub proof fn a_stream_tag_goes_with_the_next_line(lines: Seq<Seq<char>>, i: int)
    requires
        0 <= i < lines.len(),
        stream_tag().is_prefix_of(lines[i]),
    ensures
        i + 1 < lines.len() && is_reference(lines[i + 1]) ==> variant_at(lines, i)
            == seq![lines[i + 1]],
        i + 1 == lines.len() || !is_reference(lines[i + 1]) ==> variant_at(lines, i).len() == 0,
{
}

/// Two playlists read from the same text refer to the same things in the same
/// order, whatever address each was fetched from.
pub proof fn references_depend_on_the_text_alone(one: Playlist, other: Playlist)
    requires
        one.wf(),
        other.wf(),
        one.content@ == other.content@,
    ensures
        one.segments.deep_view() == other.segments.deep_view(),
{
}

/// A trimmed line without a line feed, made local, is still trimmed and still
/// without a line feed.
proof fn lemma_local_line_is_clean(line: Seq<char>)
    requires
        is_trimmed(line),
        is_one_line(line),
    ensures
        is_trimmed(localized_line(line)),
        is_one_line(localized_line(line)),
{
}

/// Rewriting a rewritten text changes nothing, where the references of the
/// rewritten text are local file names already. Left out are the texts whose
/// rewriting ends with a line feed, which a last line that is blank brings
/// about: to the second rewriting that line feed closes the line before it.
pub proof fn rewrite_is_idempotent(text: Seq<char>)
    requires
        references_are_local(rewritten(text)),
        !ends_with_line_feed(rewritten(text)),
    ensures
        rewritten(rewritten(text)) == rewritten(text),
{
    let source = lines_of(localized(text));
    let local = trimmed_lines(localized(text)).map_values(|line: Seq<char>| localized_line(line));
    let once = rewritten(text);
    lemma_pieces_are_lines(localized(text));
    assert forall|k: int| 0 <= k < local.len() implies is_one_line(#[trigger] local[k])
        && is_trimmed(local[k]) by {
        lemma_trimmed(source[k]);
        lemma_local_line_is_clean(trimmed(source[k]));
    }
    lemma_local_values_stay(once, 0);
    assert(localized(once) == once);
    if local.len() > 1 || (local.len() == 1 && local[0].len() > 0) {
        lemma_pieces_of_joined(local);
        assert(trimmed_lines(once).map_values(|line: Seq<char>| localized_line(line)) =~= local);
    }
}

/// A playlist as it was fetched.
#[derive(Debug)]
pub struct Playlist {
    /// The text of the playlist, unchanged.
    pub content: String,
    /// What the text refers to, in the order of the text.
    pub segments: Vec<String>,
    /// The address that the text was fetched from.
    pub url: String,
}

impl Playlist {
    /// The references are those of the text.
    pub open spec fn wf(&self) -> bool {
        self.segments.deep_view() == media_references(self.content@)
    }

    /// Reads a playlist text fetched from `base_url`. Every text is accepted:
    /// a tag without the attribute it should have refers to nothing.
    pub fn parse(content: &str, base_url: &str) -> (r: Result<Playlist, HlsError>)
        ensures
            match r {
                Ok(playlist) => {
                    &&& playlist.content@ == content@
                    &&& playlist.url@ == base_url@
                    &&& playlist.segments.deep_view() == media_references(content@)
                    &&& playlist.wf()
                },
                Err(_) => false,
            },
    {
        let chars = chars_of(content);
        let lines = split_lines(&chars);
        let tag = chars_of("#EXT-X-MAP:");
        let mut segments: Vec<String> = Vec::new();
        let mut k: usize = 0;
        while k < lines.len()
            invariant
                k <= lines.len(),
                rows(lines@) == lines_of(content@),
                tag@ == map_tag(),
                segments.deep_view() == references_in(trimmed_lines(content@).take(k as int)),
            decreases lines.len() - k,
        {
            let line = trim(&lines[k]);
            proof {
                let upto = trimmed_lines(content@).take(k + 1);
                assert(upto.drop_last() == trimmed_lines(content@).take(k as int));
            }
            if starts_with(&line, &tag) {
                let whole = string_of(&line);
                match find_value(whole.as_str()) {
                    Some(value) => segments.push(value),
                    None => {},
                }
            } else if line.len() > 0 && line[0] != '#' {
                let whole = string_of(&line);
                segments.push(whole);
            }
            k += 1;
        }
        assert(trimmed_lines(content@).take(lines.len() as int) == trimmed_lines(content@));
        Ok(Playlist { content: content.to_string(), segments, url: base_url.to_string() })
    }

    /// Whether `content` is a master playlist: whether one of the tags of a
    /// master playlist stands anywhere in it, be it in a comment or a value.
    pub fn is_master_playlist(content: &str) -> (b: bool)
        ensures
            b == is_master(content@),
    {
        let chars = chars_of(content);
        contains(&chars, &chars_of("#EXT-X-STREAM-INF")) || contains(
            &chars,
            &chars_of("#EXT-X-MEDIA"),
        ) || contains(&chars, &chars_of("#EXT-X-I-FRAME-STREAM-INF"))
    }

    /// The playlists that the master playlist `content` refers to, in the
    /// order of their tags.
    pub fn extract_all_playlists(content: &str) -> (playlists: Vec<String>)
        ensures
            playlists.deep_view() == variant_references(content@),
    {
        let chars = chars_of(content);
        let raw = split_lines(&chars);
        let stream = chars_of("#EXT-X-STREAM-INF");
        let media = chars_of("#EXT-X-MEDIA");
        let i_frame = chars_of("#EXT-X-I-FRAME-STREAM-INF");
        let ghost lines = trimmed_lines(content@);
        let mut playlists: Vec<String> = Vec::new();
        let mut k: usize = 0;
        while k < raw.len()
            invariant
                k <= raw.len(),
                rows(raw@) == lines_of(content@),
                lines == trimmed_lines(content@),
                stream@ == stream_tag(),
                media@ == media_tag(),
                i_frame@ == i_frame_tag(),
                playlists.deep_view() == variants_in(lines, k as int),
            decreases raw.len() - k,
        {
            let line = trim(&raw[k]);
            if starts_with(&line, &stream) {
                if k + 1 < raw.len() {
                    let next = trim(&raw[k + 1]);
                    if next.len() > 0 && next[0] != '#' {
                        playlists.push(string_of(&next));
                    }
                }
            } else if starts_with(&line, &media) || starts_with(&line, &i_frame) {
                let whole = string_of(&line);
                match find_value(whole.as_str()) {
                    Some(value) => playlists.push(value),
                    None => {},
                }
            }
            k += 1;
        }
        playlists
    }

    /// The text of the playlist with every reference replaced by the name of
    /// its local file. A reference that is no absolute URL stays as it is.
    pub fn rewrite_content(&self) -> (out: String)
        ensures
            out@ == rewritten(self.content@),
    {
        let replaced = localize_values(self.content.as_str());
        let chars = chars_of(replaced.as_str());
        let raw = split_lines(&chars);
        let ghost lines = trimmed_lines(replaced@);
        let ghost local = lines.map_values(|line: Seq<char>| localized_line(line));
        let mut out: Vec<Vec<char>> = Vec::new();
        let mut k: usize = 0;
        while k < raw.len()
            invariant
                k <= raw.len(),
                rows(raw@) == lines_of(replaced@),
                lines == trimmed_lines(replaced@),
                local == lines.map_values(|line: Seq<char>| localized_line(line)),
                rows(out@) == local.take(k as int),
            decreases raw.len() - k,
        {
            let line = trim(&raw[k]);
            if line.len() > 0 && line[0] != '#' {
                let whole = string_of(&line);
                let name = local_filename(whole.as_str(), whole.as_str());
                out.push(chars_of(name.as_str()));
            } else {
                out.push(line);
            }
            assert(local.take(k + 1) =~= local.take(k as int).push(local[k as int]));
            k += 1;
        }
        assert(local.take(raw.len() as int) == local);
        join_lines(&out)
    }
}

} // verus!
