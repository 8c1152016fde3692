//! Text as sequences of characters: lines, trimming, prefixes and search.
//!
//! Every function here is stated over `Seq<char>`, the view of `&str`, `String`
//! and `Vec<char>`.

use vstd::prelude::*;

verus! {

/// Whether a character beyond ASCII has the Unicode property White_Space, as
/// the table behind `char::is_whitespace` decides it.
pub uninterp spec fn unicode_white_space(c: char) -> bool;

/// White space: in ASCII the space and the characters U+0009 to U+000D, beyond
/// ASCII what the Unicode property White_Space says.
pub open spec fn is_white_space(c: char) -> bool {
    if c <= '\x7f' {
        c == ' ' || ('\x09' <= c && c <= '\x0d')
    } else {
        unicode_white_space(c)
    }
}

/// `char::is_whitespace` tells whether a character has the Unicode property
/// White_Space. In ASCII these are the space, tab, line feed, vertical tab,
/// form feed and carriage return; for the others the property is left as a
/// name.
pub assume_specification[ char::is_whitespace ](c: char) -> (b: bool)
    ensures
        c <= '\x7f' ==> b == (c == ' ' || ('\x09' <= c && c <= '\x0d')),
        c > '\x7f' ==> b == unicode_white_space(c),
;

/// `String::push` appends one character to the end of the string.
pub assume_specification[ String::push ](s: &mut String, c: char)
    ensures
        final(s)@ == old(s)@.push(c),
;

/// The parts of `s` between its line feeds. A text without a line feed is one
/// part; `n` line feeds make `n + 1` parts, some of which may be empty.
pub open spec fn pieces(s: Seq<char>) -> Seq<Seq<char>>
    decreases s.len(),
{
    if s.len() == 0 {
        seq![Seq::<char>::empty()]
    } else {
        let before = pieces(s.drop_last());
        if s.last() == '\n' {
            before.push(Seq::<char>::empty())
        } else {
            before.drop_last().push(before.last().push(s.last()))
        }
    }
}

/// The lines of `s`: its parts between line feeds, where a line feed at the
/// very end closes the last line instead of opening an empty one. The empty
/// text has no line.
pub open spec fn lines_of(s: Seq<char>) -> Seq<Seq<char>> {
    let parts = pieces(s);
    if parts.last().len() == 0 {
        parts.drop_last()
    } else {
        parts
    }
}

/// `s` without the white space at its start.
pub open spec fn trimmed_start(s: Seq<char>) -> Seq<char>
    decreases s.len(),
{
    if s.len() > 0 && is_white_space(s.first()) {
        trimmed_start(s.drop_first())
    } else {
        s
    }
}

/// `s` without the white space at its end.
pub open spec fn trimmed_end(s: Seq<char>) -> Seq<char>
    decreases s.len(),
{
    if s.len() > 0 && is_white_space(s.last()) {
        trimmed_end(s.drop_last())
    } else {
        s
    }
}

/// `s` without the white space at either end. A carriage return before a line
/// feed is white space at the end of its line.
pub open spec fn trimmed(s: Seq<char>) -> Seq<char> {
    trimmed_end(trimmed_start(s))
}

/// The lines of `s`, each trimmed.
pub open spec fn trimmed_lines(s: Seq<char>) -> Seq<Seq<char>> {
    lines_of(s).map_values(|line: Seq<char>| trimmed(line))
}

/// The lines put together again, with one line feed between two neighbours.
pub open spec fn joined(lines: Seq<Seq<char>>) -> Seq<char>
    decreases lines.len(),
{
    if lines.len() == 0 {
        Seq::<char>::empty()
    } else if lines.len() == 1 {
        lines[0]
    } else {
        joined(lines.drop_last()) + seq!['\n'] + lines.last()
    }
}

/// `pattern` stands in `s` at index `i`.
pub open spec fn occurs_at(s: Seq<char>, pattern: Seq<char>, i: int) -> bool {
    0 <= i && i + pattern.len() <= s.len() && s.subrange(i, i + pattern.len()) == pattern
}

/// `pattern` stands somewhere in `s`.
pub open spec fn has_text(s: Seq<char>, pattern: Seq<char>) -> bool {
    exists|i: int| occurs_at(s, pattern, i)
}

/// The views of the rows of a table of characters.
pub open spec fn rows(table: Seq<Vec<char>>) -> Seq<Seq<char>> {
    table.map_values(|row: Vec<char>| row@)
}

/// `s` holds no line feed.
pub open spec fn is_one_line(s: Seq<char>) -> bool {
    forall|i: int| 0 <= i < s.len() ==> s[i] != '\n'
}

/// `s` has no white space at either end.
pub open spec fn is_trimmed(s: Seq<char>) -> bool {
    s.len() == 0 || (!is_white_space(s.first()) && !is_white_space(s.last()))
}

/// `s` ends with a line feed.
pub open spec fn ends_with_line_feed(s: Seq<char>) -> bool {
    s.len() > 0 && s.last() == '\n'
}

/// A text without a line feed is one part.
pub proof fn lemma_pieces_of_one_line(s: Seq<char>)
    requires
        is_one_line(s),
    ensures
        pieces(s) == seq![s],
    decreases s.len(),
{
    if s.len() == 0 {
        assert(s =~= Seq::<char>::empty());
    } else {
        lemma_pieces_of_one_line(s.drop_last());
        assert(s.drop_last().push(s.last()) =~= s);
    }
}

/// A line feed and a line behind a text add one part to it.
pub proof fn lemma_pieces_with_one_more_line(front: Seq<char>, line: Seq<char>)
    requires
        is_one_line(line),
    ensures
        pieces(front + seq!['\n'] + line) == pieces(front).push(line),
    decreases line.len(),
{
    let s = front + seq!['\n'] + line;
    if line.len() == 0 {
        assert(s.drop_last() =~= front);
        assert(line =~= Seq::<char>::empty());
    } else {
        let shorter = line.drop_last();
        lemma_pieces_with_one_more_line(front, shorter);
        assert(s.drop_last() =~= front + seq!['\n'] + shorter);
        assert(shorter.push(line.last()) =~= line);
    }
}

/// Lines without line feeds, joined and taken apart again, are the same lines.
pub proof fn lemma_pieces_of_joined(lines: Seq<Seq<char>>)
    requires
        lines.len() > 0,
        forall|k: int| 0 <= k < lines.len() ==> is_one_line(#[trigger] lines[k]),
    ensures
        pieces(joined(lines)) == lines,
    decreases lines.len(),
{
    if lines.len() == 1 {
        lemma_pieces_of_one_line(lines[0]);
    } else {
        let front = lines.drop_last();
        lemma_pieces_of_joined(front);
        lemma_pieces_with_one_more_line(joined(front), lines.last());
    }
}

/// A text has at least one part, and no part holds a line feed.
pub proof fn lemma_pieces_are_lines(s: Seq<char>)
    ensures
        pieces(s).len() >= 1,
        forall|k: int| 0 <= k < pieces(s).len() ==> is_one_line(#[trigger] pieces(s)[k]),
    decreases s.len(),
{
    if s.len() > 0 {
        lemma_pieces_are_lines(s.drop_last());
    }
}

/// What trimming the start leaves is the end of the text, and begins with no
/// white space.
pub proof fn lemma_trimmed_start(s: Seq<char>)
    ensures
        trimmed_start(s).len() <= s.len(),
        trimmed_start(s) == s.skip(s.len() - trimmed_start(s).len()),
        trimmed_start(s).len() > 0 ==> !is_white_space(trimmed_start(s).first()),
    decreases s.len(),
{
    if s.len() > 0 && is_white_space(s.first()) {
        lemma_trimmed_start(s.drop_first());
    }
}

/// What trimming the end leaves is the start of the text, and ends with no
/// white space.
pub proof fn lemma_trimmed_end(s: Seq<char>)
    ensures
        trimmed_end(s).len() <= s.len(),
        trimmed_end(s) == s.take(trimmed_end(s).len() as int),
        trimmed_end(s).len() > 0 ==> !is_white_space(trimmed_end(s).last()),
    decreases s.len(),
{
    if s.len() > 0 && is_white_space(s.last()) {
        lemma_trimmed_end(s.drop_last());
    }
}

/// A trimmed text has no white space at either end, trimming it again changes
/// nothing, and it holds no line feed where the text held none.
pub proof fn lemma_trimmed(s: Seq<char>)
    ensures
        is_trimmed(trimmed(s)),
        trimmed(trimmed(s)) == trimmed(s),
        is_one_line(s) ==> is_one_line(trimmed(s)),
{
    lemma_trimmed_start(s);
    lemma_trimmed_end(trimmed_start(s));
}

/// The characters of `s`, in order.
pub fn chars_of(s: &str) -> (v: Vec<char>)
    ensures
        v@ == s@,
{
    let mut v: Vec<char> = Vec::new();
    for c in it: s.chars()
        invariant
            it.seq() == s@,
            v@ == s@.take(it.index()),
    {
        v.push(c);
    }
    v
}

/// The string made of `chars`, in order.
pub fn string_of(chars: &Vec<char>) -> (s: String)
    ensures
        s@ == chars@,
{
    let mut s = String::new();
    let mut i: usize = 0;
    while i < chars.len()
        invariant
            i <= chars.len(),
            s@ == chars@.take(i as int),
        decreases chars.len() - i,
    {
        s.push(chars[i]);
        i += 1;
    }
    s
}

/// Splits `text` into its lines.
pub fn split_lines(text: &Vec<char>) -> (out: Vec<Vec<char>>)
    ensures
        rows(out@) == lines_of(text@),
{
    let mut done: Vec<Vec<char>> = Vec::new();
    let mut current: Vec<char> = Vec::new();
    let mut i: usize = 0;
    while i < text.len()
        invariant
            i <= text.len(),
            rows(done@).push(current@) == pieces(text@.take(i as int)),
        decreases text.len() - i,
    {
        let c = text[i];
        proof {
            let next = text@.take(i + 1);
            assert(next.drop_last() == text@.take(i as int));
        }
        if c == '\n' {
            done.push(current);
            current = Vec::new();
        } else {
            current.push(c);
        }
        i += 1;
    }
    assert(text@.take(text.len() as int) == text@);
    if current.len() > 0 {
        done.push(current);
    }
    done
}

/// A copy of `line` without the white space at either end.
pub fn trim(line: &Vec<char>) -> (out: Vec<char>)
    ensures
        out@ == trimmed(line@),
{
    let mut start: usize = 0;
    assert(line@.skip(0) == line@);
    while start < line.len() && line[start].is_whitespace()
        invariant
            start <= line.len(),
            trimmed_start(line@) == trimmed_start(line@.skip(start as int)),
        decreases line.len() - start,
    {
        assert(line@.skip(start as int).drop_first() == line@.skip(start + 1));
        start += 1;
    }
    let mut end: usize = line.len();
    while end > start && line[end - 1].is_whitespace()
        invariant
            start <= end <= line.len(),
            trimmed(line@) == trimmed_end(line@.subrange(start as int, end as int)),
        decreases end,
    {
        assert(line@.subrange(start as int, end as int).drop_last() == line@.subrange(
            start as int,
            end - 1,
        ));
        end -= 1;
    }
    let mut out: Vec<char> = Vec::new();
    let mut i: usize = start;
    while i < end
        invariant
            start <= i <= end <= line.len(),
            out@ == line@.subrange(start as int, i as int),
        decreases end - i,
    {
        out.push(line[i]);
        i += 1;
    }
    out
}

/// Whether `line` begins with `prefix`.
pub fn starts_with(line: &Vec<char>, prefix: &Vec<char>) -> (b: bool)
    ensures
        b == prefix@.is_prefix_of(line@),
{
    if prefix.len() > line.len() {
        return false;
    }
    let mut i: usize = 0;
    while i < prefix.len()
        invariant
            i <= prefix.len() <= line.len(),
            prefix@.take(i as int) == line@.take(i as int),
        decreases prefix.len() - i,
    {
        if prefix[i] != line[i] {
            return false;
        }
        i += 1;
    }
    true
}

/// Whether `pattern` stands in `text` at index `at`.
pub fn matches_at(text: &Vec<char>, pattern: &Vec<char>, at: usize) -> (b: bool)
    ensures
        b == occurs_at(text@, pattern@, at as int),
{
    if pattern.len() > text.len() || at > text.len() - pattern.len() {
        return false;
    }
    let mut i: usize = 0;
    while i < pattern.len()
        invariant
            i <= pattern.len(),
            at + pattern.len() <= text.len(),
            pattern@.take(i as int) == text@.subrange(at as int, at + i),
        decreases pattern.len() - i,
    {
        if pattern[i] != text[at + i] {
            return false;
        }
        i += 1;
    }
    assert(pattern@.take(pattern.len() as int) == pattern@);
    true
}

/// Whether `pattern` stands somewhere in `text`.
pub fn contains(text: &Vec<char>, pattern: &Vec<char>) -> (b: bool)
    ensures
        b == has_text(text@, pattern@),
{
    if pattern.len() > text.len() {
        return false;
    }
    let last: usize = text.len() - pattern.len();
    let mut at: usize = 0;
    loop
        invariant
            at <= last,
            last == text.len() - pattern.len(),
            forall|i: int| 0 <= i < at ==> !occurs_at(text@, pattern@, i),
        decreases last - at,
    {
        if matches_at(text, pattern, at) {
            return true;
        }
        if at == last {
            return false;
        }
        at += 1;
    }
}

/// The lines joined by single line feeds, as a string.
pub fn join_lines(lines: &Vec<Vec<char>>) -> (s: String)
    ensures
        s@ == joined(rows(lines@)),
{
    let mut s = String::new();
    let mut k: usize = 0;
    while k < lines.len()
        invariant
            k <= lines.len(),
            s@ == joined(rows(lines@).take(k as int)),
        decreases lines.len() - k,
    {
        let ghost before = rows(lines@).take(k as int);
        let ghost upto = rows(lines@).take(k + 1);
        assert(upto.drop_last() == before);
        if k > 0 {
            s.push('\n');
        }
        let ghost head = s@;
        let line = &lines[k];
        let mut i: usize = 0;
        while i < line.len()
            invariant
                i <= line.len(),
                s@ == head + line@.take(i as int),
            decreases line.len() - i,
        {
            s.push(line[i]);
            i += 1;
        }
        k += 1;
    }
    assert(rows(lines@).take(lines.len() as int) == rows(lines@));
    s
}

} // verus!
