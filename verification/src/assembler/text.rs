//! The shape of assembly source: lines, and in each line words that white
//! space separates.

use vstd::prelude::*;
use vstd::slice::slice_subrange;

verus! {

/// The character that ends a line.
pub const NEWLINE: char = '\n';

/// Whether `c` is white space, as Unicode lists it: a space, a tab, a line
/// feed, a vertical tab, a form feed, a carriage return, and the spaces and
/// separators beyond ASCII.
pub open spec fn is_space(c: char) -> bool {
    c == ' ' || ('\u{9}' <= c <= '\u{d}') || c == '\u{85}' || c == '\u{a0}' || c == '\u{1680}' || (
    '\u{2000}' <= c <= '\u{200a}') || c == '\u{2028}' || c == '\u{2029}' || c == '\u{202f}' || c
        == '\u{205f}' || c == '\u{3000}'
}

/// The characters of `text`.
pub fn chars_of(text: &str) -> (chars: Vec<char>)
    ensures
        chars@ == text@,
{
    let mut chars: Vec<char> = Vec::new();
    for c in iter: text.chars()
        invariant
            chars@ == iter.seq().take(iter.index() as int),
            iter.seq() == text@,
    {
        chars.push(c);
        assert(iter.seq().take(iter.index() + 1) =~= iter.seq().take(iter.index() as int).push(c));
    }
    assert(text@.take(text@.len() as int) =~= text@);
    chars
}

/// The number of characters from `from` on up to the next line end.
pub open spec fn line_length(source: Seq<char>, from: int) -> nat
    decreases source.len() - from,
{
    if 0 <= from < source.len() && source[from] != NEWLINE {
        1 + line_length(source, from + 1)
    } else {
        0
    }
}

/// The lines of `source` from `from` on, without their line ends. A line end
/// at the end of the source starts no further line.
pub open spec fn lines_from(source: Seq<char>, from: int) -> Seq<Seq<char>>
    decreases source.len() - from,
{
    let end = from + line_length(source, from);
    if 0 <= from <= end < source.len() {
        seq![source.subrange(from, end)] + lines_from(source, end + 1)
    } else if 0 <= from < source.len() {
        seq![source.subrange(from, source.len() as int)]
    } else {
        Seq::empty()
    }
}

/// The lines of `source`.
pub open spec fn lines_of(source: Seq<char>) -> Seq<Seq<char>> {
    lines_from(source, 0)
}

/// The number of white-space characters from `from` on up to the next other
/// character.
pub open spec fn spaces(line: Seq<char>, from: int) -> nat
    decreases line.len() - from,
{
    if 0 <= from < line.len() && is_space(line[from]) {
        1 + spaces(line, from + 1)
    } else {
        0
    }
}

/// The number of characters from `from` on up to the next white space.
pub open spec fn word_length(line: Seq<char>, from: int) -> nat
    decreases line.len() - from,
{
    if 0 <= from < line.len() && !is_space(line[from]) {
        1 + word_length(line, from + 1)
    } else {
        0
    }
}

/// The words of `line` from `from` on.
pub open spec fn words_from(line: Seq<char>, from: int) -> Seq<Seq<char>>
    decreases line.len() - from,
{
    let start = from + spaces(line, from);
    let end = start + word_length(line, start);
    if 0 <= from && start < end <= line.len() {
        seq![line.subrange(start, end)] + words_from(line, end)
    } else {
        Seq::empty()
    }
}

/// The words of `line`.
pub open spec fn words_of(line: Seq<char>) -> Seq<Seq<char>> {
    words_from(line, 0)
}

/// Whether two texts are the same, character for character.
pub fn same(one: &[char], other: &[char]) -> (equal: bool)
    ensures
        equal == (one@ == other@),
{
    if one.len() != other.len() {
        return false;
    }
    let mut i: usize = 0;
    while i < one.len()
        invariant
            i <= one.len(),
            one.len() == other.len(),
            one@.take(i as int) == other@.take(i as int),
        decreases one.len() - i,
    {
        if one[i] != other[i] {
            return false;
        }
        i += 1;
        assert(one@.take(i as int) =~= one@.take(i - 1).push(one@[i - 1]));
        assert(other@.take(i as int) =~= other@.take(i - 1).push(other@[i - 1]));
    }
    assert(one@.take(one.len() as int) =~= one@);
    assert(other@.take(other.len() as int) =~= other@);
    true
}

/// Whether `c` is white space.
pub fn space(c: char) -> (is: bool)
    ensures
        is == is_space(c),
{
    c == ' ' || ('\u{9}' <= c && c <= '\u{d}') || c == '\u{85}' || c == '\u{a0}' || c == '\u{1680}'
        || ('\u{2000}' <= c && c <= '\u{200a}') || c == '\u{2028}' || c == '\u{2029}' || c
        == '\u{202f}' || c == '\u{205f}' || c == '\u{3000}'
}

/// The place of the next line end at or after `from`, or the end of `source`.
pub fn line_end(source: &[char], from: usize) -> (end: usize)
    requires
        from <= source.len(),
    ensures
        end == from + line_length(source@, from as int),
        end <= source.len(),
{
    let mut end = from;
    while end < source.len() && source[end] != NEWLINE
        invariant
            from <= end <= source.len(),
            from + line_length(source@, from as int) == end + line_length(source@, end as int),
        decreases source.len() - end,
    {
        end += 1;
    }
    end
}

/// The place of the next character at or after `from` that is no white
/// space, or the end of `line`.
pub fn skip_spaces(line: &[char], from: usize) -> (end: usize)
    requires
        from <= line.len(),
    ensures
        end == from + spaces(line@, from as int),
        end <= line.len(),
{
    let mut end = from;
    while end < line.len() && space(line[end])
        invariant
            from <= end <= line.len(),
            from + spaces(line@, from as int) == end + spaces(line@, end as int),
        decreases line.len() - end,
    {
        end += 1;
    }
    end
}

/// The place of the next white space at or after `from`, or the end of
/// `line`.
pub fn skip_word(line: &[char], from: usize) -> (end: usize)
    requires
        from <= line.len(),
    ensures
        end == from + word_length(line@, from as int),
        end <= line.len(),
{
    let mut end = from;
    while end < line.len() && !space(line[end])
        invariant
            from <= end <= line.len(),
            from + word_length(line@, from as int) == end + word_length(line@, end as int),
        decreases line.len() - end,
    {
        end += 1;
    }
    end
}

/// The words of a line.
pub fn split_words(line: &[char]) -> (words: Vec<&[char]>)
    ensures
        words@.len() == words_of(line@).len(),
        forall|i: int| 0 <= i < words@.len() ==> (#[trigger] words@[i])@ == words_of(line@)[i],
{
    let mut words: Vec<&[char]> = Vec::new();
    let mut from: usize = 0;
    loop
        invariant
            from <= line.len(),
            words_of(line@).len() == words@.len() + words_from(line@, from as int).len(),
            forall|i: int| 0 <= i < words@.len() ==> (#[trigger] words@[i])@ == words_of(line@)[i],
            forall|i: int|
                0 <= i < words_from(line@, from as int).len() ==> words_of(line@)[words@.len() + i]
                    == #[trigger] words_from(line@, from as int)[i],
        decreases line.len() - from,
    {
        let start = skip_spaces(line, from);
        let end = skip_word(line, start);
        if start >= end {
            assert(words_from(line@, from as int).len() == 0);
            return words;
        }
        let ghost rest = words_from(line@, from as int);
        assert(rest == seq![line@.subrange(start as int, end as int)] + words_from(
            line@,
            end as int,
        ));
        assert(rest[0] == line@.subrange(start as int, end as int));
        assert forall|i: int| 0 <= i < words_from(line@, end as int).len() implies words_of(
            line@,
        )[words@.len() + 1 + i] == #[trigger] words_from(line@, end as int)[i] by {
            assert(rest[i + 1] == words_from(line@, end as int)[i]);
        }
        words.push(slice_subrange(line, start, end));
        from = end;
    }
}

/// The lines of a source text.
pub fn split_lines(source: &[char]) -> (lines: Vec<&[char]>)
    ensures
        lines@.len() == lines_of(source@).len(),
        forall|i: int| 0 <= i < lines@.len() ==> (#[trigger] lines@[i])@ == lines_of(source@)[i],
{
    let mut lines: Vec<&[char]> = Vec::new();
    let mut from: usize = 0;
    while from < source.len()
        invariant
            lines_of(source@).len() == lines@.len() + lines_from(source@, from as int).len(),
            forall|i: int|
                0 <= i < lines@.len() ==> (#[trigger] lines@[i])@ == lines_of(source@)[i],
            forall|i: int|
                0 <= i < lines_from(source@, from as int).len() ==> lines_of(source@)[lines@.len()
                    + i] == #[trigger] lines_from(source@, from as int)[i],
        decreases source.len() - from,
    {
        let end = line_end(source, from);
        let ghost rest = lines_from(source@, from as int);
        assert(rest[0] == source@.subrange(from as int, end as int));
        if end < source.len() {
            assert(rest == seq![source@.subrange(from as int, end as int)] + lines_from(
                source@,
                end + 1,
            ));
            assert forall|i: int| 0 <= i < lines_from(source@, end + 1).len() implies lines_of(
                source@,
            )[lines@.len() + 1 + i] == #[trigger] lines_from(source@, end + 1)[i] by {
                assert(rest[i + 1] == lines_from(source@, end + 1)[i]);
            }
        } else {
            assert(rest.len() == 1);
            assert(lines_from(source@, end as int).len() == 0);
        }
        lines.push(slice_subrange(source, from, end));
        if end < source.len() {
            from = end + 1;
        } else {
            from = end;
        }
    }
    lines
}

} // verus!
