//! Splitting texts into pieces and ordering them.

use vstd::prelude::*;

use crate::text::{string_between, to_chars};

verus! {

/// The texts held by a sequence of strings.
pub open spec fn texts(strings: Seq<String>) -> Seq<Seq<char>> {
    strings.map_values(|string: String| string@)
}

/// Copies texts.
pub fn copy_texts(originals: &Vec<String>) -> (copies: Vec<String>)
    ensures
        copies@ == originals@,
{
    let mut copies: Vec<String> = Vec::new();
    let mut index: usize = 0;
    while index < originals.len()
        invariant
            index <= originals@.len(),
            copies@ == originals@.take(index as int),
        decreases originals@.len() - index,
    {
        copies.push(originals[index].clone());
        assert(originals@.take(index as int + 1) =~= originals@.take(index as int).push(
            originals@[index as int],
        ));
        index = index + 1;
    }
    assert(copies@ =~= originals@);
    copies
}

/// The pieces of `text` between the occurrences of `separator`.
///
/// A text without the separator is its own single piece.
pub open spec fn split_on(text: Seq<char>, separator: char) -> Seq<Seq<char>>
    decreases text.len(),
{
    if text.len() == 0 {
        seq![Seq::empty()]
    } else {
        let pieces = split_on(text.drop_last(), separator);
        if text.last() == separator {
            pieces.push(Seq::empty())
        } else {
            pieces.drop_last().push(pieces.last().push(text.last()))
        }
    }
}

/// The pieces put together again with `separator` between them.
pub open spec fn joined_with(pieces: Seq<Seq<char>>, separator: char) -> Seq<char>
    decreases pieces.len(),
{
    if pieces.len() == 0 {
        Seq::empty()
    } else if pieces.len() == 1 {
        pieces[0]
    } else {
        joined_with(pieces.drop_last(), separator).push(separator) + pieces.last()
    }
}

/// Splitting loses nothing: joining the pieces gives the text back, there is
/// always at least one piece, and no piece holds the separator.
pub proof fn lemma_split_on(text: Seq<char>, separator: char)
    ensures
        split_on(text, separator).len() >= 1,
        joined_with(split_on(text, separator), separator) == text,
        forall|i: int|
            0 <= i < split_on(text, separator).len() ==> !(#[trigger] split_on(
                text,
                separator,
            )[i]).contains(separator),
    decreases text.len(),
{
    if text.len() > 0 {
        let pieces = split_on(text.drop_last(), separator);
        let next = split_on(text, separator);
        lemma_split_on(text.drop_last(), separator);
        if text.last() == separator {
            assert(next.drop_last() =~= pieces);
            assert(joined_with(next, separator) =~= text);
        } else {
            assert(next.drop_last() =~= pieces.drop_last());
            if pieces.len() == 1 {
                assert(next[0] =~= text);
            } else {
                let start = joined_with(pieces.drop_last(), separator).push(separator);
                assert(text.drop_last() == start + pieces.last());
                assert(joined_with(next, separator) == start + pieces.last().push(text.last()));
                assert(start + pieces.last().push(text.last()) =~= (start + pieces.last()).push(
                    text.last(),
                ));
                assert(text =~= text.drop_last().push(text.last()));
            }
            assert forall|i: int| 0 <= i < next.len() implies !(#[trigger] next[i]).contains(
                separator,
            ) by {
                if i < pieces.len() - 1 {
                    assert(next[i] == pieces[i]);
                } else {
                    assert(!pieces[i].contains(separator));
                    if next[i].contains(separator) {
                        let j = choose|j: int|
                            0 <= j < next[i].len() && next[i][j] == separator;
                        if j < pieces[i].len() {
                            assert(pieces[i][j] == separator);
                        }
                    }
                }
            }
        }
    }
}

/// Splits `text` at every `separator`.
pub fn split_text(text: &str, separator: char) -> (pieces: Vec<String>)
    ensures
        texts(pieces@) == split_on(text@, separator),
{
    let chars: Vec<char> = to_chars(text);
    let mut pieces: Vec<String> = Vec::new();
    let mut start: usize = 0;
    let mut index: usize = 0;
    assert(chars@.subrange(0, 0) =~= Seq::<char>::empty());
    assert(texts(pieces@).push(Seq::<char>::empty()) =~= seq![Seq::<char>::empty()]);
    while index < chars.len()
        invariant
            start <= index <= chars@.len(),
            chars@ == text@,
            texts(pieces@).push(chars@.subrange(start as int, index as int)) == split_on(
                text@.take(index as int),
                separator,
            ),
        decreases chars@.len() - index,
    {
        proof {
            assert(text@.take(index as int + 1).drop_last() =~= text@.take(index as int));
        }
        let ghost before = texts(pieces@);
        if chars[index] == separator {
            let piece: String = string_between(&chars, start, index);
            pieces.push(piece);
            start = index + 1;
            assert(texts(pieces@) =~= before.push(piece@));
            assert(chars@.subrange(start as int, index as int + 1) =~= Seq::<char>::empty());
        } else {
            let ghost current = chars@.subrange(start as int, index as int);
            assert(before.push(current).drop_last() =~= before);
            assert(chars@.subrange(start as int, index as int + 1) =~= current.push(
                chars@[index as int],
            ));
        }
        index = index + 1;
    }
    let ghost before = texts(pieces@);
    let piece: String = string_between(&chars, start, chars.len());
    pieces.push(piece);
    assert(texts(pieces@) =~= before.push(piece@));
    assert(text@.take(index as int) =~= text@);
    pieces
}

/// A terminated line without the carriage return before its line feed.
pub open spec fn without_return(line: Seq<char>) -> Seq<char> {
    if line.len() > 0 && line.last() == '\r' {
        line.drop_last()
    } else {
        line
    }
}

/// The lines of `text`: ended by a line feed or by a carriage return and a
/// line feed, where the ending of the last line is optional.
pub open spec fn lines_of(text: Seq<char>) -> Seq<Seq<char>> {
    let pieces = split_on(text, '\n');
    let ended = pieces.drop_last().map_values(|line: Seq<char>| without_return(line));
    if pieces.last().len() == 0 {
        ended
    } else {
        ended.push(pieces.last())
    }
}

/// Splits `text` into its lines.
pub fn text_lines(text: &str) -> (lines: Vec<String>)
    ensures
        texts(lines@) == lines_of(text@),
{
    proof {
        lemma_split_on(text@, '\n');
    }
    let pieces: Vec<String> = split_text(text, '\n');
    let ghost split = split_on(text@, '\n');
    let ghost ended = split.drop_last().map_values(|line: Seq<char>| without_return(line));
    let last: usize = pieces.len() - 1;
    let mut lines: Vec<String> = Vec::new();
    let mut index: usize = 0;
    while index < last
        invariant
            index <= last,
            last == pieces@.len() - 1,
            texts(pieces@) == split,
            ended == split.drop_last().map_values(|line: Seq<char>| without_return(line)),
            texts(lines@) == ended.take(index as int),
        decreases last - index,
    {
        let chars: Vec<char> = to_chars(pieces[index].as_str());
        assert(texts(pieces@)[index as int] == chars@);
        let length: usize = if chars.len() > 0 && chars[chars.len() - 1] == '\r' {
            chars.len() - 1
        } else {
            chars.len()
        };
        let line: String = string_between(&chars, 0, length);
        assert(line@ =~= without_return(split[index as int]));
        let ghost before = texts(lines@);
        lines.push(line);
        assert(texts(lines@) =~= before.push(line@));
        assert(ended.take(index as int + 1) =~= before.push(ended[index as int]));
        index = index + 1;
    }
    assert(ended.take(index as int) =~= ended);
    assert(texts(pieces@)[last as int] == pieces@[last as int]@);
    if !pieces[last].as_str().is_empty() {
        let ghost before = texts(lines@);
        let line: String = pieces[last].clone();
        lines.push(line);
        assert(texts(lines@) =~= before.push(line@));
    }
    lines
}

/// Whether `left` comes before `right` in dictionary order of their characters.
pub open spec fn text_less(left: Seq<char>, right: Seq<char>) -> bool
    decreases left.len(),
{
    if right.len() == 0 {
        false
    } else if left.len() == 0 {
        true
    } else if left[0] == right[0] {
        text_less(left.drop_first(), right.drop_first())
    } else {
        left[0] < right[0]
    }
}

/// Two different texts are ordered one way or the other.
pub proof fn lemma_text_less_total(left: Seq<char>, right: Seq<char>)
    ensures
        left != right ==> (text_less(left, right) || text_less(right, left)),
        !(text_less(left, right) && text_less(right, left)),
        !text_less(left, left),
    decreases left.len(),
{
    if left.len() > 0 {
        lemma_text_less_total(left.drop_first(), left.drop_first());
        if right.len() > 0 {
            lemma_text_less_total(left.drop_first(), right.drop_first());
            if left[0] == right[0] && left.drop_first() == right.drop_first() {
                assert(left =~= seq![left[0]] + left.drop_first());
                assert(right =~= seq![right[0]] + right.drop_first());
            }
        }
    } else if right.len() == 0 {
        assert(left =~= right);
    }
}

/// The order of texts is transitive.
pub proof fn lemma_text_less_transitive(first: Seq<char>, second: Seq<char>, third: Seq<char>)
    requires
        text_less(first, second),
        text_less(second, third),
    ensures
        text_less(first, third),
    decreases first.len(),
{
    if first.len() > 0 {
        if first[0] == second[0] && second[0] == third[0] {
            lemma_text_less_transitive(
                first.drop_first(),
                second.drop_first(),
                third.drop_first(),
            );
        }
    }
}

/// Compares two texts in dictionary order of their characters.
pub fn is_text_less(left: &str, right: &str) -> (less: bool)
    ensures
        less == text_less(left@, right@),
{
    let left_chars: Vec<char> = to_chars(left);
    let right_chars: Vec<char> = to_chars(right);
    let mut index: usize = 0;
    assert(left@.skip(0) =~= left@);
    assert(right@.skip(0) =~= right@);
    while index < left_chars.len() && index < right_chars.len()
        invariant
            index <= left_chars@.len(),
            index <= right_chars@.len(),
            left_chars@ == left@,
            right_chars@ == right@,
            text_less(left@, right@) == text_less(left@.skip(index as int), right@.skip(index as int)),
        decreases left_chars@.len() - index,
    {
        let left_char: char = left_chars[index];
        let right_char: char = right_chars[index];
        if left_char != right_char {
            return left_char < right_char;
        }
        assert(left@.skip(index as int).drop_first() =~= left@.skip(index as int + 1));
        assert(right@.skip(index as int).drop_first() =~= right@.skip(index as int + 1));
        index = index + 1;
    }
    index < right_chars.len()
}

} // verus!
