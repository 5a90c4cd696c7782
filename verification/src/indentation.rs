//! Indentation of prompts that are rendered as markdown.
//!
//! Wrapping discards leading spaces. A marker that does not occur in the
//! prompt stands for them until the prompt is rendered.

use vstd::prelude::*;

use crate::fingerprint::capped_size;
use crate::prompt_history::lemma_joined_with_push;
use crate::text::{has_char, joined, repeated, string_between, to_chars, with_replaced};
use crate::text_lines::{joined_with, lemma_split_on, split_on, split_text, texts};

verus! {

/// Columns between two tab stops.
pub const USER_PROMPT_TAB_WIDTH: usize = 4;

/// Marker for indentation in a prompt that does not use it itself.
pub const DEFAULT_INDENT_MARKER: char = '\u{e000}';

/// Whether a number is a Unicode scalar value.
pub open spec fn scalar_value(code: int) -> bool {
    0 <= code <= 0xd7ff || 0xe000 <= code <= 0x10ffff
}

/// `char::from_u32`: the character of a Unicode scalar value, and nothing for
/// any other number.
pub assume_specification[ char::from_u32 ](code: u32) -> (c: Option<char>)
    ensures
        match c {
            Some(c) => scalar_value(code as int) && c as int == code,
            None => !scalar_value(code as int),
        },
;

/// Whether a number is a private-use code point.
pub open spec fn private_code(code: int) -> bool {
    0xe000 <= code <= 0xf8ff || 0xf0000 <= code <= 0xffffd || 0x100000 <= code <= 0x10fffd
}

/// Whether a character is free for private use.
pub open spec fn private_use(c: char) -> bool {
    private_code(c as int)
}

/// Whether every private-use character below a code point occurs in a text.
pub open spec fn all_used_below(text: Seq<char>, code: int) -> bool {
    forall|c: char| #[trigger] private_use(c) && (c as int) < code ==> text.contains(c)
}

/// Finds the first private-use character from `first` to `last` that does not
/// occur in a text.
fn unused_between(text: &str, first: u32, last: u32) -> (unused: Option<char>)
    requires
        first <= last < 0x110000,
        forall|code: int| first <= code <= last ==> #[trigger] private_code(code),
        all_used_below(text@, first as int),
    ensures
        match unused {
            Some(c) => private_use(c) && !text@.contains(c) && all_used_below(text@, c as int),
            None => all_used_below(text@, last + 1),
        },
{
    let mut code: u32 = first;
    while code <= last
        invariant
            first <= code <= last + 1,
            last < 0x110000,
            forall|code: int| first <= code <= last ==> #[trigger] private_code(code),
            all_used_below(text@, code as int),
        decreases last + 1 - code,
    {
        assert(private_code(code as int));
        if let Some(c) = char::from_u32(code) {
            if !has_char(text, c) {
                return Some(c);
            }
            assert(all_used_below(text@, code + 1)) by {
                assert forall|other: char|
                    #[trigger] private_use(other) && (other as int) < code + 1 implies text@.contains(
                    other,
                ) by {
                    if other as int == code {
                        assert(other == c);
                    }
                }
            }
        }
        code = code + 1;
    }
    None
}

/// Chooses the first private-use character that does not occur in a prompt.
pub fn unused_private_use_character(prompt_text: &str) -> (unused: Option<char>)
    ensures
        match unused {
            Some(c) => private_use(c) && !prompt_text@.contains(c) && all_used_below(
                prompt_text@,
                c as int,
            ),
            None => forall|c: char| #[trigger] private_use(c) ==> prompt_text@.contains(c),
        },
{
    if !has_char(prompt_text, DEFAULT_INDENT_MARKER) {
        return Some(DEFAULT_INDENT_MARKER);
    }
    if let Some(c) = unused_between(prompt_text, 0xe000, 0xf8ff) {
        return Some(c);
    }
    assert(all_used_below(prompt_text@, 0xf0000));
    if let Some(c) = unused_between(prompt_text, 0xf0000, 0xffffd) {
        return Some(c);
    }
    assert(all_used_below(prompt_text@, 0x100000));
    unused_between(prompt_text, 0x100000, 0x10fffd)
}

/// Whether a character indents a line.
pub open spec fn indents(c: char) -> bool {
    c == ' ' || c == '\t'
}

/// How many characters indent a line.
pub open spec fn indent_length(line: Seq<char>) -> nat
    decreases line.len(),
{
    if line.len() > 0 && indents(line[0]) {
        1 + indent_length(line.skip(1))
    } else {
        0
    }
}

/// The columns that the first `count` characters of a line take up, with tabs
/// going on to the next tab stop.
pub open spec fn indent_columns(line: Seq<char>, count: nat) -> usize
    decreases count,
{
    if count == 0 {
        0
    } else {
        let before = indent_columns(line, (count - 1) as nat);
        if line[count - 1] == '\t' {
            capped_size(before + (USER_PROMPT_TAB_WIDTH - before % USER_PROMPT_TAB_WIDTH))
        } else {
            capped_size(before + 1)
        }
    }
}

/// The indenting characters are characters of the line.
proof fn lemma_indent_length(line: Seq<char>, count: int)
    requires
        0 <= count <= line.len(),
        forall|i: int| 0 <= i < count ==> indents(#[trigger] line[i]),
    ensures
        indent_length(line) == count + indent_length(line.skip(count)),
    decreases count,
{
    if count == 0 {
        assert(line.skip(0) =~= line);
    } else {
        assert(indents(line[0]));
        let rest = line.skip(1);
        assert forall|i: int| 0 <= i < count - 1 implies indents(#[trigger] rest[i]) by {
            assert(rest[i] == line[i + 1]);
        }
        lemma_indent_length(rest, count - 1);
        assert(rest.skip(count - 1) =~= line.skip(count));
    }
}

/// Measures the indentation of a line: its characters and its columns.
pub fn leading_indentation(line: &Vec<char>) -> (indentation: (usize, usize))
    ensures
        indentation.0 == indent_length(line@),
        indentation.0 <= line@.len(),
        indentation.1 == indent_columns(line@, indentation.0 as nat),
{
    let mut count: usize = 0;
    let mut columns: usize = 0;
    while count < line.len() && (line[count] == ' ' || line[count] == '\t')
        invariant
            count <= line@.len(),
            columns == indent_columns(line@, count as nat),
            forall|i: int| 0 <= i < count ==> indents(#[trigger] line@[i]),
        ensures
            count <= line@.len(),
            columns == indent_columns(line@, count as nat),
            forall|i: int| 0 <= i < count ==> indents(#[trigger] line@[i]),
            count < line@.len() ==> !indents(line@[count as int]),
        decreases line@.len() - count,
    {
        let step: usize = if line[count] == '\t' {
            USER_PROMPT_TAB_WIDTH - columns % USER_PROMPT_TAB_WIDTH
        } else {
            1
        };
        columns = columns.saturating_add(step);
        count = count + 1;
    }
    proof {
        lemma_indent_length(line@, count as int);
        let rest = line@.skip(count as int);
        if count < line@.len() {
            assert(rest[0] == line@[count as int]);
        }
    }
    (count, columns)
}

/// A line with `filler` in every column of its indentation.
pub open spec fn with_indent(line: Seq<char>, filler: char) -> Seq<char> {
    let count = indent_length(line);
    Seq::new(indent_columns(line, count) as nat, |i: int| filler) + line.skip(count as int)
}

/// Whether the mask keeps a line as it is.
pub open spec fn kept_line(mask: Seq<bool>, index: int) -> bool {
    index < mask.len() && mask[index]
}

/// The lines of a prompt with `filler` in every column of their indentation;
/// those that the mask keeps stay as they are.
pub open spec fn filled_lines(lines: Seq<Seq<char>>, mask: Seq<bool>, filler: char) -> Seq<
    Seq<char>,
> {
    Seq::new(
        lines.len(),
        |i: int|
            if kept_line(mask, i) {
                lines[i]
            } else {
                with_indent(lines[i], filler)
            },
    )
}

/// A prompt with `filler` in every column of its indentation.
pub open spec fn filled_prompt(text: Seq<char>, mask: Seq<bool>, filler: char) -> Seq<char> {
    joined_with(filled_lines(split_on(text, '\n'), mask, filler), '\n')
}

/// The prompt with its indentation marked, and the marker; without a free
/// marker the prompt stays as it is.
pub open spec fn protects(
    text: Seq<char>,
    mask: Seq<bool>,
    protected: Seq<char>,
    marker: Option<char>,
) -> bool {
    match marker {
        Some(marker) => {
            &&& private_use(marker)
            &&& !text.contains(marker)
            &&& all_used_below(text, marker as int)
            &&& protected == filled_prompt(text, mask, marker)
        },
        None => protected == text && forall|c: char| #[trigger] private_use(c) ==> text.contains(
            c,
        ),
    }
}

/// Marks the indentation of a prompt, except in lines that the mask keeps.
pub fn protect_user_prompt_indentation(prompt_text: &String, preservation_mask: &Vec<bool>) -> (
    result: (String, Option<char>))
    ensures
        protects(prompt_text@, preservation_mask@, result.0@, result.1),
{
    let marker: char = match unused_private_use_character(prompt_text.as_str()) {
        Some(marker) => marker,
        None => {
            return (prompt_text.clone(), None);
        },
    };
    let lines: Vec<String> = split_text(prompt_text.as_str(), '\n');
    let ghost all = split_on(prompt_text@, '\n');
    let ghost wanted = filled_lines(all, preservation_mask@, marker);
    let mut protected: String = String::new();
    let mut index: usize = 0;
    proof {
        lemma_split_on(prompt_text@, '\n');
    }
    assert(wanted.take(0) =~= Seq::empty());
    while index < lines.len()
        invariant
            index <= lines@.len(),
            lines@.len() >= 1,
            texts(lines@) == all,
            wanted == filled_lines(all, preservation_mask@, marker),
            protected@ == joined_with(wanted.take(index as int), '\n'),
        decreases lines@.len() - index,
    {
        let is_kept: bool = index < preservation_mask.len() && preservation_mask[index];
        let line: &str = lines[index].as_str();
        assert(all[index as int] == lines@[index as int]@);
        let filled: String = if is_kept {
            joined("", line)
        } else {
            let chars: Vec<char> = to_chars(line);
            let (count, columns) = leading_indentation(&chars);
            let content: String = string_between(&chars, count, chars.len());
            assert(content@ =~= line@.skip(count as int));
            joined(repeated(marker, columns).as_str(), content.as_str())
        };
        proof {
            reveal_strlit("");
            assert(filled@ =~= wanted[index as int]);
            let before = wanted.take(index as int);
            assert(wanted.take(index as int + 1) =~= before.push(filled@));
            if index > 0 {
                lemma_joined_with_push(before, filled@, '\n');
            } else {
                assert(before.push(filled@).len() == 1);
            }
        }
        if index > 0 {
            protected.push('\n');
        }
        let ghost start = protected@;
        protected = joined(protected.as_str(), filled.as_str());
        assert(protected@ =~= start + filled@);
        assert(index == 0 ==> protected@ =~= filled@);
        index = index + 1;
    }
    assert(wanted.take(index as int) =~= wanted);
    (protected, Some(marker))
}

/// Exchanging a character in each piece exchanges it in the whole.
proof fn lemma_replaced_join(pieces: Seq<Seq<char>>, from: char, to: char)
    requires
        from != '\n',
    ensures
        with_replaced(joined_with(pieces, '\n'), from, to) == joined_with(
            pieces.map_values(|piece: Seq<char>| with_replaced(piece, from, to)),
            '\n',
        ),
    decreases pieces.len(),
{
    let replaced = pieces.map_values(|piece: Seq<char>| with_replaced(piece, from, to));
    if pieces.len() == 0 {
        assert(with_replaced(joined_with(pieces, '\n'), from, to) =~= Seq::empty());
    } else if pieces.len() == 1 {
        assert(replaced[0] == with_replaced(pieces[0], from, to));
    } else {
        let rest = pieces.drop_last();
        lemma_replaced_join(rest, from, to);
        assert(replaced.drop_last() =~= rest.map_values(
            |piece: Seq<char>| with_replaced(piece, from, to),
        ));
        assert(replaced.last() == with_replaced(pieces.last(), from, to));
        assert(with_replaced(joined_with(pieces, '\n'), from, to) =~= with_replaced(
            joined_with(rest, '\n'),
            from,
            to,
        ).push('\n') + with_replaced(pieces.last(), from, to));
    }
}

/// A character of a piece occurs in the whole.
proof fn lemma_piece_in_join(pieces: Seq<Seq<char>>, index: int, c: char)
    requires
        0 <= index < pieces.len(),
        pieces[index].contains(c),
    ensures
        joined_with(pieces, '\n').contains(c),
    decreases pieces.len(),
{
    let whole = joined_with(pieces, '\n');
    let inner = choose|i: int| 0 <= i < pieces[index].len() && pieces[index][i] == c;
    if pieces.len() == 1 {
        assert(whole[inner] == c);
    } else {
        let rest = pieces.drop_last();
        let head = joined_with(rest, '\n');
        if index == pieces.len() - 1 {
            assert(whole[head.len() + 1 + inner] == c);
        } else {
            assert(rest[index] == pieces[index]);
            lemma_piece_in_join(rest, index, c);
            let place = choose|i: int| 0 <= i < head.len() && head[i] == c;
            assert(whole[place] == c);
        }
    }
}

/// Once spaces take the place of the marker, a protected prompt is the prompt
/// itself with its tabs expanded: nothing else was changed by the marker.
pub proof fn lemma_restored_prompt(
    text: Seq<char>,
    mask: Seq<bool>,
    protected: Seq<char>,
    marker: char,
)
    requires
        protects(text, mask, protected, Some(marker)),
    ensures
        with_replaced(protected, marker, ' ') == filled_prompt(text, mask, ' '),
{
    let lines = split_on(text, '\n');
    let marked = filled_lines(lines, mask, marker);
    let plain = filled_lines(lines, mask, ' ');
    lemma_split_on(text, '\n');
    lemma_replaced_join(marked, marker, ' ');
    let restored = marked.map_values(|piece: Seq<char>| with_replaced(piece, marker, ' '));
    assert forall|i: int| 0 <= i < lines.len() implies #[trigger] restored[i] == plain[i] by {
        let line = lines[i];
        assert forall|j: int| 0 <= j < line.len() implies #[trigger] line[j] != marker by {
            if line[j] == marker {
                assert(line.contains(marker));
                lemma_piece_in_join(lines, i, marker);
            }
        }
        lemma_indent_bound(line);
        assert(restored[i] =~= plain[i]);
    }
    assert(restored =~= plain);
}

proof fn lemma_indent_bound(line: Seq<char>)
    ensures
        indent_length(line) <= line.len(),
    decreases line.len(),
{
    if line.len() > 0 && indents(line[0]) {
        lemma_indent_bound(line.skip(1));
    }
}

/// The spaces of an indentation without tabs are its columns.
proof fn lemma_space_columns(line: Seq<char>, count: nat)
    requires
        count <= line.len() <= usize::MAX,
        forall|i: int| 0 <= i < count ==> #[trigger] line[i] == ' ',
    ensures
        indent_columns(line, count) == count,
    decreases count,
{
    if count > 0 {
        lemma_space_columns(line, (count - 1) as nat);
        assert(line[count - 1] == ' ');
    }
}

/// The indentation of a line without tabs is made of spaces.
proof fn lemma_space_indent(line: Seq<char>)
    requires
        !line.contains('\t'),
    ensures
        indent_length(line) <= line.len(),
        forall|i: int| 0 <= i < indent_length(line) ==> #[trigger] line[i] == ' ',
    decreases line.len(),
{
    if line.len() > 0 && indents(line[0]) {
        assert(line[0] == ' ') by {
            if line[0] == '\t' {
                assert(line.contains('\t'));
            }
        }
        let rest = line.skip(1);
        assert(!rest.contains('\t')) by {
            if rest.contains('\t') {
                let i = choose|i: int| 0 <= i < rest.len() && rest[i] == '\t';
                assert(line[i + 1] == '\t');
            }
        }
        lemma_space_indent(rest);
        assert forall|i: int| 0 <= i < indent_length(line) implies #[trigger] line[i] == ' ' by {
            if i > 0 {
                assert(line[i] == rest[i - 1]);
            }
        }
    }
}

/// A prompt without tabs comes through protection unchanged.
pub proof fn lemma_prompt_without_tabs_restored(
    text: Seq<char>,
    mask: Seq<bool>,
    protected: Seq<char>,
    marker: char,
)
    requires
        protects(text, mask, protected, Some(marker)),
        !text.contains('\t'),
        text.len() <= usize::MAX,
    ensures
        with_replaced(protected, marker, ' ') == text,
{
    lemma_restored_prompt(text, mask, protected, marker);
    let lines = split_on(text, '\n');
    let plain = filled_lines(lines, mask, ' ');
    lemma_split_on(text, '\n');
    assert forall|i: int| 0 <= i < lines.len() implies #[trigger] plain[i] == lines[i] by {
        let line = lines[i];
        if !kept_line(mask, i) {
            assert(!line.contains('\t')) by {
                if line.contains('\t') {
                    lemma_piece_in_join(lines, i, '\t');
                }
            }
            lemma_piece_length(lines, i);
            lemma_space_indent(line);
            lemma_space_columns(line, indent_length(line));
            assert(with_indent(line, ' ') =~= line);
        }
    }
    assert(plain =~= lines);
}

proof fn lemma_piece_length(pieces: Seq<Seq<char>>, index: int)
    requires
        0 <= index < pieces.len(),
    ensures
        pieces[index].len() <= joined_with(pieces, '\n').len(),
    decreases pieces.len(),
{
    if pieces.len() > 1 {
        if index < pieces.len() - 1 {
            assert(pieces.drop_last()[index] == pieces[index]);
            lemma_piece_length(pieces.drop_last(), index);
        }
    }
}

} // verus!
