//! Character-level text helpers shared by every module.
//!
//! A text is modelled by its sequence of characters. All positions and widths
//! in this module count characters, not bytes.

use vstd::prelude::*;

verus! {

/// `String::push`: appends one character to the end of the string.
pub assume_specification[ String::push ](string: &mut String, ch: char)
    ensures
        final(string)@ == old(string)@.push(ch),
;

/// Whether a character has the Unicode `White_Space` property.
pub open spec fn white(c: char) -> bool {
    ||| '\u{9}' <= c <= '\u{d}'
    ||| c == ' '
    ||| c == '\u{85}'
    ||| c == '\u{a0}'
    ||| c == '\u{1680}'
    ||| '\u{2000}' <= c <= '\u{200a}'
    ||| c == '\u{2028}'
    ||| c == '\u{2029}'
    ||| c == '\u{202f}'
    ||| c == '\u{205f}'
    ||| c == '\u{3000}'
}

/// Reports whether a character is white space.
pub fn is_white(c: char) -> (result: bool)
    ensures
        result == white(c),
{
    ('\u{9}' <= c && c <= '\u{d}') || c == ' ' || c == '\u{85}' || c == '\u{a0}' || c == '\u{1680}'
        || ('\u{2000}' <= c && c <= '\u{200a}') || c == '\u{2028}' || c == '\u{2029}' || c
        == '\u{202f}' || c == '\u{205f}' || c == '\u{3000}'
}

/// Whether a text holds nothing but white space.
pub open spec fn blank(text: Seq<char>) -> bool {
    forall|i: int| 0 <= i < text.len() ==> white(#[trigger] text[i])
}

/// The characters of `text` as a vector.
pub fn to_chars(text: &str) -> (chars: Vec<char>)
    ensures
        chars@ == text@,
{
    let mut chars: Vec<char> = Vec::new();
    for character in iter: text.chars()
        invariant
            iter.seq() == text@,
            chars@ == text@.take(iter.index()),
    {
        chars.push(character);
        assert(text@.take(iter.index()).push(character) =~= text@.take(iter.index() + 1));
    }
    assert(text@.take(text@.len() as int) =~= text@);
    chars
}

/// The string made of the characters from `start` to `end`.
pub fn string_between(chars: &Vec<char>, start: usize, end: usize) -> (result: String)
    requires
        start <= end <= chars@.len(),
    ensures
        result@ == chars@.subrange(start as int, end as int),
{
    let mut result: String = String::new();
    let mut index: usize = start;
    while index < end
        invariant
            start <= index <= end <= chars@.len(),
            result@ == chars@.subrange(start as int, index as int),
        decreases end - index,
    {
        result.push(chars[index]);
        assert(chars@.subrange(start as int, index as int).push(chars@[index as int])
            =~= chars@.subrange(start as int, index as int + 1));
        index = index + 1;
    }
    result
}

/// `left` followed by `right`.
pub fn joined(left: &str, right: &str) -> (result: String)
    ensures
        result@ == left@ + right@,
{
    let mut result: String = left.to_owned();
    result.append(right);
    result
}

/// Whether two texts hold the same characters.
pub fn same_text(left: &str, right: &str) -> (same: bool)
    ensures
        same == (left@ == right@),
{
    let left_chars: Vec<char> = to_chars(left);
    let right_chars: Vec<char> = to_chars(right);
    if left_chars.len() != right_chars.len() {
        return false;
    }
    let mut index: usize = 0;
    while index < left_chars.len()
        invariant
            index <= left_chars@.len(),
            left_chars@ == left@,
            right_chars@ == right@,
            left@.len() == right@.len(),
            forall|i: int| 0 <= i < index ==> left@[i] == right@[i],
        decreases left_chars@.len() - index,
    {
        if left_chars[index] != right_chars[index] {
            assert(left@[index as int] != right@[index as int]);
            return false;
        }
        index = index + 1;
    }
    assert(left@ =~= right@);
    true
}

/// Whether `text` begins with `prefix`.
pub fn has_prefix(text: &str, prefix: &str) -> (result: bool)
    ensures
        result == prefix@.is_prefix_of(text@),
{
    let chars: Vec<char> = to_chars(text);
    let expected: Vec<char> = to_chars(prefix);
    if expected.len() > chars.len() {
        return false;
    }
    let mut index: usize = 0;
    while index < expected.len()
        invariant
            index <= expected@.len() <= chars@.len(),
            chars@ == text@,
            expected@ == prefix@,
            forall|i: int| 0 <= i < index ==> text@[i] == prefix@[i],
        decreases expected@.len() - index,
    {
        if chars[index] != expected[index] {
            assert(text@.subrange(0, prefix@.len() as int)[index as int] != prefix@[index as int]);
            return false;
        }
        index = index + 1;
    }
    assert(text@.subrange(0, prefix@.len() as int) =~= prefix@);
    true
}

/// `text` without its first `count` characters.
pub fn without_first(text: &str, count: usize) -> (result: String)
    requires
        count <= text@.len(),
    ensures
        result@ == text@.skip(count as int),
{
    let chars: Vec<char> = to_chars(text);
    string_between(&chars, count, chars.len())
}

/// Whether `c` occurs in `text`.
pub fn has_char(text: &str, c: char) -> (result: bool)
    ensures
        result == text@.contains(c),
{
    let chars: Vec<char> = to_chars(text);
    let mut index: usize = 0;
    while index < chars.len()
        invariant
            index <= chars@.len(),
            chars@ == text@,
            forall|i: int| 0 <= i < index ==> text@[i] != c,
        decreases chars@.len() - index,
    {
        if chars[index] == c {
            assert(text@[index as int] == c);
            return true;
        }
        index = index + 1;
    }
    false
}

/// `text` with every `from` exchanged for `to`.
pub open spec fn with_replaced(text: Seq<char>, from: char, to: char) -> Seq<char> {
    text.map_values(|c: char| if c == from { to } else { c })
}

/// Exchanges every `from` in `text` for `to`.
pub fn replace_char(text: &str, from: char, to: char) -> (result: String)
    ensures
        result@ == with_replaced(text@, from, to),
{
    let chars: Vec<char> = to_chars(text);
    let mut result: String = String::new();
    let mut index: usize = 0;
    while index < chars.len()
        invariant
            index <= chars@.len(),
            chars@ == text@,
            result@ == with_replaced(text@, from, to).take(index as int),
        decreases chars@.len() - index,
    {
        let c: char = if chars[index] == from {
            to
        } else {
            chars[index]
        };
        result.push(c);
        assert(with_replaced(text@, from, to).take(index as int).push(c) =~= with_replaced(
            text@,
            from,
            to,
        ).take(index as int + 1));
        index = index + 1;
    }
    assert(with_replaced(text@, from, to).take(index as int) =~= with_replaced(text@, from, to));
    result
}

/// Whether `text` holds nothing but white space.
pub fn is_blank(text: &str) -> (result: bool)
    ensures
        result == blank(text@),
{
    let chars: Vec<char> = to_chars(text);
    let mut index: usize = 0;
    while index < chars.len()
        invariant
            index <= chars@.len(),
            chars@ == text@,
            forall|i: int| 0 <= i < index ==> white(#[trigger] text@[i]),
        decreases chars@.len() - index,
    {
        if !is_white(chars[index]) {
            assert(!white(text@[index as int]));
            return false;
        }
        index = index + 1;
    }
    true
}

/// How many characters of white space `text` begins with.
pub open spec fn leading_white(text: Seq<char>) -> nat
    decreases text.len(),
{
    if text.len() > 0 && white(text[0]) {
        1 + leading_white(text.drop_first())
    } else {
        0
    }
}

/// How many characters of white space `text` ends with.
pub open spec fn trailing_white(text: Seq<char>) -> nat
    decreases text.len(),
{
    if text.len() > 0 && white(text.last()) {
        1 + trailing_white(text.drop_last())
    } else {
        0
    }
}

/// `text` without the white space around it.
pub open spec fn trimmed(text: Seq<char>) -> Seq<char> {
    let rest = text.skip(leading_white(text) as int);
    rest.take(rest.len() - trailing_white(rest))
}

proof fn lemma_leading_white_at(text: Seq<char>, count: nat)
    requires
        count <= text.len(),
        forall|i: int| 0 <= i < count ==> white(#[trigger] text[i]),
        count < text.len() ==> !white(text[count as int]),
    ensures
        leading_white(text) == count,
    decreases text.len(),
{
    if count > 0 {
        assert(white(text[0]));
        let rest = text.drop_first();
        assert forall|i: int| 0 <= i < count - 1 implies white(#[trigger] rest[i]) by {
            assert(rest[i] == text[i + 1]);
        }
        lemma_leading_white_at(rest, (count - 1) as nat);
    }
}

proof fn lemma_trailing_white_at(text: Seq<char>, count: nat)
    requires
        count <= text.len(),
        forall|i: int| text.len() - count <= i < text.len() ==> white(#[trigger] text[i]),
        count < text.len() ==> !white(text[text.len() - count - 1]),
    ensures
        trailing_white(text) == count,
    decreases text.len(),
{
    if count > 0 {
        assert(white(text[text.len() - 1]));
        let rest = text.drop_last();
        assert forall|i: int| rest.len() - (count - 1) <= i < rest.len() implies white(
            #[trigger] rest[i],
        ) by {
            assert(rest[i] == text[i]);
        }
        lemma_trailing_white_at(rest, (count - 1) as nat);
    }
}

/// The white space around a text never exceeds the text.
pub proof fn lemma_white_bounds(text: Seq<char>)
    ensures
        leading_white(text) <= text.len(),
        trailing_white(text) <= text.len(),
    decreases text.len(),
{
    if text.len() > 0 {
        lemma_white_bounds(text.drop_first());
        lemma_white_bounds(text.drop_last());
    }
}

/// Removes the white space around `text`.
pub fn trim(text: &str) -> (result: String)
    ensures
        result@ == trimmed(text@),
{
    let chars: Vec<char> = to_chars(text);
    let mut start: usize = 0;
    while start < chars.len() && is_white(chars[start])
        invariant
            start <= chars@.len(),
            chars@ == text@,
            forall|i: int| 0 <= i < start ==> white(#[trigger] text@[i]),
        decreases chars@.len() - start,
    {
        start = start + 1;
    }
    let mut end: usize = chars.len();
    while end > start && is_white(chars[end - 1])
        invariant
            start <= end <= chars@.len(),
            chars@ == text@,
            forall|i: int| end <= i < text@.len() ==> white(#[trigger] text@[i]),
        decreases end,
    {
        end = end - 1;
    }
    proof {
        lemma_leading_white_at(text@, start as nat);
        let rest = text@.skip(start as int);
        let count = (chars@.len() - end) as nat;
        assert forall|i: int| rest.len() - count <= i < rest.len() implies white(
            #[trigger] rest[i],
        ) by {
            assert(rest[i] == text@[i + start]);
        }
        lemma_trailing_white_at(rest, count);
        assert(rest.take(rest.len() - count) =~= text@.subrange(start as int, end as int));
    }
    string_between(&chars, start, end)
}

/// A trimmed text is empty exactly when the text is blank.
pub proof fn lemma_trimmed_empty(text: Seq<char>)
    ensures
        (trimmed(text).len() == 0) == blank(text),
{
    lemma_white_bounds(text);
    let lead = leading_white(text);
    lemma_leading_white_chars(text);
    let rest = text.skip(lead as int);
    lemma_white_bounds(rest);
    if blank(text) {
        if lead < text.len() {
            assert(white(text[lead as int]));
        }
    } else if lead < text.len() {
        lemma_trailing_white_chars(rest);
        assert(rest[0] == text[lead as int]);
        assert(trailing_white(rest) < rest.len()) by {
            if trailing_white(rest) == rest.len() {
                assert(white(rest[0]));
            }
        }
    } else {
        assert(blank(text));
    }
}

proof fn lemma_leading_white_chars(text: Seq<char>)
    ensures
        leading_white(text) <= text.len(),
        forall|i: int| 0 <= i < leading_white(text) ==> white(#[trigger] text[i]),
        leading_white(text) < text.len() ==> !white(text[leading_white(text) as int]),
    decreases text.len(),
{
    if text.len() > 0 && white(text[0]) {
        let rest = text.drop_first();
        lemma_leading_white_chars(rest);
        assert forall|i: int| 0 <= i < leading_white(text) implies white(#[trigger] text[i]) by {
            if i > 0 {
                assert(rest[i - 1] == text[i]);
            }
        }
        if leading_white(text) < text.len() {
            assert(rest[leading_white(rest) as int] == text[leading_white(text) as int]);
        }
    }
}

proof fn lemma_trailing_white_chars(text: Seq<char>)
    ensures
        trailing_white(text) <= text.len(),
        forall|i: int|
            text.len() - trailing_white(text) <= i < text.len() ==> white(#[trigger] text[i]),
    decreases text.len(),
{
    if text.len() > 0 && white(text.last()) {
        let rest = text.drop_last();
        lemma_trailing_white_chars(rest);
        assert forall|i: int|
            text.len() - trailing_white(text) <= i < text.len() implies white(
            #[trigger] text[i],
        ) by {
            if i < text.len() - 1 {
                assert(rest[i] == text[i]);
            }
        }
    }
}

/// `text` filled up with spaces on the right to at least `width` characters.
pub open spec fn padded_right(text: Seq<char>, width: int) -> Seq<char> {
    if text.len() >= width {
        text
    } else {
        text + Seq::new((width - text.len()) as nat, |i: int| ' ')
    }
}

/// `text` filled up with spaces on the left to at least `width` characters.
pub open spec fn padded_left(text: Seq<char>, width: int) -> Seq<char> {
    if text.len() >= width {
        text
    } else {
        Seq::new((width - text.len()) as nat, |i: int| ' ') + text
    }
}

/// A string of `count` spaces.
pub fn spaces(count: usize) -> (result: String)
    ensures
        result@ == Seq::new(count as nat, |i: int| ' '),
{
    repeated(' ', count)
}

/// A string of `count` times the character `c`.
pub fn repeated(c: char, count: usize) -> (result: String)
    ensures
        result@ == Seq::new(count as nat, |i: int| c),
{
    let mut result: String = String::new();
    let mut index: usize = 0;
    while index < count
        invariant
            index <= count,
            result@ == Seq::new(index as nat, |i: int| c),
        decreases count - index,
    {
        result.push(c);
        assert(Seq::new(index as nat, |i: int| c).push(c) =~= Seq::new(
            (index + 1) as nat,
            |i: int| c,
        ));
        index = index + 1;
    }
    result
}

/// Fills `text` up with spaces on the right.
pub fn pad_right(text: &str, width: usize) -> (result: String)
    ensures
        result@ == padded_right(text@, width as int),
{
    let length: usize = text.unicode_len();
    if length >= width {
        return text.to_owned();
    }
    joined(text, spaces(width - length).as_str())
}

/// Fills `text` up with spaces on the left.
pub fn pad_left(text: &str, width: usize) -> (result: String)
    ensures
        result@ == padded_left(text@, width as int),
{
    let length: usize = text.unicode_len();
    if length >= width {
        return text.to_owned();
    }
    joined(spaces(width - length).as_str(), text)
}

/// The character of a decimal digit.
pub open spec fn digit(value: int) -> char {
    (0x30 + value) as char
}

/// Converts a number below ten to its character.
fn digit_char(value: u64) -> (c: char)
    requires
        value < 10,
    ensures
        c == digit(value as int),
{
    (0x30 + value as u8) as char
}

/// The decimal digits of a number, without leading zeros.
pub open spec fn decimal(value: nat) -> Seq<char>
    decreases value,
{
    if value < 10 {
        seq![digit(value as int)]
    } else {
        decimal(value / 10).push(digit((value % 10) as int))
    }
}

/// Writes a number in decimal digits.
pub fn decimal_text(value: u64) -> (text: String)
    ensures
        text@ == decimal(value as nat),
    decreases value,
{
    let mut text: String = if value < 10 {
        String::new()
    } else {
        decimal_text(value / 10)
    };
    text.push(digit_char(value % 10));
    text
}

} // verus!
