//! Editable text fields.

use vstd::prelude::*;

use crate::text::{joined, string_between, to_chars};
use crate::text_lines::split_on;

verus! {

/// A text field and its cursor, counted in characters.
#[derive(Debug)]
pub struct InputState {
    pub cursor: usize,
    pub text: String,
}

impl Clone for InputState {
    fn clone(&self) -> (copy: InputState)
        ensures
            copy == *self,
    {
        InputState { cursor: self.cursor, text: self.text.clone() }
    }
}

impl Default for InputState {
    fn default() -> (input: InputState)
        ensures
            input.text@ == Seq::<char>::empty(),
            input.cursor == 0,
    {
        InputState { cursor: 0, text: String::new() }
    }
}

impl InputState {
    /// Where an insertion happens: at the cursor, and never past the end.
    pub open spec fn insertion_point(self) -> int {
        if self.cursor <= self.text@.len() {
            self.cursor as int
        } else {
            self.text@.len() as int
        }
    }

    /// Builds a field that holds `text` with the cursor behind it.
    pub fn with_text(text: &str) -> (input: InputState)
        ensures
            input.text@ == text@,
            input.cursor == text@.len(),
    {
        InputState { cursor: text.unicode_len(), text: text.to_owned() }
    }

    /// Moves the cursor behind the text.
    pub fn move_end(&mut self)
        ensures
            final(self).text == old(self).text,
            final(self).cursor == old(self).text@.len(),
    {
        self.cursor = self.text.as_str().unicode_len();
    }

    /// Inserts `inserted` at the cursor and moves the cursor behind it.
    pub fn insert_text(&mut self, inserted: &str)
        ensures
            final(self).text@ == old(self).text@.take(old(self).insertion_point()) + inserted@ + old(
                self,
            ).text@.skip(old(self).insertion_point()),
            final(self).cursor == old(self).insertion_point() + inserted@.len(),
    {
        let chars: Vec<char> = to_chars(self.text.as_str());
        let point: usize = if self.cursor <= chars.len() {
            self.cursor
        } else {
            chars.len()
        };
        let head: String = string_between(&chars, 0, point);
        let tail: String = string_between(&chars, point, chars.len());
        let start: String = joined(head.as_str(), inserted);
        self.cursor = start.as_str().unicode_len();
        self.text = joined(start.as_str(), tail.as_str());
    }
}

/// Pasted text with every line break turned into a line feed.
pub open spec fn unified_breaks(text: Seq<char>) -> Seq<char>
    decreases text.len(),
{
    if text.len() == 0 {
        Seq::empty()
    } else if text.last() == '\n' && text.len() >= 2 && text[text.len() - 2] == '\r' {
        unified_breaks(text.drop_last())
    } else if text.last() == '\r' {
        unified_breaks(text.drop_last()).push('\n')
    } else {
        unified_breaks(text.drop_last()).push(text.last())
    }
}

/// Turns carriage returns, alone or before a line feed, into line feeds.
pub fn normalize_pasted_text(text: &str) -> (result: String)
    ensures
        result@ == unified_breaks(text@),
{
    let chars: Vec<char> = to_chars(text);
    let mut result: String = String::new();
    let mut index: usize = 0;
    assert(text@.take(0) =~= Seq::<char>::empty());
    while index < chars.len()
        invariant
            index <= chars@.len(),
            chars@ == text@,
            result@ == unified_breaks(text@.take(index as int)),
        decreases chars@.len() - index,
    {
        let ghost next = text@.take(index as int + 1);
        assert(next.drop_last() =~= text@.take(index as int));
        assert(next.last() == chars@[index as int]);
        let character: char = chars[index];
        if character == '\n' && index > 0 && chars[index - 1] == '\r' {
            assert(next[next.len() - 2] == chars@[index - 1]);
        } else if character == '\r' {
            result.push('\n');
        } else {
            result.push(character);
        }
        index = index + 1;
    }
    assert(text@.take(index as int) =~= text@);
    result
}

/// The first line of pasted text.
pub open spec fn first_pasted_line(text: Seq<char>) -> Seq<char> {
    split_on(unified_breaks(text), '\n')[0]
}

/// Keeps the first line of pasted text for a field without line breaks.
pub fn normalize_single_line_pasted_text(text: &str) -> (result: String)
    ensures
        result@ == first_pasted_line(text@),
{
    let unified: String = normalize_pasted_text(text);
    let pieces: Vec<String> = crate::text_lines::split_text(unified.as_str(), '\n');
    proof {
        crate::text_lines::lemma_split_on(unified@, '\n');
        assert(crate::text_lines::texts(pieces@)[0] == pieces@[0]@);
    }
    pieces[0].clone()
}

} // verus!
