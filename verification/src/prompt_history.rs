//! Prompts recalled from a session's transcript text.

use vstd::prelude::*;

use crate::session::Session;
use crate::text::{has_prefix, joined, without_first};
use crate::text_lines::{joined_with, lines_of, text_lines, texts};

verus! {

/// The text behind a prefix.
pub open spec fn behind(text: Seq<char>, prefix: Seq<char>) -> Option<Seq<char>> {
    if prefix.is_prefix_of(text) {
        Some(text.skip(prefix.len() as int))
    } else {
        None
    }
}

/// A continuation line without its indent.
pub open spec fn unindented(line: Seq<char>) -> Seq<char> {
    match behind(line, "   "@) {
        Some(rest) => rest,
        None => line,
    }
}

/// How many lines follow before the first empty one.
pub open spec fn filled_lines(lines: Seq<Seq<char>>) -> nat
    decreases lines.len(),
{
    if lines.len() == 0 || lines[0].len() == 0 {
        0
    } else {
        1 + filled_lines(lines.skip(1))
    }
}

/// The prompt that starts with `first` and goes on over the filled lines.
pub open spec fn whole_prompt(first: Seq<char>, rest: Seq<Seq<char>>) -> Seq<char> {
    let count = filled_lines(rest);
    joined_with(
        seq![first] + Seq::new(count, |i: int| unindented(rest[i])),
        '\n',
    )
}

/// The prompts that a transcript shows.
///
/// A line that starts with the prompt marker opens a prompt, which goes on
/// until the next empty line.
pub open spec fn prompts_in(lines: Seq<Seq<char>>) -> Seq<Seq<char>>
    decreases lines.len(),
{
    if lines.len() == 0 {
        Seq::empty()
    } else {
        match behind(lines[0], " \u{203a} "@) {
            Some(first) => {
                let rest = lines.skip(1);
                proof {
                    lemma_filled_lines(rest);
                }
                seq![whole_prompt(first, rest)] + prompts_in(rest.skip(filled_lines(rest) as int))
            },
            None => prompts_in(lines.skip(1)),
        }
    }
}

/// The filled lines are lines of the text.
pub proof fn lemma_filled_lines(lines: Seq<Seq<char>>)
    ensures
        filled_lines(lines) <= lines.len(),
        forall|i: int| 0 <= i < filled_lines(lines) ==> (#[trigger] lines[i]).len() > 0,
    decreases lines.len(),
{
    if lines.len() > 0 && lines[0].len() > 0 {
        lemma_filled_lines(lines.skip(1));
        assert forall|i: int| 0 <= i < filled_lines(lines) implies (#[trigger] lines[i]).len()
            > 0 by {
            if i > 0 {
                assert(lines[i] == lines.skip(1)[i - 1]);
            }
        }
    }
}

/// The filled lines from `index` on, seen from the whole.
proof fn lemma_filled_from(lines: Seq<Seq<char>>, index: int)
    requires
        0 <= index <= lines.len(),
        forall|i: int| 0 <= i < index ==> (#[trigger] lines[i]).len() > 0,
    ensures
        filled_lines(lines) == index + filled_lines(lines.skip(index)),
    decreases index,
{
    if index == 0 {
        assert(lines.skip(0) =~= lines);
    } else {
        assert(lines[0].len() > 0);
        let rest = lines.skip(1);
        assert forall|i: int| 0 <= i < index - 1 implies (#[trigger] rest[i]).len() > 0 by {
            assert(rest[i] == lines[i + 1]);
        }
        lemma_filled_from(rest, index - 1);
        assert(rest.skip(index - 1) =~= lines.skip(index));
    }
}

/// Joining one more piece appends a separator and the piece.
pub proof fn lemma_joined_with_push(pieces: Seq<Seq<char>>, piece: Seq<char>, separator: char)
    requires
        pieces.len() > 0,
    ensures
        joined_with(pieces.push(piece), separator) == joined_with(pieces, separator).push(
            separator,
        ) + piece,
{
    let longer = pieces.push(piece);
    assert(longer.drop_last() =~= pieces);
}

/// Collects the prompts that a transcript shows.
pub fn prompt_history_entries(output: &str) -> (entries: Vec<String>)
    ensures
        texts(entries@) == prompts_in(lines_of(output@)),
{
    let lines: Vec<String> = text_lines(output);
    let ghost all = texts(lines@);
    let mut entries: Vec<String> = Vec::new();
    let mut index: usize = 0;
    assert(all.skip(0) =~= all);
    assert(texts(entries@) + prompts_in(all) =~= prompts_in(all));
    while index < lines.len()
        invariant
            index <= lines@.len(),
            all == texts(lines@),
            texts(entries@) + prompts_in(all.skip(index as int)) == prompts_in(all),
        decreases lines@.len() - index,
    {
        let ghost rest = all.skip(index as int);
        assert(rest[0] == lines@[index as int]@);
        let line: &str = lines[index].as_str();
        let ghost marker = " \u{203a} "@;
        proof {
            reveal_strlit(" \u{203a} ");
        }
        if !has_prefix(line, " \u{203a} ") {
            assert(rest.skip(1) =~= all.skip(index as int + 1));
            index = index + 1;
            continue;
        }
        let mut prompt: String = without_first(line, 3);
        let ghost first = prompt@;
        let ghost below = rest.skip(1);
        let ghost entry = whole_prompt(first, below);
        let start: usize = index + 1;
        let mut next: usize = start;
        assert(below.skip(0) =~= below);
        let ghost mut pieces = seq![first];
        assert(joined_with(pieces, '\n') =~= first);
        while next < lines.len() && !lines[next].as_str().is_empty()
            invariant
                start <= next <= lines@.len(),
                all == texts(lines@),
                below == all.skip(start as int),
                forall|i: int| 0 <= i < next - start ==> (#[trigger] below[i]).len() > 0,
                pieces == seq![first] + Seq::new(
                    (next - start) as nat,
                    |i: int| unindented(below[i]),
                ),
                prompt@ == joined_with(pieces, '\n'),
            ensures
                next == lines@.len() || lines@[next as int]@.len() == 0,
            decreases lines@.len() - next,
        {
            let continuation: &str = lines[next].as_str();
            proof {
                reveal_strlit("   ");
            }
            let piece: String = if has_prefix(continuation, "   ") {
                without_first(continuation, 3)
            } else {
                joined("", continuation)
            };
            proof {
                reveal_strlit("");
                assert(below[next - start] == lines@[next as int]@);
                assert(piece@ =~= unindented(below[next - start]));
                lemma_joined_with_push(pieces, piece@, '\n');
                let longer = pieces.push(piece@);
                assert(longer =~= seq![first] + Seq::new(
                    (next + 1 - start) as nat,
                    |i: int| unindented(below[i]),
                ));
                pieces = longer;
            }
            prompt.push('\n');
            prompt = joined(prompt.as_str(), piece.as_str());
            next = next + 1;
        }
        proof {
            let count = (next - start) as int;
            lemma_filled_from(below, count);
            let remaining = below.skip(count);
            if next < lines@.len() {
                assert(remaining[0] == lines@[next as int]@);
            }
            assert(filled_lines(remaining) == 0);
            assert(filled_lines(below) == count);
            assert(prompt@ == entry);
            assert(remaining =~= all.skip(next as int));
            let before = texts(entries@);
            assert(texts(entries@.push(prompt)) =~= before.push(prompt@));
            assert(before.push(prompt@) + prompts_in(all.skip(next as int)) =~= before + (seq![
                prompt@,
            ] + prompts_in(all.skip(next as int))));
        }
        entries.push(prompt);
        index = next;
    }
    assert(all.skip(index as int) =~= Seq::empty());
    assert(texts(entries@) =~= prompts_in(all));
    entries
}

/// The prompts that the composer of a session can recall.
///
/// A draft has no transcript yet and recalls its staged prompt.
pub open spec fn recalled_prompts(session: Session) -> Seq<Seq<char>> {
    if session.previews_draft() {
        seq![session.prompt@]
    } else {
        match session.replay_text {
            Some(text) => prompts_in(lines_of(text@)),
            None => Seq::empty(),
        }
    }
}

/// Collects the prompts that the composer of a session can recall.
pub fn session_prompt_history_entries(session: &Session) -> (entries: Vec<String>)
    ensures
        texts(entries@) == recalled_prompts(*session),
{
    if session.is_draft_preview() {
        let mut entries: Vec<String> = Vec::new();
        entries.push(session.prompt.clone());
        assert(texts(entries@) =~= recalled_prompts(*session));
        return entries;
    }
    match &session.replay_text {
        Some(text) => prompt_history_entries(text.as_str()),
        None => {
            let entries: Vec<String> = Vec::new();
            assert(texts(entries@) =~= recalled_prompts(*session));
            entries
        },
    }
}

/// How a prompt is written into a transcript: the marker before its first
/// line and an indent before each further one.
pub open spec fn written_prompt(lines: Seq<Seq<char>>) -> Seq<Seq<char>> {
    Seq::new(
        lines.len(),
        |i: int|
            if i == 0 {
                " \u{203a} "@ + lines[i]
            } else {
                "   "@ + lines[i]
            },
    )
}

/// A written prompt is recalled as it was entered, whatever lines it has.
pub proof fn lemma_written_prompt_recalled(lines: Seq<Seq<char>>, later: Seq<Seq<char>>)
    requires
        lines.len() > 0,
    ensures
        prompts_in(written_prompt(lines) + seq![Seq::empty()] + later) == seq![
            joined_with(lines, '\n'),
        ] + prompts_in(later),
{
    reveal_strlit(" \u{203a} ");
    reveal_strlit("   ");
    let written = written_prompt(lines);
    let all = written + seq![Seq::empty()] + later;
    let count = (lines.len() - 1) as int;
    let below = all.skip(1);
    assert(all[0] == " \u{203a} "@ + lines[0]);
    assert(all[0].skip(3) =~= lines[0]);
    assert(all[0].take(3) =~= " \u{203a} "@);
    assert(" \u{203a} "@.is_prefix_of(all[0])) by {
        assert forall|i: int| 0 <= i < 3 implies " \u{203a} "@[i] == all[0][i] by {}
    }
    assert forall|i: int| 0 <= i < count implies (#[trigger] below[i]) == "   "@ + lines[i + 1] by {
        assert(below[i] == all[i + 1]);
    }
    assert forall|i: int| 0 <= i < count implies #[trigger] unindented(below[i]) == lines[i
        + 1] by {
        assert(below[i].skip(3) =~= lines[i + 1]);
    }
    lemma_filled_from(below, count);
    let remaining = below.skip(count);
    assert(remaining[0].len() == 0);
    assert(filled_lines(below) == count);
    assert(seq![lines[0]] + Seq::new(count as nat, |i: int| unindented(below[i])) =~= lines);
    assert(remaining =~= seq![Seq::<char>::empty()] + later);
    assert(behind(remaining[0], " \u{203a} "@) is None);
    assert(remaining.skip(1) =~= later);
    reveal_with_fuel(prompts_in, 2);
    assert(prompts_in(remaining) == prompts_in(later));
    assert(whole_prompt(lines[0], below) == joined_with(lines, '\n'));
}

} // verus!
