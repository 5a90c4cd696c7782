//! What the output of a session shows of its messages.

use vstd::prelude::*;

use crate::indentation::{
    filled_lines, filled_prompt, indent_columns, indent_length, private_use, protects,
    with_indent,
};
use crate::output_lines::{
    OutputRenderer, OutputView, SessionOutputLines, all_queued_rows, assembled, markdown_appended,
    message_appended, messages_appended, opens_content, output_of, prompt_block, prompt_content_width,
    prompt_prepared, queued_rows, renders, renders_prompt,
    restored_spans, running_part, section_or_same, sections_appended, separated, tail_appended,
    shows_prompt_row, with_queued, without_blank_end,
};
use crate::rich_text::{
    Color, Line, LineView, Span, SpanView, Style, line_views, span_views, text_line, zero_width,
};
use crate::session::{Session, SessionMessage, SessionMessageKind, SessionMessageState, Status};
use crate::text::{blank, trimmed, white};
use crate::text_laws::lemma_split_count;
use crate::text_lines::{lemma_split_on, lines_of, split_on};
use crate::transcript_sections::{
    TranscriptSection, TranscriptSections, active_start, draft_preview, last_of_kind, lemma_sections_cover_transcript,
    message_sections, notices_start,
};

verus! {

/// Whether a text holds anything but white space.
pub open spec fn has_text(text: Seq<char>) -> bool {
    exists|i: int| 0 <= i < text.len() && !white(#[trigger] text[i])
}

/// Lines of a text, one more than it has line breaks.
pub open spec fn line_count(text: Seq<char>) -> nat {
    text.filter(|c: char| c == '\n').len() + 1
}

/// Lines of all messages that hold any text.
pub open spec fn lines_in_all(messages: Seq<String>) -> nat
    decreases messages.len(),
{
    if messages.len() == 0 {
        0
    } else {
        let rest = lines_in_all(messages.skip(1));
        if has_text(messages[0]@) {
            line_count(messages[0]@) + rest
        } else {
            rest
        }
    }
}

proof fn lemma_blank_or_text(text: Seq<char>)
    ensures
        blank(text) == !has_text(text),
{
    if has_text(text) {
        let i = choose|i: int| 0 <= i < text.len() && !white(#[trigger] text[i]);
        assert(!white(text[i]));
    }
}

/// The rows of queued messages follow each other: those of the first ones,
/// and behind them those of the rest.
pub proof fn lemma_queued_rows_follow(first: Seq<String>, rest: Seq<String>)
    ensures
        all_queued_rows(first + rest) == all_queued_rows(first) + all_queued_rows(rest),
    decreases rest.len(),
{
    if rest.len() == 0 {
        assert(first + rest =~= first);
        assert(all_queued_rows(first) + all_queued_rows(rest) =~= all_queued_rows(first));
    } else {
        lemma_queued_rows_follow(first, rest.drop_last());
        assert((first + rest).drop_last() =~= first + rest.drop_last());
        assert((first + rest).last() == rest.last());
        assert(all_queued_rows(first + rest) =~= all_queued_rows(first) + all_queued_rows(rest));
    }
}

proof fn lemma_queued_message(message: String)
    ensures
        ({
            let lines = split_on(message@, '\n');
            &&& has_text(message@) ==> all_queued_rows(seq![message]) == queued_rows(
                lines,
                lines.len() as int,
            ) && all_queued_rows(seq![message]).len() == line_count(message@)
            &&& !has_text(message@) ==> all_queued_rows(seq![message]).len() == 0
        }),
{
    let one = seq![message];
    lemma_blank_or_text(message@);
    lemma_split_count(message@, '\n');
    assert(one.drop_last() =~= Seq::<String>::empty());
    assert(one.last() == message);
    assert(all_queued_rows(one.drop_last()) =~= Seq::<LineView>::empty());
    let lines = split_on(message@, '\n');
    assert(Seq::<LineView>::empty() + queued_rows(lines, lines.len() as int) =~= queued_rows(
        lines,
        lines.len() as int,
    ));
}

/// Queued messages have a row for each line of each message that holds any
/// text.
pub proof fn lemma_queued_row_count(messages: Seq<String>)
    ensures
        all_queued_rows(messages).len() == lines_in_all(messages),
    decreases messages.len(),
{
    if messages.len() > 0 {
        let one = seq![messages[0]];
        let rest = messages.skip(1);
        lemma_queued_row_count(rest);
        lemma_queued_rows_follow(one, rest);
        lemma_queued_message(messages[0]);
        assert(one + rest =~= messages);
    }
}

/// Every queued message that holds text is shown, behind those that were
/// queued before it: its first line behind a marker and its other lines
/// indented, in subdued italics.
pub proof fn lemma_queued_message_is_shown(messages: Seq<String>, index: int, line: int)
    requires
        0 <= index < messages.len(),
        has_text(messages[index]@),
        0 <= line < split_on(messages[index]@, '\n').len(),
    ensures
        ({
            let rows = all_queued_rows(messages);
            let row = lines_in_all(messages.take(index)) + line;
            let text = (if line == 0 {
                "queued \u{203a} "@
            } else {
                "        "@
            }) + split_on(messages[index]@, '\n')[line];
            &&& row < rows.len()
            &&& rows[row].style.fg == Some(Color::TextSubtle)
            &&& rows[row].style.bg is None
            &&& rows[row].style.italic
            &&& !rows[row].style.bold
            &&& rows[row].alignment is None
            &&& rows[row].spans == seq![
                SpanView {
                    content: text,
                    style: Style { fg: None, bg: None, bold: false, italic: false },
                },
            ]
        }),
{
    let before = messages.take(index);
    let one = seq![messages[index]];
    let after = messages.skip(index + 1);
    lemma_queued_rows_follow(before, one);
    lemma_queued_rows_follow(before + one, after);
    lemma_queued_message(messages[index]);
    lemma_queued_row_count(before);
    assert(before + one + after =~= messages);
    let lines = split_on(messages[index]@, '\n');
    let rows = all_queued_rows(messages);
    let row = lines_in_all(before) + line;
    assert(rows[row] == queued_rows(lines, lines.len() as int)[line]);
    let text = (if line == 0 {
        "queued \u{203a} "@
    } else {
        "        "@
    }) + lines[line];
    lemma_split_on(messages[index]@, '\n');
    reveal_strlit("queued \u{203a} ");
    reveal_strlit("        ");
    assert(!text.contains('\n')) by {
        if text.contains('\n') {
            let i = choose|i: int| 0 <= i < text.len() && text[i] == '\n';
            let prefix = text.len() - lines[line].len();
            if i >= prefix {
                assert(lines[line][i - prefix] == '\n');
                assert(lines[line].contains('\n'));
            }
        }
    }
    lemma_single_line(text);
    assert(rows[row].spans =~= seq![
        SpanView {
            content: text,
            style: Style { fg: None, bg: None, bold: false, italic: false },
        },
    ]);
}

proof fn lemma_single_line(text: Seq<char>)
    requires
        text.len() > 0,
        !text.contains('\n'),
    ensures
        lines_of(text) == seq![text],
{
    lemma_split_count(text, '\n');
    assert(lines_of(text) =~= seq![text]);
}

/// Whether the content of rows ends at a row: the one before it takes up a
/// column, and none behind it does.
pub open spec fn content_ends(rows: Seq<LineView>, end: int) -> bool {
    &&& 0 <= end <= rows.len()
    &&& end > 0 ==> !zero_width(rows[end - 1])
    &&& forall|i: int| end <= i < rows.len() ==> zero_width(#[trigger] rows[i])
}

proof fn lemma_kept_rows(rows: Seq<LineView>, end: int)
    requires
        content_ends(rows, end),
    ensures
        without_blank_end(rows) == rows.take(end),
    decreases rows.len(),
{
    if end < rows.len() {
        assert(zero_width(rows[rows.len() - 1]));
        let rest = rows.drop_last();
        assert(end > 0 ==> rest[end - 1] == rows[end - 1]);
        assert forall|i: int| end <= i < rest.len() implies zero_width(#[trigger] rest[i]) by {
            assert(rest[i] == rows[i]);
        }
        lemma_kept_rows(rest, end);
        assert(rest.take(end) =~= rows.take(end));
    } else {
        assert(rows.take(end) =~= rows);
        if end > 0 {
            assert(!zero_width(rows.last()));
        }
    }
}

/// Setting a block apart keeps every row of the content before it, and puts
/// exactly one empty row behind it.
pub proof fn lemma_separator_keeps_content(rows: Seq<LineView>, end: int, always: bool)
    requires
        content_ends(rows, end),
    ensures
        end > 0 || always ==> separated(rows, always).len() == end + 1 && separated(
            rows,
            always,
        )[end].spans.len() == 0,
        end == 0 && !always ==> separated(rows, always).len() == 0,
        forall|i: int| 0 <= i < end ==> #[trigger] separated(rows, always)[i] == rows[i],
{
    lemma_kept_rows(rows, end);
}

/// Queued messages stand between two empty rows behind the content; without
/// any nothing is added.
pub proof fn lemma_queued_messages_between_rows(
    rows: Seq<LineView>,
    end: int,
    messages: Seq<String>,
)
    requires
        content_ends(rows, end),
    ensures
        ({
            let shown = with_queued(rows, messages);
            &&& messages.len() == 0 ==> shown == rows
            &&& messages.len() > 0 ==> {
                &&& shown.len() == end + lines_in_all(messages) + 2
                &&& shown[end].spans.len() == 0
                &&& shown[shown.len() - 1].spans.len() == 0
                &&& shown.take(end) == rows.take(end)
                &&& shown.subrange(end + 1, shown.len() - 1) == all_queued_rows(messages)
            }
        }),
{
    lemma_separator_keeps_content(rows, end, true);
    lemma_queued_row_count(messages);
    let shown = with_queued(rows, messages);
    if messages.len() > 0 {
        assert(shown.take(end) =~= rows.take(end));
        assert(shown.subrange(end + 1, shown.len() - 1) =~= all_queued_rows(messages));
    }
}

/// Messages are shown in their order: those of the first part, and behind
/// them those of the second.
pub proof fn lemma_messages_follow<R: OutputRenderer>(
    renderer: &R,
    first: Seq<SessionMessage>,
    second: Seq<SessionMessage>,
    width: usize,
    before: OutputView,
    middle: OutputView,
    after: OutputView,
)
    requires
        messages_appended(renderer, first, width, before, middle),
        messages_appended(renderer, second, width, middle, after),
    ensures
        messages_appended(renderer, first + second, width, before, after),
    decreases second.len(),
{
    if second.len() == 0 {
        assert(first + second =~= first);
    } else {
        let last = choose|last: OutputView|
            messages_appended(renderer, second.drop_last(), width, middle, last)
                && #[trigger] message_appended(renderer, second.last(), width, last, after);
        lemma_messages_follow(
            renderer,
            first,
            second.drop_last(),
            width,
            before,
            middle,
            last,
        );
        assert((first + second).drop_last() =~= first + second.drop_last());
        assert((first + second).last() == second.last());
        assert(message_appended(renderer, (first + second).last(), width, last, after));
    }
}

/// One message is shown as itself, and no message as nothing.
pub proof fn lemma_one_message<R: OutputRenderer>(
    renderer: &R,
    message: SessionMessage,
    width: usize,
    before: OutputView,
    after: OutputView,
)
    ensures
        messages_appended(renderer, seq![message], width, before, after) == message_appended(
            renderer,
            message,
            width,
            before,
            after,
        ),
        messages_appended(renderer, Seq::empty(), width, before, after) == (after == before),
{
    let one = seq![message];
    assert(one.drop_last() =~= Seq::<SessionMessage>::empty());
    assert(one.last() == message);
    if message_appended(renderer, message, width, before, after) {
        assert(messages_appended(renderer, one.drop_last(), width, before, before));
        assert(message_appended(renderer, one.last(), width, before, after));
    }
    if messages_appended(renderer, one, width, before, after) {
        let middle = choose|middle: OutputView|
            messages_appended(renderer, one.drop_last(), width, before, middle)
                && #[trigger] message_appended(renderer, one.last(), width, middle, after);
        assert(middle == before);
    }
}

/// A pending message is one row: its loader and its text, of which the place
/// is remembered; no other message has a loader.
pub proof fn lemma_pending_message_row<R: OutputRenderer>(
    renderer: &R,
    message: SessionMessage,
    width: usize,
    before: OutputView,
    after: OutputView,
    end: int,
    icon: Seq<char>,
)
    requires
        message_appended(renderer, message, width, before, after),
        content_ends(before.lines, end),
        before.lines.len() < usize::MAX,
        forall|answer: String|
            call_ensures(R::loader_icon, (renderer,), answer) ==> (#[trigger] answer@) == icon,
    ensures
        message.state != SessionMessageState::Pending ==> after.loaders == before.loaders,
        message.state == SessionMessageState::Pending ==> {
            let row = if end == 0 {
                0
            } else {
                end + 1
            };
            &&& after.lines.len() == row + 1
            &&& after.loaders.len() == before.loaders.len() + 1
            &&& after.loaders[before.loaders.len() as int] == row
            &&& after.loaders.take(before.loaders.len() as int) == before.loaders
            &&& after.lines.take(end) == before.lines.take(end)
            &&& after.lines[row] == text_line(
                icon.push(' ') + trimmed(message.content@),
                Style { fg: None, bg: None, bold: false, italic: false },
            )
        },
{
    lemma_separator_keeps_content(before.lines, end, false);
    if message.state == SessionMessageState::Pending {
        reveal_strlit(" ");
        assert(icon + " "@ =~= icon.push(' '));
        assert(after.loaders.take(before.loaders.len() as int) =~= before.loaders);
        assert(after.lines.take(end) =~= before.lines.take(end));
    }
}

/// Whether a text is rendered to these rows.
pub open spec fn rendered_to<R: OutputRenderer>(
    renderer: &R,
    text: String,
    width: usize,
    rows: Seq<LineView>,
) -> bool {
    forall|answer: Vec<Line>|
        call_ensures(R::markdown, (renderer, &text, width), answer) ==> line_views(answer@) == rows
}

/// Whether a block of rows was put behind the content, apart from it.
pub open spec fn block_added(
    before: Seq<LineView>,
    end: int,
    block: Seq<LineView>,
    after: Seq<LineView>,
) -> bool {
    let start = if end == 0 {
        0
    } else {
        end + 1
    };
    &&& after.len() == start + block.len()
    &&& after.take(end) == before.take(end)
    &&& end > 0 ==> after[end].spans.len() == 0
    &&& after.skip(start) == block
}

/// Rendered text stands behind the content, apart from it; text that renders
/// to nothing leaves everything as it was.
pub proof fn lemma_rendered_block<R: OutputRenderer>(
    renderer: &R,
    text: String,
    width: usize,
    before: Seq<LineView>,
    after: Seq<LineView>,
    end: int,
    rows: Seq<LineView>,
)
    requires
        markdown_appended(renderer, text, width, before, after),
        content_ends(before, end),
        rendered_to(renderer, text, width, rows),
    ensures
        rows.len() == 0 ==> after == before,
        rows.len() > 0 ==> block_added(before, end, rows, after),
{
    lemma_separator_keeps_content(before, end, false);
    if rows.len() > 0 {
        let start = if end == 0 {
            0
        } else {
            end + 1
        };
        assert(after.take(end) =~= before.take(end));
        assert(after.skip(start) =~= rows);
    }
}

/// Answers and notices are shown as they are rendered, a summary as its
/// markdown is, and a review as its annotated text is, or plainly if it
/// failed.
pub proof fn lemma_message_blocks<R: OutputRenderer>(
    renderer: &R,
    message: SessionMessage,
    width: usize,
    before: OutputView,
    after: OutputView,
    end: int,
    shown: String,
    rows: Seq<LineView>,
)
    requires
        message_appended(renderer, message, width, before, after),
        message.state != SessionMessageState::Pending,
        content_ends(before.lines, end),
        message.kind == SessionMessageKind::AssistantAnswer || message.kind
            == SessionMessageKind::WorkflowNotice ==> shown == message.content,
        message.kind == SessionMessageKind::TurnSummary ==> forall|answer: String|
            call_ensures(R::summary_markdown, (renderer, &message.content), answer) ==> answer
                == shown,
        message.kind == SessionMessageKind::FocusedReview ==> message.state
            != SessionMessageState::Failed && forall|answer: String|
            call_ensures(R::annotated_review, (renderer, &message.content), answer) ==> answer
                == shown,
        message.kind != SessionMessageKind::UserPrompt,
        rendered_to(renderer, shown, width, rows),
    ensures
        rows.len() == 0 ==> after == before,
        rows.len() > 0 ==> block_added(before.lines, end, rows, after.lines),
        after.loaders == before.loaders,
{
    lemma_rendered_block(renderer, shown, width, before.lines, after.lines, end, rows);
}

/// A failed review is shown as plain rows, one for each wrapped line.
pub proof fn lemma_failed_review_rows<R: OutputRenderer>(
    renderer: &R,
    message: SessionMessage,
    width: usize,
    before: OutputView,
    after: OutputView,
    end: int,
    wrapped: Vec<String>,
)
    requires
        message_appended(renderer, message, width, before, after),
        message.kind == SessionMessageKind::FocusedReview,
        message.state == SessionMessageState::Failed,
        content_ends(before.lines, end),
        forall|answer: Vec<String>|
            call_ensures(R::wrapped, (renderer, &message.content, width), answer) ==> answer
                == wrapped,
    ensures
        ({
            let start = if end == 0 {
                0
            } else {
                end + 1
            };
            &&& after.lines.len() == start + wrapped@.len()
            &&& after.lines.take(end) == before.lines.take(end)
            &&& after.lines.skip(start) == wrapped@.map_values(
                |line: String|
                    text_line(
                        line@,
                        Style { fg: None, bg: None, bold: false, italic: false },
                    ),
            )
        }),
        after.loaders == before.loaders,
{
    lemma_separator_keeps_content(before.lines, end, false);
    let start = if end == 0 {
        0
    } else {
        end + 1
    };
    assert(after.lines.take(end) =~= before.lines.take(end));
    assert(after.lines.skip(start) =~= wrapped@.map_values(
        |line: String|
            text_line(line@, Style { fg: None, bg: None, bold: false, italic: false }),
    ));
}

/// A prompt without text shows nothing.
pub proof fn lemma_blank_prompt<R: OutputRenderer>(
    renderer: &R,
    message: SessionMessage,
    width: usize,
    before: OutputView,
    after: OutputView,
)
    requires
        message_appended(renderer, message, width, before, after),
        message.kind == SessionMessageKind::UserPrompt,
        message.state != SessionMessageState::Pending,
        !has_text(message.content@),
    ensures
        after == before,
{
    lemma_blank_or_text(message.content@);
}

/// A prompt block has a row for each of its rendered rows, and one above and
/// below them. The marker stands in front of the first row with content.
pub proof fn lemma_prompt_block_rows<R: OutputRenderer>(
    renderer: &R,
    rows: Seq<LineView>,
    marker: Option<char>,
    width: usize,
    block: Seq<LineView>,
    padding: LineView,
)
    requires
        prompt_block(renderer, rows, marker, width, block),
        forall|answer: Line|
            call_ensures(R::prompt_padding_line, (renderer, width), answer) ==> (#[trigger] answer@)
                == padding,
    ensures
        block.len() == rows.len() + 2,
        block[0] == padding,
        block[block.len() - 1] == padding,
        forall|i: int|
            0 <= i < rows.len() && zero_width(#[trigger] rows[i]) ==> block[i + 1] == padding,
{
    assert forall|i: int| 0 <= i < rows.len() && zero_width(#[trigger] rows[i]) implies block[i + 1]
        == padding by {
        let row = block[i + 1];
    }
}

/// The text of a prompt is as wide as the panel without the marker and the
/// gutter, and at least one column.
pub proof fn lemma_prompt_width(width: usize, gutter: usize)
    ensures
        width > 3 + gutter ==> prompt_content_width(width, gutter) == width - 3 - gutter,
        width <= 3 + gutter ==> prompt_content_width(width, gutter) == 1,
{
}

/// Restoring the indentation turns markers into spaces and leaves every other
/// character and all styles alone.
pub proof fn lemma_restored_spans(spans: Seq<SpanView>, marker: char, span: int, place: int)
    requires
        0 <= span < spans.len(),
        0 <= place < spans[span].content.len(),
    ensures
        restored_spans(spans, None) == spans,
        ({
            let restored = restored_spans(spans, Some(marker));
            &&& restored.len() == spans.len()
            &&& restored[span].style == spans[span].style
            &&& restored[span].content.len() == spans[span].content.len()
            &&& spans[span].content[place] == marker ==> restored[span].content[place] == ' '
            &&& spans[span].content[place] != marker ==> restored[span].content[place]
                == spans[span].content[place]
        }),
{
}

/// A tab goes on to the next multiple of four columns, a space to the next
/// column.
pub proof fn lemma_indent_columns(line: Seq<char>, count: nat)
    requires
        0 < count,
        indent_columns(line, (count - 1) as nat) + 4 <= usize::MAX,
    ensures
        ({
            let before = indent_columns(line, (count - 1) as nat);
            let after = indent_columns(line, count);
            &&& line[count - 1] == '\t' ==> after % 4 == 0 && before < after <= before + 4
            &&& line[count - 1] != '\t' ==> after == before + 1
        }),
{
}

/// Only spaces and tabs at the start of a line indent it, and all of them do.
pub proof fn lemma_indent_length_exact(line: Seq<char>)
    ensures
        indent_length(line) <= line.len(),
        forall|i: int|
            0 <= i < indent_length(line) ==> (#[trigger] line[i] == ' ' || line[i] == '\t'),
        indent_length(line) < line.len() ==> line[indent_length(line) as int] != ' '
            && line[indent_length(line) as int] != '\t',
    decreases line.len(),
{
    if line.len() > 0 && (line[0] == ' ' || line[0] == '\t') {
        let rest = line.skip(1);
        lemma_indent_length_exact(rest);
        assert forall|i: int| 0 <= i < indent_length(line) implies (#[trigger] line[i] == ' '
            || line[i] == '\t') by {
            if i > 0 {
                assert(rest[i - 1] == line[i]);
            }
        }
    }
}

/// A filled indentation is as wide as its columns, and what follows it stays.
pub proof fn lemma_filled_indent(line: Seq<char>, filler: char)
    ensures
        ({
            let filled = with_indent(line, filler);
            let columns = indent_columns(line, indent_length(line)) as int;
            &&& forall|i: int| 0 <= i < columns ==> #[trigger] filled[i] == filler
            &&& filled.skip(columns) == line.skip(indent_length(line) as int)
        }),
{
    let filled = with_indent(line, filler);
    let columns = indent_columns(line, indent_length(line)) as int;
    assert(filled.skip(columns) =~= line.skip(indent_length(line) as int));
}

/// The end of the output is the status row behind the content, animated while
/// work is going on; a finished session offers to go on, and any other one
/// ends with an empty row.
pub proof fn lemma_output_end<R: OutputRenderer>(
    renderer: &R,
    status: Status,
    progress: Option<&String>,
    before: Seq<LineView>,
    after: Seq<LineView>,
    loader: Option<usize>,
    end: int,
    row: Option<Line>,
)
    requires
        tail_appended(renderer, status, progress, before, after, loader),
        content_ends(before, end),
        before.len() < usize::MAX,
        forall|answer: Option<Line>|
            call_ensures(R::status_line, (renderer, status, progress), answer) ==> answer == row,
    ensures
        row matches Some(line) ==> {
            &&& after.len() == end + 2
            &&& after.take(end) == before.take(end)
            &&& after[end].spans.len() == 0
            &&& after[end + 1] == line@
            &&& loader is Some <==> (status == Status::InProgress || status == Status::Rebasing
                || status == Status::Merging)
            &&& loader matches Some(place) ==> place == end + 1
        },
        row is None ==> {
            &&& loader is None
            &&& after.take(before.len() as int) == before
            &&& after.len() > before.len()
            &&& after[before.len() as int].spans.len() == 0
            &&& after[after.len() - 1].spans.len() == 0
            &&& after.len() == before.len() + (if status == Status::Done {
                3int
            } else {
                1int
            })
        },
{
    lemma_separator_keeps_content(before, end, true);
    if row is Some {
        assert(after.take(end) =~= before.take(end));
    } else {
        assert(after.take(before.len() as int) =~= before);
    }
}

/// While no turn is going on, the output shows all messages in their order
/// but the notices at their end, then the queued messages, then those
/// notices.
pub proof fn lemma_output_order_at_rest<R: OutputRenderer>(
    renderer: &R,
    session: Session,
    width: usize,
    after: OutputView,
)
    requires
        sections_appended(
            renderer,
            message_sections(session.status, session.transcript@),
            session,
            width,
            after,
        ),
        session.transcript@.len() <= usize::MAX,
        session.status == Status::Review || session.status == Status::Done || session.status
            == Status::Canceled || session.status == Status::Question || session.status
            == Status::AgentReview || session.status == Status::Draft,
    ensures
        exists|split: int, shown: OutputView| #[trigger]
            split_output(renderer, session.transcript@, width, split, shown) && messages_appended(
                renderer,
                session.transcript@.skip(split),
                width,
                (OutputView {
                    lines: with_queued(shown.lines, session.queued_messages@),
                    ..shown
                }),
                after,
            ) && (forall|i: int|
                split <= i < session.transcript@.len() ==> (#[trigger] session.transcript@[i]).kind
                    == SessionMessageKind::WorkflowNotice) && (split > 0
                ==> session.transcript@[split - 1].kind != SessionMessageKind::WorkflowNotice),
{
    let messages = session.transcript@;
    let sections = message_sections(session.status, messages);
    let start = OutputView { lines: Seq::empty(), loaders: Seq::empty() };
    lemma_sections_cover_transcript(session.status, messages);
    let (completed, noticed, active) = choose|
        completed: OutputView,
        noticed: OutputView,
        active: OutputView,
    |
        #[trigger] running_part(
            renderer,
            sections,
            messages,
            width,
            start,
            completed,
            noticed,
            active,
        ) && section_or_same(
            renderer,
            sections.trailing_notice,
            messages,
            width,
            sections.active_turn.shows_nothing(messages),
            (OutputView {
                lines: with_queued(active.lines, session.queued_messages@),
                ..active
            }),
            after,
        );
    let split = notices_start(messages, active_start(session.status, messages));
    assert(messages.subrange(0, split) =~= messages.take(split));
    assert(messages.subrange(split, messages.len() as int) =~= messages.skip(split));
    if split == 0 {
        assert(messages.take(0) =~= Seq::<SessionMessage>::empty());
    }
    if split == messages.len() {
        assert(messages.skip(split) =~= Seq::<SessionMessage>::empty());
    }
    assert(split_output(renderer, messages, width, split, active));
}

/// Whether the first messages are shown so, on an output that was empty.
pub open spec fn split_output<R: OutputRenderer>(
    renderer: &R,
    messages: Seq<SessionMessage>,
    width: usize,
    split: int,
    shown: OutputView,
) -> bool {
    &&& 0 <= split <= messages.len()
    &&& messages_appended(
        renderer,
        messages.take(split),
        width,
        (OutputView { lines: Seq::empty(), loaders: Seq::empty() }),
        shown,
    )
}

/// While a turn is going on whose prompt says something, all messages are
/// shown in their order, and the queued messages behind them.
pub proof fn lemma_output_order_at_work<R: OutputRenderer>(
    renderer: &R,
    session: Session,
    width: usize,
    after: OutputView,
    prompt: int,
)
    requires
        sections_appended(
            renderer,
            message_sections(session.status, session.transcript@),
            session,
            width,
            after,
        ),
        session.transcript@.len() <= usize::MAX,
        session.status == Status::InProgress || session.status == Status::Queued || session.status
            == Status::Rebasing || session.status == Status::Merging,
        0 <= prompt < session.transcript@.len(),
        session.transcript@[prompt].kind == SessionMessageKind::UserPrompt,
        has_text(session.transcript@[prompt].content@),
        forall|i: int|
            prompt < i < session.transcript@.len() ==> (#[trigger] session.transcript@[i]).kind
                != SessionMessageKind::UserPrompt,
    ensures
        exists|shown: OutputView| #[trigger]
            split_output(
                renderer,
                session.transcript@,
                width,
                session.transcript@.len() as int,
                shown,
            ) && after == (OutputView {
                lines: with_queued(shown.lines, session.queued_messages@),
                ..shown
            }),
{
    let messages = session.transcript@;
    let count = messages.len() as int;
    let sections = message_sections(session.status, messages);
    let start = OutputView { lines: Seq::empty(), loaders: Seq::empty() };
    lemma_sections_cover_transcript(session.status, messages);
    lemma_blank_or_text(messages[prompt].content@);
    let active_index = active_start(session.status, messages);
    assert(active_index == prompt) by {
        if active_index < prompt {
            assert(messages[prompt].kind != SessionMessageKind::UserPrompt);
        }
        if active_index > prompt && active_index < count {
            assert(messages[active_index].kind != SessionMessageKind::UserPrompt);
        }
        if active_index == count {
            lemma_active_prompt(session.status, messages, prompt);
        }
    }
    assert(!sections.active_turn.shows_nothing(messages)) by {
        assert(!blank(messages[prompt].content@));
    }
    let (completed, noticed, active) = choose|
        completed: OutputView,
        noticed: OutputView,
        active: OutputView,
    |
        #[trigger] running_part(
            renderer,
            sections,
            messages,
            width,
            start,
            completed,
            noticed,
            active,
        ) && section_or_same(
            renderer,
            sections.trailing_notice,
            messages,
            width,
            sections.active_turn.shows_nothing(messages),
            (OutputView {
                lines: with_queued(active.lines, session.queued_messages@),
                ..active
            }),
            after,
        );
    let split = notices_start(messages, prompt);
    let first = messages.subrange(0, split);
    let second = messages.subrange(split, prompt);
    let third = messages.subrange(prompt, count);
    if split == 0 {
        assert(first =~= Seq::<SessionMessage>::empty());
    }
    if split == prompt {
        assert(second =~= Seq::<SessionMessage>::empty());
    }
    lemma_messages_follow(renderer, first, second, width, start, completed, noticed);
    lemma_messages_follow(renderer, first + second, third, width, start, noticed, active);
    assert(first + second + third =~= messages.take(count));
    assert(split_output(renderer, messages, width, count, active));
}

proof fn lemma_active_prompt(status: Status, messages: Seq<SessionMessage>, prompt: int)
    requires
        status == Status::InProgress || status == Status::Queued || status == Status::Rebasing
            || status == Status::Merging,
        0 <= prompt < messages.len(),
        messages[prompt].kind == SessionMessageKind::UserPrompt,
    ensures
        active_start(status, messages) < messages.len(),
{
    lemma_last_found(messages, prompt, messages.len() as int);
}

proof fn lemma_last_found(messages: Seq<SessionMessage>, prompt: int, count: int)
    requires
        0 <= prompt < count <= messages.len(),
        messages[prompt].kind == SessionMessageKind::UserPrompt,
    ensures
        last_of_kind(
            messages,
            SessionMessageKind::UserPrompt,
            count,
        ) matches Some(index) && index < count,
    decreases count,
{
    if messages[count - 1].kind != SessionMessageKind::UserPrompt {
        lemma_last_found(messages, prompt, count - 1);
    }
}

/// The parts of a transcript hold each message once, in their order; without
/// a running turn there is no active part.
pub proof fn lemma_parts_hold_every_message(status: Status, messages: Seq<SessionMessage>, index: int)
    requires
        0 <= index < messages.len() <= usize::MAX,
    ensures
        ({
            let parts = message_sections(status, messages);
            let completed = holds(parts.completed_turn, index);
            let noticed = holds(parts.trailing_notice, index);
            let active = holds(parts.active_turn, index);
            &&& completed || noticed || active
            &&& !(completed && noticed) && !(completed && active) && !(noticed && active)
            &&& noticed ==> messages[index].kind == SessionMessageKind::WorkflowNotice
            &&& active ==> (status == Status::InProgress || status == Status::Queued || status
                == Status::Rebasing || status == Status::Merging)
            &&& completed && index + 1 < messages.len() && !holds(
                parts.completed_turn,
                index + 1,
            ) ==> messages[index].kind != SessionMessageKind::WorkflowNotice
            &&& index > 0 && active && !holds(parts.active_turn, index - 1) ==> messages[index].kind
                == SessionMessageKind::UserPrompt
        }),
{
    lemma_sections_cover_transcript(status, messages);
}

/// Whether a part holds a message.
pub open spec fn holds(part: TranscriptSection, index: int) -> bool {
    part matches TranscriptSection::Messages { end, start } && start <= index < end
}

/// A part of a transcript shows nothing exactly where no text is in it.
pub proof fn lemma_empty_parts(
    part: TranscriptSection,
    messages: Seq<SessionMessage>,
    index: int,
)
    ensures
        TranscriptSection::Empty.shows_nothing(messages),
        part matches TranscriptSection::Markdown(text) ==> part.shows_nothing(messages)
            == !has_text(text@),
        part is Messages && part.shows_nothing(messages) && holds(part, index) && 0 <= index
            < messages.len() ==> !has_text(messages[index].content@),
        part is Messages && !part.shows_nothing(messages) ==> exists|i: int|
            0 <= i < messages.len() && holds(part, i) && has_text((#[trigger] messages[i]).content@),
{
    if let TranscriptSection::Markdown(text) = part {
        lemma_blank_or_text(text@);
    }
    if let TranscriptSection::Messages { end, start } = part {
        if part.shows_nothing(messages) {
            if holds(part, index) && 0 <= index < messages.len() {
                lemma_blank_or_text(messages[index].content@);
            }
        } else {
            let i = choose|i: int|
                start <= i < end && i < messages.len() && !blank((#[trigger] messages[i]).content@);
            lemma_blank_or_text(messages[i].content@);
            assert(holds(part, i) && has_text(messages[i].content@));
        }
    }
}

/// The output of a session is its messages, split for its status, with the
/// end of the output behind them; the loaders are those of the messages.
pub proof fn lemma_output_of_messages<R: OutputRenderer>(
    renderer: &R,
    session: Session,
    width: usize,
    progress: Option<&String>,
    output: SessionOutputLines,
)
    requires
        output_of(renderer, session, width, progress, output),
        session.status != Status::Draft || !session.is_draft,
    ensures
        exists|body: OutputView| #[trigger]
            sections_appended(
                renderer,
                message_sections(session.status, session.transcript@),
                session,
                width,
                body,
            ) && tail_appended(
                renderer,
                session.status,
                progress,
                body.lines,
                line_views(output.lines@),
                output.active_loader_line_index,
            ) && output.timeline_loader_line_indices@ == body.loaders,
{
    let (sections, body) = choose|sections: TranscriptSections, body: OutputView| #[trigger]
        assembled(renderer, session, width, sections, body) && tail_appended(
            renderer,
            session.status,
            progress,
            body.lines,
            line_views(output.lines@),
            output.active_loader_line_index,
        ) && output.timeline_loader_line_indices@ == body.loaders;
    assert(sections_appended(
        renderer,
        message_sections(session.status, session.transcript@),
        session,
        width,
        body,
    ));
}

/// The output of a draft is its preview, and its queued messages behind it.
pub proof fn lemma_output_of_draft<R: OutputRenderer>(
    renderer: &R,
    session: Session,
    width: usize,
    sections: TranscriptSections,
    body: OutputView,
    preview: Seq<LineView>,
)
    requires
        assembled(renderer, session, width, sections, body),
        session.status == Status::Draft,
        session.is_draft,
        forall|text: String|
            text@ == draft_preview(session) ==> #[trigger] rendered_to(
                renderer,
                text,
                width,
                preview,
            ),
    ensures
        body.lines == with_queued(preview, session.queued_messages@),
        body.loaders.len() == 0,
{
    let text = sections.completed_turn->Markdown_0;
    assert(rendered_to(renderer, text, width, preview));
    let nothing = Seq::<LineView>::empty();
    assert(separated(nothing, false) + preview =~= preview);
    let start = OutputView { lines: nothing, loaders: Seq::empty() };
    let messages = session.transcript@;
    let (completed, noticed, active) = choose|
        completed: OutputView,
        noticed: OutputView,
        active: OutputView,
    |
        #[trigger] running_part(
            renderer,
            sections,
            messages,
            width,
            start,
            completed,
            noticed,
            active,
        ) && section_or_same(
            renderer,
            sections.trailing_notice,
            messages,
            width,
            sections.active_turn.shows_nothing(messages),
            (OutputView {
                lines: with_queued(active.lines, session.queued_messages@),
                ..active
            }),
            body,
        );
    if preview.len() == 0 {
        assert(preview =~= nothing);
    }
    assert(completed.lines == preview);
}

/// The characters that can stand for an indentation are those that Unicode
/// leaves to private use.
pub proof fn lemma_private_use(c: char)
    ensures
        '\u{e000}' <= c <= '\u{f8ff}' ==> private_use(c),
        '\u{f0000}' <= c <= '\u{ffffd}' ==> private_use(c),
        '\u{100000}' <= c <= '\u{10fffd}' ==> private_use(c),
        c < '\u{e000}' ==> !private_use(c),
        '\u{f900}' <= c < '\u{f0000}' ==> !private_use(c),
        private_use(c) ==> !white(c),
{
}

/// A line is kept as it is only where the mask says so.
pub proof fn lemma_kept_lines(lines: Seq<Seq<char>>, mask: Seq<bool>, filler: char, index: int)
    requires
        0 <= index < lines.len(),
    ensures
        filled_lines(lines, mask, filler).len() == lines.len(),
        index < mask.len() && mask[index] ==> filled_lines(lines, mask, filler)[index]
            == lines[index],
        index >= mask.len() || !mask[index] ==> filled_lines(lines, mask, filler)[index]
            == with_indent(lines[index], filler),
{
}

/// A prompt is rendered with its indentation under a marker that it does not
/// hold, in the columns beside the marker of the block and the gutter.
pub proof fn lemma_rendered_prompt<R: OutputRenderer>(
    renderer: &R,
    text: String,
    width: usize,
    rows: Seq<LineView>,
    marker: Option<char>,
    mask: Vec<bool>,
    gutter: usize,
)
    requires
        renders_prompt(renderer, text, width, rows, marker),
        forall|answer: Vec<bool>|
            call_ensures(R::preservation_mask, (renderer, &text), answer) ==> answer == mask,
        forall|answer: usize|
            call_ensures(R::prompt_gutter, (renderer,), answer) ==> answer == gutter,
        width > gutter + 3,
    ensures
        marker matches Some(c) ==> private_use(c) && !text@.contains(c),
        exists|protected: String, columns: usize| #[trigger]
            renders(renderer, protected, columns, rows) && columns == width - gutter - 3 && (
            marker matches Some(c) ==> protected@ == filled_prompt(text@, mask@, c)) && (marker
                is None ==> protected@ == text@),
{
    let (answer, protected, columns) = choose|answer: Vec<bool>, protected: String, columns: usize|
        #[trigger] prompt_prepared(renderer, text, answer, protected, columns, marker) && renders(
            renderer,
            protected,
            prompt_content_width(width, columns),
            rows,
        );
    assert(answer == mask);
    assert(columns == gutter);
    assert(renders(renderer, protected, prompt_content_width(width, gutter), rows));
}

/// A row of a prompt shows the spans of its rendered row, with spaces for the
/// markers; the first row with content carries the marker of the block.
pub proof fn lemma_prompt_row<R: OutputRenderer>(
    renderer: &R,
    rows: Seq<LineView>,
    marker: Option<char>,
    width: usize,
    block: Seq<LineView>,
    index: int,
    is_first: bool,
    shown: LineView,
)
    requires
        prompt_block(renderer, rows, marker, width, block),
        0 <= index < rows.len(),
        !zero_width(rows[index]),
        is_first <==> (forall|i: int| 0 <= i < index ==> zero_width(#[trigger] rows[i])),
        forall|spans: Vec<Span>, line: Line|
            span_views(spans@) == restored_spans(rows[index].spans, marker)
                && #[trigger] call_ensures(R::prompt_line, (renderer, spans, is_first, width), line)
                ==> line@ == shown,
    ensures
        block[index + 1] == shown,
{
    assert(shows_prompt_row(renderer, rows, index, marker, width, block[index + 1]));
    assert(opens_content(rows, index) == is_first);
}

/// The marker of an indentation is the first character of private use that
/// the prompt does not hold; without one the prompt stays as it is.
pub proof fn lemma_indentation_marker(
    text: Seq<char>,
    mask: Seq<bool>,
    protected: Seq<char>,
    marker: Option<char>,
    other: char,
)
    requires
        protects(text, mask, protected, marker),
    ensures
        marker matches Some(c) ==> {
            &&& private_use(c)
            &&& !text.contains(c)
            &&& private_use(other) && other < c ==> text.contains(other)
        },
        marker is None ==> protected == text,
        marker is None && private_use(other) ==> text.contains(other),
{
}

/// A prompt that renders to anything is shown: as a block behind the content
/// and apart from it.
pub proof fn lemma_prompt_is_shown<R: OutputRenderer>(
    renderer: &R,
    message: SessionMessage,
    width: usize,
    before: OutputView,
    after: OutputView,
    end: int,
)
    requires
        message_appended(renderer, message, width, before, after),
        message.kind == SessionMessageKind::UserPrompt,
        message.state != SessionMessageState::Pending,
        has_text(message.content@),
        content_ends(before.lines, end),
        forall|rows: Seq<LineView>, marker: Option<char>|
            #[trigger] renders_prompt(renderer, message.content, width, rows, marker) ==> rows.len()
                > 0,
    ensures
        after.loaders == before.loaders,
        exists|rows: Seq<LineView>, marker: Option<char>, block: Seq<LineView>|
            #[trigger] renders_prompt(renderer, message.content, width, rows, marker)
                && #[trigger] prompt_block(renderer, rows, marker, width, block) && block_added(
                before.lines,
                end,
                block,
                after.lines,
            ),
{
    lemma_blank_or_text(message.content@);
    lemma_separator_keeps_content(before.lines, end, false);
    let (rows, marker) = choose|rows: Seq<LineView>, marker: Option<char>| #[trigger]
        renders_prompt(renderer, message.content, width, rows, marker) && if rows.len() == 0 {
            after.lines == before.lines
        } else {
            exists|block: Seq<LineView>| #[trigger]
                prompt_block(renderer, rows, marker, width, block) && after.lines == separated(
                    before.lines,
                    false,
                ) + block
        };
    let block = choose|block: Seq<LineView>| #[trigger]
        prompt_block(renderer, rows, marker, width, block) && after.lines == separated(
            before.lines,
            false,
        ) + block;
    let start = if end == 0 {
        0
    } else {
        end + 1
    };
    assert(after.lines.take(end) =~= before.lines.take(end));
    assert(after.lines.skip(start) =~= block);
    assert(block_added(before.lines, end, block, after.lines));
}

} // verus!
