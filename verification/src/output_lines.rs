//! The lines of a session's output, block by block.

use vstd::prelude::*;

use crate::geometry::ViewportRect;
use crate::indentation::{protect_user_prompt_indentation, protects};
use crate::rich_text::{
    Color, Line, LineView, Span, SpanView, Style, blank_line, empty_line, is_zero_width,
    lemma_line_views_push, line_from_text, line_views, span_views, text_line, zero_width,
};
use crate::session::{Session, SessionMessage, SessionMessageKind, SessionMessageState, Status};
use crate::text::{blank, is_blank, joined, replace_char, trim, trimmed, with_replaced};
use crate::text_lines::{split_on, split_text, texts};
use crate::transcript_sections::{
    TranscriptSection, TranscriptSections, output_text_sections, sections_of,
};
use crate::viewport::minus;

verus! {

/// Columns of the marker in front of a prompt.
pub const PROMPT_PREFIX_WIDTH: usize = 3;

/// Rendering that the session output shares with the rest of the interface.
pub trait OutputRenderer {
    /// Renders markdown in a number of columns.
    fn markdown(&self, text: &String, width: usize) -> Vec<Line>;

    /// Builds the status row, where the status has one.
    fn status_line(&self, status: Status, progress: Option<&String>) -> Option<Line>;

    /// Builds the row that offers to continue a finished session.
    fn done_line(&self) -> Line;

    /// Formats a turn summary as markdown.
    fn summary_markdown(&self, content: &String) -> String;

    /// Marks the suggestions of a review.
    fn annotated_review(&self, content: &String) -> String;

    /// Wraps plain text.
    fn wrapped(&self, text: &String, width: usize) -> Vec<String>;

    /// Finds the lines of a prompt whose layout markdown depends on.
    fn preservation_mask(&self, text: &String) -> Vec<bool>;

    /// Columns kept free at the right of a prompt.
    fn prompt_gutter(&self) -> usize;

    /// Builds an empty row of a prompt block.
    fn prompt_padding_line(&self, width: usize) -> Line;

    /// Builds a row of a prompt block; the first one carries the marker.
    fn prompt_line(&self, spans: Vec<Span>, is_first: bool, width: usize) -> Line;

    /// The glyph in front of a pending entry.
    fn loader_icon(&self) -> String;

    /// Columns of the loader glyph.
    fn loader_width(&self) -> u16;

    /// Columns inside the panel that shows the output.
    fn panel_inner_width(&self, area: ViewportRect) -> usize;

    /// First row to show, at the end of the output unless the user scrolled.
    fn pinned_scroll_offset(
        &self,
        area: ViewportRect,
        line_count: usize,
        scroll_offset: Option<u16>,
    ) -> u16;

    /// Counts the changes of the active theme.
    fn theme_version(&self) -> u64;
}

/// Lines without the rows at their end that take up no column.
pub open spec fn without_blank_end(lines: Seq<LineView>) -> Seq<LineView>
    decreases lines.len(),
{
    if lines.len() > 0 && zero_width(lines.last()) {
        without_blank_end(lines.drop_last())
    } else {
        lines
    }
}

/// Lines with one empty row behind them; unless `always`, an output that has
/// no content yet gets none.
pub open spec fn separated(lines: Seq<LineView>, always: bool) -> Seq<LineView> {
    let kept = without_blank_end(lines);
    if always || kept.len() > 0 {
        kept.push(empty_line())
    } else {
        kept
    }
}

/// Removes the rows at the end that take up no column.
pub fn trim_trailing_blank_lines(lines: &mut Vec<Line>)
    ensures
        line_views(final(lines)@) == without_blank_end(line_views(old(lines)@)),
        final(lines)@.len() <= old(lines)@.len(),
{
    while lines.len() > 0
        invariant
            without_blank_end(line_views(lines@)) == without_blank_end(line_views(old(lines)@)),
            lines@.len() <= old(lines)@.len(),
        ensures
            without_blank_end(line_views(lines@)) == line_views(lines@),
            without_blank_end(line_views(lines@)) == without_blank_end(line_views(old(lines)@)),
            lines@.len() <= old(lines)@.len(),
        decreases lines@.len(),
    {
        let ghost views = line_views(lines@);
        assert(views.last() == lines@.last()@);
        if !is_zero_width(&lines[lines.len() - 1]) {
            break;
        }
        let removed: Option<Line> = lines.pop();
        assert(line_views(lines@) =~= views.drop_last());
    }
}

/// Puts an empty row behind the output.
pub fn append_block_separator(lines: &mut Vec<Line>, always: bool)
    ensures
        line_views(final(lines)@) == separated(line_views(old(lines)@), always),
{
    trim_trailing_blank_lines(lines);
    if always || lines.len() > 0 {
        push_line(lines, blank_line());
    }
}

/// Appends one line.
fn push_line(lines: &mut Vec<Line>, line: Line)
    ensures
        line_views(final(lines)@) == line_views(old(lines)@).push(line@),
        final(lines)@.len() == old(lines)@.len() + 1,
{
    proof {
        lemma_line_views_push(lines@, line);
    }
    lines.push(line);
}

/// Appends copies of lines.
fn extend_lines(lines: &mut Vec<Line>, added: &Vec<Line>)
    ensures
        line_views(final(lines)@) == line_views(old(lines)@) + line_views(added@),
{
    let ghost before = line_views(lines@);
    let ghost whole = line_views(added@);
    let mut index: usize = 0;
    assert(before + whole.take(0) =~= before);
    while index < added.len()
        invariant
            index <= added@.len(),
            whole == line_views(added@),
            line_views(lines@) == before + whole.take(index as int),
        decreases added@.len() - index,
    {
        let copy: Line = added[index].clone();
        assert(copy@ == whole[index as int]);
        push_line(lines, copy);
        assert(before + whole.take(index as int + 1) =~= (before + whole.take(index as int)).push(
            whole[index as int],
        ));
        index = index + 1;
    }
    assert(whole.take(index as int) =~= whole);
}

/// Whether `rows` is what markdown is rendered to.
pub open spec fn renders<R: OutputRenderer>(
    renderer: &R,
    text: String,
    width: usize,
    rows: Seq<LineView>,
) -> bool {
    exists|lines: Vec<Line>| #[trigger]
        call_ensures(R::markdown, (renderer, &text, width), lines) && line_views(lines@) == rows
}

/// Whether markdown was appended behind an empty row; markdown that renders
/// to nothing changes nothing.
pub open spec fn markdown_appended<R: OutputRenderer>(
    renderer: &R,
    text: String,
    width: usize,
    before: Seq<LineView>,
    after: Seq<LineView>,
) -> bool {
    exists|rows: Seq<LineView>| #[trigger]
        renders(renderer, text, width, rows) && after == (if rows.len() == 0 {
            before
        } else {
            separated(before, false) + rows
        })
}

/// Appends markdown behind an empty row.
pub fn append_markdown_lines<R: OutputRenderer>(
    lines: &mut Vec<Line>,
    text: &String,
    width: usize,
    renderer: &R,
)
    ensures
        markdown_appended(
            renderer,
            *text,
            width,
            line_views(old(lines)@),
            line_views(final(lines)@),
        ),
{
    let rendered: Vec<Line> = renderer.markdown(text, width);
    assert(call_ensures(R::markdown, (renderer, text, width), rendered));
    assert(renders(renderer, *text, width, line_views(rendered@)));
    if rendered.len() == 0 {
        return;
    }
    append_block_separator(lines, false);
    extend_lines(lines, &rendered);
}

/// Spans with the indentation marker exchanged for spaces.
pub open spec fn restored_spans(spans: Seq<SpanView>, marker: Option<char>) -> Seq<SpanView> {
    match marker {
        Some(marker) => spans.map_values(
            |span: SpanView| SpanView {
                content: with_replaced(span.content, marker, ' '),
                style: span.style,
            },
        ),
        None => spans,
    }
}

/// Exchanges the indentation marker for spaces.
pub fn restored_user_prompt_spans(line: &Line, indent_marker: Option<char>) -> (spans: Vec<Span>)
    ensures
        span_views(spans@) == restored_spans(line@.spans, indent_marker),
{
    let mut spans: Vec<Span> = Vec::new();
    let ghost wanted = restored_spans(line@.spans, indent_marker);
    let mut index: usize = 0;
    while index < line.spans.len()
        invariant
            index <= line.spans@.len(),
            wanted == restored_spans(line@.spans, indent_marker),
            span_views(spans@) == wanted.take(index as int),
        decreases line.spans@.len() - index,
    {
        let span: &Span = &line.spans[index];
        assert(line@.spans[index as int] == span@);
        let copy: Span = match indent_marker {
            Some(marker) => Span {
                content: replace_char(span.content.as_str(), marker, ' '),
                style: span.style,
            },
            None => span.clone(),
        };
        let ghost earlier = span_views(spans@);
        assert(copy@ == wanted[index as int]);
        spans.push(copy);
        assert(span_views(spans@) =~= earlier.push(copy@));
        assert(wanted.take(index as int + 1) =~= wanted.take(index as int).push(
            wanted[index as int],
        ));
        index = index + 1;
    }
    assert(wanted.take(index as int) =~= wanted);
    spans
}

/// Whether no row before `index` takes up a column.
pub open spec fn opens_content(rows: Seq<LineView>, index: int) -> bool {
    forall|i: int| 0 <= i < index ==> zero_width(#[trigger] rows[i])
}

/// Whether `row` is an empty row of a prompt block.
pub open spec fn pads<R: OutputRenderer>(renderer: &R, width: usize, row: LineView) -> bool {
    exists|line: Line| #[trigger]
        call_ensures(R::prompt_padding_line, (renderer, width), line) && line@ == row
}

/// Whether `row` shows spans in a prompt block.
pub open spec fn shows_spans<R: OutputRenderer>(
    renderer: &R,
    shown: Seq<SpanView>,
    is_first: bool,
    width: usize,
    row: LineView,
) -> bool {
    exists|spans: Vec<Span>, line: Line| #[trigger]
        call_ensures(R::prompt_line, (renderer, spans, is_first, width), line) && span_views(spans@)
            == shown && line@ == row
}

/// Whether `row` shows the rendered row at `index` in a prompt block.
pub open spec fn shows_prompt_row<R: OutputRenderer>(
    renderer: &R,
    rows: Seq<LineView>,
    index: int,
    marker: Option<char>,
    width: usize,
    row: LineView,
) -> bool {
    if zero_width(rows[index]) {
        pads(renderer, width, row)
    } else {
        shows_spans(
            renderer,
            restored_spans(rows[index].spans, marker),
            opens_content(rows, index),
            width,
            row,
        )
    }
}

/// Whether `block` is the prompt block of rendered rows: each of them between
/// two empty rows.
pub open spec fn prompt_block<R: OutputRenderer>(
    renderer: &R,
    rows: Seq<LineView>,
    marker: Option<char>,
    width: usize,
    block: Seq<LineView>,
) -> bool {
    &&& block.len() == rows.len() + 2
    &&& pads(renderer, width, block[0])
    &&& pads(renderer, width, block[block.len() - 1])
    &&& forall|i: int|
        0 <= i < rows.len() ==> shows_prompt_row(
            renderer,
            rows,
            i,
            marker,
            width,
            #[trigger] block[i + 1],
        )
}

/// The columns of a prompt's text.
pub open spec fn prompt_content_width(width: usize, gutter: usize) -> usize {
    let room = minus(minus(width as int, PROMPT_PREFIX_WIDTH as int), gutter as int);
    if room < 1 {
        1
    } else {
        room as usize
    }
}

/// Whether `rows` is what a prompt is rendered to, with its indentation under
/// `marker`.
pub open spec fn renders_prompt<R: OutputRenderer>(
    renderer: &R,
    text: String,
    width: usize,
    rows: Seq<LineView>,
    marker: Option<char>,
) -> bool {
    exists|mask: Vec<bool>, protected: String, gutter: usize| #[trigger]
        prompt_prepared(renderer, text, mask, protected, gutter, marker) && renders(
            renderer,
            protected,
            prompt_content_width(width, gutter),
            rows,
        )
}

/// Whether a prompt was prepared for rendering.
pub open spec fn prompt_prepared<R: OutputRenderer>(
    renderer: &R,
    text: String,
    mask: Vec<bool>,
    protected: String,
    gutter: usize,
    marker: Option<char>,
) -> bool {
    &&& call_ensures(R::preservation_mask, (renderer, &text), mask)
    &&& call_ensures(R::prompt_gutter, (renderer,), gutter)
    &&& protects(text@, mask@, protected@, marker)
}

/// Whether a prompt was appended behind an empty row; a blank one changes
/// nothing.
pub open spec fn prompt_appended<R: OutputRenderer>(
    renderer: &R,
    text: String,
    width: usize,
    before: Seq<LineView>,
    after: Seq<LineView>,
) -> bool {
    if blank(text@) {
        after == before
    } else {
        exists|rows: Seq<LineView>, marker: Option<char>| #[trigger]
            renders_prompt(renderer, text, width, rows, marker) && if rows.len() == 0 {
                after == before
            } else {
                exists|block: Seq<LineView>| #[trigger]
                    prompt_block(renderer, rows, marker, width, block) && after == separated(
                        before,
                        false,
                    ) + block
            }
    }
}

/// Appends the rows of a prompt between two empty rows.
fn append_prompt_block<R: OutputRenderer>(
    lines: &mut Vec<Line>,
    rendered: &Vec<Line>,
    marker: Option<char>,
    width: usize,
    renderer: &R,
)
    ensures
        exists|block: Seq<LineView>| #[trigger]
            prompt_block(renderer, line_views(rendered@), marker, width, block) && line_views(
                final(lines)@,
            ) == line_views(old(lines)@) + block,
{
    let ghost before = line_views(lines@);
    let ghost rows = line_views(rendered@);
    let ghost mut block: Seq<LineView> = Seq::empty();
    let top: Line = renderer.prompt_padding_line(width);
    assert(call_ensures(R::prompt_padding_line, (renderer, width), top));
    proof {
        block = block.push(top@);
        assert(before + block =~= before.push(top@));
    }
    push_line(lines, top);
    let mut is_first: bool = true;
    let mut index: usize = 0;
    while index < rendered.len()
        invariant
            index <= rendered@.len(),
            rows == line_views(rendered@),
            block.len() == index + 1,
            pads(renderer, width, block[0]),
            is_first == opens_content(rows, index as int),
            forall|i: int|
                0 <= i < index ==> shows_prompt_row(
                    renderer,
                    rows,
                    i,
                    marker,
                    width,
                    #[trigger] block[i + 1],
                ),
            line_views(lines@) == before + block,
        decreases rendered@.len() - index,
    {
        let ghost earlier = block;
        assert(rows[index as int] == rendered@[index as int]@);
        let is_blank_row: bool = is_zero_width(&rendered[index]);
        let row: Line = if is_blank_row {
            let padding: Line = renderer.prompt_padding_line(width);
            assert(call_ensures(R::prompt_padding_line, (renderer, width), padding));
            padding
        } else {
            let spans: Vec<Span> = restored_user_prompt_spans(&rendered[index], marker);
            let ghost given = spans;
            let shown: Line = renderer.prompt_line(spans, is_first, width);
            assert(call_ensures(R::prompt_line, (renderer, given, is_first, width), shown));
            shown
        };
        assert(shows_prompt_row(renderer, rows, index as int, marker, width, row@));
        if !is_blank_row {
            assert(!zero_width(rows[index as int]));
            is_first = false;
        }
        proof {
            block = earlier.push(row@);
            assert((before + earlier).push(row@) =~= before + block);
            assert forall|i: int| 0 <= i < index + 1 implies shows_prompt_row(
                renderer,
                rows,
                i,
                marker,
                width,
                #[trigger] block[i + 1],
            ) by {
                if i < index {
                    assert(block[i + 1] == earlier[i + 1]);
                }
            }
        }
        push_line(lines, row);
        index = index + 1;
    }
    let bottom: Line = renderer.prompt_padding_line(width);
    assert(call_ensures(R::prompt_padding_line, (renderer, width), bottom));
    let ghost whole = block.push(bottom@);
    push_line(lines, bottom);
    proof {
        assert((before + block).push(bottom@) =~= before + whole);
        assert forall|i: int| 0 <= i < rows.len() implies shows_prompt_row(
            renderer,
            rows,
            i,
            marker,
            width,
            #[trigger] whole[i + 1],
        ) by {
            assert(whole[i + 1] == block[i + 1]);
        }
        assert(prompt_block(renderer, rows, marker, width, whole));
    }
}

/// Appends a prompt behind an empty row.
pub fn append_user_prompt_markdown_lines<R: OutputRenderer>(
    lines: &mut Vec<Line>,
    text: &String,
    width: usize,
    renderer: &R,
)
    ensures
        prompt_appended(
            renderer,
            *text,
            width,
            line_views(old(lines)@),
            line_views(final(lines)@),
        ),
{
    if is_blank(text.as_str()) {
        return;
    }
    let gutter: usize = renderer.prompt_gutter();
    let room: usize = width.saturating_sub(PROMPT_PREFIX_WIDTH).saturating_sub(gutter);
    let content_width: usize = if room < 1 {
        1
    } else {
        room
    };
    let mask: Vec<bool> = renderer.preservation_mask(text);
    let (protected, marker) = protect_user_prompt_indentation(text, &mask);
    assert(prompt_prepared(renderer, *text, mask, protected, gutter, marker));
    let rendered: Vec<Line> = renderer.markdown(&protected, content_width);
    assert(call_ensures(R::markdown, (renderer, &protected, content_width), rendered));
    assert(renders(renderer, protected, content_width, line_views(rendered@)));
    assert(renders_prompt(renderer, *text, width, line_views(rendered@), marker));
    if rendered.len() == 0 {
        return;
    }
    append_block_separator(lines, false);
    append_prompt_block(lines, &rendered, marker, width, renderer);
}

/// The rows of plain text, one for each wrapped line.
pub open spec fn plain_rows(wrapped: Seq<String>) -> Seq<LineView> {
    wrapped.map_values(|line: String| text_line(line@, Style::plain_spec()))
}

/// Whether plain text was appended.
pub open spec fn plain_appended<R: OutputRenderer>(
    renderer: &R,
    text: String,
    width: usize,
    before: Seq<LineView>,
    after: Seq<LineView>,
) -> bool {
    exists|wrapped: Vec<String>| #[trigger]
        call_ensures(R::wrapped, (renderer, &text, width), wrapped) && after == before
            + plain_rows(wrapped@)
}

/// Appends plain text.
pub fn append_plain_review_status_lines<R: OutputRenderer>(
    lines: &mut Vec<Line>,
    text: &String,
    width: usize,
    renderer: &R,
)
    ensures
        plain_appended(
            renderer,
            *text,
            width,
            line_views(old(lines)@),
            line_views(final(lines)@),
        ),
{
    let wrapped: Vec<String> = renderer.wrapped(text, width);
    assert(call_ensures(R::wrapped, (renderer, text, width), wrapped));
    let ghost before = line_views(lines@);
    let ghost rows = plain_rows(wrapped@);
    let mut index: usize = 0;
    assert(before + rows.take(0) =~= before);
    while index < wrapped.len()
        invariant
            index <= wrapped@.len(),
            rows == plain_rows(wrapped@),
            line_views(lines@) == before + rows.take(index as int),
        decreases wrapped@.len() - index,
    {
        push_line(lines, line_from_text(wrapped[index].as_str(), Style::plain()));
        assert(before + rows.take(index as int + 1) =~= (before + rows.take(index as int)).push(
            rows[index as int],
        ));
        index = index + 1;
    }
    assert(rows.take(index as int) =~= rows);
}

/// Lines and the places of those that show a loader.
#[verifier::ext_equal]
pub struct OutputView {
    pub lines: Seq<LineView>,
    pub loaders: Seq<usize>,
}

/// The lines of a session's output so far.
#[derive(Debug)]
pub struct Output {
    pub lines: Vec<Line>,
    /// Rows that show the loader of a pending entry.
    pub loaders: Vec<usize>,
}

impl View for Output {
    type V = OutputView;

    open spec fn view(&self) -> OutputView {
        OutputView { lines: line_views(self.lines@), loaders: self.loaders@ }
    }
}

/// Whether a pending entry was appended: a loader and its text in one row.
pub open spec fn pending_appended<R: OutputRenderer>(
    renderer: &R,
    content: Seq<char>,
    before: OutputView,
    after: OutputView,
) -> bool {
    let lines = separated(before.lines, false);
    exists|icon: String| #[trigger]
        call_ensures(R::loader_icon, (renderer,), icon) && after == (OutputView {
            lines: lines.push(
                text_line(icon@ + " "@ + trimmed(content), Style::plain_spec()),
            ),
            loaders: before.loaders.push(lines.len() as usize),
        })
}

/// Whether a summary was appended as markdown.
pub open spec fn summary_appended<R: OutputRenderer>(
    renderer: &R,
    content: String,
    width: usize,
    before: Seq<LineView>,
    after: Seq<LineView>,
) -> bool {
    exists|text: String| #[trigger]
        call_ensures(R::summary_markdown, (renderer, &content), text) && markdown_appended(
            renderer,
            text,
            width,
            before,
            after,
        )
}

/// Whether a review was appended: a failed one as plain text, any other as
/// markdown.
pub open spec fn review_appended<R: OutputRenderer>(
    renderer: &R,
    content: String,
    has_failed: bool,
    width: usize,
    before: Seq<LineView>,
    after: Seq<LineView>,
) -> bool {
    if has_failed {
        plain_appended(renderer, content, width, separated(before, false), after)
    } else {
        exists|text: String| #[trigger]
            call_ensures(R::annotated_review, (renderer, &content), text) && markdown_appended(
                renderer,
                text,
                width,
                before,
                after,
            )
    }
}

/// Whether a message was appended.
pub open spec fn message_appended<R: OutputRenderer>(
    renderer: &R,
    message: SessionMessage,
    width: usize,
    before: OutputView,
    after: OutputView,
) -> bool {
    if message.state == SessionMessageState::Pending {
        pending_appended(renderer, message.content@, before, after)
    } else {
        &&& after.loaders == before.loaders
        &&& match message.kind {
            SessionMessageKind::UserPrompt => prompt_appended(
                renderer,
                message.content,
                width,
                before.lines,
                after.lines,
            ),
            SessionMessageKind::AssistantAnswer
            | SessionMessageKind::WorkflowNotice => markdown_appended(
                renderer,
                message.content,
                width,
                before.lines,
                after.lines,
            ),
            SessionMessageKind::TurnSummary => summary_appended(
                renderer,
                message.content,
                width,
                before.lines,
                after.lines,
            ),
            SessionMessageKind::FocusedReview => review_appended(
                renderer,
                message.content,
                message.state == SessionMessageState::Failed,
                width,
                before.lines,
                after.lines,
            ),
        }
    }
}

/// Whether messages were appended one after the other.
pub open spec fn messages_appended<R: OutputRenderer>(
    renderer: &R,
    messages: Seq<SessionMessage>,
    width: usize,
    before: OutputView,
    after: OutputView,
) -> bool
    decreases messages.len(),
{
    if messages.len() == 0 {
        after == before
    } else {
        exists|middle: OutputView|
            messages_appended(renderer, messages.drop_last(), width, before, middle)
                && #[trigger] message_appended(renderer, messages.last(), width, middle, after)
    }
}

/// Appends a message.
fn append_message<R: OutputRenderer>(
    output: &mut Output,
    message: &SessionMessage,
    width: usize,
    renderer: &R,
)
    ensures
        message_appended(renderer, *message, width, old(output)@, final(output)@),
{
    if message.state == SessionMessageState::Pending {
        append_block_separator(&mut output.lines, false);
        output.loaders.push(output.lines.len());
        let icon: String = renderer.loader_icon();
        assert(call_ensures(R::loader_icon, (renderer,), icon));
        let start: String = joined(icon.as_str(), " ");
        let text: String = joined(start.as_str(), trim(message.content.as_str()).as_str());
        let ghost shown = separated(old(output)@.lines, false);
        assert(shown.len() == line_views(output.lines@).len());
        push_line(&mut output.lines, line_from_text(text.as_str(), Style::plain()));
        assert(output@ =~= (OutputView {
            lines: shown.push(
                text_line(icon@ + " "@ + trimmed(message.content@), Style::plain_spec()),
            ),
            loaders: old(output)@.loaders.push(shown.len() as usize),
        }));
        return;
    }
    match message.kind {
        SessionMessageKind::UserPrompt => append_user_prompt_markdown_lines(
            &mut output.lines,
            &message.content,
            width,
            renderer,
        ),
        SessionMessageKind::AssistantAnswer
        | SessionMessageKind::WorkflowNotice => append_markdown_lines(
            &mut output.lines,
            &message.content,
            width,
            renderer,
        ),
        SessionMessageKind::TurnSummary => {
            let text: String = renderer.summary_markdown(&message.content);
            assert(call_ensures(R::summary_markdown, (renderer, &message.content), text));
            append_markdown_lines(&mut output.lines, &text, width, renderer);
        },
        SessionMessageKind::FocusedReview => {
            if message.state == SessionMessageState::Failed {
                append_block_separator(&mut output.lines, false);
                append_plain_review_status_lines(
                    &mut output.lines,
                    &message.content,
                    width,
                    renderer,
                );
            } else {
                let text: String = renderer.annotated_review(&message.content);
                assert(call_ensures(R::annotated_review, (renderer, &message.content), text));
                append_markdown_lines(&mut output.lines, &text, width, renderer);
            }
        },
    }
}

/// Appends the messages from `start` up to `end`.
pub fn append_transcript_message_lines<R: OutputRenderer>(
    output: &mut Output,
    messages: &Vec<SessionMessage>,
    start: usize,
    end: usize,
    width: usize,
    renderer: &R,
)
    requires
        start <= end <= messages@.len(),
    ensures
        messages_appended(
            renderer,
            messages@.subrange(start as int, end as int),
            width,
            old(output)@,
            final(output)@,
        ),
{
    let mut index: usize = start;
    assert(messages@.subrange(start as int, start as int) =~= Seq::empty());
    while index < end
        invariant
            start <= index <= end <= messages@.len(),
            messages_appended(
                renderer,
                messages@.subrange(start as int, index as int),
                width,
                old(output)@,
                output@,
            ),
        decreases end - index,
    {
        let ghost middle = output@;
        append_message(output, &messages[index], width, renderer);
        proof {
            let longer = messages@.subrange(start as int, index as int + 1);
            assert(longer.drop_last() =~= messages@.subrange(start as int, index as int));
            assert(longer.last() == messages@[index as int]);
            assert(messages_appended(renderer, longer.drop_last(), width, old(output)@, middle));
            assert(message_appended(renderer, longer.last(), width, middle, output@));
        }
        index = index + 1;
    }
}

/// Whether a part of a transcript was appended.
pub open spec fn section_appended<R: OutputRenderer>(
    renderer: &R,
    section: TranscriptSection,
    messages: Seq<SessionMessage>,
    width: usize,
    before: OutputView,
    after: OutputView,
) -> bool {
    match section {
        TranscriptSection::Empty => after == before,
        TranscriptSection::Markdown(text) => after.loaders == before.loaders && markdown_appended(
            renderer,
            text,
            width,
            before.lines,
            after.lines,
        ),
        TranscriptSection::Messages { end, start } => messages_appended(
            renderer,
            messages.subrange(start as int, end as int),
            width,
            before,
            after,
        ),
    }
}

/// Whether a part of a transcript lies inside it.
pub open spec fn section_inside(section: TranscriptSection, messages: Seq<SessionMessage>) -> bool {
    section matches TranscriptSection::Messages { end, start } ==> start <= end <= messages.len()
}

/// Appends a part of a transcript.
pub fn append_transcript_section_lines<R: OutputRenderer>(
    output: &mut Output,
    section: &TranscriptSection,
    messages: &Vec<SessionMessage>,
    width: usize,
    renderer: &R,
)
    requires
        section_inside(*section, messages@),
    ensures
        section_appended(renderer, *section, messages@, width, old(output)@, final(output)@),
{
    match section {
        TranscriptSection::Empty => {},
        TranscriptSection::Markdown(text) => append_markdown_lines(
            &mut output.lines,
            text,
            width,
            renderer,
        ),
        TranscriptSection::Messages { end, start } => append_transcript_message_lines(
            output,
            messages,
            *start,
            *end,
            width,
            renderer,
        ),
    }
}

/// The style of queued messages.
pub open spec fn queued_style() -> Style {
    Style { fg: Some(Color::TextSubtle), bg: None, bold: false, italic: true }
}

/// The rows of the first `count` lines of a queued message.
pub open spec fn queued_rows(lines: Seq<Seq<char>>, count: int) -> Seq<LineView> {
    Seq::new(
        count as nat,
        |i: int|
            text_line(
                (if i == 0 {
                    "queued \u{203a} "@
                } else {
                    "        "@
                }) + lines[i],
                queued_style(),
            ),
    )
}

/// The rows of queued messages, in the order in which they were queued; a
/// blank message has none.
pub open spec fn all_queued_rows(messages: Seq<String>) -> Seq<LineView>
    decreases messages.len(),
{
    if messages.len() == 0 {
        Seq::empty()
    } else {
        let earlier = all_queued_rows(messages.drop_last());
        let text = messages.last()@;
        if blank(text) {
            earlier
        } else {
            let lines = split_on(text, '\n');
            earlier + queued_rows(lines, lines.len() as int)
        }
    }
}

/// The output with queued messages between two empty rows.
pub open spec fn with_queued(lines: Seq<LineView>, messages: Seq<String>) -> Seq<LineView> {
    if messages.len() == 0 {
        lines
    } else {
        (separated(lines, true) + all_queued_rows(messages)).push(empty_line())
    }
}

/// Appends the rows of one queued message.
fn append_queued_message(lines: &mut Vec<Line>, text: &String)
    ensures
        line_views(final(lines)@) == line_views(old(lines)@) + queued_rows(
            split_on(text@, '\n'),
            split_on(text@, '\n').len() as int,
        ),
{
    let style: Style = Style { fg: Some(Color::TextSubtle), bg: None, bold: false, italic: true };
    let pieces: Vec<String> = split_text(text.as_str(), '\n');
    let ghost all = split_on(text@, '\n');
    let ghost before = line_views(lines@);
    let mut index: usize = 0;
    assert(before + queued_rows(all, 0) =~= before);
    while index < pieces.len()
        invariant
            index <= pieces@.len(),
            texts(pieces@) == all,
            style == queued_style(),
            line_views(lines@) == before + queued_rows(all, index as int),
        decreases pieces@.len() - index,
    {
        let prefix: &str = if index == 0 {
            "queued \u{203a} "
        } else {
            "        "
        };
        let row: String = joined(prefix, pieces[index].as_str());
        assert(all[index as int] == pieces@[index as int]@);
        push_line(lines, line_from_text(row.as_str(), style));
        assert(before + queued_rows(all, index + 1) =~= (before + queued_rows(
            all,
            index as int,
        )).push(queued_rows(all, index + 1)[index as int]));
        index = index + 1;
    }
}

/// Appends queued messages beneath the running turn.
pub fn append_queued_message_lines(lines: &mut Vec<Line>, queued_messages: &Vec<String>)
    ensures
        line_views(final(lines)@) == with_queued(line_views(old(lines)@), queued_messages@),
{
    if queued_messages.len() == 0 {
        return;
    }
    append_block_separator(lines, true);
    let ghost before = line_views(lines@);
    let mut index: usize = 0;
    assert(queued_messages@.take(0) =~= Seq::empty());
    assert(before + all_queued_rows(queued_messages@.take(0)) =~= before);
    while index < queued_messages.len()
        invariant
            index <= queued_messages@.len(),
            line_views(lines@) == before + all_queued_rows(queued_messages@.take(index as int)),
        decreases queued_messages@.len() - index,
    {
        let ghost earlier = all_queued_rows(queued_messages@.take(index as int));
        assert(queued_messages@.take(index as int + 1).drop_last() =~= queued_messages@.take(
            index as int,
        ));
        if !is_blank(queued_messages[index].as_str()) {
            append_queued_message(lines, &queued_messages[index]);
            proof {
                let pieces = split_on(queued_messages@[index as int]@, '\n');
                let rows = queued_rows(pieces, pieces.len() as int);
                assert((before + earlier) + rows =~= before + (earlier + rows));
            }
        }
        index = index + 1;
    }
    assert(queued_messages@.take(index as int) =~= queued_messages@);
    push_line(lines, blank_line());
}

/// Whether the status row of a session is animated.
pub open spec fn loader_status(status: Status) -> bool {
    match status {
        Status::InProgress | Status::Rebasing | Status::Merging => true,
        _ => false,
    }
}

/// Reports whether the status row of a session is animated.
pub fn status_uses_tachyon_loader(status: Status) -> (result: bool)
    ensures
        result == loader_status(status),
{
    matches!(status, Status::InProgress | Status::Rebasing | Status::Merging)
}

/// Whether the end of the output was appended: its status row, the offer to
/// continue a finished session, or an empty row.
pub open spec fn tail_appended<R: OutputRenderer>(
    renderer: &R,
    status: Status,
    progress: Option<&String>,
    before: Seq<LineView>,
    after: Seq<LineView>,
    loader: Option<usize>,
) -> bool {
    exists|row: Option<Line>| #[trigger]
        call_ensures(R::status_line, (renderer, status, progress), row) && match row {
            Some(row) => {
                let lines = separated(before, true);
                &&& after == lines.push(row@)
                &&& loader == (if loader_status(status) {
                    Some(lines.len() as usize)
                } else {
                    None
                })
            },
            None => loader is None && if status == Status::Done {
                exists|row: Line| #[trigger]
                    call_ensures(R::done_line, (renderer,), row) && after == before.push(
                        empty_line(),
                    ).push(row@).push(empty_line())
            } else {
                after == before.push(empty_line())
            },
        }
}

/// Appends the end of the output and returns the place of its loader.
pub fn append_session_tail_lines<R: OutputRenderer>(
    lines: &mut Vec<Line>,
    status: Status,
    progress: Option<&String>,
    renderer: &R,
) -> (loader: Option<usize>)
    ensures
        tail_appended(
            renderer,
            status,
            progress,
            line_views(old(lines)@),
            line_views(final(lines)@),
            loader,
        ),
{
    let row: Option<Line> = renderer.status_line(status, progress);
    assert(call_ensures(R::status_line, (renderer, status, progress), row));
    if let Some(row) = row {
        append_block_separator(lines, true);
        let loader: Option<usize> = if status_uses_tachyon_loader(status) {
            Some(lines.len())
        } else {
            None
        };
        assert(line_views(lines@).len() == lines@.len());
        push_line(lines, row);
        return loader;
    }
    push_line(lines, blank_line());
    if status == Status::Done {
        let row: Line = renderer.done_line();
        assert(call_ensures(R::done_line, (renderer,), row));
        push_line(lines, row);
        push_line(lines, blank_line());
    }
    None
}

/// Whether the parts of a transcript were appended around the queued
/// messages: completed turns first, then the running one.
///
/// Notices at the end of the completed turns stay above a running turn that
/// shows something, and otherwise move below the queued messages.
pub open spec fn sections_appended<R: OutputRenderer>(
    renderer: &R,
    sections: TranscriptSections,
    session: Session,
    width: usize,
    after: OutputView,
) -> bool {
    let messages = session.transcript@;
    let start = OutputView { lines: Seq::empty(), loaders: Seq::empty() };
    exists|completed: OutputView, noticed: OutputView, active: OutputView| #[trigger]
        running_part(
            renderer,
            sections,
            messages,
            width,
            start,
            completed,
            noticed,
            active,
        ) && section_or_same(
            renderer,
            sections.trailing_notice,
            messages,
            width,
            sections.active_turn.shows_nothing(messages),
            (OutputView {
                lines: with_queued(active.lines, session.queued_messages@),
                ..active
            }),
            after,
        )
}

/// Whether the completed turns, the notices above a running turn and the
/// running turn were appended.
pub open spec fn running_part<R: OutputRenderer>(
    renderer: &R,
    sections: TranscriptSections,
    messages: Seq<SessionMessage>,
    width: usize,
    start: OutputView,
    completed: OutputView,
    noticed: OutputView,
    active: OutputView,
) -> bool {
    &&& section_appended(renderer, sections.completed_turn, messages, width, start, completed)
    &&& section_or_same(
        renderer,
        sections.trailing_notice,
        messages,
        width,
        !sections.active_turn.shows_nothing(messages),
        completed,
        noticed,
    )
    &&& section_appended(renderer, sections.active_turn, messages, width, noticed, active)
}

/// Whether a part was appended, or left out.
pub open spec fn section_or_same<R: OutputRenderer>(
    renderer: &R,
    section: TranscriptSection,
    messages: Seq<SessionMessage>,
    width: usize,
    appends: bool,
    before: OutputView,
    after: OutputView,
) -> bool {
    if appends {
        section_appended(renderer, section, messages, width, before, after)
    } else {
        after == before
    }
}

/// The lines of a session's output.
#[derive(Debug)]
pub struct SessionOutputLines {
    /// Row of the animated status.
    pub active_loader_line_index: Option<usize>,
    pub lines: Vec<Line>,
    /// Rows of pending entries.
    pub timeline_loader_line_indices: Vec<usize>,
}

/// Rows are set apart by exactly one empty row: the row in front of it takes
/// up a column.
pub proof fn lemma_single_separator(lines: Seq<LineView>, always: bool)
    ensures
        separated(lines, always).len() > 0 ==> separated(lines, always).last() == empty_line(),
        separated(lines, always).len() > 1 ==> !zero_width(
            separated(lines, always)[separated(lines, always).len() - 2],
        ),
        without_blank_end(without_blank_end(lines)) == without_blank_end(lines),
    decreases lines.len(),
{
    if lines.len() > 0 && zero_width(lines.last()) {
        lemma_single_separator(lines.drop_last(), always);
    }
}

/// The animated status is the last row of the output.
pub proof fn lemma_active_loader_is_last<R: OutputRenderer>(
    renderer: &R,
    status: Status,
    progress: Option<&String>,
    before: Seq<LineView>,
    after: Seq<LineView>,
    loader: Option<usize>,
)
    requires
        tail_appended(renderer, status, progress, before, after, loader),
        after.len() <= usize::MAX,
    ensures
        loader matches Some(index) ==> index + 1 == after.len() && loader_status(status),
{
}

/// Whether `output` is the output of a session.
pub open spec fn output_of<R: OutputRenderer>(
    renderer: &R,
    session: Session,
    width: usize,
    progress: Option<&String>,
    output: SessionOutputLines,
) -> bool {
    exists|sections: TranscriptSections, body: OutputView| #[trigger]
        assembled(renderer, session, width, sections, body) && tail_appended(
            renderer,
            session.status,
            progress,
            body.lines,
            line_views(output.lines@),
            output.active_loader_line_index,
        ) && output.timeline_loader_line_indices@ == body.loaders
}

/// Whether `body` is a session's output without its end.
pub open spec fn assembled<R: OutputRenderer>(
    renderer: &R,
    session: Session,
    width: usize,
    sections: TranscriptSections,
    body: OutputView,
) -> bool {
    &&& sections_of(session, sections)
    &&& sections_appended(renderer, sections, session, width, body)
}

/// Builds the output of a session.
pub fn output_lines_with_metadata<R: OutputRenderer>(
    session: &Session,
    width: usize,
    progress: Option<&String>,
    renderer: &R,
) -> (output: SessionOutputLines)
    ensures
        output_of(renderer, *session, width, progress, output),
{
    let sections: TranscriptSections = output_text_sections(session);
    let messages: &Vec<SessionMessage> = &session.transcript;
    proof {
        crate::transcript_sections::lemma_sections_cover_transcript(session.status, messages@);
    }
    assert(messages@.len() == messages.len());
    let is_running: bool = !sections.active_turn.is_empty(messages);
    let mut output: Output = Output { lines: Vec::new(), loaders: Vec::new() };
    let ghost start = output@;
    assert(start =~= (OutputView { lines: Seq::empty(), loaders: Seq::empty() }));
    append_transcript_section_lines(
        &mut output,
        &sections.completed_turn,
        messages,
        width,
        renderer,
    );
    let ghost completed = output@;
    if is_running {
        append_transcript_section_lines(
            &mut output,
            &sections.trailing_notice,
            messages,
            width,
            renderer,
        );
    }
    let ghost noticed = output@;
    append_transcript_section_lines(&mut output, &sections.active_turn, messages, width, renderer);
    let ghost active = output@;
    assert(running_part(
        renderer,
        sections,
        messages@,
        width,
        start,
        completed,
        noticed,
        active,
    ));
    append_queued_message_lines(&mut output.lines, &session.queued_messages);
    assert(output@ == (OutputView {
        lines: with_queued(active.lines, session.queued_messages@),
        ..active
    }));
    if !is_running {
        append_transcript_section_lines(
            &mut output,
            &sections.trailing_notice,
            messages,
            width,
            renderer,
        );
    }
    let ghost body = output@;
    assert(section_or_same(
        renderer,
        sections.trailing_notice,
        messages@,
        width,
        !is_running,
        (OutputView { lines: with_queued(active.lines, session.queued_messages@), ..active }),
        body,
    ));
    assert(sections_appended(renderer, sections, *session, width, body));
    assert(assembled(renderer, *session, width, sections, body));
    let mut lines: Vec<Line> = output.lines;
    let loader: Option<usize> = append_session_tail_lines(
        &mut lines,
        session.status,
        progress,
        renderer,
    );
    SessionOutputLines {
        active_loader_line_index: loader,
        lines,
        timeline_loader_line_indices: output.loaders,
    }
}

} // verus!
