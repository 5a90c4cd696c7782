//! Styled text: spans, lines and their display width.

use vstd::prelude::*;

use crate::text_lines::{lines_of, text_lines, texts};

verus! {

/// A role of the active theme's palette.
#[derive(Clone, Copy, Debug, PartialEq, Eq, Structural)]
pub enum Color {
    Accent,
    AccentSoft,
    Border,
    Surface,
    SurfaceElevated,
    SurfaceOverlay,
    SurfacePrompt,
    SurfaceSelection,
    Text,
    TextMuted,
    TextSubtle,
    Warning,
    WarningSoft,
}

/// Horizontal placement of one line.
#[derive(Clone, Copy, Debug, PartialEq, Eq, Structural)]
pub enum Alignment {
    Left,
    Center,
    Right,
}

/// How a span is painted.
#[derive(Clone, Copy, Debug, PartialEq, Eq, Structural)]
pub struct Style {
    pub fg: Option<Color>,
    pub bg: Option<Color>,
    pub bold: bool,
    pub italic: bool,
}

impl Style {
    /// The style that leaves everything to the terminal.
    pub open spec fn plain_spec() -> Style {
        Style { fg: None, bg: None, bold: false, italic: false }
    }

    /// The style with only a foreground.
    pub open spec fn colored_spec(fg: Color) -> Style {
        Style { fg: Some(fg), bg: None, bold: false, italic: false }
    }

    /// The style with a bold foreground.
    pub open spec fn bold_spec(fg: Color) -> Style {
        Style { fg: Some(fg), bg: None, bold: true, italic: false }
    }

    /// The style of a highlighted row in a popup.
    pub open spec fn highlight_spec() -> Style {
        Style {
            fg: Some(Color::SurfaceOverlay),
            bg: Some(Color::Accent),
            bold: true,
            italic: false,
        }
    }

    /// Builds the style that leaves everything to the terminal.
    pub fn plain() -> (style: Style)
        ensures
            style == Style::plain_spec(),
    {
        Style { fg: None, bg: None, bold: false, italic: false }
    }

    /// Builds the style with only a foreground.
    pub fn colored(fg: Color) -> (style: Style)
        ensures
            style == Style::colored_spec(fg),
    {
        Style { fg: Some(fg), bg: None, bold: false, italic: false }
    }

    /// Builds the style with a bold foreground.
    pub fn bold(fg: Color) -> (style: Style)
        ensures
            style == Style::bold_spec(fg),
    {
        Style { fg: Some(fg), bg: None, bold: true, italic: false }
    }

    /// Builds the style of a highlighted row in a popup.
    pub fn highlight() -> (style: Style)
        ensures
            style == Style::highlight_spec(),
    {
        Style {
            fg: Some(Color::SurfaceOverlay),
            bg: Some(Color::Accent),
            bold: true,
            italic: false,
        }
    }
}

/// A run of text in one style.
#[derive(Debug)]
pub struct Span {
    pub content: String,
    pub style: Style,
}

/// What a span shows.
#[verifier::ext_equal]
pub struct SpanView {
    pub content: Seq<char>,
    pub style: Style,
}

impl View for Span {
    type V = SpanView;

    open spec fn view(&self) -> SpanView {
        SpanView { content: self.content@, style: self.style }
    }
}

impl Clone for Span {
    fn clone(&self) -> (copy: Span)
        ensures
            copy == *self,
    {
        Span { content: self.content.clone(), style: self.style }
    }
}

/// The views of a sequence of spans.
pub open spec fn span_views(spans: Seq<Span>) -> Seq<SpanView> {
    spans.map_values(|span: Span| span@)
}

/// One line of styled text.
#[derive(Debug)]
pub struct Line {
    pub alignment: Option<Alignment>,
    pub spans: Vec<Span>,
    pub style: Style,
}

/// What a line shows.
#[verifier::ext_equal]
pub struct LineView {
    pub alignment: Option<Alignment>,
    pub spans: Seq<SpanView>,
    pub style: Style,
}

impl View for Line {
    type V = LineView;

    open spec fn view(&self) -> LineView {
        LineView {
            alignment: self.alignment,
            spans: span_views(self.spans@),
            style: self.style,
        }
    }
}

/// The views of a sequence of lines.
pub open spec fn line_views(lines: Seq<Line>) -> Seq<LineView> {
    lines.map_values(|line: Line| line@)
}

/// Viewing lines commutes with appending one.
pub proof fn lemma_line_views_push(lines: Seq<Line>, line: Line)
    ensures
        line_views(lines.push(line)) == line_views(lines).push(line@),
{
    assert(line_views(lines.push(line)) =~= line_views(lines).push(line@));
}

/// A line made of the given spans, unaligned and unstyled.
pub open spec fn line_of(spans: Seq<SpanView>) -> LineView {
    LineView { alignment: None, spans, style: Style::plain_spec() }
}

/// A centered line of one span.
pub open spec fn centered(content: Seq<char>, style: Style) -> LineView {
    LineView {
        alignment: Some(Alignment::Center),
        spans: seq![SpanView { content, style }],
        style: Style::plain_spec(),
    }
}

/// The line that shows nothing.
pub open spec fn empty_line() -> LineView {
    line_of(Seq::empty())
}

/// The text of a line: its spans one after the other.
pub open spec fn spans_text(spans: Seq<SpanView>) -> Seq<char>
    decreases spans.len(),
{
    if spans.len() == 0 {
        Seq::empty()
    } else {
        spans_text(spans.drop_last()) + spans.last().content
    }
}

/// Builds a span.
pub fn styled(content: &str, style: Style) -> (span: Span)
    ensures
        span@ == (SpanView { content: content@, style }),
{
    Span { content: content.to_owned(), style }
}

/// Builds an unaligned line of one span.
pub fn line_with_span(content: &str, style: Style) -> (line: Line)
    ensures
        line@ == line_of(seq![SpanView { content: content@, style }]),
{
    let span: Span = styled(content, style);
    let mut spans: Vec<Span> = Vec::new();
    spans.push(span);
    let line: Line = Line { alignment: None, spans, style: Style::plain() };
    assert(line@.spans =~= seq![SpanView { content: content@, style }]);
    line
}

/// Builds a centered line of one span.
pub fn centered_line(content: &str, style: Style) -> (line: Line)
    ensures
        line@ == centered(content@, style),
{
    let span: Span = styled(content, style);
    let mut spans: Vec<Span> = Vec::new();
    spans.push(span);
    let line: Line = Line { alignment: Some(Alignment::Center), spans, style: Style::plain() };
    assert(line@.spans =~= seq![SpanView { content: content@, style }]);
    line
}

/// Builds the line that shows nothing.
pub fn blank_line() -> (line: Line)
    ensures
        line@ == empty_line(),
{
    let line: Line = Line { alignment: None, spans: Vec::new(), style: Style::plain() };
    assert(line@.spans =~= Seq::<SpanView>::empty());
    line
}

/// The unstyled spans of a text: one for each of its lines.
pub open spec fn raw_spans(text: Seq<char>) -> Seq<SpanView> {
    lines_of(text).map_values(
        |line: Seq<char>| SpanView { content: line, style: Style::plain_spec() },
    )
}

/// A single line of `style` that holds `text`; line breaks inside the text
/// only part its spans.
pub open spec fn text_line(text: Seq<char>, style: Style) -> LineView {
    LineView { alignment: None, spans: raw_spans(text), style }
}

/// Builds a single line that holds `text`.
pub fn line_from_text(text: &str, style: Style) -> (line: Line)
    ensures
        line@ == text_line(text@, style),
{
    let pieces: Vec<String> = text_lines(text);
    let mut spans: Vec<Span> = Vec::new();
    let mut index: usize = 0;
    while index < pieces.len()
        invariant
            index <= pieces@.len(),
            texts(pieces@) == lines_of(text@),
            span_views(spans@) == raw_spans(text@).take(index as int),
        decreases pieces@.len() - index,
    {
        let span: Span = styled(pieces[index].as_str(), Style::plain());
        let ghost before = span_views(spans@);
        spans.push(span);
        assert(texts(pieces@)[index as int] == pieces@[index as int]@);
        assert(span_views(spans@) =~= before.push(span@));
        assert(raw_spans(text@).take(index as int + 1) =~= before.push(raw_spans(text@)[index as int]));
        index = index + 1;
    }
    assert(raw_spans(text@).take(index as int) =~= raw_spans(text@));
    Line { alignment: None, spans, style }
}

/// Copies the spans from `start` to `end`.
pub fn copy_spans(spans: &Vec<Span>, start: usize, end: usize) -> (copy: Vec<Span>)
    requires
        start <= end <= spans@.len(),
    ensures
        copy@ == spans@.subrange(start as int, end as int),
{
    let mut copy: Vec<Span> = Vec::new();
    let mut index: usize = start;
    while index < end
        invariant
            start <= index <= end <= spans@.len(),
            copy@ == spans@.subrange(start as int, index as int),
        decreases end - index,
    {
        copy.push(spans[index].clone());
        assert(spans@.subrange(start as int, index as int).push(spans@[index as int])
            =~= spans@.subrange(start as int, index as int + 1));
        index = index + 1;
    }
    copy
}

impl Clone for Line {
    fn clone(&self) -> (copy: Line)
        ensures
            copy@ == self@,
            copy.spans@ == self.spans@,
    {
        assert(self.spans@.subrange(0, self.spans@.len() as int) =~= self.spans@);
        Line {
            alignment: self.alignment,
            spans: copy_spans(&self.spans, 0, self.spans.len()),
            style: self.style,
        }
    }
}

/// The number of terminal columns a text takes up, as `unicode-width` counts
/// them for `ratatui`.
pub uninterp spec fn display_width(text: Seq<char>) -> usize;

/// `ratatui::text::Span::width`: the display width of a span of this text.
///
/// The width comes from fixed Unicode tables, so it depends on the text alone.
#[verifier::external_body]
pub(crate) fn text_width(text: &str) -> (width: usize)
    ensures
        width == display_width(text@),
{
    ratatui::text::Span::raw(text).width()
}

/// The summed display width of spans, capped by the largest `usize`.
pub open spec fn spans_width(spans: Seq<SpanView>) -> int
    decreases spans.len(),
{
    if spans.len() == 0 {
        0
    } else {
        let sum = spans_width(spans.drop_last()) + display_width(spans.last().content);
        if sum > usize::MAX {
            usize::MAX as int
        } else {
            sum
        }
    }
}

/// Measures spans.
pub fn measure_spans(spans: &Vec<Span>) -> (width: usize)
    ensures
        width == spans_width(span_views(spans@)),
{
    let mut width: usize = 0;
    let mut index: usize = 0;
    let ghost views = span_views(spans@);
    assert(views.take(0) =~= Seq::<SpanView>::empty());
    while index < spans.len()
        invariant
            index <= spans@.len(),
            views == span_views(spans@),
            width == spans_width(views.take(index as int)),
        decreases spans@.len() - index,
    {
        width = width.saturating_add(text_width(spans[index].content.as_str()));
        assert(views.take(index as int + 1).drop_last() =~= views.take(index as int));
        assert(views[index as int].content == spans@[index as int].content@);
        index = index + 1;
    }
    assert(views.take(index as int) =~= views);
    width
}

/// Whether a line takes up no column at all.
pub open spec fn zero_width(line: LineView) -> bool {
    forall|i: int|
        0 <= i < line.spans.len() ==> display_width(#[trigger] line.spans[i].content) == 0
}

/// Reports whether a line takes up no column at all.
pub fn is_zero_width(line: &Line) -> (result: bool)
    ensures
        result == zero_width(line@),
{
    let mut index: usize = 0;
    while index < line.spans.len()
        invariant
            index <= line.spans@.len(),
            forall|i: int|
                0 <= i < index ==> display_width(#[trigger] line@.spans[i].content) == 0,
        decreases line.spans@.len() - index,
    {
        let width: usize = text_width(line.spans[index].content.as_str());
        assert(line@.spans[index as int].content == line.spans@[index as int].content@);
        if width != 0 {
            return false;
        }
        index = index + 1;
    }
    true
}

} // verus!
