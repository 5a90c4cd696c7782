//! Popup that switches the active project.

use vstd::prelude::*;

use crate::fit::{fit_label, fits_anything, fitted};
use crate::geometry::ViewportRect;
use crate::layout_snapshot::{consecutive_rows, stacked_items};
use crate::overlay::{
    centered_popup_area, option_rows, option_rows_list, overlay_required_height, popup_at_center,
    required_height,
};
use crate::rich_text::{
    Color, Line, LineView, Span, SpanView, Style, blank_line, centered, centered_line, empty_line,
    line_of, line_with_span, styled,
};
use crate::text::{decimal, decimal_text, joined, pad_left, pad_right, padded_left, padded_right};
use crate::viewport::{ListRegion, ListRegionKind};

verus! {

/// Smallest width of the popup.
pub const MIN_OVERLAY_WIDTH: u16 = 42;

/// Share of the frame width that the popup takes.
pub const OVERLAY_WIDTH_PERCENT: u16 = 30;

/// Columns of the running session count.
pub const ACTIVE_COUNT_WIDTH: usize = 5;

/// Header, hint and the blank lines around the project rows.
pub const OVERLAY_CHROME_LINE_COUNT: usize = 4;

/// One project of the list.
#[derive(Debug)]
pub struct ProjectListItem {
    /// Number of running sessions.
    pub active_session_count: u32,
    pub id: i64,
    /// Name under which the project is shown.
    pub label: String,
}

/// The label of a project with the mark of the active one.
pub open spec fn marked_label(item: ProjectListItem, active_project_id: i64) -> Seq<char> {
    (if item.id == active_project_id {
        "* "@
    } else {
        "  "@
    }) + item.label@
}

/// The running session count; nothing for an idle project.
pub open spec fn active_count_label(count: u32) -> Seq<char> {
    if count == 0 {
        Seq::empty()
    } else {
        "\u{25b6} "@ + decimal(count as nat)
    }
}

/// The row of one project.
pub open spec fn project_row(
    label: Seq<char>,
    count_label: Seq<char>,
    width: usize,
    is_selected: bool,
    is_active: bool,
) -> LineView {
    let padded_label = padded_right(label, width as int);
    let padded_count = padded_left(count_label, ACTIVE_COUNT_WIDTH as int);
    if is_selected {
        line_of(
            seq![
                SpanView {
                    content: " "@ + padded_label + (" "@ + padded_count + " "@),
                    style: Style::highlight_spec(),
                },
            ],
        )
    } else {
        line_of(
            seq![
                SpanView { content: " "@, style: Style::colored_spec(Color::TextSubtle) },
                SpanView {
                    content: padded_label,
                    style: if is_active {
                        Style::bold_spec(Color::Accent)
                    } else {
                        Style::colored_spec(Color::Text)
                    },
                },
                SpanView {
                    content: " "@ + padded_count + " "@,
                    style: Style::colored_spec(Color::Warning),
                },
            ],
        )
    }
}

/// Popup that switches the active project.
#[derive(Debug)]
pub struct ProjectSwitcherOverlay<'a> {
    pub active_project_id: i64,
    /// Projects, the most recently opened first.
    pub project_items: &'a [&'a ProjectListItem],
    pub selected_option_index: usize,
}

impl<'a> ProjectSwitcherOverlay<'a> {
    /// Whether `lines` are those of the popup: a header, one row for each
    /// project and a hint.
    pub open spec fn painted<F: Fn(&String, usize) -> String>(
        &self,
        fit: &F,
        label_width: usize,
        lines: Seq<Line>,
    ) -> bool {
        &&& lines.len() == self.project_items@.len() + 4
        &&& lines[0]@ == centered("Switch project"@, Style::bold_spec(Color::Warning))
        &&& lines[1]@ == empty_line()
        &&& forall|i: int|
            0 <= i < self.project_items@.len() ==> self.shows_project(
                fit,
                *#[trigger] self.project_items@[i],
                label_width,
                i,
                lines[i + 2]@,
            )
        &&& lines[lines.len() - 2]@ == empty_line()
        &&& lines[lines.len() - 1]@ == centered(
            "j/k: move | Enter: switch | q: close"@,
            Style::colored_spec(Color::TextMuted),
        )
    }

    /// Whether `row` shows the project with its label shortened by `fit`.
    pub open spec fn shows_project<F: Fn(&String, usize) -> String>(
        &self,
        fit: &F,
        item: ProjectListItem,
        width: usize,
        row_index: int,
        row: LineView,
    ) -> bool {
        exists|label: Seq<char>| #[trigger]
            fitted(fit, marked_label(item, self.active_project_id), width, label) && row
                == project_row(
                label,
                active_count_label(item.active_session_count),
                width,
                row_index == self.selected_option_index,
                item.id == self.active_project_id,
            )
    }

    /// Builds the popup over the projects.
    pub fn new(
        project_items: &'a [&'a ProjectListItem],
        active_project_id: i64,
        selected_option_index: usize,
    ) -> (overlay: ProjectSwitcherOverlay<'a>)
        ensures
            overlay.active_project_id == active_project_id,
            overlay.project_items == project_items,
            overlay.selected_option_index == selected_option_index,
    {
        ProjectSwitcherOverlay { active_project_id, project_items, selected_option_index }
    }

    /// Computes the popup, which grows with the number of projects.
    pub fn popup_area(&self, frame: ViewportRect) -> (area: ViewportRect)
        ensures
            area == popup_at_center(
                frame,
                OVERLAY_WIDTH_PERCENT as int,
                0,
                MIN_OVERLAY_WIDTH as int,
                required_height(self.project_items@.len() + OVERLAY_CHROME_LINE_COUNT),
            ),
    {
        let line_count: usize = self.project_items.len().saturating_add(OVERLAY_CHROME_LINE_COUNT);
        centered_popup_area(
            frame,
            OVERLAY_WIDTH_PERCENT,
            0,
            MIN_OVERLAY_WIDTH,
            overlay_required_height(line_count),
        )
    }

    /// Builds the row of one project.
    pub fn project_line<F: Fn(&String, usize) -> String>(
        &self,
        row_index: usize,
        item: &ProjectListItem,
        label_width: usize,
        fit: &F,
    ) -> (line: Line)
        requires
            fits_anything(fit),
        ensures
            self.shows_project(fit, *item, label_width, row_index as int, line@),
    {
        let is_active: bool = item.id == self.active_project_id;
        let marker: &str = if is_active {
            "* "
        } else {
            "  "
        };
        let marked: String = joined(marker, item.label.as_str());
        assert(marked@ == marked_label(*item, self.active_project_id));
        let label: String = fit_label(fit, &marked, label_width);
        let count_label: String = if item.active_session_count == 0 {
            String::new()
        } else {
            joined("\u{25b6} ", decimal_text(item.active_session_count as u64).as_str())
        };
        assert(count_label@ =~= active_count_label(item.active_session_count));
        let padded_label: String = pad_right(label.as_str(), label_width);
        let padded_count: String = pad_left(count_label.as_str(), ACTIVE_COUNT_WIDTH);
        let count_start: String = joined(" ", padded_count.as_str());
        let count_text: String = joined(count_start.as_str(), " ");
        if row_index == self.selected_option_index {
            let row_start: String = joined(" ", padded_label.as_str());
            let row: String = joined(row_start.as_str(), count_text.as_str());
            return line_with_span(row.as_str(), Style::highlight());
        }
        let label_style: Style = if is_active {
            Style::bold(Color::Accent)
        } else {
            Style::colored(Color::Text)
        };
        let mut spans: Vec<Span> = Vec::new();
        spans.push(styled(" ", Style::colored(Color::TextSubtle)));
        spans.push(styled(padded_label.as_str(), label_style));
        spans.push(styled(count_text.as_str(), Style::colored(Color::Warning)));
        let line: Line = Line { alignment: None, spans, style: Style::plain() };
        assert(line@.spans =~= project_row(
            label@,
            count_label@,
            label_width,
            false,
            is_active,
        ).spans);
        line
    }

    /// Builds the lines of the popup: a header, one row for each project and
    /// a hint.
    pub fn lines<F: Fn(&String, usize) -> String>(&self, label_width: usize, fit: &F) -> (lines:
        Vec<Line>)
        requires
            fits_anything(fit),
        ensures
            self.painted(fit, label_width, lines@),
    {
        let mut lines: Vec<Line> = Vec::new();
        lines.push(centered_line("Switch project", Style::bold(Color::Warning)));
        lines.push(blank_line());
        let mut row: usize = 0;
        while row < self.project_items.len()
            invariant
                row <= self.project_items@.len(),
                fits_anything(fit),
                lines@.len() == row + 2,
                lines@[0]@ == centered("Switch project"@, Style::bold_spec(Color::Warning)),
                lines@[1]@ == empty_line(),
                forall|i: int|
                    0 <= i < row ==> self.shows_project(
                        fit,
                        *#[trigger] self.project_items@[i],
                        label_width,
                        i,
                        lines@[i + 2]@,
                    ),
            decreases self.project_items@.len() - row,
        {
            let line: Line = self.project_line(row, self.project_items[row], label_width, fit);
            lines.push(line);
            row = row + 1;
        }
        lines.push(blank_line());
        lines.push(
            centered_line("j/k: move | Enter: switch | q: close", Style::colored(Color::TextMuted)),
        );
        lines
    }

    /// Builds the clickable list of the projects inside the popup.
    pub fn project_list(&self, inner: ViewportRect) -> (list: ListRegion)
        ensures
            list.kind == ListRegionKind::ProjectSwitcher,
            list.items@ == stacked_items(
                consecutive_rows(0, self.project_items@.len() as usize),
                option_rows(inner),
                option_rows(inner).y as int,
            ),
    {
        option_rows_list(ListRegionKind::ProjectSwitcher, inner, 0, self.project_items.len())
    }
}

} // verus!
