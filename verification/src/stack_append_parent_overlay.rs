//! Popup that selects the parent of an existing review session.

use vstd::prelude::*;

use crate::fit::{fit_label, fits_anything, fitted};
use crate::geometry::ViewportRect;
use crate::layout_snapshot::{consecutive_rows, stacked_items};
use crate::overlay::{
    centered_popup_area, compute_window_start, lemma_window_shows_selection, option_rows,
    option_rows_list, overlay_required_height, popup_at_center, required_height, window_start,
};
use crate::rich_text::{
    Color, Line, LineView, SpanView, Style, blank_line, centered, centered_line, empty_line,
    line_of, line_with_span,
};
use crate::session::Session;
use crate::text::{joined, pad_right, padded_right};
use crate::viewport::{ListRegion, ListRegionKind, least, minus};

verus! {

/// Smallest width of the popup.
pub const MIN_OVERLAY_WIDTH: u16 = 52;

/// Share of the frame width that the popup takes.
pub const OVERLAY_WIDTH_PERCENT: u16 = 36;

/// Header, hint and the blank lines around the parent rows.
pub const OVERLAY_CHROME_LINE_COUNT: usize = 4;

/// How many parent rows a popup of this height has room for.
pub open spec fn room_for_parents(popup_height: int) -> int {
    minus(popup_height, required_height(OVERLAY_CHROME_LINE_COUNT as int))
}

/// The row of one parent.
pub open spec fn parent_row(label: Seq<char>, width: usize, is_selected: bool) -> LineView {
    line_of(
        seq![
            SpanView {
                content: " "@ + padded_right(label, width as int) + " "@,
                style: if is_selected {
                    Style::highlight_spec()
                } else {
                    Style::colored_spec(Color::Text)
                },
            },
        ],
    )
}

/// Whether `row` shows the session's title shortened by `fit`.
pub open spec fn shows_parent<F: Fn(&String, usize) -> String>(
    fit: &F,
    title: Seq<char>,
    width: usize,
    is_selected: bool,
    row: LineView,
) -> bool {
    exists|label: Seq<char>| #[trigger]
        fitted(fit, title, width, label) && row == parent_row(label, width, is_selected)
}

/// Popup that selects the parent of an existing review session.
#[derive(Debug)]
pub struct StackAppendParentOverlay<'a> {
    /// Eligible parents in the order of the session list.
    pub parent_sessions: &'a [&'a Session],
    pub selected_parent_index: usize,
}

impl<'a> StackAppendParentOverlay<'a> {
    /// Whether `lines` are those of the popup: a header, the visible parents
    /// and a hint.
    pub open spec fn painted<F: Fn(&String, usize) -> String>(
        &self,
        fit: &F,
        label_width: usize,
        popup_height: int,
        lines: Seq<Line>,
    ) -> bool {
        let (first, shown) = self.visible(popup_height);
        &&& lines.len() == shown + 4
        &&& lines[0]@ == centered("Choose parent session"@, Style::bold_spec(Color::Warning))
        &&& lines[1]@ == empty_line()
        &&& forall|i: int|
            first <= i < first + shown ==> shows_parent(
                fit,
                (#[trigger] self.parent_sessions@[i]).title@,
                label_width,
                i == self.selected_parent_index,
                lines[i - first + 2]@,
            )
        &&& lines[lines.len() - 2]@ == empty_line()
        &&& lines[lines.len() - 1]@ == centered(
            "j/k: move | Enter: append | q: close"@,
            Style::colored_spec(Color::TextMuted),
        )
    }

    /// The first and the number of the parents that a popup of this height
    /// shows.
    pub open spec fn visible(&self, popup_height: int) -> (int, int) {
        let count = self.parent_sessions@.len() as int;
        let shown = least(room_for_parents(popup_height), count);
        let selected = least(self.selected_parent_index as int, minus(count, 1));
        (window_start(count, selected, shown), shown)
    }

    /// Builds the popup over the eligible parents.
    pub fn new(parent_sessions: &'a [&'a Session], selected_parent_index: usize) -> (overlay:
        StackAppendParentOverlay<'a>)
        ensures
            overlay.parent_sessions == parent_sessions,
            overlay.selected_parent_index == selected_parent_index,
    {
        StackAppendParentOverlay { parent_sessions, selected_parent_index }
    }

    /// Computes the first and the number of the visible parents.
    pub fn visible_parent_range(&self, popup_height: u16) -> (range: (usize, usize))
        ensures
            range.0 == self.visible(popup_height as int).0,
            range.1 == self.visible(popup_height as int).1,
            range.0 + range.1 <= self.parent_sessions@.len() <= usize::MAX,
    {
        let count: usize = self.parent_sessions.len();
        let chrome: u16 = overlay_required_height(OVERLAY_CHROME_LINE_COUNT);
        let room: usize = popup_height.saturating_sub(chrome) as usize;
        let shown: usize = if room < count {
            room
        } else {
            count
        };
        let last: usize = count.saturating_sub(1);
        let selected: usize = if self.selected_parent_index < last {
            self.selected_parent_index
        } else {
            last
        };
        (compute_window_start(count, selected, shown), shown)
    }

    /// Computes the popup, which grows with the number of parents.
    pub fn popup_area(&self, frame: ViewportRect) -> (area: ViewportRect)
        ensures
            area == popup_at_center(
                frame,
                OVERLAY_WIDTH_PERCENT as int,
                0,
                MIN_OVERLAY_WIDTH as int,
                required_height(self.parent_sessions@.len() + OVERLAY_CHROME_LINE_COUNT),
            ),
    {
        let line_count: usize = self.parent_sessions.len().saturating_add(
            OVERLAY_CHROME_LINE_COUNT,
        );
        centered_popup_area(
            frame,
            OVERLAY_WIDTH_PERCENT,
            0,
            MIN_OVERLAY_WIDTH,
            overlay_required_height(line_count),
        )
    }

    /// Builds the row of one parent.
    pub fn parent_line<F: Fn(&String, usize) -> String>(
        &self,
        row_index: usize,
        session: &Session,
        label_width: usize,
        fit: &F,
    ) -> (line: Line)
        requires
            fits_anything(fit),
        ensures
            shows_parent(
                fit,
                session.title@,
                label_width,
                row_index == self.selected_parent_index,
                line@,
            ),
    {
        let label: String = fit_label(fit, &session.title, label_width);
        let start: String = joined(" ", pad_right(label.as_str(), label_width).as_str());
        let text: String = joined(start.as_str(), " ");
        let style: Style = if row_index == self.selected_parent_index {
            Style::highlight()
        } else {
            Style::colored(Color::Text)
        };
        line_with_span(text.as_str(), style)
    }

    /// Builds the lines of the popup: a header, the visible parents and a
    /// hint.
    pub fn lines<F: Fn(&String, usize) -> String>(
        &self,
        label_width: usize,
        popup_height: u16,
        fit: &F,
    ) -> (lines: Vec<Line>)
        requires
            fits_anything(fit),
        ensures
            self.painted(fit, label_width, popup_height as int, lines@),
    {
        let mut lines: Vec<Line> = Vec::new();
        lines.push(centered_line("Choose parent session", Style::bold(Color::Warning)));
        lines.push(blank_line());
        let (first, shown) = self.visible_parent_range(popup_height);
        let end: usize = first + shown;
        let mut row: usize = first;
        while row < end
            invariant
                first <= row <= end,
                end == first + shown,
                end <= self.parent_sessions@.len(),
                fits_anything(fit),
                lines@.len() == row - first + 2,
                lines@[0]@ == centered(
                    "Choose parent session"@,
                    Style::bold_spec(Color::Warning),
                ),
                lines@[1]@ == empty_line(),
                forall|i: int|
                    first <= i < row ==> shows_parent(
                        fit,
                        (#[trigger] self.parent_sessions@[i]).title@,
                        label_width,
                        i == self.selected_parent_index,
                        lines@[i - first + 2]@,
                    ),
            decreases end - row,
        {
            let line: Line = self.parent_line(row, self.parent_sessions[row], label_width, fit);
            lines.push(line);
            row = row + 1;
        }
        lines.push(blank_line());
        lines.push(
            centered_line("j/k: move | Enter: append | q: close", Style::colored(Color::TextMuted)),
        );
        lines
    }

    /// Builds the clickable list of the visible parents inside the popup.
    pub fn parent_list(&self, popup_height: u16, inner: ViewportRect) -> (list: ListRegion)
        ensures
            list.kind == ListRegionKind::StackAppendParent,
            list.items@ == stacked_items(
                consecutive_rows(
                    self.visible(popup_height as int).0 as usize,
                    self.visible(popup_height as int).1 as usize,
                ),
                option_rows(inner),
                option_rows(inner).y as int,
            ),
    {
        let (first, shown) = self.visible_parent_range(popup_height);
        option_rows_list(ListRegionKind::StackAppendParent, inner, first, shown)
    }
}

/// A popup with room for any parent shows the selected one.
pub proof fn lemma_selected_parent_visible(overlay: &StackAppendParentOverlay, popup_height: int)
    requires
        overlay.selected_parent_index < overlay.parent_sessions@.len(),
        room_for_parents(popup_height) > 0,
    ensures
        ({
            let (first, shown) = overlay.visible(popup_height);
            first <= overlay.selected_parent_index < first + shown
        }),
{
    let count = overlay.parent_sessions@.len() as int;
    lemma_window_shows_selection(
        count,
        overlay.selected_parent_index as int,
        least(room_for_parents(popup_height), count),
    );
}

} // verus!
