//! Popup that selects one launch configuration.

use vstd::prelude::*;

use crate::fit::{fit_label, fits_anything, fitted};
use crate::geometry::ViewportRect;
use crate::layout_snapshot::{consecutive_rows, stacked_items};
use crate::overlay::{centered_popup_area, option_rows, option_rows_list, popup_at_center};
use crate::rich_text::{
    Color, Line, LineView, Span, SpanView, Style, blank_line, centered, centered_line, empty_line,
    line_of, line_with_span, styled,
};
use crate::text::{joined, pad_right, padded_right};
use crate::viewport::{ListRegion, ListRegionKind};

verus! {

/// Share of the frame height that the popup takes.
pub const OVERLAY_HEIGHT_PERCENT: u16 = 38;

/// Smallest height of the popup.
pub const MIN_OVERLAY_HEIGHT: u16 = 9;

/// Smallest width of the popup.
pub const MIN_OVERLAY_WIDTH: u16 = 50;

/// Share of the frame width that the popup takes.
pub const OVERLAY_WIDTH_PERCENT: u16 = 62;

/// The row of one command.
pub open spec fn command_row(label: Seq<char>, width: usize, is_selected: bool) -> LineView {
    if is_selected {
        line_of(
            seq![
                SpanView {
                    content: " "@ + padded_right(label, width as int),
                    style: Style::highlight_spec(),
                },
            ],
        )
    } else {
        line_of(
            seq![
                SpanView { content: " "@, style: Style::colored_spec(Color::TextSubtle) },
                SpanView { content: label, style: Style::colored_spec(Color::Text) },
            ],
        )
    }
}

/// Whether `row` shows the command with its label shortened by `fit`.
pub open spec fn shows_command<F: Fn(&String, usize) -> String>(
    fit: &F,
    command: Seq<char>,
    width: usize,
    is_selected: bool,
    row: LineView,
) -> bool {
    exists|label: Seq<char>| #[trigger]
        fitted(fit, command, width, label) && row == command_row(label, width, is_selected)
}

/// Builds the row of one command.
pub fn command_label_line(label: &str, width: usize, is_selected: bool) -> (line: Line)
    ensures
        line@ == command_row(label@, width, is_selected),
{
    if is_selected {
        let text: String = joined(" ", pad_right(label, width).as_str());
        return line_with_span(text.as_str(), Style::highlight());
    }
    let mut line: Line = line_with_span(" ", Style::colored(Color::TextSubtle));
    let ghost margin = line@.spans;
    let span: Span = styled(label, Style::colored(Color::Text));
    line.spans.push(span);
    assert(line@.spans =~= margin.push(span@));
    assert(line@.spans =~= command_row(label@, width, is_selected).spans);
    line
}

/// Popup that selects one launch configuration.
#[derive(Debug)]
pub struct LaunchConfigurationOverlay<'a> {
    pub commands: &'a [String],
    pub selected_command_index: usize,
}

impl<'a> LaunchConfigurationOverlay<'a> {
    /// Whether `lines` are those of the popup: a header, one row for each
    /// command and a hint.
    pub open spec fn painted<F: Fn(&String, usize) -> String>(
        &self,
        fit: &F,
        command_width: usize,
        lines: Seq<Line>,
    ) -> bool {
        &&& lines.len() == self.commands@.len() + 4
        &&& lines[0]@ == centered(
            "Select launch configuration"@,
            Style::bold_spec(Color::Warning),
        )
        &&& lines[1]@ == empty_line()
        &&& forall|i: int|
            0 <= i < self.commands@.len() ==> shows_command(
                fit,
                (#[trigger] self.commands@[i])@,
                command_width,
                i == self.selected_command_index,
                lines[i + 2]@,
            )
        &&& lines[lines.len() - 2]@ == empty_line()
        &&& lines[lines.len() - 1]@ == centered(
            "j/k: move | Enter: open | Esc: cancel"@,
            Style::colored_spec(Color::TextMuted),
        )
    }

    /// Builds the popup over the configured commands with the first one
    /// highlighted.
    pub fn new(commands: &'a [String]) -> (overlay: LaunchConfigurationOverlay<'a>)
        ensures
            overlay.commands == commands,
            overlay.selected_command_index == 0,
    {
        LaunchConfigurationOverlay { commands, selected_command_index: 0 }
    }

    /// Sets the highlighted command.
    #[must_use]
    pub fn selected_command_index(self, selected_command_index: usize) -> (overlay:
        LaunchConfigurationOverlay<'a>)
        ensures
            overlay.commands == self.commands,
            overlay.selected_command_index == selected_command_index,
    {
        LaunchConfigurationOverlay { commands: self.commands, selected_command_index }
    }

    /// Computes the popup in the middle of the frame.
    pub fn popup_area(frame: ViewportRect) -> (area: ViewportRect)
        ensures
            area == popup_at_center(
                frame,
                OVERLAY_WIDTH_PERCENT as int,
                OVERLAY_HEIGHT_PERCENT as int,
                MIN_OVERLAY_WIDTH as int,
                MIN_OVERLAY_HEIGHT as int,
            ),
    {
        centered_popup_area(
            frame,
            OVERLAY_WIDTH_PERCENT,
            OVERLAY_HEIGHT_PERCENT,
            MIN_OVERLAY_WIDTH,
            MIN_OVERLAY_HEIGHT,
        )
    }

    /// Builds the lines of the popup: a header, one row for each command and
    /// a hint.
    pub fn lines<F: Fn(&String, usize) -> String>(&self, command_width: usize, fit: &F) -> (lines:
        Vec<Line>)
        requires
            fits_anything(fit),
        ensures
            self.painted(fit, command_width, lines@),
    {
        let mut lines: Vec<Line> = Vec::new();
        lines.push(centered_line("Select launch configuration", Style::bold(Color::Warning)));
        lines.push(blank_line());
        let mut index: usize = 0;
        while index < self.commands.len()
            invariant
                index <= self.commands@.len(),
                fits_anything(fit),
                lines@.len() == index + 2,
                lines@[0]@ == centered(
                    "Select launch configuration"@,
                    Style::bold_spec(Color::Warning),
                ),
                lines@[1]@ == empty_line(),
                forall|i: int|
                    0 <= i < index ==> shows_command(
                        fit,
                        (#[trigger] self.commands@[i])@,
                        command_width,
                        i == self.selected_command_index,
                        lines@[i + 2]@,
                    ),
            decreases self.commands@.len() - index,
        {
            let is_selected: bool = index == self.selected_command_index;
            let label: String = fit_label(fit, &self.commands[index], command_width);
            let line: Line = command_label_line(label.as_str(), command_width, is_selected);
            lines.push(line);
            index = index + 1;
        }
        lines.push(blank_line());
        lines.push(
            centered_line("j/k: move | Enter: open | Esc: cancel", Style::colored(Color::TextMuted)),
        );
        lines
    }

    /// Builds the clickable list of the commands inside the popup.
    pub fn command_list(&self, inner: ViewportRect) -> (list: ListRegion)
        ensures
            list.kind == ListRegionKind::LaunchConfigurationSelector,
            list.items@ == stacked_items(
                consecutive_rows(0, self.commands@.len() as usize),
                option_rows(inner),
                option_rows(inner).y as int,
            ),
    {
        option_rows_list(
            ListRegionKind::LaunchConfigurationSelector,
            inner,
            0,
            self.commands.len(),
        )
    }
}

} // verus!
