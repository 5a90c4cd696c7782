//! Popup that edits the list of launch configurations.

use vstd::prelude::*;

use crate::fit::{fit_label, fits_anything, fitted};
use crate::geometry::ViewportRect;
use crate::input::InputState;
use crate::launch_configuration_overlay::{command_label_line, shows_command};
use crate::layout_snapshot::{consecutive_rows, consecutive_rows_list, stacked_items};
use crate::overlay::{
    centered_popup_area, compute_window_start, lemma_window_shows_selection,
    overlay_required_height, popup_at_center, required_height, window_start,
};
use crate::rich_text::{
    Color, Line, LineView, SpanView, Style, blank_line, centered, centered_line, empty_line,
    line_of, line_with_span,
};
use crate::text::{joined, pad_right, padded_right, string_between, to_chars};
use crate::viewport::{ListRegion, ListRegionKind, least, minus};

verus! {

/// Blank line and the two hint lines below the commands.
pub const FOOTER_LINE_COUNT: usize = 3;

/// Smallest height of the popup.
pub const MIN_OVERLAY_HEIGHT: u16 = 11;

/// Smallest width of the popup.
pub const MIN_OVERLAY_WIDTH: u16 = 58;

/// Share of the frame height that the popup takes.
pub const OVERLAY_HEIGHT_PERCENT: u16 = 42;

/// Share of the frame width that the popup takes.
pub const OVERLAY_WIDTH_PERCENT: u16 = 70;

/// What the popup is doing.
#[derive(Clone, Copy, Debug, PartialEq, Eq, Structural)]
pub enum LaunchConfigurationListEditorMode {
    Add,
    Browse,
    Edit,
}

/// The commands and the state of the popup.
#[derive(Debug)]
pub struct LaunchConfigurationListEditorSnapshot {
    pub commands: Vec<String>,
    pub input: Option<InputState>,
    pub mode: LaunchConfigurationListEditorMode,
    pub selected_index: usize,
}

/// How many commands a popup of this height shows.
pub open spec fn shown_commands(popup_height: int, command_count: int) -> int {
    let room = minus(minus(popup_height, required_height(0)), FOOTER_LINE_COUNT as int);
    least(if room < 1 { 1 } else { room }, command_count)
}

/// Counts the commands that a popup of this height shows.
pub fn visible_command_count(popup_height: u16, command_count: usize) -> (count: usize)
    ensures
        count == shown_commands(popup_height as int, command_count as int),
{
    let content_height: u16 = popup_height.saturating_sub(overlay_required_height(0));
    let room: usize = (content_height as usize).saturating_sub(FOOTER_LINE_COUNT);
    let visible: usize = if room < 1 {
        1
    } else {
        room
    };
    if visible < command_count {
        visible
    } else {
        command_count
    }
}

/// Computes the first command of the window around the selection.
pub fn command_window_start(
    command_count: usize,
    selected_index: usize,
    visible_command_count: usize,
) -> (start: usize)
    ensures
        start == window_start(
            command_count as int,
            selected_index as int,
            visible_command_count as int,
        ),
{
    compute_window_start(command_count, selected_index, visible_command_count)
}

/// The text of the input with `|` in front of the character at the cursor.
pub open spec fn with_cursor(input: InputState) -> Seq<char> {
    let point = least(input.cursor as int, input.text@.len() as int);
    input.text@.take(point).push('|') + input.text@.skip(point)
}

/// Writes the text of the input with a `|` at the cursor.
pub fn format_input_with_cursor(input: &InputState) -> (text: String)
    ensures
        text@ == with_cursor(*input),
{
    let chars: Vec<char> = to_chars(input.text.as_str());
    let point: usize = if input.cursor < chars.len() {
        input.cursor
    } else {
        chars.len()
    };
    let before: String = string_between(&chars, 0, point);
    let after: String = string_between(&chars, point, chars.len());
    let start: String = joined(before.as_str(), "|");
    let text: String = joined(start.as_str(), after.as_str());
    proof {
        reveal_strlit("|");
        assert(start@ =~= input.text@.take(point as int).push('|'));
        assert(after@ =~= input.text@.skip(point as int));
    }
    text
}

/// The heading above the input.
pub open spec fn input_title(mode: LaunchConfigurationListEditorMode) -> Seq<char> {
    match mode {
        LaunchConfigurationListEditorMode::Add => "Add command"@,
        LaunchConfigurationListEditorMode::Browse => "Command"@,
        LaunchConfigurationListEditorMode::Edit => "Edit command"@,
    }
}

/// The row of the input.
pub open spec fn input_row(label: Seq<char>, width: usize) -> LineView {
    line_of(
        seq![
            SpanView {
                content: " "@ + padded_right(label, width as int),
                style: Style::highlight_spec(),
            },
        ],
    )
}

/// The input that is being edited: empty until one is set.
pub open spec fn edited_text(input: Option<InputState>) -> Seq<char> {
    match input {
        Some(input) => with_cursor(input),
        None => seq!['|'],
    }
}

/// Popup that edits the list of launch configurations.
#[derive(Debug)]
pub struct LaunchConfigurationListEditor<'a> {
    pub editor: &'a LaunchConfigurationListEditorSnapshot,
}

impl<'a> LaunchConfigurationListEditor<'a> {
    /// The highlighted command, held inside the list.
    pub open spec fn highlighted(&self) -> int {
        least(
            self.editor.selected_index as int,
            minus(self.editor.commands@.len() as int, 1),
        )
    }

    /// The first command and the one behind the last that a popup of this
    /// height shows.
    pub open spec fn window(&self, popup_height: int) -> (int, int) {
        let count = self.editor.commands@.len() as int;
        let visible = shown_commands(popup_height, count);
        let start = window_start(count, self.highlighted(), visible);
        (start, least(start + visible, count))
    }

    /// Whether `lines` are those of the browsing list.
    pub open spec fn browses<F: Fn(&String, usize) -> String>(
        &self,
        fit: &F,
        command_width: usize,
        popup_height: int,
        lines: Seq<Line>,
    ) -> bool {
        let (start, end) = self.window(popup_height);
        let footer = lines.len() - 3;
        &&& if self.editor.commands@.len() == 0 {
            &&& footer == 1
            &&& lines[0]@ == centered(
                "(no commands configured)"@,
                Style::colored_spec(Color::TextMuted),
            )
        } else {
            &&& footer == end - start
            &&& forall|i: int|
                start <= i < end ==> shows_command(
                    fit,
                    (#[trigger] self.editor.commands@[i])@,
                    command_width,
                    i == self.highlighted(),
                    lines[i - start]@,
                )
        }
        &&& lines[footer]@ == empty_line()
        &&& lines[footer + 1]@ == centered(
            "j/k: move | a: add | e/Enter: edit | d: delete"@,
            Style::colored_spec(Color::TextMuted),
        )
        &&& lines[footer + 2]@ == centered(
            "J/K: reorder | Esc/q: close"@,
            Style::colored_spec(Color::TextMuted),
        )
    }

    /// Whether `lines` are those of the input form.
    pub open spec fn edits<F: Fn(&String, usize) -> String>(
        &self,
        fit: &F,
        command_width: usize,
        lines: Seq<Line>,
    ) -> bool {
        &&& lines.len() == 5
        &&& lines[0]@ == centered(
            input_title(self.editor.mode),
            Style::bold_spec(Color::Warning),
        )
        &&& lines[1]@ == empty_line()
        &&& exists|label: Seq<char>| #[trigger]
            fitted(fit, edited_text(self.editor.input), command_width, label) && lines[2]@
                == input_row(label, command_width)
        &&& lines[3]@ == empty_line()
        &&& lines[4]@ == centered(
            "Enter: save | Esc: cancel | Left/Right: cursor"@,
            Style::colored_spec(Color::TextMuted),
        )
    }

    /// Whether `lines` are those of the popup.
    pub open spec fn painted<F: Fn(&String, usize) -> String>(
        &self,
        fit: &F,
        command_width: usize,
        popup_height: int,
        lines: Seq<Line>,
    ) -> bool {
        if self.editor.mode == LaunchConfigurationListEditorMode::Browse {
            self.browses(fit, command_width, popup_height, lines)
        } else {
            self.edits(fit, command_width, lines)
        }
    }

    /// Builds the popup over the state of the editor.
    pub fn new(editor: &'a LaunchConfigurationListEditorSnapshot) -> (popup:
        LaunchConfigurationListEditor<'a>)
        ensures
            popup.editor == editor,
    {
        LaunchConfigurationListEditor { editor }
    }

    /// Computes the popup in the middle of the frame.
    pub fn popup_area(frame: ViewportRect) -> (area: ViewportRect)
        ensures
            area == popup_at_center(
                frame,
                OVERLAY_WIDTH_PERCENT as int,
                OVERLAY_HEIGHT_PERCENT as int,
                MIN_OVERLAY_WIDTH as int,
                MIN_OVERLAY_HEIGHT as int,
            ),
    {
        centered_popup_area(
            frame,
            OVERLAY_WIDTH_PERCENT,
            OVERLAY_HEIGHT_PERCENT,
            MIN_OVERLAY_WIDTH,
            MIN_OVERLAY_HEIGHT,
        )
    }

    /// Builds the lines of the popup.
    pub fn lines<F: Fn(&String, usize) -> String>(
        &self,
        command_width: usize,
        popup_height: u16,
        fit: &F,
    ) -> (lines: Vec<Line>)
        requires
            fits_anything(fit),
        ensures
            self.painted(fit, command_width, popup_height as int, lines@),
    {
        match self.editor.mode {
            LaunchConfigurationListEditorMode::Browse => self.browse_lines(
                command_width,
                popup_height,
                fit,
            ),
            _ => self.input_lines(command_width, fit),
        }
    }

    /// Computes the window of commands that a popup of this height shows.
    pub fn command_window(&self, popup_height: u16) -> (window: (usize, usize))
        ensures
            window.0 == self.window(popup_height as int).0,
            window.1 == self.window(popup_height as int).1,
            window.0 <= window.1 <= self.editor.commands@.len(),
    {
        let count: usize = self.editor.commands.len();
        let last: usize = count.saturating_sub(1);
        let selected: usize = if self.editor.selected_index < last {
            self.editor.selected_index
        } else {
            last
        };
        let visible: usize = visible_command_count(popup_height, count);
        let start: usize = command_window_start(count, selected, visible);
        let end: usize = start.saturating_add(visible);
        (start, if end < count { end } else { count })
    }

    /// Builds the lines of the browsing list.
    pub fn browse_lines<F: Fn(&String, usize) -> String>(
        &self,
        command_width: usize,
        popup_height: u16,
        fit: &F,
    ) -> (lines: Vec<Line>)
        requires
            fits_anything(fit),
        ensures
            self.browses(fit, command_width, popup_height as int, lines@),
    {
        let mut lines: Vec<Line> = Vec::new();
        if self.editor.commands.len() == 0 {
            lines.push(centered_line("(no commands configured)", Style::colored(Color::TextMuted)));
        } else {
            let last: usize = self.editor.commands.len() - 1;
            let selected: usize = if self.editor.selected_index < last {
                self.editor.selected_index
            } else {
                last
            };
            let (start, end) = self.command_window(popup_height);
            let mut index: usize = start;
            while index < end
                invariant
                    start <= index <= end <= self.editor.commands@.len(),
                    selected == self.highlighted(),
                    fits_anything(fit),
                    lines@.len() == index - start,
                    forall|i: int|
                        start <= i < index ==> shows_command(
                            fit,
                            (#[trigger] self.editor.commands@[i])@,
                            command_width,
                            i == self.highlighted(),
                            lines@[i - start]@,
                        ),
                decreases end - index,
            {
                let command: &String = &self.editor.commands[index];
                let label: String = fit_label(fit, command, command_width);
                lines.push(command_label_line(label.as_str(), command_width, index == selected));
                index = index + 1;
            }
        }
        lines.push(blank_line());
        lines.push(
            centered_line(
                "j/k: move | a: add | e/Enter: edit | d: delete",
                Style::colored(Color::TextMuted),
            ),
        );
        lines.push(
            centered_line("J/K: reorder | Esc/q: close", Style::colored(Color::TextMuted)),
        );
        lines
    }

    /// Builds the lines of the input form.
    pub fn input_lines<F: Fn(&String, usize) -> String>(
        &self,
        command_width: usize,
        fit: &F,
    ) -> (lines: Vec<Line>)
        requires
            fits_anything(fit),
        ensures
            self.edits(fit, command_width, lines@),
    {
        let title: &str = match self.editor.mode {
            LaunchConfigurationListEditorMode::Add => "Add command",
            LaunchConfigurationListEditorMode::Browse => "Command",
            LaunchConfigurationListEditorMode::Edit => "Edit command",
        };
        let text: String = match &self.editor.input {
            Some(input) => format_input_with_cursor(input),
            None => format_input_with_cursor(&InputState::with_text("")),
        };
        proof {
            if self.editor.input is None {
                reveal_strlit("");
                assert(text@ =~= seq!['|']);
            }
        }
        let label: String = fit_label(fit, &text, command_width);
        let row: String = joined(" ", pad_right(label.as_str(), command_width).as_str());
        let mut lines: Vec<Line> = Vec::new();
        lines.push(centered_line(title, Style::bold(Color::Warning)));
        lines.push(blank_line());
        lines.push(line_with_span(row.as_str(), Style::highlight()));
        lines.push(blank_line());
        lines.push(
            centered_line(
                "Enter: save | Esc: cancel | Left/Right: cursor",
                Style::colored(Color::TextMuted),
            ),
        );
        assert(fitted(fit, edited_text(self.editor.input), command_width, label@));
        lines
    }

    /// Builds the clickable list of the visible commands; there is none while
    /// a command is being typed.
    pub fn command_list(&self, popup_height: u16, inner: ViewportRect) -> (list: Option<ListRegion>)
        ensures
            match list {
                Some(list) => {
                    let (start, end) = self.window(popup_height as int);
                    &&& self.editor.mode == LaunchConfigurationListEditorMode::Browse
                    &&& list.kind == ListRegionKind::LaunchConfigurationEditor
                    &&& list.items@ == stacked_items(
                        consecutive_rows(start as usize, (end - start) as usize),
                        inner,
                        inner.y as int,
                    )
                },
                None => self.editor.mode != LaunchConfigurationListEditorMode::Browse,
            },
    {
        match self.editor.mode {
            LaunchConfigurationListEditorMode::Browse => {
                let (start, end) = self.command_window(popup_height);
                Some(
                    consecutive_rows_list(
                        ListRegionKind::LaunchConfigurationEditor,
                        inner,
                        start,
                        end - start,
                    ),
                )
            },
            _ => None,
        }
    }
}

/// The browsing list shows the highlighted command at every height.
pub proof fn lemma_highlighted_command_visible(
    popup: &LaunchConfigurationListEditor,
    popup_height: int,
)
    requires
        popup.editor.commands@.len() > 0,
    ensures
        ({
            let (start, end) = popup.window(popup_height);
            start <= popup.highlighted() < end
        }),
{
    let count = popup.editor.commands@.len() as int;
    lemma_window_shows_selection(
        count,
        popup.highlighted(),
        shown_commands(popup_height, count),
    );
}

} // verus!
