//! Popup that selects the type of a new session.

use vstd::prelude::*;

use crate::geometry::ViewportRect;
use crate::layout_snapshot::{consecutive_rows, stacked_items};
use crate::overlay::{centered_popup_area, option_rows, option_rows_list, popup_at_center};
use crate::rich_text::{
    Alignment, Color, Line, LineView, Span, SpanView, Style, blank_line, centered, centered_line,
    empty_line, line_views, styled,
};
use crate::text::{joined, pad_right, padded_right};
use crate::viewport::{ListRegion, ListRegionKind};

verus! {

/// Smallest height of the popup.
pub const MIN_OVERLAY_HEIGHT: u16 = 13;

/// Smallest width of the popup.
pub const MIN_OVERLAY_WIDTH: u16 = 53;

/// Share of the frame height that the popup takes.
pub const OVERLAY_HEIGHT_PERCENT: u16 = 22;

/// Share of the frame width that the popup takes.
pub const OVERLAY_WIDTH_PERCENT: u16 = 30;

/// Columns of an option's description.
pub const OPTION_DETAIL_WIDTH: usize = 27;

/// Columns of an option's name.
pub const OPTION_LABEL_WIDTH: usize = 15;

/// Number of options.
pub const SESSION_CREATION_OPTION_COUNT: usize = 5;

/// One option of the popup.
pub struct OptionView {
    pub detail: Seq<char>,
    pub is_disabled: bool,
    pub label: Seq<char>,
}

/// The row of one option.
pub open spec fn option_row(option: OptionView, is_highlighted: bool) -> LineView {
    let label = padded_right(option.label, OPTION_LABEL_WIDTH as int);
    let detail = padded_right(option.detail, OPTION_DETAIL_WIDTH as int);
    if is_highlighted && !option.is_disabled {
        centered(" "@ + label + "  "@ + detail + " "@, Style::highlight_spec())
    } else {
        let margin = Style::colored_spec(Color::TextSubtle);
        LineView {
            alignment: Some(Alignment::Center),
            spans: seq![
                SpanView { content: " "@, style: margin },
                SpanView {
                    content: label,
                    style: if option.is_disabled {
                        margin
                    } else {
                        Style::bold_spec(Color::Accent)
                    },
                },
                SpanView { content: "  "@, style: margin },
                SpanView {
                    content: detail,
                    style: if option.is_disabled {
                        margin
                    } else {
                        Style::colored_spec(Color::TextMuted)
                    },
                },
                SpanView { content: " "@, style: margin },
            ],
            style: Style::plain_spec(),
        }
    }
}

/// Popup that selects the type of a new session.
#[derive(Debug)]
pub struct SessionCreationOverlay {
    /// Whether the highlighted session can move into an existing stack.
    pub can_append_to_stack: bool,
    /// Whether the highlighted session can carry a new stacked session.
    pub can_create_stacked_session: bool,
    pub selected_option_index: usize,
}

impl SessionCreationOverlay {
    /// The options from top to bottom.
    pub open spec fn options(&self) -> Seq<OptionView> {
        seq![
            OptionView {
                detail: "Start immediately"@,
                is_disabled: false,
                label: "Regular"@,
            },
            OptionView {
                detail: "Stage locally first"@,
                is_disabled: false,
                label: "Draft"@,
            },
            OptionView {
                detail: "[Preview] Plan workers"@,
                is_disabled: false,
                label: "Orchestrator"@,
            },
            OptionView {
                detail: if self.can_create_stacked_session {
                    "Stack on selected"@
                } else {
                    "Select parent first"@
                },
                is_disabled: !self.can_create_stacked_session,
                label: "Stacked"@,
            },
            OptionView {
                detail: if self.can_append_to_stack {
                    "[Preview] Move under parent"@
                } else {
                    "[Preview] Review only"@
                },
                is_disabled: !self.can_append_to_stack,
                label: "Append to stack"@,
            },
        ]
    }

    /// The row of the option at `index`.
    pub open spec fn row(&self, index: int) -> LineView {
        option_row(self.options()[index], self.selected_option_index == index)
    }

    /// Builds the popup with the given row highlighted.
    pub fn new(
        selected_option_index: usize,
        can_create_stacked_session: bool,
        can_append_to_stack: bool,
    ) -> (overlay: SessionCreationOverlay)
        ensures
            overlay == (SessionCreationOverlay {
                can_append_to_stack,
                can_create_stacked_session,
                selected_option_index,
            }),
    {
        SessionCreationOverlay {
            can_append_to_stack,
            can_create_stacked_session,
            selected_option_index,
        }
    }

    /// Computes the popup in the middle of the frame.
    pub fn popup_area(frame: ViewportRect) -> (area: ViewportRect)
        ensures
            area == popup_at_center(
                frame,
                OVERLAY_WIDTH_PERCENT as int,
                OVERLAY_HEIGHT_PERCENT as int,
                MIN_OVERLAY_WIDTH as int,
                MIN_OVERLAY_HEIGHT as int,
            ),
    {
        centered_popup_area(
            frame,
            OVERLAY_WIDTH_PERCENT,
            OVERLAY_HEIGHT_PERCENT,
            MIN_OVERLAY_WIDTH,
            MIN_OVERLAY_HEIGHT,
        )
    }

    /// The lines of the popup: a header, the options and a hint.
    pub open spec fn all_rows(&self) -> Seq<LineView> {
        seq![
            centered("Select session type"@, Style::bold_spec(Color::Warning)),
            empty_line(),
            self.row(0),
            self.row(1),
            self.row(2),
            self.row(3),
            self.row(4),
            empty_line(),
            centered(
                "j/k: move | Enter: select | q: close"@,
                Style::colored_spec(Color::TextMuted),
            ),
        ]
    }

    /// Builds the lines of the popup: a header, the options and a hint.
    pub fn lines(&self) -> (lines: Vec<Line>)
        ensures
            line_views(lines@) == self.all_rows(),
    {
        let stacked_detail: &str = if self.can_create_stacked_session {
            "Stack on selected"
        } else {
            "Select parent first"
        };
        let append_detail: &str = if self.can_append_to_stack {
            "[Preview] Move under parent"
        } else {
            "[Preview] Review only"
        };
        let mut lines: Vec<Line> = Vec::new();
        lines.push(centered_line("Select session type", Style::bold(Color::Warning)));
        lines.push(blank_line());
        lines.push(self.option_line(0, "Regular", "Start immediately", false));
        lines.push(self.option_line(1, "Draft", "Stage locally first", false));
        lines.push(self.option_line(2, "Orchestrator", "[Preview] Plan workers", false));
        lines.push(
            self.option_line(3, "Stacked", stacked_detail, !self.can_create_stacked_session),
        );
        lines.push(
            self.option_line(4, "Append to stack", append_detail, !self.can_append_to_stack),
        );
        lines.push(blank_line());
        lines.push(
            centered_line("j/k: move | Enter: select | q: close", Style::colored(Color::TextMuted)),
        );
        assert(line_views(lines@) =~= self.all_rows());
        lines
    }

    /// Builds the row of one option.
    pub fn option_line(
        &self,
        option_index: usize,
        label: &str,
        detail: &str,
        is_disabled: bool,
    ) -> (line: Line)
        ensures
            line@ == option_row(
                OptionView { detail: detail@, is_disabled, label: label@ },
                self.selected_option_index == option_index,
            ),
    {
        let padded_label: String = pad_right(label, OPTION_LABEL_WIDTH);
        let padded_detail: String = pad_right(detail, OPTION_DETAIL_WIDTH);
        if self.selected_option_index == option_index && !is_disabled {
            let start: String = joined(" ", padded_label.as_str());
            let middle: String = joined(start.as_str(), "  ");
            let end: String = joined(middle.as_str(), padded_detail.as_str());
            return centered_line(joined(end.as_str(), " ").as_str(), Style::highlight());
        }
        let margin: Style = Style::colored(Color::TextSubtle);
        let label_style: Style = if is_disabled {
            margin
        } else {
            Style::bold(Color::Accent)
        };
        let detail_style: Style = if is_disabled {
            margin
        } else {
            Style::colored(Color::TextMuted)
        };
        let mut spans: Vec<Span> = Vec::new();
        spans.push(styled(" ", margin));
        spans.push(styled(padded_label.as_str(), label_style));
        spans.push(styled("  ", margin));
        spans.push(styled(padded_detail.as_str(), detail_style));
        spans.push(styled(" ", margin));
        let line: Line = Line {
            alignment: Some(Alignment::Center),
            spans,
            style: Style::plain(),
        };
        assert(line@.spans =~= option_row(
            OptionView { detail: detail@, is_disabled, label: label@ },
            self.selected_option_index == option_index,
        ).spans);
        line
    }

    /// Builds the clickable list of the options inside the popup.
    pub fn option_list(inner: ViewportRect) -> (list: ListRegion)
        ensures
            list.kind == ListRegionKind::SessionCreation,
            list.items@ == stacked_items(
                consecutive_rows(0, SESSION_CREATION_OPTION_COUNT),
                option_rows(inner),
                option_rows(inner).y as int,
            ),
    {
        option_rows_list(
            ListRegionKind::SessionCreation,
            inner,
            0,
            SESSION_CREATION_OPTION_COUNT,
        )
    }
}

/// A disabled option is never painted as highlighted.
pub proof fn lemma_disabled_option_not_highlighted(overlay: &SessionCreationOverlay, index: int)
    requires
        0 <= index < SESSION_CREATION_OPTION_COUNT,
        overlay.options()[index].is_disabled,
    ensures
        forall|i: int|
            0 <= i < overlay.row(index).spans.len() ==> (#[trigger] overlay.row(
                index,
            ).spans[i]).style.bg is None,
{
}

} // verus!
