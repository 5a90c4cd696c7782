//! Mouse wheel, scrollbars and clicks.
//!
//! The pointer is held against the panels and lists that the last frame
//! painted.

use vstd::prelude::*;

use crate::app_mode::{AppMode, DiffMode, PromptModeSnapshot, QuestionModeSnapshot};
use crate::click_handler::{ClickFacts, ListPages, MouseOutcome, click_applied, handle_list_click};
use crate::diff::{
    handle_mouse_wheel, over_file_list, over_panel, pointer_selected, wheel_offset, wheel_target,
};
use crate::diff_page::DiffContent;
use crate::diff_preview::PreviewRequest;
use crate::key::{MouseButton, MouseEvent, MouseEventKind};
use crate::session::Session;
use crate::viewport::{
    LayoutSnapshot, MOUSE_WHEEL_SCROLL_LINES, ScrollRegion, ScrollRegionKind, ScrollbarDrag,
    ScrollbarGeometry, WheelDirection, grabbed_row, hit_at, lemma_offset_at_row_in_range,
    offset_at_row, tail_down, tail_up, thumb_rows,
};

verus! {

/// The transcript offset of a mode that shows a transcript; inside, nothing
/// stands for its end.
pub open spec fn chat_offset(mode: AppMode) -> Option<Option<u16>> {
    match mode {
        AppMode::View { scroll_offset, .. } => Some(scroll_offset),
        AppMode::Prompt { prompt, .. } => Some(prompt.scroll_offset),
        AppMode::Question { question, .. } => Some(question.scroll_offset),
        _ => None,
    }
}

/// The mode with another transcript offset and nothing else changed.
pub open spec fn with_chat_offset(mode: AppMode, offset: Option<u16>) -> AppMode {
    match mode {
        AppMode::View { session_id, .. } => AppMode::View { scroll_offset: offset, session_id },
        AppMode::Prompt { focus, prompt } => AppMode::Prompt {
            focus,
            prompt: PromptModeSnapshot { scroll_offset: offset, ..prompt },
        },
        AppMode::Question { focus, question } => AppMode::Question {
            focus,
            question: QuestionModeSnapshot { scroll_offset: offset, ..question },
        },
        other => other,
    }
}

/// Looks up the transcript offset of a mode that shows a transcript.
pub fn chat_scroll_offset(mode: &AppMode) -> (offset: Option<Option<u16>>)
    ensures
        offset == chat_offset(*mode),
{
    match mode {
        AppMode::View { scroll_offset, .. } => Some(*scroll_offset),
        AppMode::Prompt { prompt, .. } => Some(prompt.scroll_offset),
        AppMode::Question { question, .. } => Some(question.scroll_offset),
        _ => None,
    }
}

/// Sets the transcript offset and reports whether it changed.
pub fn replace_scroll_offset(mode: &mut AppMode, next_offset: Option<u16>) -> (changed: bool)
    ensures
        *final(mode) == with_chat_offset(*old(mode), next_offset),
        changed == (chat_offset(*old(mode)) matches Some(offset) && offset != next_offset),
{
    match mode {
        AppMode::View { scroll_offset, .. } => {
            let changed: bool = *scroll_offset != next_offset;
            *scroll_offset = next_offset;
            changed
        },
        AppMode::Prompt { prompt, .. } => {
            let changed: bool = prompt.scroll_offset != next_offset;
            prompt.scroll_offset = next_offset;
            changed
        },
        AppMode::Question { question, .. } => {
            let changed: bool = question.scroll_offset != next_offset;
            question.scroll_offset = next_offset;
            changed
        },
        _ => false,
    }
}

/// A transcript offset that follows the end once it reaches it.
pub open spec fn following_offset(region: ScrollRegion, offset: int) -> Option<u16> {
    if offset >= region.limit() {
        None
    } else {
        Some(offset as u16)
    }
}

/// Computes a transcript offset that follows the end once it reaches it.
pub fn chat_offset_for_region(region: ScrollRegion, offset: u16) -> (next: Option<u16>)
    ensures
        next == following_offset(region, offset as int),
{
    if offset >= region.max_scroll_offset() {
        return None;
    }
    Some(offset)
}

/// The transcript offset after a wheel notch.
pub open spec fn chat_wheel(
    region: ScrollRegion,
    offset: Option<u16>,
    direction: WheelDirection,
) -> Option<u16> {
    match direction {
        WheelDirection::Down => tail_down(
            offset,
            MOUSE_WHEEL_SCROLL_LINES as int,
            region.limit(),
        ),
        WheelDirection::Up => Some(
            tail_up(offset, MOUSE_WHEEL_SCROLL_LINES as int, region.limit()) as u16,
        ),
    }
}

/// Whether a wheel notch over the page was applied.
pub open spec fn wheel_applied(
    layout: LayoutSnapshot,
    column: u16,
    row: u16,
    direction: WheelDirection,
    content: DiffContent,
    sessions: Seq<Session>,
    before: AppMode,
    after: AppMode,
    changed: bool,
    preview: Option<PreviewRequest>,
) -> bool {
    match before {
        AppMode::View { .. } | AppMode::Prompt { .. } | AppMode::Question { .. } => {
            let offset = chat_offset(before)->0;
            &&& preview is None
            &&& match layout.chat_output {
                Some(region) if region.area.has_cell(column as int, row as int) => {
                    let next = chat_wheel(region, offset, direction);
                    after == with_chat_offset(before, next) && changed == (offset != next)
                },
                _ => after == before && !changed,
            }
        },
        AppMode::Diff(diff) => {
            &&& after matches AppMode::Diff(shown)
            &&& if over_panel(layout, column, row) {
                let next = wheel_offset(layout.diff_panel->0, diff.scroll_offset, direction);
                &&& shown == (DiffMode { scroll_offset: next, ..diff })
                &&& changed == (next != diff.scroll_offset)
                &&& preview is None
            } else if over_file_list(layout, column, row) {
                pointer_selected(
                    content,
                    sessions,
                    wheel_target(direction),
                    diff,
                    shown,
                    changed,
                    preview,
                )
            } else {
                shown == diff && !changed && preview is None
            }
        },
        AppMode::Help { context, scroll_offset } => {
            &&& preview is None
            &&& match layout.help_overlay {
                Some(region) if region.area.has_cell(column as int, row as int) => {
                    let next = wheel_offset(region, scroll_offset, direction);
                    after == (AppMode::Help { context, scroll_offset: next }) && changed == (next
                        != scroll_offset)
                },
                _ => after == before && !changed,
            }
        },
        _ => after == before && !changed && preview is None,
    }
}

/// Scrolls a plain offset by a wheel notch over its region, and reports
/// whether it changed.
pub fn scroll_clamped(
    region: Option<ScrollRegion>,
    scroll_offset: &mut u16,
    column: u16,
    row: u16,
    direction: WheelDirection,
) -> (changed: bool)
    ensures
        *final(scroll_offset) == (match region {
            Some(region) if region.area.has_cell(column as int, row as int) => wheel_offset(
                region,
                *old(scroll_offset),
                direction,
            ),
            _ => *old(scroll_offset),
        }),
        changed == (*final(scroll_offset) != *old(scroll_offset)),
{
    let region: ScrollRegion = match region {
        Some(region) => region,
        None => {
            return false;
        },
    };
    if !region.contains(column, row) {
        return false;
    }
    let next: u16 = match direction {
        WheelDirection::Down => region.scroll_down(*scroll_offset, MOUSE_WHEEL_SCROLL_LINES),
        WheelDirection::Up => region.scroll_up(*scroll_offset, MOUSE_WHEEL_SCROLL_LINES),
    };
    let changed: bool = next != *scroll_offset;
    *scroll_offset = next;
    changed
}

/// Scrolls what lies under the pointer by a wheel notch.
///
/// Returns whether anything changed, and the file to be read for a preview.
pub fn handle_wheel(
    mode: &mut AppMode,
    layout: &LayoutSnapshot,
    content: &DiffContent,
    sessions: &Vec<Session>,
    column: u16,
    row: u16,
    direction: WheelDirection,
) -> (result: (bool, Option<PreviewRequest>))
    ensures
        wheel_applied(
            *layout,
            column,
            row,
            direction,
            *content,
            sessions@,
            *old(mode),
            *final(mode),
            result.0,
            result.1,
        ),
{
    if let Some(offset) = chat_scroll_offset(mode) {
        let region: ScrollRegion = match layout.chat_output {
            Some(region) => region,
            None => {
                return (false, None);
            },
        };
        if !region.contains(column, row) {
            return (false, None);
        }
        let next: Option<u16> = match direction {
            WheelDirection::Down => region.scroll_tail_down(offset, MOUSE_WHEEL_SCROLL_LINES),
            WheelDirection::Up => Some(region.scroll_tail_up(offset, MOUSE_WHEEL_SCROLL_LINES)),
        };
        let changed: bool = replace_scroll_offset(mode, next);
        return (changed, None);
    }
    match mode {
        AppMode::Diff(diff) => handle_mouse_wheel(
            diff,
            content,
            sessions,
            layout,
            column,
            row,
            direction,
        ),
        AppMode::Help { scroll_offset, .. } => (
            scroll_clamped(layout.help_overlay, scroll_offset, column, row, direction),
            None,
        ),
        _ => (false, None),
    }
}

/// The grabbed row of the thumb after a press on a track, and the offset to
/// jump to: a press beside the thumb centers it under the pointer.
pub open spec fn track_press(region: ScrollRegion, offset: u16, row: u16) -> (u16, Option<u16>) {
    match grabbed_row(region, offset as int, row as int) {
        Some(grab) => (grab, None),
        None => {
            let grab = match region.scrollbar {
                Some(track) if track.height > 0 => thumb_rows(
                    track.height as int,
                    region.total_lines as int,
                ) / 2,
                _ => 0,
            };
            (grab as u16, Some(offset_at_row(region, row as int, grab) as u16))
        },
    }
}

/// Finds out what a press on a track grabs and where it jumps to.
pub fn press_on_scrollbar(region: ScrollRegion, current_offset: u16, row: u16) -> (press: (
    u16,
    Option<u16>,
))
    ensures
        press == track_press(region, current_offset, row),
{
    if let Some(grab) = region.thumb_grab_row(current_offset, row) {
        return (grab, None);
    }
    let track_height: u16 = match region.scrollbar {
        Some(track) => track.height,
        None => 0,
    };
    let geometry: ScrollbarGeometry = ScrollbarGeometry::new(
        track_height,
        region.total_lines,
        current_offset,
    );
    let grab: u16 = geometry.thumb_height / 2;
    proof {
        lemma_offset_at_row_in_range(region, row as int, grab as int);
    }
    (grab, Some(region.scroll_offset_for_pointer_row(row, grab)))
}

/// The panel whose track a press hits.
pub open spec fn pressed_track(mode: AppMode, layout: LayoutSnapshot, column: u16, row: u16) -> Option<
    (ScrollRegionKind, ScrollRegion),
> {
    if chat_offset(mode) is Some && on_track(layout.chat_output, column, row) {
        Some((ScrollRegionKind::ChatOutput, layout.chat_output->0))
    } else if mode is Diff && on_track(layout.diff_panel, column, row) {
        Some((ScrollRegionKind::DiffPanel, layout.diff_panel->0))
    } else {
        None
    }
}

/// Whether a cell belongs to the track of a region.
pub open spec fn on_track(region: Option<ScrollRegion>, column: u16, row: u16) -> bool {
    region matches Some(region) && region.scrollbar matches Some(track) && track.has_cell(
        column as int,
        row as int,
    )
}

/// Whether a press on a scrollbar was applied; `pressed` is nothing where no
/// track was hit, and otherwise tells whether anything scrolled.
pub open spec fn press_applied(
    layout: LayoutSnapshot,
    column: u16,
    row: u16,
    before: AppMode,
    after: AppMode,
    drag_before: Option<ScrollbarDrag>,
    drag: Option<ScrollbarDrag>,
    pressed: Option<bool>,
) -> bool {
    match pressed_track(before, layout, column, row) {
        None => after == before && drag == drag_before && pressed is None,
        Some((kind, region)) => {
            let offset = match before {
                AppMode::Diff(diff) => diff.scroll_offset,
                _ => match chat_offset(before) {
                    Some(Some(offset)) => offset,
                    _ => region.limit() as u16,
                },
            };
            let (grab, jump) = track_press(region, offset, row);
            &&& drag == Some(ScrollbarDrag { grab_row_within_thumb: grab, region: kind })
            &&& match jump {
                None => after == before && pressed == Some(false),
                Some(next) => scrolled_to(region, before, after, next, pressed == Some(true))
                    && pressed is Some,
            }
        },
    }
}

/// Whether the panel of a mode was scrolled to an offset.
pub open spec fn scrolled_to(
    region: ScrollRegion,
    before: AppMode,
    after: AppMode,
    offset: u16,
    changed: bool,
) -> bool {
    match before {
        AppMode::Diff(diff) => after == AppMode::Diff(DiffMode { scroll_offset: offset, ..diff })
            && changed == (offset != diff.scroll_offset),
        _ => {
            let next = following_offset(region, offset as int);
            after == with_chat_offset(before, next) && changed == (chat_offset(before) != Some(
                next,
            ))
        },
    }
}

/// Starts dragging a thumb, or jumps to where its track was pressed.
///
/// Returns whether anything scrolled, or nothing where no track was hit.
pub fn press_scrollbar(
    mode: &mut AppMode,
    drag: &mut Option<ScrollbarDrag>,
    layout: &LayoutSnapshot,
    column: u16,
    row: u16,
) -> (pressed: Option<bool>)
    ensures
        press_applied(
            *layout,
            column,
            row,
            *old(mode),
            *final(mode),
            *old(drag),
            *final(drag),
            pressed,
        ),
{
    if let Some(offset) = chat_scroll_offset(mode) {
        if let Some(region) = layout.chat_output {
            if region.scrollbar_contains(column, row) {
                let current: u16 = match offset {
                    Some(offset) => offset,
                    None => region.max_scroll_offset(),
                };
                let (grab, jump) = press_on_scrollbar(region, current, row);
                *drag = Some(
                    ScrollbarDrag {
                        grab_row_within_thumb: grab,
                        region: ScrollRegionKind::ChatOutput,
                    },
                );
                return match jump {
                    Some(next) => Some(
                        replace_scroll_offset(mode, chat_offset_for_region(region, next)),
                    ),
                    None => Some(false),
                };
            }
        }
        return None;
    }
    if let AppMode::Diff(diff) = mode {
        if let Some(region) = layout.diff_panel {
            if region.scrollbar_contains(column, row) {
                let (grab, jump) = press_on_scrollbar(region, diff.scroll_offset, row);
                *drag = Some(
                    ScrollbarDrag {
                        grab_row_within_thumb: grab,
                        region: ScrollRegionKind::DiffPanel,
                    },
                );
                return match jump {
                    Some(next) => {
                        let changed: bool = next != diff.scroll_offset;
                        diff.scroll_offset = next;
                        Some(changed)
                    },
                    None => Some(false),
                };
            }
        }
    }
    None
}

/// Whether a drag of the pointer to a row was applied.
pub open spec fn drag_applied(
    layout: LayoutSnapshot,
    drag: Option<ScrollbarDrag>,
    row: u16,
    before: AppMode,
    after: AppMode,
    changed: bool,
) -> bool {
    match dragged_region(layout, drag, before) {
        None => after == before && !changed,
        Some(region) => scrolled_to(
            region,
            before,
            after,
            offset_at_row(region, row as int, drag->0.grab_row_within_thumb as int) as u16,
            changed,
        ),
    }
}

/// The panel that a drag scrolls: it must still be shown.
pub open spec fn dragged_region(
    layout: LayoutSnapshot,
    drag: Option<ScrollbarDrag>,
    mode: AppMode,
) -> Option<ScrollRegion> {
    match drag {
        None => None,
        Some(drag) => match drag.region {
            ScrollRegionKind::ChatOutput => if chat_offset(mode) is Some {
                layout.chat_output
            } else {
                None
            },
            ScrollRegionKind::DiffPanel => if mode is Diff {
                layout.diff_panel
            } else {
                None
            },
        },
    }
}

/// Lets a dragged thumb follow the pointer and reports whether it scrolled.
pub fn handle_drag(
    mode: &mut AppMode,
    drag: Option<ScrollbarDrag>,
    layout: &LayoutSnapshot,
    row: u16,
) -> (changed: bool)
    ensures
        drag_applied(*layout, drag, row, *old(mode), *final(mode), changed),
{
    let drag: ScrollbarDrag = match drag {
        Some(drag) => drag,
        None => {
            return false;
        },
    };
    match drag.region {
        ScrollRegionKind::ChatOutput => {
            let region: ScrollRegion = match layout.chat_output {
                Some(region) => region,
                None => {
                    return false;
                },
            };
            if chat_scroll_offset(mode).is_none() {
                return false;
            }
            let offset: u16 = region.scroll_offset_for_pointer_row(
                row,
                drag.grab_row_within_thumb,
            );
            replace_scroll_offset(mode, chat_offset_for_region(region, offset))
        },
        ScrollRegionKind::DiffPanel => {
            let region: ScrollRegion = match layout.diff_panel {
                Some(region) => region,
                None => {
                    return false;
                },
            };
            if let AppMode::Diff(diff) = mode {
                let next: u16 = region.scroll_offset_for_pointer_row(
                    row,
                    drag.grab_row_within_thumb,
                );
                let changed: bool = next != diff.scroll_offset;
                diff.scroll_offset = next;
                return changed;
            }
            false
        },
    }
}

/// Whether a press of the left button was applied.
pub open spec fn left_press_applied(
    layout: LayoutSnapshot,
    column: u16,
    row: u16,
    content: DiffContent,
    sessions: Seq<Session>,
    facts: ClickFacts,
    before: AppMode,
    after: AppMode,
    pages_before: ListPages,
    pages_after: ListPages,
    drag: Option<ScrollbarDrag>,
    outcome: MouseOutcome,
    preview: Option<PreviewRequest>,
) -> bool {
    if pressed_track(before, layout, column, row) is Some {
        &&& exists|pressed: bool| #[trigger]
            press_applied(layout, column, row, before, after, None, drag, Some(pressed)) && outcome
                == MouseOutcome::changed_spec(pressed)
        &&& pages_after == pages_before
        &&& preview is None
    } else {
        &&& drag is None
        &&& match hit_at(layout.lists@, column as int, row as int) {
            Some((kind, index)) => click_applied(
                kind,
                index,
                content,
                sessions,
                facts,
                before,
                after,
                pages_before,
                pages_after,
                outcome,
                preview,
            ),
            None => after == before && pages_after == pages_before && outcome
                == MouseOutcome::Ignored && preview is None,
        }
    }
}

/// Applies a press of the left button to a scrollbar, or else to the list
/// item under the pointer.
pub fn handle_press(
    mode: &mut AppMode,
    pages: &mut ListPages,
    drag: &mut Option<ScrollbarDrag>,
    layout: &LayoutSnapshot,
    content: &DiffContent,
    sessions: &Vec<Session>,
    facts: &ClickFacts,
    column: u16,
    row: u16,
) -> (result: (MouseOutcome, Option<PreviewRequest>))
    ensures
        left_press_applied(
            *layout,
            column,
            row,
            *content,
            sessions@,
            *facts,
            *old(mode),
            *final(mode),
            *old(pages),
            *final(pages),
            *final(drag),
            result.0,
            result.1,
        ),
{
    *drag = None;
    if let Some(changed) = press_scrollbar(mode, drag, layout, column, row) {
        return (MouseOutcome::from_changed(changed), None);
    }
    match layout.list_item_at(column, row) {
        Some((kind, index)) => handle_list_click(
            mode,
            pages,
            content,
            sessions,
            facts,
            kind,
            index,
        ),
        None => (MouseOutcome::Ignored, None),
    }
}

/// Whether a mouse event was applied.
pub open spec fn mouse_applied(
    mouse: MouseEvent,
    layout: LayoutSnapshot,
    content: DiffContent,
    sessions: Seq<Session>,
    facts: ClickFacts,
    before: AppMode,
    after: AppMode,
    pages_before: ListPages,
    pages_after: ListPages,
    drag_before: Option<ScrollbarDrag>,
    drag_after: Option<ScrollbarDrag>,
    outcome: MouseOutcome,
    preview: Option<PreviewRequest>,
) -> bool {
    match mouse.kind {
        MouseEventKind::ScrollDown => {
            &&& pages_after == pages_before
            &&& drag_after == drag_before
            &&& exists|changed: bool| #[trigger]
                wheel_applied(
                    layout,
                    mouse.column,
                    mouse.row,
                    WheelDirection::Down,
                    content,
                    sessions,
                    before,
                    after,
                    changed,
                    preview,
                ) && outcome == MouseOutcome::changed_spec(changed)
        },
        MouseEventKind::ScrollUp => {
            &&& pages_after == pages_before
            &&& drag_after == drag_before
            &&& exists|changed: bool| #[trigger]
                wheel_applied(
                    layout,
                    mouse.column,
                    mouse.row,
                    WheelDirection::Up,
                    content,
                    sessions,
                    before,
                    after,
                    changed,
                    preview,
                ) && outcome == MouseOutcome::changed_spec(changed)
        },
        MouseEventKind::Down(MouseButton::Left) => left_press_applied(
            layout,
            mouse.column,
            mouse.row,
            content,
            sessions,
            facts,
            before,
            after,
            pages_before,
            pages_after,
            drag_after,
            outcome,
            preview,
        ),
        MouseEventKind::Drag(MouseButton::Left) => {
            &&& pages_after == pages_before
            &&& drag_after == drag_before
            &&& preview is None
            &&& exists|changed: bool| #[trigger]
                drag_applied(layout, drag_before, mouse.row, before, after, changed) && outcome
                    == MouseOutcome::changed_spec(changed)
        },
        MouseEventKind::Up(MouseButton::Left) => {
            &&& after == before
            &&& pages_after == pages_before
            &&& drag_after is None
            &&& outcome == MouseOutcome::Ignored
            &&& preview is None
        },
        _ => {
            &&& after == before
            &&& pages_after == pages_before
            &&& drag_after == drag_before
            &&& outcome == MouseOutcome::Ignored
            &&& preview is None
        },
    }
}

/// Applies a mouse event.
///
/// Returns what follows from it, and the file to be read for a preview.
pub fn handle_mouse_event(
    mode: &mut AppMode,
    pages: &mut ListPages,
    drag: &mut Option<ScrollbarDrag>,
    layout: &LayoutSnapshot,
    content: &DiffContent,
    sessions: &Vec<Session>,
    facts: &ClickFacts,
    mouse: MouseEvent,
) -> (result: (MouseOutcome, Option<PreviewRequest>))
    ensures
        mouse_applied(
            mouse,
            *layout,
            *content,
            sessions@,
            *facts,
            *old(mode),
            *final(mode),
            *old(pages),
            *final(pages),
            *old(drag),
            *final(drag),
            result.0,
            result.1,
        ),
{
    match mouse.kind {
        MouseEventKind::ScrollDown => {
            let (changed, preview) = handle_wheel(
                mode,
                layout,
                content,
                sessions,
                mouse.column,
                mouse.row,
                WheelDirection::Down,
            );
            (MouseOutcome::from_changed(changed), preview)
        },
        MouseEventKind::ScrollUp => {
            let (changed, preview) = handle_wheel(
                mode,
                layout,
                content,
                sessions,
                mouse.column,
                mouse.row,
                WheelDirection::Up,
            );
            (MouseOutcome::from_changed(changed), preview)
        },
        MouseEventKind::Down(MouseButton::Left) => handle_press(
            mode,
            pages,
            drag,
            layout,
            content,
            sessions,
            facts,
            mouse.column,
            mouse.row,
        ),
        MouseEventKind::Drag(MouseButton::Left) => {
            let changed: bool = handle_drag(mode, *drag, layout, mouse.row);
            (MouseOutcome::from_changed(changed), None)
        },
        MouseEventKind::Up(MouseButton::Left) => {
            *drag = None;
            (MouseOutcome::Ignored, None)
        },
        _ => (MouseOutcome::Ignored, None),
    }
}

/// A dragged thumb keeps the offset of its panel inside the content.
pub proof fn lemma_drag_stays_in_content(
    layout: LayoutSnapshot,
    drag: Option<ScrollbarDrag>,
    row: u16,
    before: AppMode,
    after: AppMode,
    changed: bool,
    region: ScrollRegion,
)
    requires
        drag_applied(layout, drag, row, before, after, changed),
        dragged_region(layout, drag, before) == Some(region),
    ensures
        after matches AppMode::Diff(diff) ==> diff.scroll_offset <= region.limit(),
        chat_offset(after) matches Some(Some(offset)) ==> offset < region.limit(),
{
    lemma_offset_at_row_in_range(region, row as int, drag->0.grab_row_within_thumb as int);
}

/// An event that is ignored changes nothing that is shown, so no frame has to
/// be painted for it.
pub proof fn lemma_ignored_event_changes_nothing(
    mouse: MouseEvent,
    layout: LayoutSnapshot,
    content: DiffContent,
    sessions: Seq<Session>,
    facts: ClickFacts,
    before: AppMode,
    after: AppMode,
    pages_before: ListPages,
    pages_after: ListPages,
    drag_before: Option<ScrollbarDrag>,
    drag_after: Option<ScrollbarDrag>,
    outcome: MouseOutcome,
    preview: Option<PreviewRequest>,
)
    requires
        mouse_applied(
            mouse,
            layout,
            content,
            sessions,
            facts,
            before,
            after,
            pages_before,
            pages_after,
            drag_before,
            drag_after,
            outcome,
            preview,
        ),
        outcome == MouseOutcome::Ignored,
    ensures
        after == before,
        pages_after == pages_before,
        preview is None,
{
}

} // verus!
