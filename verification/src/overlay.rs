//! Geometry and windowing shared by the popups.

use vstd::prelude::*;

use crate::geometry::ViewportRect;
use crate::layout_snapshot::{capped, consecutive_rows, consecutive_rows_list, stacked_items};
use crate::viewport::{ListRegion, ListRegionKind, least, minus};

verus! {

/// Rows that a popup adds around its content: a border and a blank row above
/// and below.
pub const OVERLAY_CHROME_HEIGHT: u16 = 4;

/// The height of a popup around `line_count` content lines.
pub open spec fn required_height(line_count: int) -> int {
    capped(capped(line_count) + OVERLAY_CHROME_HEIGHT)
}

/// Returns the height of a popup around `line_count` content lines.
pub fn overlay_required_height(line_count: usize) -> (height: u16)
    ensures
        height == required_height(line_count as int),
{
    let lines: u16 = if line_count < u16::MAX as usize {
        line_count as u16
    } else {
        u16::MAX
    };
    lines.saturating_add(OVERLAY_CHROME_HEIGHT)
}

/// One dimension of a popup: a share of the frame, but no less than the
/// minimum and no more than the frame.
pub open spec fn popup_extent(frame: int, percent: int, minimum: int) -> int {
    let share = frame * percent / 100;
    least(
        if share < minimum {
            minimum
        } else {
            share
        },
        frame,
    )
}

/// The popup in the middle of the frame.
pub open spec fn popup_at_center(
    frame: ViewportRect,
    width_percent: int,
    height_percent: int,
    minimum_width: int,
    minimum_height: int,
) -> ViewportRect {
    let width = popup_extent(frame.width as int, width_percent, minimum_width);
    let height = popup_extent(frame.height as int, height_percent, minimum_height);
    ViewportRect {
        height: height as u16,
        width: width as u16,
        x: capped(frame.x + (frame.width - width) / 2) as u16,
        y: capped(frame.y + (frame.height - height) / 2) as u16,
    }
}

fn extent(frame: u16, percent: u16, minimum: u16) -> (result: u16)
    ensures
        result == popup_extent(frame as int, percent as int, minimum as int),
{
    assert(0 <= frame * percent <= 0xffff * 0xffff) by (nonlinear_arith)
        requires
            0 <= frame <= 0xffff,
            0 <= percent <= 0xffff,
    ;
    let share: u32 = frame as u32 * percent as u32 / 100;
    let wanted: u32 = if share < minimum as u32 {
        minimum as u32
    } else {
        share
    };
    if wanted < frame as u32 {
        wanted as u16
    } else {
        frame
    }
}

/// Computes the popup in the middle of the frame.
pub fn centered_popup_area(
    frame: ViewportRect,
    width_percent: u16,
    height_percent: u16,
    minimum_width: u16,
    minimum_height: u16,
) -> (area: ViewportRect)
    ensures
        area == popup_at_center(
            frame,
            width_percent as int,
            height_percent as int,
            minimum_width as int,
            minimum_height as int,
        ),
{
    let width: u16 = extent(frame.width, width_percent, minimum_width);
    let height: u16 = extent(frame.height, height_percent, minimum_height);
    proof {
        lemma_popup_extent(frame.width as int, width_percent as int, minimum_width as int);
        lemma_popup_extent(frame.height as int, height_percent as int, minimum_height as int);
    }
    ViewportRect {
        height,
        width,
        x: frame.x.saturating_add((frame.width - width) / 2),
        y: frame.y.saturating_add((frame.height - height) / 2),
    }
}

proof fn lemma_popup_extent(frame: int, percent: int, minimum: int)
    requires
        0 <= frame,
        0 <= percent,
        0 <= minimum,
    ensures
        0 <= popup_extent(frame, percent, minimum) <= frame,
{
    assert(0 <= frame * percent) by (nonlinear_arith)
        requires
            0 <= frame,
            0 <= percent,
    ;
}

/// A popup lies inside its frame.
pub proof fn lemma_popup_inside_frame(
    frame: ViewportRect,
    width_percent: int,
    height_percent: int,
    minimum_width: int,
    minimum_height: int,
)
    requires
        frame.x + frame.width <= u16::MAX,
        frame.y + frame.height <= u16::MAX,
        0 <= width_percent,
        0 <= height_percent,
        0 <= minimum_width,
        0 <= minimum_height,
    ensures
        ({
            let popup = popup_at_center(
                frame,
                width_percent,
                height_percent,
                minimum_width,
                minimum_height,
            );
            &&& frame.x <= popup.x
            &&& popup.x + popup.width <= frame.x + frame.width
            &&& frame.y <= popup.y
            &&& popup.y + popup.height <= frame.y + frame.height
        }),
{
    lemma_popup_extent(frame.width as int, width_percent, minimum_width);
    lemma_popup_extent(frame.height as int, height_percent, minimum_height);
}

/// The option rows of a popup: below its header line and one blank line.
pub open spec fn option_rows(inner: ViewportRect) -> ViewportRect {
    ViewportRect {
        height: minus(inner.height as int, 2) as u16,
        width: inner.width,
        x: inner.x,
        y: capped(inner.y + 2) as u16,
    }
}

/// Returns the option rows of a popup with the given content area.
pub fn option_rows_area(inner: ViewportRect) -> (area: ViewportRect)
    ensures
        area == option_rows(inner),
{
    ViewportRect {
        height: inner.height.saturating_sub(2),
        width: inner.width,
        x: inner.x,
        y: inner.y.saturating_add(2),
    }
}

/// Builds the clickable list of the options of a popup.
pub fn option_rows_list(
    kind: ListRegionKind,
    inner: ViewportRect,
    first_index: usize,
    count: usize,
) -> (list: ListRegion)
    ensures
        list.kind == kind,
        list.items@ == stacked_items(
            consecutive_rows(first_index, count),
            option_rows(inner),
            option_rows(inner).y as int,
        ),
{
    consecutive_rows_list(kind, option_rows_area(inner), first_index, count)
}

/// The first item of a window of `visible` items that keeps `selected` near
/// its middle without running past either end.
pub open spec fn window_start(count: int, selected: int, visible: int) -> int {
    if count <= visible {
        0
    } else {
        least(minus(selected, visible / 2), count - visible)
    }
}

/// A window lies inside its list and shows the selected item.
pub proof fn lemma_window_shows_selection(count: int, selected: int, visible: int)
    requires
        0 <= selected < count,
        0 < visible,
    ensures
        0 <= window_start(count, selected, visible) <= selected,
        selected < window_start(count, selected, visible) + visible,
        window_start(count, selected, visible) + least(visible, count) <= count,
{
}

/// Computes the first item of a window.
pub fn compute_window_start(count: usize, selected: usize, visible: usize) -> (start: usize)
    ensures
        start == window_start(count as int, selected as int, visible as int),
{
    if count <= visible {
        return 0;
    }
    let centered_start: usize = selected.saturating_sub(visible / 2);
    let maximum: usize = count - visible;
    if centered_start < maximum {
        centered_start
    } else {
        maximum
    }
}

} // verus!
