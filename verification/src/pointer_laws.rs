//! What the wheel, the scrollbars and clicks do to what is shown.

use vstd::prelude::*;

use crate::app_mode::{AppMode, DiffMode, PromptModeSnapshot, QuestionModeSnapshot};
use crate::click_handler::{ClickFacts, ListPages, MouseOutcome, click_applied};
use crate::diff_page::DiffContent;
use crate::diff_preview::PreviewRequest;
use crate::geometry::ViewportRect;
use crate::key::{MouseButton, MouseEvent, MouseEventKind};
use crate::mouse_handler::{
    drag_applied, left_press_applied, mouse_applied, press_applied, track_press, wheel_applied,
};
use crate::session::Session;
use crate::viewport::{
    LayoutSnapshot, ListItemHit, ListRegion, ScrollRegion, ScrollRegionKind,
    ScrollbarDrag, WheelDirection, grabbed_row, hit_at, item_at, offset_at_row, thumb_rows,
    thumb_start,
};

verus! {

/// Whether a rectangle covers a cell.
pub open spec fn covers(rect: ViewportRect, column: int, row: int) -> bool {
    !(column < rect.x || row < rect.y || column >= rect.x + rect.width || row >= rect.y
        + rect.height)
}

/// Lines of a panel that do not fit into its viewport.
pub open spec fn hidden_lines(region: ScrollRegion) -> int {
    let hidden = region.total_lines - region.viewport_height;
    if hidden < 0 {
        0
    } else {
        hidden
    }
}

/// Whether a notch of three lines led from one transcript offset to the next;
/// `None` follows the end.
///
/// Away from the end a notch down adds three lines and a notch up takes three
/// away; what would reach the end follows it, and nothing goes above the
/// first line.
pub open spec fn notched(
    region: ScrollRegion,
    direction: WheelDirection,
    before: Option<u16>,
    after: Option<u16>,
) -> bool {
    match (direction, before) {
        (WheelDirection::Down, None) => after is None,
        (WheelDirection::Down, Some(offset)) => if offset + 3 < hidden_lines(region) {
            after matches Some(next) && next == offset + 3
        } else {
            after is None
        },
        (WheelDirection::Up, Some(offset)) => {
            &&& after matches Some(next)
            &&& offset >= 3 ==> next == offset - 3
            &&& offset < 3 ==> next == 0
        },
        (WheelDirection::Up, None) => {
            &&& after matches Some(next)
            &&& hidden_lines(region) >= 3 ==> next == hidden_lines(region) - 3
            &&& hidden_lines(region) < 3 ==> next == 0
        },
    }
}

/// Whether a notch of three lines led from one offset to the next, between
/// the first line and the last.
pub open spec fn notched_inside(
    region: ScrollRegion,
    direction: WheelDirection,
    before: u16,
    after: u16,
) -> bool {
    let last = hidden_lines(region);
    match direction {
        WheelDirection::Down => {
            &&& before + 3 <= last ==> after == before + 3
            &&& before + 3 > last ==> after == last
        },
        WheelDirection::Up => {
            let start = if before < last {
                before as int
            } else {
                last
            };
            &&& start >= 3 ==> after == start - 3
            &&& start < 3 ==> after == 0
        },
    }
}

/// A notch over the transcript moves it by three lines, whichever page shows
/// it, and changes nothing else.
pub proof fn lemma_wheel_moves_transcript(
    layout: LayoutSnapshot,
    region: ScrollRegion,
    column: u16,
    row: u16,
    direction: WheelDirection,
    content: DiffContent,
    sessions: Seq<Session>,
    before: AppMode,
    after: AppMode,
    changed: bool,
    preview: Option<PreviewRequest>,
)
    requires
        wheel_applied(
            layout,
            column,
            row,
            direction,
            content,
            sessions,
            before,
            after,
            changed,
            preview,
        ),
        layout.chat_output == Some(region),
        covers(region.area, column as int, row as int),
    ensures
        before matches AppMode::View { scroll_offset, session_id } ==> {
            &&& after matches AppMode::View { scroll_offset: next, session_id: shown }
            &&& notched(region, direction, scroll_offset, next)
            &&& shown == session_id
            &&& changed == (next != scroll_offset)
        },
        before matches AppMode::Prompt { focus, prompt } ==> {
            &&& after matches AppMode::Prompt { focus: focus_after, prompt: shown }
            &&& notched(region, direction, prompt.scroll_offset, shown.scroll_offset)
            &&& focus_after == focus
            &&& prompt == (PromptModeSnapshot { scroll_offset: prompt.scroll_offset, ..shown })
            &&& changed == (shown.scroll_offset != prompt.scroll_offset)
        },
        before matches AppMode::Question { focus, question } ==> {
            &&& after matches AppMode::Question { focus: focus_after, question: shown }
            &&& notched(region, direction, question.scroll_offset, shown.scroll_offset)
            &&& focus_after == focus
            &&& question == (QuestionModeSnapshot {
                scroll_offset: question.scroll_offset,
                ..shown
            })
            &&& changed == (shown.scroll_offset != question.scroll_offset)
        },
{
}

/// A notch up from the third line or below and a notch down come back to the
/// same place, unless that place is the end.
pub proof fn lemma_wheel_up_then_down(
    layout: LayoutSnapshot,
    region: ScrollRegion,
    column: u16,
    row: u16,
    content: DiffContent,
    sessions: Seq<Session>,
    before: AppMode,
    middle: AppMode,
    after: AppMode,
    offset: u16,
    changed: (bool, bool),
    preview: (Option<PreviewRequest>, Option<PreviewRequest>),
)
    requires
        before matches AppMode::View { scroll_offset, .. } && scroll_offset == Some(offset),
        layout.chat_output == Some(region),
        covers(region.area, column as int, row as int),
        3 <= offset < region.total_lines - region.viewport_height,
        wheel_applied(
            layout,
            column,
            row,
            WheelDirection::Up,
            content,
            sessions,
            before,
            middle,
            changed.0,
            preview.0,
        ),
        wheel_applied(
            layout,
            column,
            row,
            WheelDirection::Down,
            content,
            sessions,
            middle,
            after,
            changed.1,
            preview.1,
        ),
    ensures
        after == before,
        middle != before,
        changed == (true, true),
{
}

/// A notch beside the panels changes nothing.
pub proof fn lemma_wheel_beside_panels(
    layout: LayoutSnapshot,
    column: u16,
    row: u16,
    direction: WheelDirection,
    content: DiffContent,
    sessions: Seq<Session>,
    before: AppMode,
    after: AppMode,
    changed: bool,
    preview: Option<PreviewRequest>,
)
    requires
        wheel_applied(
            layout,
            column,
            row,
            direction,
            content,
            sessions,
            before,
            after,
            changed,
            preview,
        ),
        layout.chat_output matches Some(region) ==> !covers(
            region.area,
            column as int,
            row as int,
        ),
        layout.diff_panel matches Some(region) ==> !covers(
            region.area,
            column as int,
            row as int,
        ),
        layout.help_overlay matches Some(region) ==> !covers(
            region.area,
            column as int,
            row as int,
        ),
        layout.diff_file_list matches Some(list) ==> !covers(list, column as int, row as int),
    ensures
        after == before,
        !changed,
        preview is None,
{
}

/// A notch over the help overlay or the diff panel moves it by three lines
/// inside its content and changes nothing else.
pub proof fn lemma_wheel_moves_panel(
    layout: LayoutSnapshot,
    region: ScrollRegion,
    column: u16,
    row: u16,
    direction: WheelDirection,
    content: DiffContent,
    sessions: Seq<Session>,
    before: AppMode,
    after: AppMode,
    changed: bool,
    preview: Option<PreviewRequest>,
)
    requires
        wheel_applied(
            layout,
            column,
            row,
            direction,
            content,
            sessions,
            before,
            after,
            changed,
            preview,
        ),
        covers(region.area, column as int, row as int),
    ensures
        before is Help && layout.help_overlay == Some(region) ==> {
            &&& before matches AppMode::Help { context, scroll_offset }
            &&& after matches AppMode::Help { context: shown, scroll_offset: next }
            &&& shown == context
            &&& notched_inside(region, direction, scroll_offset, next)
            &&& changed == (next != scroll_offset)
        },
        before is Diff && layout.diff_panel == Some(region) ==> {
            &&& before matches AppMode::Diff(diff)
            &&& after matches AppMode::Diff(shown)
            &&& notched_inside(region, direction, diff.scroll_offset, shown.scroll_offset)
            &&& diff == (DiffMode { scroll_offset: diff.scroll_offset, ..shown })
            &&& changed == (shown.scroll_offset != diff.scroll_offset)
            &&& preview is None
        },
{
}

/// The wheel of the mouse turns what it points at, a press of the left button
/// never scrolls a transcript without a scrollbar, and releasing the button
/// ends every drag and nothing else.
pub proof fn lemma_mouse_events(
    mouse: MouseEvent,
    layout: LayoutSnapshot,
    content: DiffContent,
    sessions: Seq<Session>,
    facts: ClickFacts,
    before: AppMode,
    after: AppMode,
    pages_before: ListPages,
    pages_after: ListPages,
    drag_before: Option<ScrollbarDrag>,
    drag_after: Option<ScrollbarDrag>,
    outcome: MouseOutcome,
    preview: Option<PreviewRequest>,
    region: ScrollRegion,
)
    requires
        mouse_applied(
            mouse,
            layout,
            content,
            sessions,
            facts,
            before,
            after,
            pages_before,
            pages_after,
            drag_before,
            drag_after,
            outcome,
            preview,
        ),
        layout.chat_output == Some(region),
    ensures
        mouse.kind == MouseEventKind::ScrollDown && covers(
            region.area,
            mouse.column as int,
            mouse.row as int,
        ) ==> {
            &&& pages_after == pages_before && drag_after == drag_before
            &&& before matches AppMode::View { scroll_offset, session_id } ==> {
                &&& after matches AppMode::View { scroll_offset: next, session_id: shown }
                &&& notched(region, WheelDirection::Down, scroll_offset, next)
                &&& shown == session_id
                &&& outcome == MouseOutcome::Redraw <==> next != scroll_offset
                &&& outcome == MouseOutcome::Ignored <==> next == scroll_offset
            }
        },
        mouse.kind == MouseEventKind::ScrollUp && covers(
            region.area,
            mouse.column as int,
            mouse.row as int,
        ) ==> {
            &&& pages_after == pages_before && drag_after == drag_before
            &&& before matches AppMode::View { scroll_offset, session_id } ==> {
                &&& after matches AppMode::View { scroll_offset: next, session_id: shown }
                &&& notched(region, WheelDirection::Up, scroll_offset, next)
                &&& shown == session_id
                &&& outcome == MouseOutcome::Redraw <==> next != scroll_offset
            }
        },
        mouse.kind == MouseEventKind::Down(MouseButton::Left) && region.scrollbar is None && before
            is View && hit_at(layout.lists@, mouse.column as int, mouse.row as int) is None ==> {
            &&& after == before
            &&& drag_after is None
            &&& outcome == MouseOutcome::Ignored
        },
        mouse.kind == MouseEventKind::Up(MouseButton::Left) ==> {
            &&& drag_after is None
            &&& after == before
            &&& pages_after == pages_before
            &&& outcome == MouseOutcome::Ignored
        },
        mouse.kind == MouseEventKind::Moved ==> {
            &&& drag_after == drag_before
            &&& after == before
            &&& pages_after == pages_before
            &&& outcome == MouseOutcome::Ignored
        },
{
}

/// The thumb fills the track of a panel that hides nothing. Otherwise it is
/// as much of the track as the track is of the lines, rounded down, and at
/// least one row.
pub proof fn lemma_thumb_is_proportional(track: int, total: int)
    requires
        0 < track,
        0 <= total,
    ensures
        total <= track ==> thumb_rows(track, total) == track,
        total > track ==> {
            &&& 1 <= thumb_rows(track, total) < track || track == 1
            &&& thumb_rows(track, total) > 1 ==> thumb_rows(track, total) * total <= track * track
            &&& track * track < (thumb_rows(track, total) + 1) * total
        },
{
    if total > track {
        let rows = track * track / total;
        assert(rows * total <= track * track < (rows + 1) * total) by (nonlinear_arith)
            requires
                rows == track * track / total,
                total > 0,
        ;
        if rows < 1 {
            assert(track * track < 2 * total) by (nonlinear_arith)
                requires
                    track * track < (rows + 1) * total,
                    rows < 1,
                    total > 0,
                    0 < track,
            ;
        } else {
            assert(rows < track) by (nonlinear_arith)
                requires
                    rows * total <= track * track,
                    total > track,
                    track > 0,
                    rows >= 1,
            ;
        }
    }
}

/// The thumb lies at the top of its track at the first line, at the bottom at
/// the last, and never moves up while the content moves down.
pub proof fn lemma_thumb_follows_offset(track: int, total: int, first: int, second: int)
    requires
        0 < track < total,
        0 <= first <= second,
    ensures
        thumb_start(track, total, 0) == 0,
        second >= total - track ==> thumb_start(track, total, second) == track - thumb_rows(
            track,
            total,
        ),
        thumb_start(track, total, first) <= thumb_start(track, total, second),
{
    let span = total - track;
    let travel = track - thumb_rows(track, total);
    lemma_thumb_is_proportional(track, total);
    let low = if first < span {
        first
    } else {
        span
    };
    let high = if second < span {
        second
    } else {
        span
    };
    assert(0 * travel / span == 0) by (nonlinear_arith)
        requires
            span > 0,
    ;
    assert(span * travel / span == travel) by (nonlinear_arith)
        requires
            span > 0,
    ;
    assert(low * travel / span <= high * travel / span) by (nonlinear_arith)
        requires
            0 <= low <= high,
            travel >= 0,
            span > 0,
    ;
}

/// A dragged thumb shows the first line while it is held at the top of its
/// track, the last line at its bottom, and never an earlier line further
/// down.
pub proof fn lemma_drag_follows_pointer(
    region: ScrollRegion,
    track: ViewportRect,
    grab: int,
    first: int,
    second: int,
)
    requires
        region.scrollbar == Some(track),
        0 < track.height < region.total_lines,
        0 <= grab,
        0 <= first <= second,
    ensures
        first <= track.y + grab ==> offset_at_row(region, first, grab) == 0,
        thumb_rows(track.height as int, region.total_lines as int) < track.height && second
            >= track.y + grab + track.height - thumb_rows(
            track.height as int,
            region.total_lines as int,
        ) ==> offset_at_row(region, second, grab) == hidden_lines(region),
        offset_at_row(region, first, grab) <= offset_at_row(region, second, grab),
{
    let limit = hidden_lines(region);
    let travel = track.height - thumb_rows(track.height as int, region.total_lines as int);
    lemma_thumb_is_proportional(track.height as int, region.total_lines as int);
    if travel > 0 {
        let start = track.y + grab;
        let low = if first <= start {
            0
        } else if first - start < travel {
            first - start
        } else {
            travel
        };
        let high = if second <= start {
            0
        } else if second - start < travel {
            second - start
        } else {
            travel
        };
        assert(0 * limit / travel == 0) by (nonlinear_arith)
            requires
                travel > 0,
        ;
        assert(travel * limit / travel == limit) by (nonlinear_arith)
            requires
                travel > 0,
        ;
        assert(low * limit / travel <= high * limit / travel) by (nonlinear_arith)
            requires
                0 <= low <= high,
                limit >= 0,
                travel > 0,
        ;
    }
}

/// A press on the thumb takes hold of the very row that was pressed and
/// scrolls nothing. A press beside it scrolls to where a drag to the same row
/// would, so that holding the button still moves nothing more.
pub proof fn lemma_press_then_drag(
    layout: LayoutSnapshot,
    region: ScrollRegion,
    track: ViewportRect,
    column: u16,
    row: u16,
    before: AppMode,
    middle: AppMode,
    after: AppMode,
    drag: Option<ScrollbarDrag>,
    pressed: Option<bool>,
    changed: bool,
)
    requires
        before is Diff,
        layout.diff_panel == Some(region),
        region.scrollbar == Some(track),
        covers(track, column as int, row as int),
        press_applied(layout, column, row, before, middle, None, drag, pressed),
        drag_applied(layout, drag, row, middle, after, changed),
        layout.chat_output is None,
    ensures
        drag matches Some(held) && held.region == ScrollRegionKind::DiffPanel,
        pressed is Some,
        ({
            let thumb = thumb_rows(track.height as int, region.total_lines as int);
            let top = track.y + thumb_start(
                track.height as int,
                region.total_lines as int,
                before->Diff_0.scroll_offset as int,
            );
            if top <= row < top + thumb {
                middle == before && drag->0.grab_row_within_thumb == row - top && pressed == Some(
                    false,
                )
            } else {
                after == middle && !changed && drag->0.grab_row_within_thumb == thumb / 2
            }
        }),
{
    crate::viewport::lemma_offset_at_row_in_range(
        region,
        row as int,
        drag->0.grab_row_within_thumb as int,
    );
    crate::viewport::lemma_offset_at_row_in_range(
        region,
        row as int,
        thumb_rows(track.height as int, region.total_lines as int) / 2,
    );
    lemma_thumb_is_proportional(track.height as int, region.total_lines as int);
}

/// A drag scrolls only the panel whose thumb is held.
pub proof fn lemma_drag_moves_held_panel(
    layout: LayoutSnapshot,
    drag: ScrollbarDrag,
    row: u16,
    before: AppMode,
    after: AppMode,
    changed: bool,
)
    requires
        drag_applied(layout, Some(drag), row, before, after, changed),
    ensures
        before is Diff && drag.region == ScrollRegionKind::ChatOutput ==> after == before
            && !changed,
        before is View && drag.region == ScrollRegionKind::DiffPanel ==> after == before
            && !changed,
        before is List || before is Help ==> after == before && !changed,
        before is Diff ==> {
            &&& after matches AppMode::Diff(shown)
            &&& before->Diff_0 == (DiffMode {
                scroll_offset: before->Diff_0.scroll_offset,
                ..shown
            })
        },
        drag.region == ScrollRegionKind::ChatOutput && layout.chat_output is Some ==> {
            let region = layout.chat_output->0;
            let offset = offset_at_row(region, row as int, drag.grab_row_within_thumb as int);
            before matches AppMode::View { scroll_offset, session_id } ==> {
                &&& after matches AppMode::View { scroll_offset: next, session_id: shown }
                &&& shown == session_id
                &&& offset < hidden_lines(region) ==> next == Some(offset as u16)
                &&& offset >= hidden_lines(region) ==> next is None
                &&& changed == (next != scroll_offset)
            }
        },
{
    if let Some(region) = layout.chat_output {
        crate::viewport::lemma_offset_at_row_in_range(
            region,
            row as int,
            drag.grab_row_within_thumb as int,
        );
    }
}

/// Without a drag the moving pointer scrolls nothing.
pub proof fn lemma_no_drag_moves_nothing(
    layout: LayoutSnapshot,
    row: u16,
    before: AppMode,
    after: AppMode,
    changed: bool,
)
    requires
        drag_applied(layout, None, row, before, after, changed),
    ensures
        after == before,
        !changed,
{
}

/// Whether an item of a list covers a cell and no earlier one does.
pub open spec fn first_covering(items: Seq<ListItemHit>, position: int, column: int, row: int) -> bool {
    &&& 0 <= position < items.len()
    &&& covers(items[position].area, column, row)
    &&& forall|i: int| 0 <= i < position ==> !covers((#[trigger] items[i]).area, column, row)
}

/// A list answers for a cell with its first item there, and with none only
/// where it has none.
pub proof fn lemma_item_at_cell(items: Seq<ListItemHit>, column: int, row: int)
    ensures
        match item_at(items, column, row) {
            Some(index) => exists|i: int| #[trigger]
                first_covering(items, i, column, row) && items[i].index == index,
            None => forall|i: int|
                0 <= i < items.len() ==> !covers((#[trigger] items[i]).area, column, row),
        },
    decreases items.len(),
{
    if items.len() > 0 {
        let rest = items.drop_first();
        lemma_item_at_cell(rest, column, row);
        if covers(items[0].area, column, row) {
            assert(first_covering(items, 0, column, row));
        } else {
            assert forall|i: int| 1 <= i < items.len() implies #[trigger] items[i] == rest[i
                - 1] by {}
            if let Some(index) = item_at(rest, column, row) {
                let i = choose|i: int| #[trigger]
                    first_covering(rest, i, column, row) && rest[i].index == index;
                assert forall|j: int| 0 <= j < i + 1 implies !covers(
                    (#[trigger] items[j]).area,
                    column,
                    row,
                ) by {
                    if j > 0 {
                        assert(items[j] == rest[j - 1]);
                    }
                }
                assert(items[i + 1] == rest[i]);
                assert(first_covering(items, i + 1, column, row));
            }
        }
    }
}

/// Whether a list has an item at a cell.
pub open spec fn list_covers(list: ListRegion, column: int, row: int) -> bool {
    exists|i: int| 0 <= i < list.items@.len() && covers((#[trigger] list.items@[i]).area, column, row)
}

/// The list that was painted last among those with an item at a cell answers
/// for it, with its first item there; a cell without any item gives nothing.
pub proof fn lemma_hit_at_cell(lists: Seq<ListRegion>, column: int, row: int)
    ensures
        match hit_at(lists, column, row) {
            Some((kind, index)) => exists|l: int|
                {
                    &&& 0 <= l < lists.len()
                    &&& (#[trigger] lists[l]).kind == kind
                    &&& exists|i: int| #[trigger]
                        first_covering(lists[l].items@, i, column, row) && lists[l].items@[i].index
                            == index
                    &&& forall|m: int|
                        l < m < lists.len() ==> !list_covers(#[trigger] lists[m], column, row)
                },
            None => forall|m: int|
                0 <= m < lists.len() ==> !list_covers(#[trigger] lists[m], column, row),
        },
    decreases lists.len(),
{
    if lists.len() > 0 {
        let rest = lists.drop_last();
        let top = lists.last();
        lemma_item_at_cell(top.items@, column, row);
        lemma_hit_at_cell(rest, column, row);
        if item_at(top.items@, column, row) is Some {
            assert(lists[lists.len() - 1] == top);
        } else {
            assert(!list_covers(top, column, row));
            assert forall|m: int| 0 <= m < rest.len() implies lists[m] == #[trigger] rest[m] by {}
            if let Some((kind, index)) = hit_at(rest, column, row) {
                let l = choose|l: int|
                    {
                        &&& 0 <= l < rest.len()
                        &&& (#[trigger] rest[l]).kind == kind
                        &&& exists|i: int| #[trigger]
                            first_covering(rest[l].items@, i, column, row)
                                && rest[l].items@[i].index == index
                        &&& forall|m: int|
                            l < m < rest.len() ==> !list_covers(#[trigger] rest[m], column, row)
                    };
                assert(lists[l] == rest[l]);
                assert forall|m: int| l < m < lists.len() implies !list_covers(
                    #[trigger] lists[m],
                    column,
                    row,
                ) by {
                    if m < rest.len() {
                        assert(lists[m] == rest[m]);
                    }
                }
            } else {
                assert forall|m: int| 0 <= m < lists.len() implies !list_covers(
                    #[trigger] lists[m],
                    column,
                    row,
                ) by {
                    if m < rest.len() {
                        assert(lists[m] == rest[m]);
                    }
                }
            }
        }
    }
}

/// A press on a track grabs the thumb only where the thumb is, and the
/// grabbed row is counted from its top.
pub proof fn lemma_grabbed_row(region: ScrollRegion, track: ViewportRect, offset: u16, row: u16)
    requires
        region.scrollbar == Some(track),
        track.height > 0,
    ensures
        ({
            let top = track.y + thumb_start(
                track.height as int,
                region.total_lines as int,
                offset as int,
            );
            let rows = thumb_rows(track.height as int, region.total_lines as int);
            match grabbed_row(region, offset as int, row as int) {
                Some(grab) => top <= row && row - top < rows && grab == row - top
                    && track_press(region, offset, row) == (grab, None::<u16>),
                None => row < top || row - top >= rows,
            }
        }),
{
    lemma_thumb_is_proportional(track.height as int, region.total_lines as int);
}

/// A press, a drag and a notch say that something changed exactly where
/// something did.
pub proof fn lemma_reported_changes(
    layout: LayoutSnapshot,
    column: u16,
    row: u16,
    direction: WheelDirection,
    content: DiffContent,
    sessions: Seq<Session>,
    drags: (Option<ScrollbarDrag>, Option<ScrollbarDrag>),
    before: AppMode,
    after: AppMode,
    changed: bool,
    preview: Option<PreviewRequest>,
)
    ensures
        press_applied(layout, column, row, before, after, drags.0, drags.1, Some(changed)) ==> (
        changed <==> after != before),
        drag_applied(layout, drags.0, row, before, after, changed) ==> (changed <==> after
            != before),
        wheel_applied(
            layout,
            column,
            row,
            direction,
            content,
            sessions,
            before,
            after,
            changed,
            preview,
        ) ==> (changed <==> after != before),
{
}

/// A press beside every track moves nothing and holds nothing new.
pub proof fn lemma_press_beside_tracks(
    layout: LayoutSnapshot,
    column: u16,
    row: u16,
    before: AppMode,
    after: AppMode,
    drags: (Option<ScrollbarDrag>, Option<ScrollbarDrag>),
    pressed: Option<bool>,
)
    requires
        press_applied(layout, column, row, before, after, drags.0, drags.1, pressed),
        layout.chat_output matches Some(region) ==> (region.scrollbar matches Some(track)
            ==> !covers(track, column as int, row as int)),
        layout.diff_panel matches Some(region) ==> (region.scrollbar matches Some(track)
            ==> !covers(track, column as int, row as int)),
    ensures
        after == before,
        drags.1 == drags.0,
        pressed is None,
{
}

/// A press on the track of a transcript holds its thumb; beside the thumb the
/// transcript jumps, and follows its end where it reaches it.
pub proof fn lemma_press_on_transcript_track(
    layout: LayoutSnapshot,
    region: ScrollRegion,
    track: ViewportRect,
    column: u16,
    row: u16,
    before: AppMode,
    after: AppMode,
    drags: (Option<ScrollbarDrag>, Option<ScrollbarDrag>),
    pressed: Option<bool>,
    offset: Option<u16>,
)
    requires
        press_applied(layout, column, row, before, after, drags.0, drags.1, pressed),
        layout.chat_output == Some(region),
        region.scrollbar == Some(track),
        covers(track, column as int, row as int),
        before matches AppMode::View { scroll_offset, session_id } && scroll_offset == offset,
    ensures
        ({
            let thumb = thumb_rows(track.height as int, region.total_lines as int);
            let line = match offset {
                Some(line) => line as int,
                None => hidden_lines(region),
            };
            let top = track.y + thumb_start(
                track.height as int,
                region.total_lines as int,
                line,
            );
            &&& drags.1 matches Some(held)
            &&& held.region == ScrollRegionKind::ChatOutput
            &&& pressed is Some
            &&& after matches AppMode::View { scroll_offset, session_id }
            &&& session_id == before->View_session_id
            &&& top <= row < top + thumb ==> after == before && held.grab_row_within_thumb == row
                - top && pressed == Some(false)
            &&& !(top <= row < top + thumb) ==> {
                let jump = offset_at_row(region, row as int, thumb / 2);
                &&& held.grab_row_within_thumb == thumb / 2
                &&& jump >= hidden_lines(region) ==> scroll_offset is None
                &&& jump < hidden_lines(region) ==> scroll_offset == Some(jump as u16)
            }
        }),
{
    crate::viewport::lemma_offset_at_row_in_range(
        region,
        row as int,
        thumb_rows(track.height as int, region.total_lines as int) / 2,
    );
    lemma_thumb_is_proportional(track.height as int, region.total_lines as int);
}

/// A left press on a track scrolls and clicks nothing; beside the tracks it
/// clicks the item under it, and holds no thumb.
pub proof fn lemma_left_press(
    layout: LayoutSnapshot,
    column: u16,
    row: u16,
    content: DiffContent,
    sessions: Seq<Session>,
    facts: ClickFacts,
    before: AppMode,
    after: AppMode,
    pages_before: ListPages,
    pages_after: ListPages,
    drag: Option<ScrollbarDrag>,
    outcome: MouseOutcome,
    preview: Option<PreviewRequest>,
)
    requires
        left_press_applied(
            layout,
            column,
            row,
            content,
            sessions,
            facts,
            before,
            after,
            pages_before,
            pages_after,
            drag,
            outcome,
            preview,
        ),
    ensures
        ({
            let on_chat = (before is View || before is Prompt || before is Question)
                && layout.chat_output is Some && layout.chat_output->0.scrollbar is Some && covers(
                layout.chat_output->0.scrollbar->0,
                column as int,
                row as int,
            );
            let on_diff = before is Diff && layout.diff_panel is Some
                && layout.diff_panel->0.scrollbar is Some && covers(
                layout.diff_panel->0.scrollbar->0,
                column as int,
                row as int,
            );
            &&& drag is Some <==> on_chat || on_diff
            &&& on_chat ==> drag->0.region == ScrollRegionKind::ChatOutput
            &&& on_diff ==> drag->0.region == ScrollRegionKind::DiffPanel
            &&& on_chat || on_diff ==> {
                &&& pages_after == pages_before
                &&& preview is None
                &&& after != before ==> outcome == MouseOutcome::Redraw
                &&& after == before ==> outcome == MouseOutcome::Ignored
            }
            &&& !(on_chat || on_diff) ==> {
                &&& hit_at(layout.lists@, column as int, row as int) is None ==> after == before
                    && pages_after == pages_before && outcome == MouseOutcome::Ignored && preview
                    is None
                &&& hit_at(layout.lists@, column as int, row as int) matches Some(hit)
                    ==> click_applied(
                    hit.0,
                    hit.1,
                    content,
                    sessions,
                    facts,
                    before,
                    after,
                    pages_before,
                    pages_after,
                    outcome,
                    preview,
                )
            }
        }),
{
}

/// A held thumb takes its panel along: to the offset of the row under the
/// pointer, and a transcript that reaches its end follows it.
pub proof fn lemma_drag_scrolls_panel(
    layout: LayoutSnapshot,
    region: ScrollRegion,
    drag: ScrollbarDrag,
    row: u16,
    before: AppMode,
    after: AppMode,
    changed: bool,
)
    requires
        drag_applied(layout, Some(drag), row, before, after, changed),
    ensures
        ({
            let line = offset_at_row(region, row as int, drag.grab_row_within_thumb as int);
            let offset = if line >= hidden_lines(region) {
                None
            } else {
                Some(line as u16)
            };
            &&& drag.region == ScrollRegionKind::DiffPanel && layout.diff_panel == Some(region) ==> {
                before matches AppMode::Diff(diff) ==> after == AppMode::Diff(
                    DiffMode { scroll_offset: line as u16, ..diff },
                )
            }
            &&& drag.region == ScrollRegionKind::ChatOutput && layout.chat_output == Some(region)
                ==> {
                &&& before matches AppMode::View { scroll_offset, session_id } ==> after == (
                AppMode::View { scroll_offset: offset, session_id })
                &&& before matches AppMode::Prompt { focus, prompt } ==> after == (AppMode::Prompt {
                    focus,
                    prompt: PromptModeSnapshot { scroll_offset: offset, ..prompt },
                })
                &&& before matches AppMode::Question { focus, question } ==> after == (
                AppMode::Question {
                    focus,
                    question: QuestionModeSnapshot { scroll_offset: offset, ..question },
                })
            }
        }),
{
    crate::viewport::lemma_offset_at_row_in_range(
        region,
        row as int,
        drag.grab_row_within_thumb as int,
    );
}

/// Between the ends of its track a thumb stands in proportion: as far down the
/// track as the offset is down the content, and a dragged offset as far down
/// the content as the pointer is down the track.
pub proof fn lemma_track_is_proportional(
    region: ScrollRegion,
    track: ViewportRect,
    offset: int,
    grab: int,
    row: int,
)
    requires
        region.scrollbar == Some(track),
        0 < track.height < region.total_lines,
        0 <= grab,
        thumb_rows(track.height as int, region.total_lines as int) < track.height,
    ensures
        ({
            let travel = track.height - thumb_rows(track.height as int, region.total_lines as int);
            let below = region.total_lines - track.height;
            let start = thumb_start(track.height as int, region.total_lines as int, offset);
            let line = offset_at_row(region, row, grab);
            let moved = row - track.y - grab;
            &&& 0 <= offset <= below ==> start * below <= offset * travel < (start + 1) * below
            &&& 0 <= moved <= travel ==> line * travel <= moved * hidden_lines(region) < (line + 1)
                * travel
        }),
{
    let travel = track.height - thumb_rows(track.height as int, region.total_lines as int);
    let below = region.total_lines - track.height;
    let hidden = hidden_lines(region);
    let moved = row - track.y - grab;
    let start = offset * travel / below;
    let line = moved * hidden / travel;
    assert(start * below <= offset * travel < (start + 1) * below) by (nonlinear_arith)
        requires
            start == offset * travel / below,
            below > 0,
    ;
    assert(line * travel <= moved * hidden < (line + 1) * travel) by (nonlinear_arith)
        requires
            line == moved * hidden / travel,
            travel > 0,
    ;
}

} // verus!
