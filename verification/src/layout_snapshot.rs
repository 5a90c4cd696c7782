//! Recording of panel and list geometry while a frame is painted.
//!
//! Pages record what they paint so that pointer coordinates can be tested
//! against the very rectangles of the last frame. Recording starts empty with
//! every frame and ends when the finished snapshot is taken.

use vstd::prelude::*;

use crate::geometry::ViewportRect;
use crate::viewport::{
    LayoutSnapshot, ListItemHit, ListRegion, ListRegionKind, ScrollRegion, least,
};

verus! {

/// Collects the geometry of one frame.
#[derive(Debug)]
pub struct FrameLayout {
    pub layout: LayoutSnapshot,
}

/// Whether nothing is recorded.
pub open spec fn nothing_recorded(layout: LayoutSnapshot) -> bool {
    &&& layout.chat_output is None
    &&& layout.diff_file_list is None
    &&& layout.diff_panel is None
    &&& layout.help_overlay is None
    &&& layout.lists@.len() == 0
}

impl FrameLayout {
    /// Builds a recorder that has recorded nothing.
    pub fn new() -> (frame: FrameLayout)
        ensures
            nothing_recorded(frame.layout),
    {
        FrameLayout { layout: LayoutSnapshot::default() }
    }

    /// Forgets everything before a new frame.
    pub fn begin_frame(&mut self)
        ensures
            nothing_recorded(final(self).layout),
    {
        self.layout = LayoutSnapshot::default();
    }

    /// Hands out what was recorded and starts over.
    pub fn take_frame(&mut self) -> (snapshot: LayoutSnapshot)
        ensures
            snapshot == old(self).layout,
            nothing_recorded(final(self).layout),
    {
        let mut snapshot: LayoutSnapshot = LayoutSnapshot::default();
        std::mem::swap(&mut snapshot, &mut self.layout);
        snapshot
    }

    /// Records the transcript panel.
    pub fn record_chat_output(&mut self, region: ScrollRegion)
        ensures
            final(self).layout == (LayoutSnapshot {
                chat_output: Some(region),
                ..old(self).layout
            }),
    {
        self.layout.chat_output = Some(region);
    }

    /// Records the file list of the diff page.
    pub fn record_diff_file_list(&mut self, area: ViewportRect)
        ensures
            final(self).layout == (LayoutSnapshot {
                diff_file_list: Some(area),
                ..old(self).layout
            }),
    {
        self.layout.diff_file_list = Some(area);
    }

    /// Records the right panel of the diff page.
    pub fn record_diff_panel(&mut self, region: ScrollRegion)
        ensures
            final(self).layout == (LayoutSnapshot { diff_panel: Some(region), ..old(self).layout }),
    {
        self.layout.diff_panel = Some(region);
    }

    /// Records the help popup.
    pub fn record_help_overlay(&mut self, region: ScrollRegion)
        ensures
            final(self).layout == (LayoutSnapshot {
                help_overlay: Some(region),
                ..old(self).layout
            }),
    {
        self.layout.help_overlay = Some(region);
    }

    /// Records one clickable list above those recorded before.
    pub fn record_list(&mut self, list: ListRegion)
        ensures
            final(self).layout.lists@ == old(self).layout.lists@.push(list),
            final(self).layout == (LayoutSnapshot {
                lists: final(self).layout.lists,
                ..old(self).layout
            }),
    {
        self.layout.lists.push(list);
    }
}

/// One painted row of a table or list.
#[derive(Clone, Copy, Debug, PartialEq, Eq, Structural)]
pub struct ListRow {
    /// Empty rows below this one.
    pub bottom_margin: u16,
    pub height: u16,
    /// The item that the row selects; labels and separators have none.
    pub index: Option<usize>,
}

impl ListRow {
    /// A selectable row of one line.
    pub open spec fn item_spec(index: usize) -> ListRow {
        ListRow { bottom_margin: 0, height: 1, index: Some(index) }
    }

    /// Builds a selectable row of one line.
    pub fn item(index: usize) -> (row: ListRow)
        ensures
            row == ListRow::item_spec(index),
    {
        ListRow { bottom_margin: 0, height: 1, index: Some(index) }
    }
}

/// A coordinate or number of cells, capped by the largest `u16`.
pub open spec fn capped(coordinate: int) -> int {
    least(coordinate, u16::MAX as int)
}

/// The clickable items of rows stacked from `top` down to `bottom`; what lies
/// below the bottom is not on screen.
pub open spec fn stacked_items(rows: Seq<ListRow>, body: ViewportRect, top: int) -> Seq<
    ListItemHit,
>
    decreases rows.len(),
{
    let bottom = capped(body.y + body.height);
    if rows.len() == 0 || top >= bottom {
        Seq::empty()
    } else {
        let row = rows[0];
        let below = stacked_items(
            rows.drop_first(),
            body,
            capped(capped(top + row.height) + row.bottom_margin),
        );
        match row.index {
            Some(index) => seq![
                ListItemHit {
                    area: ViewportRect {
                        height: least(row.height as int, bottom - top) as u16,
                        width: body.width,
                        x: body.x,
                        y: top as u16,
                    },
                    index,
                },
            ] + below,
            None => below,
        }
    }
}

/// Builds the clickable list of rows stacked from the top of `body`.
pub fn stacked_rows_list(kind: ListRegionKind, body: ViewportRect, rows: &Vec<ListRow>) -> (list:
    ListRegion)
    ensures
        list.kind == kind,
        list.items@ == stacked_items(rows@, body, body.y as int),
{
    let bottom: u16 = body.y.saturating_add(body.height);
    let mut next_y: u16 = body.y;
    let mut items: Vec<ListItemHit> = Vec::new();
    let mut position: usize = 0;
    let ghost goal = stacked_items(rows@, body, body.y as int);
    assert(rows@.skip(0) =~= rows@);
    while position < rows.len() && next_y < bottom
        invariant
            position <= rows@.len(),
            bottom == capped(body.y + body.height),
            items@ + stacked_items(rows@.skip(position as int), body, next_y as int) == goal,
        decreases rows@.len() - position,
    {
        let row: ListRow = rows[position];
        let ghost rest = rows@.skip(position as int);
        let ghost top = next_y as int;
        let ghost before = items@;
        assert(rest[0] == row);
        assert(rest.drop_first() =~= rows@.skip(position as int + 1));
        if let Some(index) = row.index {
            let room: u16 = bottom - next_y;
            let height: u16 = if row.height < room {
                row.height
            } else {
                room
            };
            items.push(
                ListItemHit {
                    area: ViewportRect { height, width: body.width, x: body.x, y: next_y },
                    index,
                },
            );
        }
        next_y = next_y.saturating_add(row.height).saturating_add(row.bottom_margin);
        proof {
            let below = stacked_items(rest.drop_first(), body, next_y as int);
            if row.index is Some {
                let hit = items@.last();
                assert(stacked_items(rest, body, top) =~= seq![hit] + below);
                assert(before + (seq![hit] + below) =~= before.push(hit) + below);
            }
        }
        position = position + 1;
    }
    assert(items@ + Seq::<ListItemHit>::empty() =~= items@);
    ListRegion { items, kind }
}

/// `count` selectable rows that stand for the items from `first_index` on.
pub open spec fn consecutive_rows(first_index: usize, count: usize) -> Seq<ListRow> {
    Seq::new(
        (least(first_index + count, usize::MAX as int) - first_index) as nat,
        |i: int| ListRow::item_spec((first_index + i) as usize),
    )
}

/// Builds the clickable list of one-line items from `first_index` on.
pub fn consecutive_rows_list(
    kind: ListRegionKind,
    body: ViewportRect,
    first_index: usize,
    count: usize,
) -> (list: ListRegion)
    ensures
        list.kind == kind,
        list.items@ == stacked_items(consecutive_rows(first_index, count), body, body.y as int),
{
    let end: usize = first_index.saturating_add(count);
    let mut rows: Vec<ListRow> = Vec::new();
    let mut index: usize = first_index;
    while index < end
        invariant
            first_index <= index <= end,
            end == least(first_index + count, usize::MAX as int),
            rows@ == consecutive_rows(first_index, count).take(index - first_index),
        decreases end - index,
    {
        rows.push(ListRow::item(index));
        assert(consecutive_rows(first_index, count).take(index - first_index + 1)
            =~= consecutive_rows(first_index, count).take(index - first_index).push(
            ListRow::item_spec(index),
        ));
        index = index + 1;
    }
    assert(consecutive_rows(first_index, count).take(index - first_index) =~= consecutive_rows(
        first_index,
        count,
    ));
    stacked_rows_list(kind, body, &rows)
}

/// Consecutive one-line items lie on consecutive rows of the body, as many of
/// them as it has rows.
pub proof fn lemma_consecutive_items(first_index: usize, count: usize, body: ViewportRect)
    requires
        first_index + count <= usize::MAX,
        body.y + body.height <= u16::MAX,
    ensures
        stacked_items(consecutive_rows(first_index, count), body, body.y as int).len() == least(
            count as int,
            body.height as int,
        ),
        forall|i: int|
            0 <= i < least(count as int, body.height as int) ==> #[trigger] stacked_items(
                consecutive_rows(first_index, count),
                body,
                body.y as int,
            )[i] == (ListItemHit {
                area: ViewportRect {
                    height: 1,
                    width: body.width,
                    x: body.x,
                    y: (body.y + i) as u16,
                },
                index: (first_index + i) as usize,
            }),
{
    lemma_consecutive_items_below(first_index, count, body, body.y as int);
}

proof fn lemma_consecutive_items_below(
    first_index: usize,
    count: usize,
    body: ViewportRect,
    top: int,
)
    requires
        first_index + count <= usize::MAX,
        body.y <= top <= body.y + body.height <= u16::MAX,
    ensures
        stacked_items(consecutive_rows(first_index, count), body, top).len() == least(
            count as int,
            body.y + body.height - top,
        ),
        forall|i: int|
            0 <= i < least(count as int, body.y + body.height - top) ==> #[trigger] stacked_items(
                consecutive_rows(first_index, count),
                body,
                top,
            )[i] == (ListItemHit {
                area: ViewportRect { height: 1, width: body.width, x: body.x, y: (top + i) as u16 },
                index: (first_index + i) as usize,
            }),
    decreases count,
{
    let rows = consecutive_rows(first_index, count);
    if count > 0 && top < body.y + body.height {
        let next = (first_index + 1) as usize;
        let fewer = (count - 1) as usize;
        assert(rows.drop_first() =~= consecutive_rows(next, fewer));
        lemma_consecutive_items_below(next, fewer, body, top + 1);
        let below = stacked_items(consecutive_rows(next, fewer), body, top + 1);
        let items = stacked_items(rows, body, top);
        assert(capped(capped(top + 1) + 0) == top + 1);
        assert forall|i: int|
            0 <= i < least(
                count as int,
                body.y + body.height - top,
            ) implies #[trigger] items[i] == (ListItemHit {
            area: ViewportRect { height: 1, width: body.width, x: body.x, y: (top + i) as u16 },
            index: (first_index + i) as usize,
        }) by {
            if i > 0 {
                assert(items[i] == below[i - 1]);
            }
        }
    }
}

/// Builds the scroll region of a panel from what was painted.
pub fn scroll_region(
    area: ViewportRect,
    scrollbar: Option<ViewportRect>,
    total_lines: usize,
    viewport_height: u16,
) -> (region: ScrollRegion)
    ensures
        region == (ScrollRegion {
            area,
            scrollbar,
            total_lines: capped(total_lines as int) as u16,
            viewport_height,
        }),
{
    let lines: u16 = if total_lines < u16::MAX as usize {
        total_lines as u16
    } else {
        u16::MAX
    };
    ScrollRegion { area, scrollbar, total_lines: lines, viewport_height }
}

} // verus!
