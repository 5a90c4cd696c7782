//! Scrollable regions, scrollbars and clickable lists of a painted frame.

use vstd::prelude::*;

use crate::geometry::ViewportRect;

verus! {

/// How many lines one notch of the mouse wheel scrolls.
pub const MOUSE_WHEEL_SCROLL_LINES: u16 = 3;

/// A scrollable panel as the last frame painted it.
#[derive(Clone, Copy, Debug, PartialEq, Eq, Structural)]
pub struct ScrollRegion {
    pub area: ViewportRect,
    /// The track of the scrollbar, when one was painted.
    pub scrollbar: Option<ViewportRect>,
    pub total_lines: u16,
    pub viewport_height: u16,
}

/// The offset that shows the last line at the bottom.
pub open spec fn bottom_offset(total_lines: int, viewport_height: int) -> int {
    if total_lines > viewport_height {
        total_lines - viewport_height
    } else {
        0
    }
}

/// The smaller of two numbers.
pub open spec fn least(a: int, b: int) -> int {
    if a < b {
        a
    } else {
        b
    }
}

/// `a - b`, but never less than zero.
pub open spec fn minus(a: int, b: int) -> int {
    if a > b {
        a - b
    } else {
        0
    }
}

/// Height of the thumb on a track of `track` rows over `total` lines.
pub open spec fn thumb_rows(track: int, total: int) -> int {
    if total <= track {
        track
    } else if track * track / total < 1 {
        1
    } else {
        track * track / total
    }
}

/// First row of the thumb on its track, counted from the top of the track.
pub open spec fn thumb_start(track: int, total: int, offset: int) -> int {
    if total <= track {
        0
    } else {
        least(offset, total - track) * (track - thumb_rows(track, total)) / (total - track)
    }
}

proof fn lemma_thumb(track: int, total: int, offset: int)
    requires
        0 < track,
        0 <= offset,
        0 <= total,
    ensures
        1 <= thumb_rows(track, total) <= track,
        0 <= thumb_start(track, total, offset) <= track - thumb_rows(track, total),
{
    if total > track {
        assert(track * track / total <= track) by (nonlinear_arith)
            requires
                0 < track < total,
        ;
        assert(track * track / total >= 0) by (nonlinear_arith)
            requires
                0 < track < total,
        ;
        let travel = track - thumb_rows(track, total);
        let seen = least(offset, total - track);
        let hidden = total - track;
        assert(0 <= seen * travel / hidden <= travel) by (nonlinear_arith)
            requires
                0 <= seen <= hidden,
                0 < hidden,
                0 <= travel,
        ;
    }
}

/// The thumb of a scrollbar.
#[derive(Clone, Copy, Debug, PartialEq, Eq, Structural)]
pub struct ScrollbarGeometry {
    pub thumb_height: u16,
    pub thumb_top: u16,
}

impl ScrollbarGeometry {
    /// Computes the thumb on a track of `track_height` rows that stands for
    /// `total_lines` lines scrolled by `current_offset`.
    pub fn new(track_height: u16, total_lines: u16, current_offset: u16) -> (geometry:
        ScrollbarGeometry)
        ensures
            track_height > 0 ==> geometry.thumb_height == thumb_rows(
                track_height as int,
                total_lines as int,
            ),
            track_height > 0 ==> geometry.thumb_top == thumb_start(
                track_height as int,
                total_lines as int,
                current_offset as int,
            ),
            track_height == 0 ==> geometry.thumb_height == 0 && geometry.thumb_top == 0,
    {
        if track_height == 0 {
            return ScrollbarGeometry { thumb_height: 0, thumb_top: 0 };
        }
        proof {
            lemma_thumb(track_height as int, total_lines as int, current_offset as int);
        }
        if total_lines <= track_height {
            return ScrollbarGeometry { thumb_height: track_height, thumb_top: 0 };
        }
        let track: u32 = track_height as u32;
        let total: u32 = total_lines as u32;
        assert(track * track <= 0xffff * 0xffff) by (nonlinear_arith)
            requires
                0 <= track <= 0xffff,
        ;
        let ratio: u32 = track * track / total;
        let thumb: u32 = if ratio < 1 {
            1
        } else {
            ratio
        };
        let hidden: u32 = total - track;
        let seen: u32 = if (current_offset as u32) < hidden {
            current_offset as u32
        } else {
            hidden
        };
        let travel: u32 = track - thumb;
        assert(seen * travel <= 0xffff * 0xffff) by (nonlinear_arith)
            requires
                0 <= seen <= 0xffff,
                0 <= travel <= 0xffff,
        ;
        ScrollbarGeometry { thumb_height: thumb as u16, thumb_top: (seen * travel / hidden) as u16 }
    }
}

/// The scroll offset at which a thumb grabbed at its row `grab` lies under
/// the pointer row.
pub open spec fn offset_at_row(region: ScrollRegion, row: int, grab: int) -> int {
    match region.scrollbar {
        None => 0,
        Some(track) => {
            let limit = bottom_offset(region.total_lines as int, region.viewport_height as int);
            let travel = track.height - thumb_rows(track.height as int, region.total_lines as int);
            if track.height == 0 || travel <= 0 {
                0
            } else {
                least(minus(row, track.y + grab), travel) * limit / travel
            }
        },
    }
}

/// A dragged offset never leaves the content.
pub proof fn lemma_offset_at_row_in_range(region: ScrollRegion, row: int, grab: int)
    requires
        0 <= row,
        0 <= grab,
    ensures
        0 <= offset_at_row(region, row, grab) <= bottom_offset(
            region.total_lines as int,
            region.viewport_height as int,
        ),
{
    match region.scrollbar {
        None => {},
        Some(track) => {
            let limit = bottom_offset(region.total_lines as int, region.viewport_height as int);
            let travel = track.height - thumb_rows(track.height as int, region.total_lines as int);
            if track.height > 0 && travel > 0 {
                let moved = least(minus(row, track.y + grab), travel);
                assert(0 <= moved * limit / travel <= limit) by (nonlinear_arith)
                    requires
                        0 <= moved <= travel,
                        0 < travel,
                        0 <= limit,
                ;
            }
        },
    }
}

/// The row inside the thumb that a press on the track row hits.
pub open spec fn grabbed_row(region: ScrollRegion, offset: int, row: int) -> Option<u16> {
    match region.scrollbar {
        None => None,
        Some(track) => {
            let start = track.y + thumb_start(
                track.height as int,
                region.total_lines as int,
                offset,
            );
            if track.height > 0 && start <= row < start + thumb_rows(
                track.height as int,
                region.total_lines as int,
            ) {
                Some((row - start) as u16)
            } else {
                None
            }
        },
    }
}

impl ScrollRegion {
    /// The largest useful scroll offset.
    pub open spec fn limit(self) -> int {
        bottom_offset(self.total_lines as int, self.viewport_height as int)
    }

    /// Returns the largest useful scroll offset.
    pub fn max_scroll_offset(&self) -> (offset: u16)
        ensures
            offset == self.limit(),
    {
        self.total_lines.saturating_sub(self.viewport_height)
    }

    /// Reports whether a cell lies on the panel.
    pub fn contains(&self, column: u16, row: u16) -> (inside: bool)
        ensures
            inside == self.area.has_cell(column as int, row as int),
    {
        self.area.contains(column, row)
    }

    /// Reports whether a cell lies on the scrollbar track.
    pub fn scrollbar_contains(&self, column: u16, row: u16) -> (inside: bool)
        ensures
            inside == (self.scrollbar matches Some(track) && track.has_cell(
                column as int,
                row as int,
            )),
    {
        match self.scrollbar {
            Some(track) => track.contains(column, row),
            None => false,
        }
    }

    /// The offset `step` lines further down, at most the last one.
    pub open spec fn down(self, offset: u16, step: u16) -> u16 {
        least(offset + step, self.limit()) as u16
    }

    /// The offset `step` lines further up, at least the first one.
    pub open spec fn up(self, offset: u16, step: u16) -> u16 {
        minus(least(offset as int, self.limit()), step as int) as u16
    }

    /// Scrolls down by `step` lines and stops at the last one.
    pub fn scroll_down(&self, offset: u16, step: u16) -> (next: u16)
        ensures
            next == self.down(offset, step),
    {
        let limit: u16 = self.max_scroll_offset();
        let wanted: u16 = offset.saturating_add(step);
        if wanted < limit {
            wanted
        } else {
            limit
        }
    }

    /// Scrolls up by `step` lines and stops at the first one.
    pub fn scroll_up(&self, offset: u16, step: u16) -> (next: u16)
        ensures
            next == self.up(offset, step),
    {
        let limit: u16 = self.max_scroll_offset();
        let start: u16 = if offset < limit {
            offset
        } else {
            limit
        };
        start.saturating_sub(step)
    }

    /// Scrolls a transcript down; at its end it follows new output.
    pub fn scroll_tail_down(&self, offset: Option<u16>, step: u16) -> (next: Option<u16>)
        ensures
            next == tail_down(offset, step as int, self.limit()),
    {
        match offset {
            None => None,
            Some(current) => {
                let wanted: u16 = current.saturating_add(step);
                if wanted >= self.max_scroll_offset() {
                    None
                } else {
                    Some(wanted)
                }
            },
        }
    }

    /// Scrolls a transcript up, away from its end.
    pub fn scroll_tail_up(&self, offset: Option<u16>, step: u16) -> (next: u16)
        ensures
            next == tail_up(offset, step as int, self.limit()),
    {
        let current: u16 = match offset {
            Some(current) => current,
            None => self.max_scroll_offset(),
        };
        current.saturating_sub(step)
    }

    /// Returns the scroll offset that puts a grabbed thumb under the pointer.
    pub fn scroll_offset_for_pointer_row(&self, row: u16, grab_row: u16) -> (offset: u16)
        ensures
            offset == offset_at_row(*self, row as int, grab_row as int),
    {
        proof {
            lemma_offset_at_row_in_range(*self, row as int, grab_row as int);
        }
        let track: ViewportRect = match self.scrollbar {
            Some(track) => track,
            None => {
                return 0;
            },
        };
        if track.height == 0 {
            return 0;
        }
        proof {
            lemma_thumb(track.height as int, self.total_lines as int, 0);
        }
        let limit: u32 = self.max_scroll_offset() as u32;
        let geometry: ScrollbarGeometry = ScrollbarGeometry::new(
            track.height,
            self.total_lines,
            0,
        );
        let travel: u32 = (track.height - geometry.thumb_height) as u32;
        if travel == 0 {
            return 0;
        }
        let start: u32 = track.y as u32 + grab_row as u32;
        let moved: u32 = if (row as u32) > start {
            row as u32 - start
        } else {
            0
        };
        let capped: u32 = if moved < travel {
            moved
        } else {
            travel
        };
        assert(capped * limit <= 0xffff * 0xffff) by (nonlinear_arith)
            requires
                0 <= capped <= 0xffff,
                0 <= limit <= 0xffff,
        ;
        (capped * limit / travel) as u16
    }

    /// Returns the row inside the thumb that a press hits.
    pub fn thumb_grab_row(&self, current_offset: u16, row: u16) -> (grab: Option<u16>)
        ensures
            grab == grabbed_row(*self, current_offset as int, row as int),
    {
        let track: ViewportRect = match self.scrollbar {
            Some(track) => track,
            None => {
                return None;
            },
        };
        if track.height == 0 {
            return None;
        }
        proof {
            lemma_thumb(track.height as int, self.total_lines as int, current_offset as int);
        }
        let geometry: ScrollbarGeometry = ScrollbarGeometry::new(
            track.height,
            self.total_lines,
            current_offset,
        );
        let start: u32 = track.y as u32 + geometry.thumb_top as u32;
        let pressed: u32 = row as u32;
        if start <= pressed && pressed < start + geometry.thumb_height as u32 {
            Some((pressed - start) as u16)
        } else {
            None
        }
    }
}

/// A transcript offset after scrolling down by `step`; `None` follows the end.
pub open spec fn tail_down(offset: Option<u16>, step: int, limit: int) -> Option<u16> {
    match offset {
        None => None,
        Some(current) => if current + step >= limit {
            None
        } else {
            Some((current + step) as u16)
        },
    }
}

/// A transcript offset after scrolling up by `step`.
pub open spec fn tail_up(offset: Option<u16>, step: int, limit: int) -> int {
    match offset {
        Some(current) => minus(current as int, step),
        None => minus(limit, step),
    }
}

/// Direction of a mouse wheel notch.
#[derive(Clone, Copy, Debug, PartialEq, Eq, Structural)]
pub enum WheelDirection {
    Down,
    Up,
}

/// Which panel a dragged scrollbar belongs to.
#[derive(Clone, Copy, Debug, PartialEq, Eq, Structural)]
pub enum ScrollRegionKind {
    ChatOutput,
    DiffPanel,
}

/// A scrollbar drag in progress.
#[derive(Clone, Copy, Debug, PartialEq, Eq, Structural)]
pub struct ScrollbarDrag {
    pub grab_row_within_thumb: u16,
    pub region: ScrollRegionKind,
}

/// What a clickable list offers.
#[derive(Clone, Copy, Debug, PartialEq, Eq, Structural)]
pub enum ListRegionKind {
    DiffFiles,
    LaunchConfigurationEditor,
    LaunchConfigurationSelector,
    ProjectSwitcher,
    Projects,
    SessionCreation,
    Sessions,
    Settings,
    SettingsSelector,
    StackAppendParent,
    Tabs,
}

/// The cells of one clickable item.
#[derive(Clone, Copy, Debug, PartialEq, Eq, Structural)]
pub struct ListItemHit {
    pub area: ViewportRect,
    pub index: usize,
}

/// A clickable list as the last frame painted it.
#[derive(Debug, PartialEq, Eq)]
pub struct ListRegion {
    pub items: Vec<ListItemHit>,
    pub kind: ListRegionKind,
}

/// Everything of the last frame that the pointer can reach.
#[derive(Debug, PartialEq, Eq)]
pub struct LayoutSnapshot {
    pub chat_output: Option<ScrollRegion>,
    pub diff_file_list: Option<ViewportRect>,
    pub diff_panel: Option<ScrollRegion>,
    pub help_overlay: Option<ScrollRegion>,
    /// Lists in paint order.
    pub lists: Vec<ListRegion>,
}

impl Default for LayoutSnapshot {
    fn default() -> (snapshot: LayoutSnapshot)
        ensures
            snapshot.chat_output is None,
            snapshot.diff_file_list is None,
            snapshot.diff_panel is None,
            snapshot.help_overlay is None,
            snapshot.lists@ == Seq::<ListRegion>::empty(),
    {
        LayoutSnapshot {
            chat_output: None,
            diff_file_list: None,
            diff_panel: None,
            help_overlay: None,
            lists: Vec::new(),
        }
    }
}

/// The first item of a list that covers a cell.
pub open spec fn item_at(items: Seq<ListItemHit>, column: int, row: int) -> Option<usize>
    decreases items.len(),
{
    if items.len() == 0 {
        None
    } else if items[0].area.has_cell(column, row) {
        Some(items[0].index)
    } else {
        item_at(items.drop_first(), column, row)
    }
}

/// The item at a cell: a list that was painted later hides those below it.
pub open spec fn hit_at(lists: Seq<ListRegion>, column: int, row: int) -> Option<
    (ListRegionKind, usize),
>
    decreases lists.len(),
{
    if lists.len() == 0 {
        None
    } else {
        match item_at(lists.last().items@, column, row) {
            Some(index) => Some((lists.last().kind, index)),
            None => hit_at(lists.drop_last(), column, row),
        }
    }
}

/// A list painted last answers for every cell it covers, whatever lies below.
pub proof fn lemma_later_list_shadows(
    below: Seq<ListRegion>,
    top: ListRegion,
    column: int,
    row: int,
)
    requires
        item_at(top.items@, column, row) is Some,
    ensures
        hit_at(below.push(top), column, row) == Some(
            (top.kind, item_at(top.items@, column, row)->0),
        ),
{
}

fn find_item(items: &Vec<ListItemHit>, column: u16, row: u16) -> (index: Option<usize>)
    ensures
        index == item_at(items@, column as int, row as int),
{
    let mut position: usize = 0;
    assert(items@.skip(0) =~= items@);
    while position < items.len()
        invariant
            position <= items@.len(),
            item_at(items@, column as int, row as int) == item_at(
                items@.skip(position as int),
                column as int,
                row as int,
            ),
        decreases items@.len() - position,
    {
        assert(items@.skip(position as int).drop_first() =~= items@.skip(position as int + 1));
        if items[position].area.contains(column, row) {
            return Some(items[position].index);
        }
        position = position + 1;
    }
    None
}

impl LayoutSnapshot {
    /// Returns the list item at a cell.
    pub fn list_item_at(&self, column: u16, row: u16) -> (hit: Option<(ListRegionKind, usize)>)
        ensures
            hit == hit_at(self.lists@, column as int, row as int),
    {
        let mut count: usize = self.lists.len();
        assert(self.lists@.take(count as int) =~= self.lists@);
        while count > 0
            invariant
                count <= self.lists@.len(),
                hit_at(self.lists@, column as int, row as int) == hit_at(
                    self.lists@.take(count as int),
                    column as int,
                    row as int,
                ),
            decreases count,
        {
            assert(self.lists@.take(count as int).drop_last() =~= self.lists@.take(count - 1));
            match find_item(&self.lists[count - 1].items, column, row) {
                Some(index) => {
                    return Some((self.lists[count - 1].kind, index));
                },
                None => {},
            }
            count = count - 1;
        }
        None
    }
}

} // verus!
