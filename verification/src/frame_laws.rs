//! Where things are painted, what can be clicked, and what is kept for the
//! next frame.

use vstd::prelude::*;

use crate::app_mode::AppMode;
use crate::app_render::{
    AppViewSnapshot, FrameData, FramePages, FrameTables, PaintedFrame, RenderCacheStore,
    TableSelection, frame_of, frame_painted, frame_rendered,
};
use crate::cell_grid::{row_length, starts, starts_at};
use crate::fingerprint::{
    TextFingerprint, fingerprint_of, list_input, message_bytes, total_bytes,
};
use crate::geometry::ViewportRect;
use crate::key::{KeyCode, KeyEvent};
use crate::layout_snapshot::{ListRow, nothing_recorded, stacked_items};
use crate::output_cache::{
    LayoutKey, LayoutView, SessionOutputLayoutCache, SessionOutputLayoutCacheEntry,
    entry_position, promoted, session_has_entry, session_position, sessions_after_store, stored,
    without_session,
};
use crate::output_lines::OutputRenderer;
use crate::overlay::{option_rows, popup_at_center, popup_extent, required_height, window_start};
use crate::project_switcher_overlay::ProjectListItem;
use crate::rich_text::Color;
use crate::session::{Session, SessionId, SessionMessage};
use crate::session_output::{
    SessionOutputFrame, SessionOutputLineContext, inner_area, key_of, layout_from_cache, layout_of,
    layout_rendered, loader_place, loader_places, loaders_placed, row_line_count,
};
use crate::session_page::page_key_applied;
use crate::session_view::{ViewMetrics, ViewSessionFacts};
use crate::tab::{Tab, header_pieces, project_label, tab_cells};
use crate::view_keys::{ViewAction, ViewKeyFacts};
use crate::view_laws::{moved_down, moved_up};
use crate::viewport::{LayoutSnapshot, ListItemHit};

verus! {

/// The tabs stand in the header as projects, sessions and settings.
pub proof fn lemma_tabs_in_order(index: usize)
    ensures
        Tab::at_position(index) == Some(Tab::Projects) <==> index == 0,
        Tab::at_position(index) == Some(Tab::Sessions) <==> index == 1,
        Tab::at_position(index) == Some(Tab::Settings) <==> index == 2,
        Tab::at_position(index) is None <==> index > 2,
{
}

/// The header names each tab once, in their order, with the project between
/// the first two; the current tab alone stands out.
pub proof fn lemma_header(current: Tab, label: Option<Seq<char>>, piece: int)
    requires
        0 <= piece < 7,
    ensures
        ({
            let pieces = header_pieces(current, label);
            &&& pieces.len() == 7
            &&& pieces[0].tab_index == Some(0usize) && pieces[0].span.content == " Projects "@
            &&& pieces[2].tab_index is None
            &&& pieces[4].tab_index == Some(1usize) && pieces[4].span.content == " Sessions "@
            &&& pieces[6].tab_index == Some(2usize) && pieces[6].span.content == " Settings "@
            &&& piece % 2 == 1 ==> pieces[piece].tab_index is None && pieces[piece].span.content
                == "|"@ && pieces[piece].span.style.fg == Some(Color::Border)
            &&& pieces[piece].tab_index matches Some(index) ==> {
                let is_current = Tab::at_position(index) == Some(current);
                &&& pieces[piece].span.style.bold == is_current
                &&& pieces[piece].span.style.bg == (if is_current {
                    Some(Color::Surface)
                } else {
                    None
                })
                &&& pieces[piece].span.style.fg == Some(
                    if is_current {
                        Color::Warning
                    } else {
                        Color::TextMuted
                    },
                )
            }
            &&& label matches Some(name) ==> pieces[2].span.content == " Project: "@ + name + " "@
            &&& label is None ==> pieces[2].span.content == " Project: None "@
        }),
{
}

/// The header names the first project that carries the active identifier.
pub proof fn lemma_active_project_label(projects: Seq<ProjectListItem>, id: i64, first: int)
    requires
        0 <= first <= projects.len(),
        forall|i: int| 0 <= i < first ==> (#[trigger] projects[i]).id != id,
    ensures
        first < projects.len() && projects[first].id == id ==> project_label(projects, id) == Some(
            projects[first].label@,
        ),
        first == projects.len() ==> project_label(projects, id) is None,
    decreases projects.len(),
{
    if first > 0 {
        let rest = projects.skip(1);
        assert(projects[0].id != id);
        assert forall|i: int| 0 <= i < first - 1 implies (#[trigger] rest[i]).id != id by {
            assert(rest[i] == projects[i + 1]);
        }
        lemma_active_project_label(rest, id, first - 1);
    }
}

/// The columns of the pieces before one.
pub open spec fn columns_before(widths: Seq<(int, Option<usize>)>, piece: int) -> int
    decreases piece,
{
    if piece <= 0 {
        0
    } else {
        columns_before(widths, piece - 1) + widths[piece - 1].0
    }
}

proof fn lemma_columns_after_first(widths: Seq<(int, Option<usize>)>, piece: int)
    requires
        0 < piece <= widths.len(),
        forall|i: int| 0 <= i < widths.len() ==> (#[trigger] widths[i]).0 >= 0,
    ensures
        columns_before(widths, piece) == widths[0].0 + columns_before(widths.skip(1), piece - 1),
        columns_before(widths.skip(1), piece - 1) >= 0,
    decreases piece,
{
    if piece > 1 {
        lemma_columns_after_first(widths, piece - 1);
        assert(widths.skip(1)[piece - 2] == widths[piece - 1]);
    } else {
        reveal_with_fuel(columns_before, 2);
    }
}

/// A tab can be clicked where it is painted: behind the pieces before it, as
/// wide as itself, and cut at the edge.
pub proof fn lemma_tab_is_clickable(
    widths: Seq<(int, Option<usize>)>,
    x: int,
    end: int,
    y: u16,
    piece: int,
    index: usize,
)
    requires
        0 <= x <= end <= u16::MAX,
        0 <= piece < widths.len(),
        forall|i: int| 0 <= i < widths.len() ==> (#[trigger] widths[i]).0 >= 0,
        widths[piece] == (widths[piece].0, Some(index)),
        widths[piece].0 > 0,
        x + columns_before(widths, piece) < end,
    ensures
        ({
            let left = x + columns_before(widths, piece);
            let right = if left + widths[piece].0 < end {
                left + widths[piece].0
            } else {
                end
            };
            tab_cells(widths, x, end, y).contains(
                ListItemHit {
                    area: ViewportRect {
                        height: 1,
                        width: (right - left) as u16,
                        x: left as u16,
                        y,
                    },
                    index,
                },
            )
        }),
    decreases widths.len(),
{
    let left = x + columns_before(widths, piece);
    let right = if left + widths[piece].0 < end {
        left + widths[piece].0
    } else {
        end
    };
    let hit = ListItemHit {
        area: ViewportRect { height: 1, width: (right - left) as u16, x: left as u16, y },
        index,
    };
    let cells = tab_cells(widths, x, end, y);
    if piece == 0 {
        assert(cells[0] == hit);
    } else {
        lemma_columns_after_first(widths, piece);
        let rest = widths.skip(1);
        assert(rest[piece - 1] == widths[piece]);
        assert forall|i: int| 0 <= i < rest.len() implies (#[trigger] rest[i]).0 >= 0 by {
            assert(rest[i] == widths[i + 1]);
        }
        lemma_tab_is_clickable(rest, x + widths[0].0, end, y, piece - 1, index);
        let below = tab_cells(rest, x + widths[0].0, end, y);
        let i = choose|i: int| 0 <= i < below.len() && below[i] == hit;
        if cells.len() == below.len() {
            assert(cells[i] == hit);
        } else {
            assert(cells[i + 1] == hit);
        }
    }
}

/// Nothing outside of the header's line can be clicked, and no cell stands for
/// two tabs.
pub proof fn lemma_tab_cells_inside(
    widths: Seq<(int, Option<usize>)>,
    x: int,
    end: int,
    y: u16,
)
    requires
        0 <= x <= end <= u16::MAX,
        forall|i: int| 0 <= i < widths.len() ==> (#[trigger] widths[i]).0 >= 0,
    ensures
        ({
            let cells = tab_cells(widths, x, end, y);
            &&& cells.len() <= widths.len()
            &&& forall|i: int|
                0 <= i < cells.len() ==> {
                    let area = (#[trigger] cells[i]).area;
                    x <= area.x && area.x + area.width <= end && area.y == y && area.height == 1
                        && area.width > 0
                }
            &&& forall|i: int, j: int|
                0 <= i < j < cells.len() ==> (#[trigger] cells[i]).area.x + cells[i].area.width <= (
                #[trigger] cells[j]).area.x
        }),
    decreases widths.len(),
{
    if widths.len() > 0 {
        let rest = widths.skip(1);
        assert forall|i: int| 0 <= i < rest.len() implies (#[trigger] rest[i]).0 >= 0 by {
            assert(rest[i] == widths[i + 1]);
        }
        let next = if x + widths[0].0 < end {
            x + widths[0].0
        } else {
            end
        };
        lemma_tab_cells_inside(rest, next, end, y);
        let cells = tab_cells(widths, x, end, y);
        let below = tab_cells(rest, next, end, y);
        assert forall|i: int, j: int| 0 <= i < j < cells.len() implies (
        #[trigger] cells[i]).area.x + cells[i].area.width <= (#[trigger] cells[j]).area.x by {
            if cells.len() == below.len() {
                assert(cells[i] == below[i] && cells[j] == below[j]);
            } else {
                assert(cells[j] == below[j - 1]);
                if i > 0 {
                    assert(cells[i] == below[i - 1]);
                }
            }
        }
        assert forall|i: int| 0 <= i < cells.len() implies {
            let area = (#[trigger] cells[i]).area;
            x <= area.x && area.x + area.width <= end && area.y == y && area.height == 1
                && area.width > 0
        } by {
            if cells.len() == below.len() {
                assert(cells[i] == below[i]);
            } else if i > 0 {
                assert(cells[i] == below[i - 1]);
            }
        }
    }
}

/// A popup takes its share of the frame where that is enough for it, and no
/// more than the frame.
pub proof fn lemma_popup_extent_bounds(frame: int, percent: int, minimum: int)
    requires
        0 <= frame,
        0 <= percent <= 100,
        0 <= minimum,
    ensures
        ({
            let extent = popup_extent(frame, percent, minimum);
            &&& extent <= frame
            &&& minimum <= frame ==> extent >= minimum
            &&& minimum > frame ==> extent == frame
            &&& extent > minimum ==> 100 * extent <= frame * percent < 100 * (extent + 1)
            &&& extent == minimum && minimum < frame ==> frame * percent < 100 * (minimum + 1)
        }),
{
    assert(frame * percent / 100 <= frame) by (nonlinear_arith)
        requires
            0 <= frame,
            0 <= percent <= 100,
    ;
}

/// A popup lies in the middle of its frame, but for a cell that cannot be
/// parted.
pub proof fn lemma_popup_is_centered(
    frame: ViewportRect,
    width_percent: int,
    height_percent: int,
    minimum_width: int,
    minimum_height: int,
)
    requires
        frame.x + frame.width <= u16::MAX,
        frame.y + frame.height <= u16::MAX,
        0 <= width_percent <= 100,
        0 <= height_percent <= 100,
        0 <= minimum_width,
        0 <= minimum_height,
    ensures
        ({
            let popup = popup_at_center(
                frame,
                width_percent,
                height_percent,
                minimum_width,
                minimum_height,
            );
            let left = popup.x - frame.x;
            let right = frame.x + frame.width - popup.x - popup.width;
            let above = popup.y - frame.y;
            let below = frame.y + frame.height - popup.y - popup.height;
            &&& 0 <= left <= right <= left + 1
            &&& 0 <= above <= below <= above + 1
            &&& popup.width == popup_extent(frame.width as int, width_percent, minimum_width)
            &&& popup.height == popup_extent(frame.height as int, height_percent, minimum_height)
        }),
{
    lemma_popup_extent_bounds(frame.width as int, width_percent, minimum_width);
    lemma_popup_extent_bounds(frame.height as int, height_percent, minimum_height);
    assert(popup_extent(frame.width as int, width_percent, minimum_width) >= 0) by {
        assert(frame.width * width_percent >= 0) by (nonlinear_arith)
            requires
                0 <= width_percent,
                0 <= frame.width,
        ;
    }
    assert(popup_extent(frame.height as int, height_percent, minimum_height) >= 0) by {
        assert(frame.height * height_percent >= 0) by (nonlinear_arith)
            requires
                0 <= height_percent,
                0 <= frame.height,
        ;
    }
}

/// A popup is four rows higher than its lines, and its options begin two rows
/// below its top.
pub proof fn lemma_popup_rows(line_count: int, inner: ViewportRect)
    requires
        0 <= line_count <= u16::MAX - 4,
        2 <= inner.height,
        inner.y + inner.height <= u16::MAX,
    ensures
        required_height(line_count) == line_count + 4,
        option_rows(inner).y == inner.y + 2,
        option_rows(inner).height == inner.height - 2,
        option_rows(inner).x == inner.x,
        option_rows(inner).width == inner.width,
{
}

/// A window over a list starts at its first item while everything fits, and
/// otherwise half a window before the selected item, as far as the ends of
/// the list let it.
pub proof fn lemma_window_position(count: int, selected: int, visible: int)
    requires
        0 <= selected < count,
        0 < visible,
    ensures
        count <= visible ==> window_start(count, selected, visible) == 0,
        count > visible ==> {
            let start = window_start(count, selected, visible);
            &&& selected <= visible / 2 ==> start == 0
            &&& selected - visible / 2 >= count - visible ==> start == count - visible
            &&& visible / 2 <= selected && selected - visible / 2 <= count - visible ==> start
                == selected - visible / 2
        },
{
}

/// The rows above one, with the space between them.
pub open spec fn rows_above(rows: Seq<ListRow>, row: int) -> int
    decreases row,
{
    if row <= 0 {
        0
    } else {
        rows_above(rows, row - 1) + rows[row - 1].height + rows[row - 1].bottom_margin
    }
}

proof fn lemma_rows_below_first(rows: Seq<ListRow>, row: int)
    requires
        0 < row <= rows.len(),
    ensures
        rows_above(rows, row) == rows[0].height + rows[0].bottom_margin + rows_above(
            rows.drop_first(),
            row - 1,
        ),
        rows_above(rows.drop_first(), row - 1) >= 0,
    decreases row,
{
    if row > 1 {
        lemma_rows_below_first(rows, row - 1);
        assert(rows.drop_first()[row - 2] == rows[row - 1]);
    } else {
        reveal_with_fuel(rows_above, 2);
    }
}

/// A row can be clicked where it is painted: below the rows above it, over the
/// whole width, and cut at the bottom.
pub proof fn lemma_row_is_clickable(
    rows: Seq<ListRow>,
    body: ViewportRect,
    top: int,
    row: int,
    index: usize,
)
    requires
        0 <= row < rows.len(),
        body.y <= top,
        body.y + body.height <= u16::MAX,
        rows[row].index == Some(index),
        top + rows_above(rows, row) < body.y + body.height,
    ensures
        ({
            let y = top + rows_above(rows, row);
            let left = body.y + body.height - y;
            stacked_items(rows, body, top).contains(
                ListItemHit {
                    area: ViewportRect {
                        height: if rows[row].height < left {
                            rows[row].height
                        } else {
                            left as u16
                        },
                        width: body.width,
                        x: body.x,
                        y: y as u16,
                    },
                    index,
                },
            )
        }),
    decreases rows.len(),
{
    let y = top + rows_above(rows, row);
    let left = body.y + body.height - y;
    let hit = ListItemHit {
        area: ViewportRect {
            height: if rows[row].height < left {
                rows[row].height
            } else {
                left as u16
            },
            width: body.width,
            x: body.x,
            y: y as u16,
        },
        index,
    };
    let items = stacked_items(rows, body, top);
    if row == 0 {
        assert(items[0] == hit);
    } else {
        lemma_rows_below_first(rows, row);
        let rest = rows.drop_first();
        let next = top + rows[0].height + rows[0].bottom_margin;
        assert(rest[row - 1] == rows[row]);
        lemma_row_is_clickable(rest, body, next, row - 1, index);
        let below = stacked_items(rest, body, next);
        let i = choose|i: int| 0 <= i < below.len() && below[i] == hit;
        if rows[0].index is Some {
            assert(items[i + 1] == hit);
        } else {
            assert(items[i] == hit);
        }
    }
}

/// No more can be clicked than there are rows, and nothing outside of the
/// body.
pub proof fn lemma_clickable_rows_inside(rows: Seq<ListRow>, body: ViewportRect, top: int)
    requires
        body.y <= top,
        body.y + body.height <= u16::MAX,
    ensures
        ({
            let items = stacked_items(rows, body, top);
            &&& items.len() <= rows.len()
            &&& forall|i: int|
                0 <= i < items.len() ==> {
                    let area = (#[trigger] items[i]).area;
                    area.x == body.x && area.width == body.width && top <= area.y && area.y
                        + area.height <= body.y + body.height
                }
            &&& forall|i: int, j: int|
                0 <= i < j < items.len() ==> (#[trigger] items[i]).area.y + items[i].area.height
                    <= (#[trigger] items[j]).area.y
        }),
    decreases rows.len(),
{
    let bottom = body.y + body.height;
    if rows.len() > 0 && top < bottom {
        let rest = rows.drop_first();
        let items = stacked_items(rows, body, top);
        let lower = top + rows[0].height + rows[0].bottom_margin;
        let next = if lower < u16::MAX {
            lower
        } else {
            u16::MAX as int
        };
        let below = stacked_items(rest, body, next);
        lemma_clickable_rows_inside(rest, body, next);
        assert forall|i: int| 0 <= i < items.len() implies {
            let area = (#[trigger] items[i]).area;
            area.x == body.x && area.width == body.width && top <= area.y && area.y + area.height
                <= body.y + body.height
        } by {
            if rows[0].index is None {
                assert(items[i] == below[i]);
            } else if i > 0 {
                assert(items[i] == below[i - 1]);
            }
        }
        assert forall|i: int, j: int| 0 <= i < j < items.len() implies (
        #[trigger] items[i]).area.y + items[i].area.height <= (#[trigger] items[j]).area.y by {
            if rows[0].index is None {
                assert(items[i] == below[i] && items[j] == below[j]);
            } else {
                assert(items[j] == below[j - 1]);
                if i > 0 {
                    assert(items[i] == below[i - 1]);
                }
            }
        }
    }
}

/// A rectangle keeps its place and its size, but for what lies behind the last
/// cell.
pub proof fn lemma_rect_at(x: u16, y: u16, width: u16, height: u16, column: int, row: int)
    ensures
        ({
            let rect = ViewportRect::at(x, y, width, height);
            &&& rect.x == x && rect.y == y
            &&& x + width <= 65_535 ==> rect.width == width
            &&& x + width > 65_535 ==> rect.x + rect.width == 65_535
            &&& y + height <= 65_535 ==> rect.height == height
            &&& y + height > 65_535 ==> rect.y + rect.height == 65_535
            &&& rect.has_cell(column, row) <==> !(column < rect.x || row < rect.y || column
                >= rect.x + rect.width || row >= rect.y + rect.height)
        }),
{
}

/// A text is found where each of its characters has its own cell, side by side
/// in one row; the places come in their order.
pub proof fn lemma_text_cells(
    symbols: Seq<String>,
    width: u16,
    needle: Seq<char>,
    index: int,
    k: int,
)
    requires
        needle.len() > 0,
        0 <= index < symbols.len() <= usize::MAX,
        starts_at(symbols, row_length(width), needle, index),
        0 <= k < needle.len(),
    ensures
        index + needle.len() <= symbols.len(),
        symbols[index + k]@ == seq![needle[k]],
        width > 0 ==> index % (width as int) + needle.len() <= width,
        width == 0 ==> needle.len() == 1,
        forall|i: int, j: int|
            0 <= i < j < starts(symbols, row_length(width), needle, symbols.len() as int).len() ==> (
            #[trigger] starts(symbols, row_length(width), needle, symbols.len() as int)[i]) < (
            #[trigger] starts(symbols, row_length(width), needle, symbols.len() as int)[j]),
{
    lemma_starts_ascend(symbols, row_length(width), needle, symbols.len() as int);
}

proof fn lemma_starts_ascend(symbols: Seq<String>, width: int, needle: Seq<char>, count: int)
    requires
        count <= symbols.len() <= usize::MAX,
    ensures
        ({
            let cells = starts(symbols, width, needle, count);
            &&& forall|i: int| 0 <= i < cells.len() ==> #[trigger] cells[i] < count
            &&& forall|i: int, j: int|
                0 <= i < j < cells.len() ==> (#[trigger] cells[i]) < (#[trigger] cells[j])
        }),
    decreases count,
{
    if count > 0 {
        lemma_starts_ascend(symbols, width, needle, count - 1);
        let cells = starts(symbols, width, needle, count);
        let earlier = starts(symbols, width, needle, count - 1);
        assert forall|i: int, j: int| 0 <= i < j < cells.len() implies (#[trigger] cells[i]) < (
        #[trigger] cells[j]) by {
            assert(cells[i] == earlier[i]);
            if j < earlier.len() {
                assert(cells[j] == earlier[j]);
            }
        }
        assert forall|i: int| 0 <= i < cells.len() implies #[trigger] cells[i] < count by {
            if i < earlier.len() {
                assert(cells[i] == earlier[i]);
            }
        }
    }
}

/// At most sixteen outputs are kept; a full cache gives up the one that was
/// not used for longest, and no other.
pub proof fn lemma_sixteen_outputs(
    entries: Seq<SessionOutputLayoutCacheEntry>,
    entry: SessionOutputLayoutCacheEntry,
)
    requires
        entries.len() <= 16,
    ensures
        stored(entries, entry)[0] == entry,
        entries.len() < 16 ==> stored(entries, entry).skip(1) == entries,
        entries.len() == 16 ==> stored(entries, entry).len() == 16 && stored(entries, entry).skip(1)
            == entries.take(15),
{
    if entries.len() < 16 {
        assert(stored(entries, entry).skip(1) =~= entries);
    } else {
        assert(stored(entries, entry).skip(1) =~= entries.take(15));
    }
}

/// A used output moves to the front; the others keep their order.
pub proof fn lemma_used_output_moves(entries: Seq<SessionOutputLayoutCacheEntry>, index: int)
    requires
        0 <= index < entries.len(),
    ensures
        promoted(entries, index).len() == entries.len(),
        promoted(entries, index)[0] == entries[index],
        forall|i: int| 0 <= i < index ==> promoted(entries, index)[i + 1] == #[trigger] entries[i],
        forall|i: int|
            index < i < entries.len() ==> promoted(entries, index)[i] == #[trigger] entries[i],
{
}

/// An output is looked up by its whole key, and the first one under it counts.
pub proof fn lemma_first_output_counts(
    entries: Seq<SessionOutputLayoutCacheEntry>,
    key: LayoutKey,
    first: int,
)
    requires
        0 <= first <= entries.len(),
        forall|i: int| 0 <= i < first ==> (#[trigger] entries[i]).key@ != key,
    ensures
        first < entries.len() && entries[first].key@ == key ==> entry_position(entries, key, 0)
            == Some(first),
        first == entries.len() ==> entry_position(entries, key, 0) is None,
{
    lemma_output_from(entries, key, first, first);
}

proof fn lemma_output_from(
    entries: Seq<SessionOutputLayoutCacheEntry>,
    key: LayoutKey,
    first: int,
    skipped: int,
)
    requires
        0 <= skipped <= first <= entries.len(),
        forall|i: int| 0 <= i < first ==> (#[trigger] entries[i]).key@ != key,
    ensures
        entry_position(entries, key, first - skipped) == entry_position(entries, key, first),
    decreases skipped,
{
    if skipped > 0 {
        lemma_output_from(entries, key, first, skipped - 1);
        assert(entries[first - skipped].key@ != key);
    }
}

/// A session that loses its animation is taken out alone; the others keep
/// their order.
pub proof fn lemma_animation_taken_out(sessions: Seq<SessionId>, session_id: Seq<char>, first: int)
    requires
        0 <= first <= sessions.len(),
        forall|i: int| 0 <= i < first ==> (#[trigger] sessions[i])@ != session_id,
    ensures
        first < sessions.len() && sessions[first]@ == session_id ==> without_session(
            sessions,
            session_id,
        ) == sessions.take(first) + sessions.skip(first + 1),
        first == sessions.len() ==> without_session(sessions, session_id) == sessions,
{
    lemma_animation_from(sessions, session_id, first, first);
    if first < sessions.len() && sessions[first]@ == session_id {
        assert(sessions.remove(first) =~= sessions.take(first) + sessions.skip(first + 1));
    }
}

proof fn lemma_animation_from(
    sessions: Seq<SessionId>,
    session_id: Seq<char>,
    first: int,
    skipped: int,
)
    requires
        0 <= skipped <= first <= sessions.len(),
        forall|i: int| 0 <= i < first ==> (#[trigger] sessions[i])@ != session_id,
    ensures
        session_position(sessions, session_id, first - skipped) == session_position(
            sessions,
            session_id,
            first,
        ),
    decreases skipped,
{
    if skipped > 0 {
        lemma_animation_from(sessions, session_id, first, skipped - 1);
        assert(sessions[first - skipped]@ != session_id);
    }
}

/// Storing an output takes an animation away only from the session whose last
/// output went.
pub proof fn lemma_animations_after_store(
    entries: Seq<SessionOutputLayoutCacheEntry>,
    entry: SessionOutputLayoutCacheEntry,
    sessions: Seq<SessionId>,
)
    requires
        entries.len() <= 16,
    ensures
        entries.len() < 16 ==> sessions_after_store(entries, entry, sessions) == sessions,
        entries.len() == 16 && session_has_entry(
            stored(entries, entry),
            entries[15].key.session_id@,
        ) ==> sessions_after_store(entries, entry, sessions) == sessions,
        entries.len() == 16 && !session_has_entry(
            stored(entries, entry),
            entries[15].key.session_id@,
        ) ==> sessions_after_store(entries, entry, sessions) == without_session(
            sessions,
            entries[15].key.session_id@,
        ),
{
    if entries.len() == 16 {
        assert((seq![entry] + entries).last() == entries[15]);
    }
}

/// The bytes of lists of texts add up, and what is hashed of them follows
/// each other.
pub proof fn lemma_hashed_lists_follow(first: Seq<String>, rest: Seq<String>)
    ensures
        total_bytes(first + rest) == total_bytes(first) + total_bytes(rest),
        list_input(first + rest) == list_input(first) + list_input(rest),
    decreases rest.len(),
{
    if rest.len() == 0 {
        assert(first + rest =~= first);
        assert(list_input(first) + list_input(rest) =~= list_input(first));
    } else {
        lemma_hashed_lists_follow(first, rest.drop_last());
        assert((first + rest).drop_last() =~= first + rest.drop_last());
        assert((first + rest).last() == rest.last());
        assert(list_input(first + rest) =~= list_input(first) + list_input(rest));
    }
}

/// Of one text its bytes are hashed, and a byte that no text holds behind
/// them.
pub proof fn lemma_hashed_text(text: String)
    ensures
        total_bytes(seq![text]) == vstd::utf8::encode_utf8(text@).len(),
        list_input(seq![text]) == seq![
            (false, vstd::utf8::encode_utf8(text@)),
            (true, seq![0xffu8]),
        ],
{
    let one = seq![text];
    assert(one.drop_last() =~= Seq::<String>::empty());
    assert(one.last() == text);
    assert(total_bytes(one.drop_last()) == 0);
    assert(list_input(one.drop_last()) =~= Seq::<(bool, Seq<u8>)>::empty());
    assert(list_input(one) =~= seq![
        (false, vstd::utf8::encode_utf8(text@)),
        (true, seq![0xffu8]),
    ]);
}

/// The bytes of messages add up.
pub proof fn lemma_message_bytes_add_up(first: Seq<SessionMessage>, last: SessionMessage)
    ensures
        message_bytes(first.push(last)) == message_bytes(first) + vstd::utf8::encode_utf8(
            last.content@,
        ).len(),
        message_bytes(Seq::empty()) == 0,
{
    assert(first.push(last).drop_last() =~= first);
}

/// A fingerprint tells a text from none, and an empty list from any other.
pub proof fn lemma_fingerprint_presence(
    fingerprint: TextFingerprint,
    text: Option<Seq<char>>,
    texts: Seq<String>,
)
    ensures
        fingerprint.identifies(text) ==> {
            &&& fingerprint.is_some == (text is Some)
            &&& text is None ==> fingerprint.content_len == 0 && fingerprint.content_hash == 0
            &&& text matches Some(shown) ==> (vstd::utf8::encode_utf8(shown).len() <= usize::MAX
                ==> fingerprint.content_len == vstd::utf8::encode_utf8(shown).len())
        },
        fingerprint.identifies_list(texts) ==> {
            &&& fingerprint.is_some == (texts.len() > 0)
            &&& 0 <= total_bytes(texts) <= usize::MAX ==> fingerprint.content_len == total_bytes(
                texts,
            )
        },
{
}

/// A transcript is told apart by its length, its size and its last message.
pub proof fn lemma_transcript_fingerprint(messages: Seq<SessionMessage>)
    requires
        messages.len() <= usize::MAX,
    ensures
        ({
            let print = fingerprint_of(messages);
            &&& print.message_count == messages.len()
            &&& print.is_some == (messages.len() > 0)
            &&& messages.len() > 0 ==> {
                &&& print.last_kind == Some(messages[messages.len() - 1].kind)
                &&& print.last_position == messages[messages.len() - 1].position
                &&& 0 <= message_bytes(messages) <= usize::MAX ==> print.content_len
                    == message_bytes(messages)
            }
            &&& messages.len() == 0 ==> print.last_kind is None && print.content_len == 0
                && print.last_position == 0
        }),
{
}

/// Two outputs under one key are outputs of one session in one state.
pub proof fn lemma_key_tells_outputs_apart<R: OutputRenderer>(
    renderer: &R,
    first: Session,
    second: Session,
    areas: (ViewportRect, ViewportRect),
    contexts: (SessionOutputLineContext<'_>, SessionOutputLineContext<'_>),
    key: LayoutKey,
)
    requires
        key_of(renderer, first, areas.0, contexts.0, key),
        key_of(renderer, second, areas.1, contexts.1, key),
        first.transcript@.len() <= usize::MAX,
        second.transcript@.len() <= usize::MAX,
    ensures
        first.id@ == second.id@,
        first.status == second.status,
        first.updated_at == second.updated_at,
        (first.parent_session_id is Some) == (second.parent_session_id is Some),
        first.transcript@.len() == second.transcript@.len(),
        (first.queued_messages@.len() > 0) == (second.queued_messages@.len() > 0),
        contexts.0.markdown_render_version == contexts.1.markdown_render_version,
        contexts.0.session_update_version == contexts.1.session_update_version,
        (contexts.0.active_progress is Some) == (contexts.1.active_progress is Some),
        (contexts.0.active_prompt_output is Some) == (contexts.1.active_prompt_output is Some),
{
}

/// An output in a panel is as many columns wide as the panel holds, and its
/// key says so.
pub proof fn lemma_key_holds_width<R: OutputRenderer>(
    renderer: &R,
    session: Session,
    area: ViewportRect,
    context: SessionOutputLineContext<'_>,
    key: LayoutKey,
    width: usize,
)
    requires
        key_of(renderer, session, area, context, key),
        forall|answer: usize|
            call_ensures(R::panel_inner_width, (renderer, area), answer) ==> answer == width,
    ensures
        width <= 65_535 ==> key.output_width == width,
        width > 65_535 ==> key.output_width == 65_535,
{
}

/// What was asked for last stands in front of the cache, under its key.
pub proof fn lemma_shown_output_is_kept<R: OutputRenderer>(
    renderer: &R,
    session: Session,
    area: ViewportRect,
    context: SessionOutputLineContext<'_>,
    before: SessionOutputLayoutCache,
    after: SessionOutputLayoutCache,
    layout: LayoutView,
)
    requires
        layout_from_cache(renderer, session, area, context, before, after, layout),
        before.entries@.len() <= 16,
    ensures
        after.entries@.len() > 0,
        after.entries@[0].layout@ == layout,
        key_of(renderer, session, area, context, after.entries@[0].key@),
        after.entries@.len() <= 16,
        after.entries@.len() >= before.entries@.len(),
{
    let key = choose|key: LayoutKey| #[trigger]
        key_of(renderer, session, area, context, key) && match entry_position(
            before.entries@,
            key,
            0,
        ) {
            Some(index) => {
                &&& layout == before.entries@[index].layout@
                &&& after.entries@ == promoted(before.entries@, index)
                &&& after.loader_sessions == before.loader_sessions
            },
            None => {
                &&& layout_of(renderer, session, area, context, layout)
                &&& exists|entry: SessionOutputLayoutCacheEntry|
                    {
                        &&& after.entries@ == #[trigger] stored(before.entries@, entry)
                        &&& entry.key@ == key
                        &&& entry.layout@ == layout
                        &&& after.loader_sessions@ == sessions_after_store(
                            before.entries@,
                            entry,
                            before.loader_sessions@,
                        )
                    }
            },
        };
    lemma_found_output(before.entries@, key, 0);
}

proof fn lemma_found_output(entries: Seq<SessionOutputLayoutCacheEntry>, key: LayoutKey, start: int)
    requires
        0 <= start <= entries.len(),
    ensures
        entry_position(entries, key, start) matches Some(index) ==> start <= index < entries.len()
            && entries[index].key@ == key,
    decreases entries.len() - start,
{
    if start < entries.len() && entries[start].key@ != key {
        lemma_found_output(entries, key, start + 1);
    }
}

/// An output counts its lines, as far as a panel can.
pub proof fn lemma_output_line_count<R: OutputRenderer>(
    renderer: &R,
    session: Session,
    area: ViewportRect,
    context: SessionOutputLineContext<'_>,
    layout: LayoutView,
)
    requires
        layout_of(renderer, session, area, context, layout),
    ensures
        layout.lines.len() <= 65_535 ==> layout.line_count == layout.lines.len(),
        layout.lines.len() > 65_535 ==> layout.line_count == 65_535,
{
}

/// The lines of a panel lie between its first and its last row.
pub proof fn lemma_panel_lines(area: ViewportRect)
    requires
        area.x + area.width <= u16::MAX,
        area.y + area.height <= u16::MAX,
        area.height >= 2,
    ensures
        inner_area(area).x == area.x,
        inner_area(area).width == area.width,
        inner_area(area).y == area.y + 1,
        inner_area(area).height == area.height - 2,
{
}

/// A loader shows in the row of its line, at the left, while that row does
/// and the panel is wide enough.
pub proof fn lemma_loader_row(
    area: ViewportRect,
    line: usize,
    scroll: u16,
    loader_width: u16,
)
    requires
        area.x + area.width <= u16::MAX,
        area.y + area.height <= u16::MAX,
    ensures
        ({
            let place = loader_place(area, Some(line), scroll, loader_width);
            &&& place is Some <==> (area.width >= loader_width && scroll <= line && line - scroll + 2
                < area.height)
            &&& place matches Some(rect) ==> {
                &&& rect.x == area.x
                &&& rect.y == area.y + 1 + (line - scroll)
                &&& rect.width == loader_width
                &&& rect.height == 1
            }
        }),
        loader_place(area, None, scroll, loader_width) is None,
{
}

/// Every loader whose row shows is placed, in the order of the rows.
pub proof fn lemma_loaders_follow(
    area: ViewportRect,
    first: Seq<usize>,
    last: usize,
    scroll: u16,
    loader_width: u16,
)
    ensures
        loader_places(area, Seq::empty(), scroll, loader_width).len() == 0,
        loader_place(area, Some(last), scroll, loader_width) matches Some(place) ==> loader_places(
            area,
            first.push(last),
            scroll,
            loader_width,
        ) == loader_places(area, first, scroll, loader_width).push(place),
        loader_place(area, Some(last), scroll, loader_width) is None ==> loader_places(
            area,
            first.push(last),
            scroll,
            loader_width,
        ) == loader_places(area, first, scroll, loader_width),
{
    assert(first.push(last).drop_last() =~= first);
}

/// The status is animated only while a session works, rebases or merges.
pub proof fn lemma_animated_status(
    session: Session,
    area: ViewportRect,
    loader_width: u16,
    frame: SessionOutputFrame,
)
    requires
        loaders_placed(session, area, loader_width, frame),
    ensures
        frame.active_loader_area is Some ==> (session.status is InProgress || session.status
            is Rebasing || session.status is Merging) && frame.layout.active_loader_line_index
            is Some,
        session.status is InProgress || session.status is Rebasing || session.status is Merging
            ==> frame.active_loader_area == loader_place(
            area,
            frame.layout.active_loader_line_index,
            frame.final_scroll,
            loader_width,
        ),
        frame.timeline_loader_areas@ == loader_places(
            area,
            frame.layout.timeline_loader_line_indices@,
            frame.final_scroll,
            loader_width,
        ),
{
}

/// A page whose session is gone gives way to the list, and any other page
/// keeps its keys to itself.
pub proof fn lemma_page_without_session<R: OutputRenderer>(
    renderer: &R,
    sessions: Seq<Session>,
    facts: ViewSessionFacts,
    key_facts: ViewKeyFacts,
    line_context: SessionOutputLineContext<'_>,
    terminal: (u16, u16),
    key: KeyEvent,
    before: AppMode,
    after: AppMode,
    caches: (
        Option<SessionOutputLayoutCache>,
        Option<SessionOutputLayoutCache>,
    ),
    action: ViewAction,
)
    requires
        page_key_applied(
            renderer,
            sessions,
            facts,
            key_facts,
            line_context,
            terminal,
            key,
            before,
            after,
            caches.0,
            caches.1,
            action,
        ),
    ensures
        before matches AppMode::View { scroll_offset, session_id } ==> ((forall|i: int|
            0 <= i < sessions.len() ==> (#[trigger] sessions[i]).id@ != session_id@) ==> after
            == AppMode::List && action is Nothing && caches.1 == caches.0),
        !(before is View) ==> after == before && action is Nothing && caches.1 == caches.0,
{
    if let AppMode::View { scroll_offset, session_id } = before {
        if forall|i: int| 0 <= i < sessions.len() ==> (#[trigger] sessions[i]).id@ != session_id@ {
            crate::view_laws::lemma_no_row(sessions, session_id@);
        }
    }
}

/// On the page of a session the line keys move its offset by a line of the
/// output, in a panel that is five rows lower and two columns narrower than
/// the terminal.
pub proof fn lemma_page_scrolls<R: OutputRenderer>(
    renderer: &R,
    sessions: Seq<Session>,
    facts: ViewSessionFacts,
    key_facts: ViewKeyFacts,
    line_context: SessionOutputLineContext<'_>,
    terminal: (u16, u16),
    key: KeyEvent,
    offset: Option<u16>,
    session_id: SessionId,
    after: AppMode,
    caches: (
        Option<SessionOutputLayoutCache>,
        Option<SessionOutputLayoutCache>,
    ),
    action: ViewAction,
    row: usize,
)
    requires
        page_key_applied(
            renderer,
            sessions,
            facts,
            key_facts,
            line_context,
            terminal,
            key,
            (AppMode::View { scroll_offset: offset, session_id }),
            after,
            caches.0,
            caches.1,
            action,
        ),
        sessions.len() <= usize::MAX,
        row < sessions.len(),
        sessions[row as int].id@ == session_id@,
        forall|i: int| 0 <= i < row ==> (#[trigger] sessions[i]).id@ != session_id@,
        terminal.0 >= 2,
        terminal.1 >= 5,
    ensures
        exists|total_lines: u16, width: u16|
            {
                let metrics = ViewMetrics { total_lines, view_height: (terminal.1 - 5) as u16 };
                &&& #[trigger] row_line_count(
                    renderer,
                    sessions,
                    row,
                    width,
                    line_context,
                    caches.0,
                    caches.1,
                    total_lines,
                )
                &&& width == terminal.0 - 2
                &&& key.code == KeyCode::Down || key.code == KeyCode::Up ==> {
                    &&& action is Nothing
                    &&& after matches AppMode::View { scroll_offset, session_id: shown }
                    &&& shown == session_id
                    &&& key.code == KeyCode::Down ==> moved_down(metrics, 1, offset, scroll_offset)
                    &&& key.code == KeyCode::Up ==> moved_up(metrics, 1, offset, scroll_offset)
                }
            },
{
    crate::view_laws::lemma_first_row(sessions, session_id@, row as int);
}

/// Selecting a row keeps a table where it stands; without a selected row it
/// starts at its top.
pub proof fn lemma_table_selection(table: TableSelection, row: usize)
    ensures
        table.with_selected(Some(row)) == (TableSelection {
            offset: table.offset,
            selected: Some(row),
        }),
        table.with_selected(None) == (TableSelection { offset: 0, selected: None }),
{
}

/// A frame is painted from what the application shows: its tables on the
/// selected project and session, and everything else as it is.
pub proof fn lemma_frame_shows_application<'a, D: FrameData>(
    snapshot: AppViewSnapshot<'a, D>,
    caches: &'a RenderCacheStore<D>,
    tables: FrameTables,
)
    ensures
        ({
            let frame = frame_of(snapshot, caches, tables);
            &&& frame.mode == snapshot.mode
            &&& frame.current_tab == snapshot.current_tab
            &&& frame.sessions == snapshot.sessions
            &&& frame.projects == snapshot.projects
            &&& frame.settings == snapshot.settings
            &&& frame.active_project_id == snapshot.active_project_id
            &&& frame.active_prompt_outputs == snapshot.active_prompt_outputs
            &&& frame.assigned_issues == snapshot.assigned_issues
            &&& frame.available_agent_clis == snapshot.available_agent_clis
            &&& frame.git_branch == snapshot.git_branch
            &&& frame.git_status == snapshot.git_status
            &&& frame.git_upstream_ref == snapshot.git_upstream_ref
            &&& frame.latest_available_version == snapshot.latest_available_version
            &&& frame.requested_reviews == snapshot.requested_reviews
            &&& frame.review_comment_cache == snapshot.review_comment_cache
            &&& frame.session_branch_names == snapshot.session_branch_names
            &&& frame.session_git_statuses == snapshot.session_git_statuses
            &&& frame.session_index_by_id == snapshot.session_index_by_id
            &&& frame.session_progress_messages == snapshot.session_progress_messages
            &&& frame.session_review == snapshot.session_review
            &&& frame.session_update_versions == snapshot.session_update_versions
            &&& frame.session_worktree_availability == snapshot.session_worktree_availability
            &&& frame.stats_activity == snapshot.stats_activity
            &&& frame.status_bar_fyi_rotation_index == snapshot.status_bar_fyi_rotation_index
            &&& frame.system_log_tail_offset == snapshot.system_log_tail_offset
            &&& frame.system_logs == snapshot.system_logs
            &&& frame.update_status == snapshot.update_status
            &&& frame.wall_clock_unix_seconds == snapshot.wall_clock_unix_seconds
            &&& frame.working_dir == snapshot.working_dir
            &&& frame.table_state.selected == snapshot.session_selected_index
            &&& frame.project_table_state.selected == snapshot.project_selected_index
            &&& snapshot.session_selected_index is Some ==> frame.table_state.offset
                == tables.session.offset
            &&& snapshot.session_selected_index is None ==> frame.table_state.offset == 0
            &&& snapshot.project_selected_index is Some ==> frame.project_table_state.offset
                == tables.project.offset
            &&& snapshot.project_selected_index is None ==> frame.project_table_state.offset == 0
            &&& frame.assigned_issue_selected_index == snapshot.assigned_issue_selected_index
            &&& frame.requested_review_selected_index == snapshot.requested_review_selected_index
            &&& frame.assigned_issue_table_state == tables.assigned_issue
            &&& frame.requested_review_table_state == tables.requested_review
            &&& *frame.diff_layout_cache == caches.diff_layout_cache
            &&& *frame.markdown_render_cache == caches.markdown_render_cache
            &&& *frame.output_layout_cache == caches.session_output_layout_cache
        }),
{
}

/// A frame hands out what its pages recorded, and the tables as they left
/// them.
pub proof fn lemma_frame_hands_out_records<P: FramePages>(
    pages: &P,
    snapshot: AppViewSnapshot<'_, P::Data>,
    caches: &RenderCacheStore<P::Data>,
    before: FrameTables,
    after: FrameTables,
    layout: LayoutSnapshot,
    painted: PaintedFrame,
)
    requires
        frame_rendered(pages, snapshot, caches, before, after, layout),
        forall|answer: PaintedFrame|
            frame_painted(pages, snapshot.theme, frame_of(snapshot, caches, before), answer)
                ==> answer == painted,
    ensures
        layout == painted.recorder.layout,
        after.assigned_issue == painted.assigned_issue_table_state,
        after.project == painted.project_table_state,
        after.requested_review == painted.requested_review_table_state,
        after.session == painted.session_table_state,
{
}

/// Without a cache an output is assembled anew and nothing is kept.
pub proof fn lemma_output_without_cache<R: OutputRenderer>(
    renderer: &R,
    session: Session,
    area: ViewportRect,
    context: SessionOutputLineContext<'_>,
    before: Option<SessionOutputLayoutCache>,
    after: Option<SessionOutputLayoutCache>,
    layout: LayoutView,
)
    requires
        layout_rendered(renderer, session, area, context, before, after, layout),
    ensures
        before is None ==> after is None && layout_of(renderer, session, area, context, layout),
        before matches Some(kept) ==> {
            &&& after matches Some(left)
            &&& layout_from_cache(renderer, session, area, context, kept, left, layout)
        },
{
}

/// A recorder that holds nothing holds no panel and no list.
pub proof fn lemma_nothing_recorded(layout: LayoutSnapshot)
    ensures
        nothing_recorded(layout) <==> (layout.chat_output is None && layout.diff_file_list is None
            && layout.diff_panel is None && layout.help_overlay is None && layout.lists@.len() == 0),
{
}

/// The lines of a row's output are counted as the session's, in the given
/// columns; a row that is not there has none.
pub proof fn lemma_counted_lines<R: OutputRenderer>(
    renderer: &R,
    sessions: Seq<Session>,
    row: usize,
    width: u16,
    context: SessionOutputLineContext<'_>,
    before: Option<SessionOutputLayoutCache>,
    after: Option<SessionOutputLayoutCache>,
    count: u16,
)
    requires
        row_line_count(renderer, sessions, row, width, context, before, after, count),
    ensures
        row >= sessions.len() ==> count == 0 && after == before,
        row < sessions.len() ==> exists|layout: LayoutView| #[trigger]
            layout_rendered(
                renderer,
                sessions[row as int],
                (ViewportRect { height: 0, width, x: 0, y: 0 }),
                context,
                before,
                after,
                layout,
            ) && layout.line_count == count,
{
}

} // verus!
