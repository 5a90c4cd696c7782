//! Moving through the files, changed lines and comments of the diff page.

use vstd::prelude::*;

use crate::app_mode::{
    DiffCommentTarget, DiffFocus, DiffLineCommentAnchor, DiffLineComments, DiffMode, DiffPreview,
    DiffReviewComments, DiffScrollCache, DiffSidebarFocus,
};
use crate::diff_page::{DiffContent, DiffPage, DiffPlace, copy_of_target, copy_target};
use crate::diff_preview::{
    PreviewRequest, preview_visible, selected_preview_is_visible, start_selected_preview_load,
    starts_preview, toggle_selected_preview,
};
use crate::file_explorer::{FileExplorer, next_position, previous_position, visual_row};
use crate::geometry::ViewportRect;
use crate::key::{
    KeyCode, KeyEvent, KeyModifiers, is_plain_char_key, is_shift_char_key, plain_char, shift_char,
};
use crate::session::Session;
use crate::viewport::{least, minus};

verus! {

/// Direction of a move through the explorer or the content.
#[derive(Clone, Copy, Debug, PartialEq, Eq, Structural)]
pub enum DiffDirection {
    Next,
    Previous,
}

/// Where a move of the explorer's selection goes to.
#[derive(Clone, Copy, Debug, PartialEq, Eq, Structural)]
pub enum FileSelectionTarget {
    Adjacent(DiffDirection),
    /// A row of the last frame.
    Index(usize),
}

/// The row that a move leads to.
pub open spec fn target_row(current: usize, count: usize, target: FileSelectionTarget) -> int {
    match target {
        FileSelectionTarget::Adjacent(DiffDirection::Next) => next_position(current, count),
        FileSelectionTarget::Adjacent(DiffDirection::Previous) => previous_position(current, count),
        FileSelectionTarget::Index(index) => if index < count {
            index as int
        } else {
            current as int
        },
    }
}

/// The page after its selection moved: another row starts at its top, without
/// a selected line or comment.
pub open spec fn with_file_selected(diff: DiffMode, row: usize) -> DiffMode {
    if row == diff.file_explorer_selected_index {
        diff
    } else {
        DiffMode {
            file_explorer_selected_index: row,
            line_comments: DiffLineComments { selected_comment: None, ..diff.line_comments },
            scroll_cache: None,
            scroll_offset: 0,
            selected_diff_line_index: 0,
            ..diff
        }
    }
}

/// Moves the explorer's selection and reports whether it changed.
pub fn select_file(diff: &mut DiffMode, content: &DiffContent, target: FileSelectionTarget) -> (
    changed: bool)
    ensures
        ({
            let row = target_row(
                old(diff).file_explorer_selected_index,
                content.items@.len() as usize,
                target,
            );
            &&& *final(diff) == with_file_selected(*old(diff), row as usize)
            &&& changed == (row != old(diff).file_explorer_selected_index)
        }),
{
    let current: usize = diff.file_explorer_selected_index;
    let count: usize = content.item_count();
    let row: usize = match target {
        FileSelectionTarget::Adjacent(DiffDirection::Next) => FileExplorer::next_selected_index(
            current,
            count,
        ),
        FileSelectionTarget::Adjacent(
            DiffDirection::Previous,
        ) => FileExplorer::previous_selected_index(current, count),
        FileSelectionTarget::Index(index) => if index < count {
            index
        } else {
            current
        },
    };
    if row == current {
        return false;
    }
    diff.file_explorer_selected_index = row;
    diff.line_comments.set_selected_comment(None);
    diff.scroll_cache = None;
    diff.scroll_offset = 0;
    diff.selected_diff_line_index = 0;
    true
}

/// The selected row and the area it is painted in.
pub open spec fn place_of(diff: DiffMode, area: ViewportRect) -> DiffPlace {
    DiffPlace { area, file_index: diff.file_explorer_selected_index }
}

/// Whether `limit` is the largest scroll offset of the page and `cache` the
/// cache that remembers it.
///
/// The limit is measured once for each row and area.
pub open spec fn scroll_limit<P: DiffPage>(
    page: &P,
    diff: DiffMode,
    area: ViewportRect,
    limit: u16,
    cache: Option<DiffScrollCache>,
) -> bool {
    match diff.scroll_cache {
        Some(known) if known.content_area == area && known.file_explorer_selected_index
            == diff.file_explorer_selected_index => {
            limit == known.max_scroll_offset && cache == diff.scroll_cache
        },
        _ => {
            &&& call_ensures(
                P::max_scroll_offset,
                (page, &diff.line_comments, &diff.preview, place_of(diff, area)),
                limit,
            )
            &&& cache == Some(
                DiffScrollCache {
                    content_area: area,
                    file_explorer_selected_index: diff.file_explorer_selected_index,
                    max_scroll_offset: limit,
                },
            )
        },
    }
}

/// Looks up or measures the largest scroll offset of the page.
pub fn diff_max_scroll_offset<P: DiffPage>(
    diff: &mut DiffMode,
    page: &P,
    area: ViewportRect,
) -> (limit: u16)
    ensures
        scroll_limit(page, *old(diff), area, limit, final(diff).scroll_cache),
        *final(diff) == (DiffMode { scroll_cache: final(diff).scroll_cache, ..*old(diff) }),
{
    if let Some(known) = diff.scroll_cache {
        if known.content_area == area && known.file_explorer_selected_index
            == diff.file_explorer_selected_index {
            return known.max_scroll_offset;
        }
    }
    let place: DiffPlace = DiffPlace { area, file_index: diff.file_explorer_selected_index };
    let limit: u16 = page.max_scroll_offset(&diff.line_comments, &diff.preview, place);
    diff.scroll_cache = Some(
        DiffScrollCache {
            content_area: area,
            file_explorer_selected_index: diff.file_explorer_selected_index,
            max_scroll_offset: limit,
        },
    );
    limit
}

/// The scroll offset one row further.
pub open spec fn row_scrolled(offset: int, limit: int, direction: DiffDirection) -> int {
    match direction {
        DiffDirection::Next => least(least(offset, limit) + 1, limit),
        DiffDirection::Previous => minus(least(offset, limit), 1),
    }
}

/// Whether the content was scrolled by one row and nothing else changed.
pub open spec fn scrolled_by_row<P: DiffPage>(
    page: &P,
    area: ViewportRect,
    direction: DiffDirection,
    before: DiffMode,
    after: DiffMode,
) -> bool {
    exists|limit: u16| #[trigger]
        scroll_limit(page, before, area, limit, after.scroll_cache) && after == (DiffMode {
            scroll_cache: after.scroll_cache,
            scroll_offset: row_scrolled(
                before.scroll_offset as int,
                limit as int,
                direction,
            ) as u16,
            ..before
        })
}

/// Scrolls the content by one row; the focus and the selected line stay.
pub fn scroll_content_by_row<P: DiffPage>(
    diff: &mut DiffMode,
    page: &P,
    area: ViewportRect,
    direction: DiffDirection,
)
    ensures
        scrolled_by_row(page, area, direction, *old(diff), *final(diff)),
{
    let limit: u16 = diff_max_scroll_offset(diff, page, area);
    let offset: u16 = if diff.scroll_offset < limit {
        diff.scroll_offset
    } else {
        limit
    };
    diff.scroll_offset = match direction {
        DiffDirection::Next => {
            let next: u16 = offset.saturating_add(1);
            if next < limit {
                next
            } else {
                limit
            }
        },
        DiffDirection::Previous => offset.saturating_sub(1),
    };
    assert(scroll_limit(page, *old(diff), area, limit, diff.scroll_cache));
}

/// Scrolling by rows never leaves the content.
pub proof fn lemma_row_scroll_in_range(offset: int, limit: int, direction: DiffDirection)
    requires
        0 <= offset,
        0 <= limit,
    ensures
        0 <= row_scrolled(offset, limit, direction) <= limit,
{
}

/// Whether a key scrolls the content while the explorer has the keyboard.
pub open spec fn unfocused_scroll_key(key: KeyEvent, arrow: KeyCode, character: char) -> bool {
    key.code == arrow || shift_char(key, character)
}

/// Whether a key moves through the content that has the keyboard.
pub open spec fn content_navigation_key(key: KeyEvent, arrow: KeyCode, character: char) -> bool {
    key.code == arrow || plain_char(key, character) || shift_char(key, character)
}

/// Reports whether a key scrolls the content while the explorer has the
/// keyboard.
pub fn is_unfocused_scroll_key(key: KeyEvent, arrow: KeyCode, character: char) -> (result: bool)
    ensures
        result == unfocused_scroll_key(key, arrow, character),
{
    key.code == arrow || is_shift_char_key(key, character)
}

/// Reports whether a key moves through the content that has the keyboard.
pub fn is_content_navigation_key(key: KeyEvent, arrow: KeyCode, character: char) -> (result: bool)
    ensures
        result == content_navigation_key(key, arrow, character),
{
    if key.code == arrow {
        return true;
    }
    if is_plain_char_key(key, character) {
        return true;
    }
    is_shift_char_key(key, character)
}

/// An offset that the page gave, or the present one.
pub open spec fn offset_or(given: Option<u16>, present: u16) -> u16 {
    match given {
        Some(offset) => offset,
        None => present,
    }
}

/// The painted row of the explorer's selection.
pub open spec fn painted_row(diff: DiffMode, content: DiffContent, list: ViewportRect) -> u16 {
    offset_or(
        visual_row(diff.file_explorer_selected_index, content.items@.len() as usize, list),
        0,
    )
}

/// The content with the keyboard on a changed line and no selected comment.
pub open spec fn with_line_focused(diff: DiffMode, line: usize, scroll_offset: u16) -> DiffMode {
    DiffMode {
        focus: DiffFocus::Content,
        line_comments: DiffLineComments { selected_comment: None, ..diff.line_comments },
        scroll_offset,
        selected_diff_line_index: line,
        ..diff
    }
}

/// Whether the keyboard moved from the explorer into the selected file.
///
/// It lands on the changed line next to the selected row, or on the preview.
/// A folder, and a file without changed lines on the screen, keep it.
pub open spec fn focused_changes<P: DiffPage>(
    page: &P,
    content: DiffContent,
    area: ViewportRect,
    before: DiffMode,
    after: DiffMode,
) -> bool {
    let place = place_of(before, area);
    if content.file_path(before.file_explorer_selected_index) is None {
        after == before
    } else if preview_visible(content, before.file_explorer_selected_index, before.preview) {
        after == with_line_focused(before, 0, before.scroll_offset)
    } else {
        exists|list: ViewportRect, found: Option<usize>| #[trigger]
            line_beside(page, content, place, before, list, found) && match found {
                None => after == before,
                Some(line) => exists|given: Option<u16>| #[trigger]
                    call_ensures(
                        P::changed_line_scroll,
                        (page, &before.line_comments, place, line, before.scroll_offset),
                        given,
                    ) && after == with_line_focused(
                        before,
                        line,
                        offset_or(given, before.scroll_offset),
                    ),
            }
    }
}

/// Whether `found` is the changed line that is painted beside the explorer's
/// selection, with the explorer painted in `list`.
pub open spec fn line_beside<P: DiffPage>(
    page: &P,
    content: DiffContent,
    place: DiffPlace,
    diff: DiffMode,
    list: ViewportRect,
    found: Option<usize>,
) -> bool {
    &&& call_ensures(
        P::file_list_area,
        (page, place.area, diff.review_comments is Some),
        list,
    )
    &&& call_ensures(
        P::changed_line_at_row,
        (
            page,
            &diff.line_comments,
            place,
            diff.scroll_offset,
            painted_row(diff, content, list),
        ),
        found,
    )
}

/// Moves the keyboard from the explorer into the selected file.
pub fn focus_selected_file_changes<P: DiffPage>(
    diff: &mut DiffMode,
    content: &DiffContent,
    page: &P,
    area: ViewportRect,
)
    ensures
        focused_changes(page, *content, area, *old(diff), *final(diff)),
{
    let file_index: usize = diff.file_explorer_selected_index;
    if !content.selected_item_is_file(file_index) {
        return;
    }
    if selected_preview_is_visible(content, file_index, &diff.preview) {
        diff.focus = DiffFocus::Content;
        diff.selected_diff_line_index = 0;
        diff.line_comments.set_selected_comment(None);
        return;
    }
    let place: DiffPlace = DiffPlace { area, file_index };
    let list: ViewportRect = page.file_list_area(area, diff.review_comments.is_some());
    let row: u16 = match FileExplorer::selected_visual_row(file_index, content.item_count(), list) {
        Some(row) => row,
        None => 0,
    };
    let found: Option<usize> = page.changed_line_at_row(
        &diff.line_comments,
        place,
        diff.scroll_offset,
        row,
    );
    assert(line_beside(page, *content, place, *old(diff), list, found));
    let line: usize = match found {
        Some(line) => line,
        None => {
            return;
        },
    };
    let given: Option<u16> = page.changed_line_scroll(
        &diff.line_comments,
        place,
        line,
        diff.scroll_offset,
    );
    assert(call_ensures(
        P::changed_line_scroll,
        (page, &old(diff).line_comments, place, line, old(diff).scroll_offset),
        given,
    ));
    diff.focus = DiffFocus::Content;
    diff.selected_diff_line_index = line;
    diff.line_comments.set_selected_comment(None);
    if let Some(offset) = given {
        diff.scroll_offset = offset;
    }
}

/// Whether `next` is the line and comment that a move through the changed
/// lines leads to.
///
/// A row selection steps over lines and stops at the first and the last one.
pub open spec fn content_target<P: DiffPage>(
    page: &P,
    place: DiffPlace,
    direction: DiffDirection,
    diff: DiffMode,
    next: (usize, Option<usize>),
) -> bool {
    let line = diff.selected_diff_line_index;
    let comments = &diff.line_comments;
    if diff.line_comments.selection_start is Some {
        exists|count: usize| #[trigger]
            call_ensures(P::changed_line_count, (page, comments, place), count) && next == (
                match direction {
                    DiffDirection::Next => least(
                        line + 1,
                        minus(count as int, 1),
                    ) as usize,
                    DiffDirection::Previous => minus(line as int, 1) as usize,
                },
                None::<usize>,
            )
    } else {
        match direction {
            DiffDirection::Next => call_ensures(
                P::next_selection,
                (page, comments, place, line, diff.line_comments.selected_comment),
                next,
            ),
            DiffDirection::Previous => call_ensures(
                P::previous_selection,
                (page, comments, place, line, diff.line_comments.selected_comment),
                next,
            ),
        }
    }
}

/// Whether the selection moved through the changed lines and the page shows
/// where it went.
pub open spec fn moved_through_lines<P: DiffPage>(
    page: &P,
    area: ViewportRect,
    direction: DiffDirection,
    before: DiffMode,
    after: DiffMode,
) -> bool {
    let place = place_of(before, area);
    exists|line: usize, comment: Option<usize>, given: Option<u16>| #[trigger]
        shown_selection(page, place, direction, before, line, comment, given) && after == (
        DiffMode {
            line_comments: DiffLineComments { selected_comment: comment, ..before.line_comments },
            scroll_offset: offset_or(given, before.scroll_offset),
            selected_diff_line_index: line,
            ..before
        })
}

/// Whether a move leads to `line` and `comment`, which the page shows at the
/// offset that it `given`.
pub open spec fn shown_selection<P: DiffPage>(
    page: &P,
    place: DiffPlace,
    direction: DiffDirection,
    diff: DiffMode,
    line: usize,
    comment: Option<usize>,
    given: Option<u16>,
) -> bool {
    &&& content_target(page, place, direction, diff, (line, comment))
    &&& call_ensures(
        P::selection_scroll,
        (page, &diff.line_comments, place, line, comment, diff.scroll_offset),
        given,
    )
}

/// Moves through the changed lines, or scrolls the preview.
pub fn move_content_selection<P: DiffPage>(
    diff: &mut DiffMode,
    content: &DiffContent,
    page: &P,
    area: ViewportRect,
    direction: DiffDirection,
)
    ensures
        if preview_visible(
            *content,
            old(diff).file_explorer_selected_index,
            old(diff).preview,
        ) {
            scrolled_by_row(page, area, direction, *old(diff), *final(diff))
        } else {
            moved_through_lines(page, area, direction, *old(diff), *final(diff))
        },
{
    let file_index: usize = diff.file_explorer_selected_index;
    if selected_preview_is_visible(content, file_index, &diff.preview) {
        scroll_content_by_row(diff, page, area, direction);
        return;
    }
    let place: DiffPlace = DiffPlace { area, file_index };
    let current: usize = diff.selected_diff_line_index;
    let selected_comment: Option<usize> = diff.line_comments.selected_comment;
    let (line, comment): (usize, Option<usize>) = if diff.line_comments.is_selecting() {
        let count: usize = page.changed_line_count(&diff.line_comments, place);
        assert(call_ensures(
            P::changed_line_count,
            (page, &old(diff).line_comments, place),
            count,
        ));
        let line: usize = match direction {
            DiffDirection::Next => {
                let next: usize = current.saturating_add(1);
                let last: usize = count.saturating_sub(1);
                if next < last {
                    next
                } else {
                    last
                }
            },
            DiffDirection::Previous => current.saturating_sub(1),
        };
        (line, None)
    } else {
        match direction {
            DiffDirection::Next => page.next_selection(
                &diff.line_comments,
                place,
                current,
                selected_comment,
            ),
            DiffDirection::Previous => page.previous_selection(
                &diff.line_comments,
                place,
                current,
                selected_comment,
            ),
        }
    };
    let given: Option<u16> = page.selection_scroll(
        &diff.line_comments,
        place,
        line,
        comment,
        diff.scroll_offset,
    );
    assert(shown_selection(page, place, direction, *old(diff), line, comment, given));
    diff.selected_diff_line_index = line;
    diff.line_comments.set_selected_comment(comment);
    if let Some(offset) = given {
        diff.scroll_offset = offset;
    }
    assert(*diff == (DiffMode {
        line_comments: DiffLineComments { selected_comment: comment, ..old(diff).line_comments },
        scroll_offset: offset_or(given, old(diff).scroll_offset),
        selected_diff_line_index: line,
        ..*old(diff)
    }));
    assert(place == place_of(*old(diff), area));
    assert(moved_through_lines(page, area, direction, *old(diff), *diff));
}

/// What a key does to the page.
#[derive(Clone, Copy, Debug, PartialEq, Eq, Structural)]
pub enum NavigationStep {
    FocusChanges,
    FocusFiles,
    FocusReviewComments,
    MoveContent(DiffDirection),
    Nothing,
    Scroll(DiffDirection),
    SelectFile(DiffDirection),
    TogglePreview,
}

/// The step that a key asks for while the explorer has the keyboard.
pub open spec fn files_step(key: KeyEvent) -> NavigationStep {
    if unfocused_scroll_key(key, KeyCode::Down, 'j') {
        NavigationStep::Scroll(DiffDirection::Next)
    } else if unfocused_scroll_key(key, KeyCode::Up, 'k') {
        NavigationStep::Scroll(DiffDirection::Previous)
    } else if plain_char(key, 'j') {
        NavigationStep::SelectFile(DiffDirection::Next)
    } else if plain_char(key, 'k') {
        NavigationStep::SelectFile(DiffDirection::Previous)
    } else if key.code == KeyCode::Enter || plain_char(key, 'l') {
        NavigationStep::FocusChanges
    } else if plain_char(key, 'p') {
        NavigationStep::TogglePreview
    } else if plain_char(key, 'c') {
        NavigationStep::FocusReviewComments
    } else {
        NavigationStep::Nothing
    }
}

/// The step that a key asks for while the content has the keyboard.
pub open spec fn content_step(key: KeyEvent) -> NavigationStep {
    if content_navigation_key(key, KeyCode::Down, 'j') {
        NavigationStep::MoveContent(DiffDirection::Next)
    } else if content_navigation_key(key, KeyCode::Up, 'k') {
        NavigationStep::MoveContent(DiffDirection::Previous)
    } else if key.code == KeyCode::Esc || key.code == KeyCode::Left || plain_char(key, 'f')
        || plain_char(key, 'h') {
        NavigationStep::FocusFiles
    } else {
        NavigationStep::Nothing
    }
}

/// The step that a key asks for.
pub open spec fn step_for(focus: DiffFocus, key: KeyEvent) -> NavigationStep {
    match focus {
        DiffFocus::Files => files_step(key),
        DiffFocus::Content => content_step(key),
    }
}

/// Finds the step that a key asks for.
pub fn navigation_step(focus: DiffFocus, key: KeyEvent) -> (step: NavigationStep)
    ensures
        step == step_for(focus, key),
{
    match focus {
        DiffFocus::Files => {
            if is_unfocused_scroll_key(key, KeyCode::Down, 'j') {
                NavigationStep::Scroll(DiffDirection::Next)
            } else if is_unfocused_scroll_key(key, KeyCode::Up, 'k') {
                NavigationStep::Scroll(DiffDirection::Previous)
            } else if is_plain_char_key(key, 'j') {
                NavigationStep::SelectFile(DiffDirection::Next)
            } else if is_plain_char_key(key, 'k') {
                NavigationStep::SelectFile(DiffDirection::Previous)
            } else if key.code == KeyCode::Enter || is_plain_char_key(key, 'l') {
                NavigationStep::FocusChanges
            } else if is_plain_char_key(key, 'p') {
                NavigationStep::TogglePreview
            } else if is_plain_char_key(key, 'c') {
                NavigationStep::FocusReviewComments
            } else {
                NavigationStep::Nothing
            }
        },
        DiffFocus::Content => {
            if is_content_navigation_key(key, KeyCode::Down, 'j') {
                NavigationStep::MoveContent(DiffDirection::Next)
            } else if is_content_navigation_key(key, KeyCode::Up, 'k') {
                NavigationStep::MoveContent(DiffDirection::Previous)
            } else if key.code == KeyCode::Esc || key.code == KeyCode::Left || is_plain_char_key(
                key,
                'f',
            ) || is_plain_char_key(key, 'h') {
                NavigationStep::FocusFiles
            } else {
                NavigationStep::Nothing
            }
        },
    }
}

/// The page with the keyboard on its review comments, if it shows any.
pub open spec fn with_review_comments_focused(diff: DiffMode) -> DiffMode {
    match diff.review_comments {
        Some(_) => DiffMode {
            review_comments: Some(DiffReviewComments { sidebar_focus: DiffSidebarFocus::Comments }),
            scroll_cache: None,
            scroll_offset: 0,
            ..diff
        },
        None => diff,
    }
}

/// Gives the keyboard to the review comments.
pub fn focus_review_comments(diff: &mut DiffMode)
    ensures
        *final(diff) == with_review_comments_focused(*old(diff)),
{
    if diff.review_comments.is_some() {
        diff.review_comments = Some(
            DiffReviewComments { sidebar_focus: DiffSidebarFocus::Comments },
        );
        diff.scroll_cache = None;
        diff.scroll_offset = 0;
    }
}

/// Whether the preview of the selected row was switched on or off; a new
/// preview starts at its top.
pub open spec fn preview_toggled(
    content: DiffContent,
    sessions: Seq<Session>,
    before: DiffMode,
    after: DiffMode,
    request: Option<PreviewRequest>,
) -> bool {
    let file_index = before.file_explorer_selected_index;
    if before.preview is Disabled && content.markdown_path(file_index) is None {
        after == before && request is None
    } else {
        &&& after == (DiffMode {
            preview: after.preview,
            scroll_cache: None,
            scroll_offset: 0,
            ..before
        })
        &&& if before.preview is Disabled {
            starts_preview(
                content,
                file_index,
                before.preview,
                sessions,
                before.session_id,
                after.preview,
                request,
            )
        } else {
            after.preview == before.preview.off() && request is None
        }
    }
}

/// Whether a step led from one state of the page to the other.
pub open spec fn step_taken<P: DiffPage>(
    page: &P,
    content: DiffContent,
    sessions: Seq<Session>,
    area: ViewportRect,
    step: NavigationStep,
    before: DiffMode,
    after: DiffMode,
    request: Option<PreviewRequest>,
) -> bool {
    match step {
        NavigationStep::FocusChanges => focused_changes(page, content, area, before, after)
            && request is None,
        NavigationStep::FocusFiles => after == (DiffMode {
            focus: DiffFocus::Files,
            line_comments: DiffLineComments { selection_start: None, ..before.line_comments },
            ..before
        }) && request is None,
        NavigationStep::FocusReviewComments => after == with_review_comments_focused(before)
            && request is None,
        NavigationStep::MoveContent(direction) => request is None && if preview_visible(
            content,
            before.file_explorer_selected_index,
            before.preview,
        ) {
            scrolled_by_row(page, area, direction, before, after)
        } else {
            moved_through_lines(page, area, direction, before, after)
        },
        NavigationStep::Nothing => after == before && request is None,
        NavigationStep::Scroll(direction) => scrolled_by_row(page, area, direction, before, after)
            && request is None,
        NavigationStep::SelectFile(direction) => file_selected(
            content,
            sessions,
            FileSelectionTarget::Adjacent(direction),
            before,
            after,
            request,
        ),
        NavigationStep::TogglePreview => preview_toggled(content, sessions, before, after, request),
    }
}

/// Whether the explorer's selection moved; a preview that is switched on
/// follows it.
pub open spec fn file_selected(
    content: DiffContent,
    sessions: Seq<Session>,
    target: FileSelectionTarget,
    before: DiffMode,
    after: DiffMode,
    request: Option<PreviewRequest>,
) -> bool {
    let row = target_row(
        before.file_explorer_selected_index,
        content.items@.len() as usize,
        target,
    ) as usize;
    let moved = with_file_selected(before, row);
    if row == before.file_explorer_selected_index || before.preview is Disabled {
        after == moved && request is None
    } else {
        &&& after == (DiffMode { preview: after.preview, ..moved })
        &&& starts_preview(
            content,
            row,
            before.preview,
            sessions,
            before.session_id,
            after.preview,
            request,
        )
    }
}

/// Moves the explorer's selection and lets a preview follow it.
///
/// Returns whether another row is selected, and the file to be read.
pub fn move_file_selection(
    diff: &mut DiffMode,
    content: &DiffContent,
    sessions: &Vec<Session>,
    target: FileSelectionTarget,
) -> (moved: (bool, Option<PreviewRequest>))
    ensures
        file_selected(*content, sessions@, target, *old(diff), *final(diff), moved.1),
        moved.0 == (final(diff).file_explorer_selected_index != old(
            diff,
        ).file_explorer_selected_index),
{
    let changed: bool = select_file(diff, content, target);
    if changed && diff.preview.is_enabled() {
        let (preview, request) = start_selected_preview_load(
            content,
            diff.file_explorer_selected_index,
            &diff.preview,
            sessions,
            &diff.session_id,
        );
        diff.preview = preview;
        return (changed, request);
    }
    (changed, None)
}

/// Applies a navigation key and returns the file to be read for a preview.
pub fn apply_navigation_key<P: DiffPage>(
    diff: &mut DiffMode,
    content: &DiffContent,
    sessions: &Vec<Session>,
    page: &P,
    area: ViewportRect,
    key: KeyEvent,
) -> (request: Option<PreviewRequest>)
    ensures
        step_taken(
            page,
            *content,
            sessions@,
            area,
            step_for(old(diff).focus, key),
            *old(diff),
            *final(diff),
            request,
        ),
{
    match navigation_step(diff.focus, key) {
        NavigationStep::FocusChanges => {
            focus_selected_file_changes(diff, content, page, area);
            None
        },
        NavigationStep::FocusFiles => {
            diff.line_comments.cancel_selection();
            diff.focus = DiffFocus::Files;
            None
        },
        NavigationStep::FocusReviewComments => {
            focus_review_comments(diff);
            None
        },
        NavigationStep::MoveContent(direction) => {
            move_content_selection(diff, content, page, area, direction);
            None
        },
        NavigationStep::Nothing => None,
        NavigationStep::Scroll(direction) => {
            scroll_content_by_row(diff, page, area, direction);
            None
        },
        NavigationStep::SelectFile(direction) => move_file_selection(
            diff,
            content,
            sessions,
            FileSelectionTarget::Adjacent(direction),
        ).1,
        NavigationStep::TogglePreview => {
            let toggled: Option<(DiffPreview, Option<PreviewRequest>)> = toggle_selected_preview(
                content,
                diff.file_explorer_selected_index,
                &diff.preview,
                sessions,
                &diff.session_id,
            );
            match toggled {
                Some((preview, request)) => {
                    diff.preview = preview;
                    diff.scroll_cache = None;
                    diff.scroll_offset = 0;
                    request
                },
                None => None,
            }
        },
    }
}

/// The page after a key that begins or ends a row selection, or nothing for
/// any other key.
pub open spec fn row_selection(
    content: DiffContent,
    diff: DiffMode,
    key: KeyEvent,
    can_comment: bool,
) -> Option<DiffMode> {
    if diff.line_comments.selection_start is Some && key.code == KeyCode::Esc {
        Some(
            DiffMode {
                line_comments: DiffLineComments { selection_start: None, ..diff.line_comments },
                ..diff
            },
        )
    } else if can_comment && shift_char(key, 'v') && diff.focus == DiffFocus::Content
        && !diff.review_comments_focused() && !preview_visible(
        content,
        diff.file_explorer_selected_index,
        diff.preview,
    ) {
        Some(
            DiffMode {
                line_comments: DiffLineComments {
                    selection_start: Some(diff.selected_diff_line_index),
                    ..diff.line_comments
                },
                ..diff
            },
        )
    } else {
        None
    }
}

/// Begins or ends a row selection.
pub fn handle_row_selection_key(
    diff: &mut DiffMode,
    content: &DiffContent,
    key: KeyEvent,
    can_comment: bool,
) -> (handled: bool)
    ensures
        match row_selection(*content, *old(diff), key, can_comment) {
            Some(next) => handled && *final(diff) == next,
            None => !handled && *final(diff) == *old(diff),
        },
{
    if diff.line_comments.is_selecting() && key.code == KeyCode::Esc {
        diff.line_comments.cancel_selection();
        return true;
    }
    if !can_comment || !is_shift_char_key(key, 'v') || diff.focus != DiffFocus::Content
        || diff.are_review_comments_focused() || selected_preview_is_visible(
        content,
        diff.file_explorer_selected_index,
        &diff.preview,
    ) {
        return false;
    }
    diff.line_comments.start_selection(diff.selected_diff_line_index);
    true
}

/// Whether `target` is what a key asks to comment on.
///
/// The shifted `c` comments on the whole file. `Enter` comments on the
/// selected comment's target, or else on the selected changed lines.
pub open spec fn comment_requested(
    content: DiffContent,
    diff: DiffMode,
    key: KeyEvent,
    can_comment: bool,
    target: Option<DiffCommentTarget>,
) -> bool {
    let file_index = diff.file_explorer_selected_index;
    if can_comment && shift_char(key, 'c') && !diff.review_comments_focused() {
        match content.file_path(file_index) {
            Some(path) => target == Some(DiffCommentTarget::File { path }),
            None => target is None,
        }
    } else if !can_comment || key.code != KeyCode::Enter || key.modifiers
        != KeyModifiers::none_spec() || diff.focus != DiffFocus::Content
        || diff.review_comments_focused() || preview_visible(content, file_index, diff.preview) {
        target is None
    } else {
        match selected_target(diff.line_comments) {
            Some(selected) => target matches Some(copy) && copy_of_target(selected, copy),
            None => {
                let (start, end) = diff.line_comments.row_bounds(diff.selected_diff_line_index);
                let lines = content.lines_between(file_index, start, end);
                if lines.len() == 0 {
                    target is None
                } else {
                    &&& target matches Some(DiffCommentTarget::Lines(anchors))
                    &&& anchors@ == lines
                }
            },
        }
    }
}

/// What the highlighted comment is about.
pub open spec fn selected_target(comments: DiffLineComments) -> Option<DiffCommentTarget> {
    match comments.selected_comment {
        Some(index) if index < comments.comments@.len() => Some(
            comments.comments@[index as int].target,
        ),
        _ => None,
    }
}

/// Finds what a key asks to comment on.
pub fn selected_line_comment_target(
    diff: &DiffMode,
    content: &DiffContent,
    key: KeyEvent,
    can_comment: bool,
) -> (target: Option<DiffCommentTarget>)
    ensures
        comment_requested(*content, *diff, key, can_comment, target),
{
    let file_index: usize = diff.file_explorer_selected_index;
    let review_comments_are_focused: bool = diff.are_review_comments_focused();
    if can_comment && is_shift_char_key(key, 'c') && !review_comments_are_focused {
        return match content.selected_file_path(file_index) {
            Some(path) => Some(DiffCommentTarget::File { path: path.clone() }),
            None => None,
        };
    }
    if !can_comment || key.code != KeyCode::Enter || key.modifiers != KeyModifiers::none()
        || diff.focus != DiffFocus::Content || review_comments_are_focused
        || selected_preview_is_visible(content, file_index, &diff.preview) {
        return None;
    }
    if let Some(index) = diff.line_comments.selected_comment {
        if index < diff.line_comments.comments.len() {
            return Some(copy_target(&diff.line_comments.comments[index].target));
        }
    }
    let (start, end) = diff.line_comments.selected_row_bounds(diff.selected_diff_line_index);
    let anchors: Vec<DiffLineCommentAnchor> = content.selected_changed_lines(
        file_index,
        start,
        end,
    );
    if anchors.len() == 0 {
        return None;
    }
    Some(DiffCommentTarget::Lines(anchors))
}

} // verus!
