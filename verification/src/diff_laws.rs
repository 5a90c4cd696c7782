//! What each key and gesture of the diff page leads to.

use vstd::prelude::*;

use crate::app_mode::{
    AppMode, AtMentionState, ChatFocus, DiffCommentTarget, DiffFocus, DiffLineCommentAnchor,
    DiffLineComments,    DiffMode, DiffPreview, DiffRestoreTarget, DiffScrollCache, DiffSidebarFocus,
    DiffPreviewUnavailableReason, HelpContext, PromptModeSnapshot,
};
use crate::diff::{
    DiffEffects, DiffReplyFacts, base_prompt, comments_appended, diff_key_applied, pointer_selected,
    wheel_target,
};
use crate::diff_comments::{
    CommentEditor, MentionSync, comment_key_applied, comment_opened, pasted_into_comment,
};
use crate::diff_navigation::{
    DiffDirection, FileSelectionTarget, comment_requested, file_selected, line_beside,
    shown_selection, step_for, step_taken,
};
use crate::diff_page::{DiffContent, DiffPage, DiffPlace, lemma_anchor_found, same_anchor};
use crate::diff_preview::{PreviewRequest, starts_preview};
use crate::geometry::ViewportRect;
use crate::input::{InputState, unified_breaks};
use crate::key::{KeyCode, KeyEvent};
use crate::prompt_history::recalled_prompts;
use crate::session::{Session, SessionId, lemma_row_of, row_of, session_listed};
use crate::text_lines::texts;
use crate::viewport::WheelDirection;

verus! {

/// Whether no modifier is held.
pub open spec fn bare(key: KeyEvent) -> bool {
    !key.modifiers.alt && !key.modifiers.control && !key.modifiers.shift && !key.modifiers.other
}

/// Whether shift is held and nothing else.
pub open spec fn shift_only(key: KeyEvent) -> bool {
    !key.modifiers.alt && !key.modifiers.control && key.modifiers.shift && !key.modifiers.other
}

/// Whether a key is a letter without modifiers.
pub open spec fn letter(key: KeyEvent, character: char) -> bool {
    bare(key) && key.code == KeyCode::Char(character)
}

/// Whether a key goes down in the content.
pub open spec fn goes_down(key: KeyEvent) -> bool {
    key.code == KeyCode::Down || letter(key, 'j') || shift_only(key) && (key.code
        == KeyCode::Char('j') || key.code == KeyCode::Char('J'))
}

/// Whether a key goes up in the content.
pub open spec fn goes_up(key: KeyEvent) -> bool {
    key.code == KeyCode::Up || letter(key, 'k') || shift_only(key) && (key.code == KeyCode::Char(
        'k',
    ) || key.code == KeyCode::Char('K'))
}

/// The file that a preview is about.
pub open spec fn previewed(preview: DiffPreview) -> Option<Seq<char>> {
    match preview {
        DiffPreview::Loading { path, .. } => Some(path@),
        DiffPreview::Ready { path, .. } => Some(path@),
        DiffPreview::Unavailable { path, .. } => Some(path@),
        _ => None,
    }
}

/// Whether the page shows a preview of the selected row.
pub open spec fn shows_preview(content: DiffContent, diff: DiffMode) -> bool {
    let index = diff.file_explorer_selected_index;
    &&& index < content.items@.len()
    &&& content.items@[index as int].is_markdown
    &&& content.items@[index as int].path matches Some(path)
    &&& previewed(diff.preview) == Some(path@)
}

/// Whether the selected row is a file.
pub open spec fn on_file(content: DiffContent, diff: DiffMode) -> bool {
    diff.file_explorer_selected_index < content.items@.len()
        && content.items@[diff.file_explorer_selected_index as int].path is Some
}

/// The selected row in the area it is painted in.
pub open spec fn here(diff: DiffMode, area: ViewportRect) -> DiffPlace {
    DiffPlace { area, file_index: diff.file_explorer_selected_index }
}

/// Whether the review comments have the keyboard.
pub open spec fn in_sidebar(diff: DiffMode) -> bool {
    diff.review_comments is Some && diff.review_comments->0.sidebar_focus
        == DiffSidebarFocus::Comments
}

/// Whether the page counts that many changed lines.
pub open spec fn counts<P: DiffPage>(
    page: &P,
    diff: DiffMode,
    area: ViewportRect,
    count: usize,
) -> bool {
    forall|answer: usize|
        call_ensures(
            P::changed_line_count,
            (page, &diff.line_comments, here(diff, area)),
            answer,
        ) ==> answer == count
}

/// Whether the page can scroll so far, as it measures or as it remembers for
/// this row and area.
pub open spec fn scrolls_to<P: DiffPage>(
    page: &P,
    diff: DiffMode,
    area: ViewportRect,
    limit: u16,
) -> bool {
    &&& diff.scroll_cache matches Some(known) ==> (known.content_area == area
        && known.file_explorer_selected_index == diff.file_explorer_selected_index
        ==> known.max_scroll_offset == limit)
    &&& forall|answer: u16|
        call_ensures(
            P::max_scroll_offset,
            (page, &diff.line_comments, &diff.preview, here(diff, area)),
            answer,
        ) ==> answer == limit
}

/// Whether everything but the scroll offset and its limit stayed.
pub open spec fn only_scrolled(before: DiffMode, after: DiffMode) -> bool {
    after == (DiffMode {
        scroll_cache: after.scroll_cache,
        scroll_offset: after.scroll_offset,
        ..before
    })
}

/// Whether a row down or up led from one offset to the next.
pub open spec fn one_row(direction: DiffDirection, before: u16, limit: u16, after: u16) -> bool {
    match direction {
        DiffDirection::Next => {
            &&& before < limit ==> after == before + 1
            &&& before >= limit ==> after == limit
        },
        DiffDirection::Previous => {
            &&& 0 < before <= limit ==> after == before - 1
            &&& before > limit && limit > 0 ==> after == limit - 1
            &&& before == 0 || limit == 0 ==> after == 0
        },
    }
}

/// Whether everything but the selected line, its comment and the scroll
/// offset stayed.
pub open spec fn only_moved(before: DiffMode, after: DiffMode) -> bool {
    &&& after == (DiffMode {
        line_comments: after.line_comments,
        scroll_offset: after.scroll_offset,
        selected_diff_line_index: after.selected_diff_line_index,
        ..before
    })
    &&& after.line_comments == (DiffLineComments {
        selected_comment: after.line_comments.selected_comment,
        ..before.line_comments
    })
}

/// While rows are selected, a key down steps to the next changed line and a key
/// up to the one before, and neither goes past the last or the first.
pub proof fn lemma_row_selection_steps<P: DiffPage>(
    page: &P,
    content: DiffContent,
    sessions: Seq<Session>,
    area: ViewportRect,
    key: KeyEvent,
    before: DiffMode,
    after: DiffMode,
    request: Option<PreviewRequest>,
    count: usize,
)
    requires
        step_taken(
            page,
            content,
            sessions,
            area,
            step_for(before.focus, key),
            before,
            after,
            request,
        ),
        before.focus == DiffFocus::Content,
        before.line_comments.selection_start is Some,
        !shows_preview(content, before),
        counts(page, before, area, count),
    ensures
        goes_down(key) && before.selected_diff_line_index + 1 < count
            ==> after.selected_diff_line_index == before.selected_diff_line_index + 1,
        goes_down(key) && before.selected_diff_line_index + 1 >= count && count > 0
            ==> after.selected_diff_line_index == count - 1,
        goes_up(key) && before.selected_diff_line_index > 0 ==> after.selected_diff_line_index
            == before.selected_diff_line_index - 1,
        goes_up(key) && before.selected_diff_line_index == 0 ==> after.selected_diff_line_index
            == 0,
        goes_down(key) || goes_up(key) ==> {
            &&& after.line_comments.selected_comment is None
            &&& after.line_comments.selection_start == before.line_comments.selection_start
            &&& only_moved(before, after)
            &&& request is None
        },
{
}

/// While rows are selected, a step down and a step up come back to the same
/// changed line, and so do a step up and a step down.
pub proof fn lemma_row_selection_comes_back<P: DiffPage>(
    page: &P,
    content: DiffContent,
    sessions: Seq<Session>,
    area: ViewportRect,
    first: KeyEvent,
    second: KeyEvent,
    before: DiffMode,
    middle: DiffMode,
    after: DiffMode,
    requests: (Option<PreviewRequest>, Option<PreviewRequest>),
    count: usize,
)
    requires
        step_taken(
            page,
            content,
            sessions,
            area,
            step_for(before.focus, first),
            before,
            middle,
            requests.0,
        ),
        step_taken(
            page,
            content,
            sessions,
            area,
            step_for(middle.focus, second),
            middle,
            after,
            requests.1,
        ),
        before.focus == DiffFocus::Content,
        before.line_comments.selection_start is Some,
        !shows_preview(content, before),
        counts(page, before, area, count),
        counts(page, middle, area, count),
        before.selected_diff_line_index < count,
    ensures
        goes_down(first) && goes_up(second) && before.selected_diff_line_index + 1 < count
            ==> after.selected_diff_line_index == before.selected_diff_line_index,
        goes_up(first) && goes_down(second) && before.selected_diff_line_index > 0
            ==> after.selected_diff_line_index == before.selected_diff_line_index,
{
    if goes_down(first) || goes_up(first) {
        lemma_row_selection_steps(
            page,
            content,
            sessions,
            area,
            first,
            before,
            middle,
            requests.0,
            count,
        );
        lemma_row_selection_steps(
            page,
            content,
            sessions,
            area,
            second,
            middle,
            after,
            requests.1,
            count,
        );
    }
}

/// Without selected rows the page says which changed line or comment follows.
pub proof fn lemma_page_decides_next_line<P: DiffPage>(
    page: &P,
    content: DiffContent,
    sessions: Seq<Session>,
    area: ViewportRect,
    key: KeyEvent,
    before: DiffMode,
    after: DiffMode,
    request: Option<PreviewRequest>,
    below: (usize, Option<usize>),
    above: (usize, Option<usize>),
)
    requires
        step_taken(
            page,
            content,
            sessions,
            area,
            step_for(before.focus, key),
            before,
            after,
            request,
        ),
        before.focus == DiffFocus::Content,
        before.line_comments.selection_start is None,
        !shows_preview(content, before),
        forall|answer: (usize, Option<usize>)|
            call_ensures(
                P::next_selection,
                (
                    page,
                    &before.line_comments,
                    here(before, area),
                    before.selected_diff_line_index,
                    before.line_comments.selected_comment,
                ),
                answer,
            ) ==> answer == below,
        forall|answer: (usize, Option<usize>)|
            call_ensures(
                P::previous_selection,
                (
                    page,
                    &before.line_comments,
                    here(before, area),
                    before.selected_diff_line_index,
                    before.line_comments.selected_comment,
                ),
                answer,
            ) ==> answer == above,
    ensures
        goes_down(key) ==> after.selected_diff_line_index == below.0
            && after.line_comments.selected_comment == below.1,
        goes_up(key) && !goes_down(key) ==> after.selected_diff_line_index == above.0
            && after.line_comments.selected_comment == above.1,
        goes_down(key) || goes_up(key) ==> only_moved(before, after) && request is None,
{
}

/// After a move through the changed lines the page stands where it shows the
/// selected one, and otherwise where it stood.
pub proof fn lemma_selected_line_is_shown<P: DiffPage>(
    page: &P,
    content: DiffContent,
    sessions: Seq<Session>,
    area: ViewportRect,
    key: KeyEvent,
    before: DiffMode,
    after: DiffMode,
    request: Option<PreviewRequest>,
    given: Option<u16>,
)
    requires
        step_taken(
            page,
            content,
            sessions,
            area,
            step_for(before.focus, key),
            before,
            after,
            request,
        ),
        before.focus == DiffFocus::Content,
        !shows_preview(content, before),
        goes_down(key) || goes_up(key),
        forall|answer: Option<u16>|
            call_ensures(
                P::selection_scroll,
                (
                    page,
                    &before.line_comments,
                    here(before, area),
                    after.selected_diff_line_index,
                    after.line_comments.selected_comment,
                    before.scroll_offset,
                ),
                answer,
            ) ==> answer == given,
    ensures
        given matches Some(offset) ==> after.scroll_offset == offset,
        given is None ==> after.scroll_offset == before.scroll_offset,
{
    let direction = if goes_down(key) {
        DiffDirection::Next
    } else {
        DiffDirection::Previous
    };
    let place = here(before, area);
    let (line, comment, shown) = choose|line: usize, comment: Option<usize>, shown: Option<u16>|
        #[trigger] shown_selection(page, place, direction, before, line, comment, shown) && after
            == (DiffMode {
            line_comments: DiffLineComments { selected_comment: comment, ..before.line_comments },
            scroll_offset: match shown {
                Some(offset) => offset,
                None => before.scroll_offset,
            },
            selected_diff_line_index: line,
            ..before
        });
    assert(shown == given);
}

/// A preview, and any content beside the explorer, scrolls by one row and stays
/// inside; the measured limit is remembered for its row and area.
pub proof fn lemma_content_scrolls_by_row<P: DiffPage>(
    page: &P,
    content: DiffContent,
    sessions: Seq<Session>,
    area: ViewportRect,
    key: KeyEvent,
    before: DiffMode,
    after: DiffMode,
    request: Option<PreviewRequest>,
    limit: u16,
)
    requires
        step_taken(
            page,
            content,
            sessions,
            area,
            step_for(before.focus, key),
            before,
            after,
            request,
        ),
        scrolls_to(page, before, area, limit),
        before.focus == DiffFocus::Content && shows_preview(content, before) || before.focus
            == DiffFocus::Files && !bare(key) || before.focus == DiffFocus::Files && (key.code
            == KeyCode::Down || key.code == KeyCode::Up),
    ensures
        goes_down(key) ==> one_row(
            DiffDirection::Next,
            before.scroll_offset,
            limit,
            after.scroll_offset,
        ),
        goes_up(key) && !goes_down(key) ==> one_row(
            DiffDirection::Previous,
            before.scroll_offset,
            limit,
            after.scroll_offset,
        ),
        goes_down(key) || goes_up(key) ==> {
            &&& only_scrolled(before, after)
            &&& request is None
            &&& after.scroll_cache == Some(
                DiffScrollCache {
                    content_area: area,
                    file_explorer_selected_index: before.file_explorer_selected_index,
                    max_scroll_offset: limit,
                },
            )
        },
{
}

/// In the explorer, `j` selects the next row and `k` the one before, around the
/// ends; another row is shown from its top.
pub proof fn lemma_explorer_selects_adjacent<P: DiffPage>(
    page: &P,
    content: DiffContent,
    sessions: Seq<Session>,
    area: ViewportRect,
    key: KeyEvent,
    before: DiffMode,
    after: DiffMode,
    request: Option<PreviewRequest>,
)
    requires
        step_taken(
            page,
            content,
            sessions,
            area,
            step_for(before.focus, key),
            before,
            after,
            request,
        ),
        before.focus == DiffFocus::Files,
        content.items@.len() <= usize::MAX,
        before.file_explorer_selected_index < content.items@.len(),
    ensures
        ({
            let index = before.file_explorer_selected_index;
            let count = content.items@.len();
            &&& letter(key, 'j') && index + 1 < count ==> after.file_explorer_selected_index
                == index + 1
            &&& letter(key, 'j') && index + 1 == count ==> after.file_explorer_selected_index == 0
            &&& letter(key, 'k') && index > 0 ==> after.file_explorer_selected_index == index - 1
            &&& letter(key, 'k') && index == 0 ==> after.file_explorer_selected_index == count - 1
            &&& after.file_explorer_selected_index != index ==> {
                &&& letter(key, 'j') || letter(key, 'k')
                &&& after.scroll_offset == 0
                &&& after.scroll_cache is None
                &&& after.selected_diff_line_index == 0
                &&& after.line_comments.selected_comment is None
                &&& after.focus == DiffFocus::Files
                &&& after.line_comments.comments == before.line_comments.comments
                &&& before.preview is Disabled ==> after.preview == before.preview && request
                    is None
            }
            &&& after.file_explorer_selected_index == index && (letter(key, 'j') || letter(key, 'k'))
                ==> after == before && request is None
        }),
{
}

/// The content gives the keyboard back to the explorer and ends a row
/// selection; what is selected stays.
pub proof fn lemma_content_gives_keyboard_back<P: DiffPage>(
    page: &P,
    content: DiffContent,
    sessions: Seq<Session>,
    area: ViewportRect,
    key: KeyEvent,
    before: DiffMode,
    after: DiffMode,
    request: Option<PreviewRequest>,
)
    requires
        step_taken(
            page,
            content,
            sessions,
            area,
            step_for(before.focus, key),
            before,
            after,
            request,
        ),
        before.focus == DiffFocus::Content,
    ensures
        key.code == KeyCode::Esc || key.code == KeyCode::Left || letter(key, 'f') || letter(key, 'h')
            ==> {
            &&& after.focus == DiffFocus::Files
            &&& after.line_comments.selection_start is None
            &&& after == (DiffMode {
                focus: after.focus,
                line_comments: after.line_comments,
                ..before
            })
            &&& after.line_comments == (DiffLineComments {
                selection_start: None,
                ..before.line_comments
            })
            &&& request is None
        },
        after.focus == DiffFocus::Files ==> key.code == KeyCode::Esc || key.code == KeyCode::Left
            || letter(key, 'f') || letter(key, 'h'),
        !(key.code == KeyCode::Esc || key.code == KeyCode::Left || letter(key, 'f') || letter(
            key,
            'h',
        ) || goes_down(key) || goes_up(key)) ==> after == before && request is None,
{
}

/// Enter and `l` go from the explorer into a file; a folder keeps the keyboard,
/// and a previewed file starts on its first line.
pub proof fn lemma_explorer_enters_file<P: DiffPage>(
    page: &P,
    content: DiffContent,
    sessions: Seq<Session>,
    area: ViewportRect,
    key: KeyEvent,
    before: DiffMode,
    after: DiffMode,
    request: Option<PreviewRequest>,
)
    requires
        step_taken(
            page,
            content,
            sessions,
            area,
            step_for(before.focus, key),
            before,
            after,
            request,
        ),
        before.focus == DiffFocus::Files,
    ensures
        after.focus == DiffFocus::Content ==> (key.code == KeyCode::Enter || letter(key, 'l'))
            && on_file(content, before),
        (key.code == KeyCode::Enter || letter(key, 'l')) && !on_file(content, before) ==> after
            == before && request is None,
        (key.code == KeyCode::Enter || letter(key, 'l')) && shows_preview(content, before) ==> {
            &&& after.focus == DiffFocus::Content
            &&& after.selected_diff_line_index == 0
            &&& after.scroll_offset == before.scroll_offset
            &&& after.line_comments.selected_comment is None
        },
        key.code == KeyCode::Enter || letter(key, 'l') ==> {
            &&& after.file_explorer_selected_index == before.file_explorer_selected_index
            &&& after.preview == before.preview
            &&& after.line_comments.comments == before.line_comments.comments
            &&& request is None
        },
{
}

/// Entering a file lands on the changed line that the page paints beside the
/// selected row, and stays in the explorer where it paints none.
pub proof fn lemma_entered_line<P: DiffPage>(
    page: &P,
    content: DiffContent,
    sessions: Seq<Session>,
    area: ViewportRect,
    key: KeyEvent,
    before: DiffMode,
    after: DiffMode,
    request: Option<PreviewRequest>,
    has_sidebar: bool,
    list: ViewportRect,
    row: u16,
    found: Option<usize>,
)
    requires
        step_taken(
            page,
            content,
            sessions,
            area,
            step_for(before.focus, key),
            before,
            after,
            request,
        ),
        before.focus == DiffFocus::Files,
        key.code == KeyCode::Enter || letter(key, 'l'),
        on_file(content, before),
        !shows_preview(content, before),
        content.items@.len() <= usize::MAX,
        before.file_explorer_selected_index < content.items@.len(),
        list.height > 2,
        has_sidebar == (before.review_comments is Some),
        forall|answer: ViewportRect|
            call_ensures(P::file_list_area, (page, area, has_sidebar), answer) ==> answer == list,
        row == (if before.file_explorer_selected_index < list.height - 3 {
            before.file_explorer_selected_index as int
        } else {
            list.height - 3
        }),
        forall|answer: Option<usize>|
            call_ensures(
                P::changed_line_at_row,
                (page, &before.line_comments, here(before, area), before.scroll_offset, row),
                answer,
            ) ==> answer == found,
    ensures
        found is None ==> after == before,
        found matches Some(line) ==> {
            &&& after.focus == DiffFocus::Content
            &&& after.selected_diff_line_index == line
            &&& after.line_comments.selected_comment is None
        },
{
    let place = here(before, area);
    let (painted, answer) = choose|painted: ViewportRect, answer: Option<usize>| #[trigger]
        line_beside(page, content, place, before, painted, answer) && match answer {
            None => after == before,
            Some(line) => exists|given: Option<u16>| #[trigger]
                call_ensures(
                    P::changed_line_scroll,
                    (page, &before.line_comments, place, line, before.scroll_offset),
                    given,
                ) && after == (DiffMode {
                    focus: DiffFocus::Content,
                    line_comments: DiffLineComments {
                        selected_comment: None,
                        ..before.line_comments
                    },
                    scroll_offset: match given {
                        Some(offset) => offset,
                        None => before.scroll_offset,
                    },
                    selected_diff_line_index: line,
                    ..before
                }),
        };
    assert(painted == list);
    assert(answer == found);
}

/// In the explorer, `p` switches the preview of a markdown file on and off, from
/// its top; a row without one stays.
pub proof fn lemma_p_switches_preview<P: DiffPage>(
    page: &P,
    content: DiffContent,
    sessions: Seq<Session>,
    area: ViewportRect,
    key: KeyEvent,
    before: DiffMode,
    after: DiffMode,
    request: Option<PreviewRequest>,
)
    requires
        step_taken(
            page,
            content,
            sessions,
            area,
            step_for(before.focus, key),
            before,
            after,
            request,
        ),
        before.focus == DiffFocus::Files,
        letter(key, 'p'),
    ensures
        !(before.preview is Disabled) ==> {
            &&& after.preview is Disabled
            &&& after.scroll_offset == 0
            &&& request is None
        },
        before.preview is Disabled && on_file(content, before)
            && content.items@[before.file_explorer_selected_index as int].is_markdown ==> {
            &&& previewed(after.preview)
                == Some(content.items@[before.file_explorer_selected_index as int].path->0@)
            &&& after.scroll_offset == 0
            &&& after.scroll_cache is None
            &&& (request is Some) == (row_of(sessions, before.session_id@) is Some)
            &&& (after.preview is Loading) == (request is Some)
            &&& request matches Some(sent) ==> {
                &&& Some(sent.path) == content.items@[before.file_explorer_selected_index as int].path
                &&& sent.session_id == before.session_id
                &&& sent.folder == sessions[row_of(sessions, before.session_id@)->0 as int].folder
            }
        },
        before.preview is Disabled && !(on_file(content, before)
            && content.items@[before.file_explorer_selected_index as int].is_markdown) ==> after
            == before && request is None,
        after.file_explorer_selected_index == before.file_explorer_selected_index,
        after.focus == before.focus,
        after.line_comments == before.line_comments,
{
}

/// In the explorer, `c` gives the keyboard to the review comments where there
/// are any, from their top.
pub proof fn lemma_c_enters_review_comments<P: DiffPage>(
    page: &P,
    content: DiffContent,
    sessions: Seq<Session>,
    area: ViewportRect,
    key: KeyEvent,
    before: DiffMode,
    after: DiffMode,
    request: Option<PreviewRequest>,
)
    requires
        step_taken(
            page,
            content,
            sessions,
            area,
            step_for(before.focus, key),
            before,
            after,
            request,
        ),
        before.focus == DiffFocus::Files,
        letter(key, 'c'),
    ensures
        before.review_comments is None ==> after == before,
        before.review_comments is Some ==> {
            &&& in_sidebar(after)
            &&& after.scroll_offset == 0
            &&& after.scroll_cache is None
            &&& after.focus == DiffFocus::Files
            &&& after.file_explorer_selected_index == before.file_explorer_selected_index
            &&& after.line_comments == before.line_comments
        },
        request is None,
{
}

/// Keys without a meaning in the explorer change nothing.
pub proof fn lemma_other_explorer_keys<P: DiffPage>(
    page: &P,
    content: DiffContent,
    sessions: Seq<Session>,
    area: ViewportRect,
    key: KeyEvent,
    before: DiffMode,
    after: DiffMode,
    request: Option<PreviewRequest>,
)
    requires
        step_taken(
            page,
            content,
            sessions,
            area,
            step_for(before.focus, key),
            before,
            after,
            request,
        ),
        before.focus == DiffFocus::Files,
    ensures
        !(goes_down(key) || goes_up(key) || key.code == KeyCode::Enter || letter(key, 'l') || letter(
            key,
            'p',
        ) || letter(key, 'c')) ==> after == before && request is None,
        request is Some ==> letter(key, 'j') || letter(key, 'k') || letter(key, 'p'),
{
}

/// A preview that is switched on follows the selection: a markdown file is
/// loaded under a new number, any other row has none.
pub proof fn lemma_preview_follows_selection(
    content: DiffContent,
    sessions: Seq<Session>,
    target: FileSelectionTarget,
    before: DiffMode,
    after: DiffMode,
    request: Option<PreviewRequest>,
)
    requires
        file_selected(content, sessions, target, before, after, request),
        after.file_explorer_selected_index != before.file_explorer_selected_index,
        !(before.preview is Disabled),
    ensures
        ({
            let row = after.file_explorer_selected_index;
            let shown = row < content.items@.len() && content.items@[row as int].is_markdown
                && content.items@[row as int].path is Some;
            &&& shown ==> previewed(after.preview) == Some(content.items@[row as int].path->0@)
            &&& !shown ==> after.preview is Unsupported && request is None
            &&& request is Some <==> shown && row_of(sessions, before.session_id@) is Some
            &&& request matches Some(sent) ==> {
                &&& Some(sent.path) == content.items@[row as int].path
                &&& sent.session_id == before.session_id
                &&& sent.folder == sessions[row_of(sessions, before.session_id@)->0 as int].folder
                &&& after.preview matches DiffPreview::Loading { path, request_id }
                &&& path == sent.path
                &&& request_id == sent.request_id
            }
        }),
{
}

/// A click selects its row and a notch the adjacent one, unless a comment is
/// edited, rows are selected or the review comments have the keyboard.
pub proof fn lemma_pointer_selects_rows(
    content: DiffContent,
    sessions: Seq<Session>,
    target: FileSelectionTarget,
    direction: WheelDirection,
    before: DiffMode,
    after: DiffMode,
    changed: bool,
    preview: Option<PreviewRequest>,
)
    requires
        pointer_selected(content, sessions, target, before, after, changed, preview),
        content.items@.len() <= usize::MAX,
        before.file_explorer_selected_index < content.items@.len(),
    ensures
        ({
            let index = before.file_explorer_selected_index;
            let count = content.items@.len();
            let held = before.line_comments.editing_index is Some
                || before.line_comments.selection_start is Some || in_sidebar(before);
            &&& held ==> after == before && !changed && preview is None
            &&& changed <==> after.file_explorer_selected_index != index
            &&& !changed ==> after == before && preview is None
            &&& !held ==> {
                &&& target matches FileSelectionTarget::Index(row) ==> {
                    &&& row < count ==> after.file_explorer_selected_index == row
                    &&& row >= count ==> after == before
                }
                &&& target == wheel_target(WheelDirection::Down) ==> {
                    &&& index + 1 < count ==> after.file_explorer_selected_index == index + 1
                    &&& index + 1 == count ==> after.file_explorer_selected_index == 0
                }
                &&& target == wheel_target(WheelDirection::Up) ==> {
                    &&& index > 0 ==> after.file_explorer_selected_index == index - 1
                    &&& index == 0 ==> after.file_explorer_selected_index == count - 1
                }
            }
            &&& changed ==> {
                &&& after.scroll_offset == 0
                &&& after.selected_diff_line_index == 0
                &&& after.line_comments.selected_comment is None
                &&& after.focus == before.focus
            }
        }),
{
}

/// The question mark opens the help over the page, and remembers the page.
pub proof fn lemma_question_mark_explains_page<P: DiffPage, E: CommentEditor>(
    page: &P,
    editor: &E,
    content: DiffContent,
    sessions: Seq<Session>,
    facts: DiffReplyFacts,
    area: ViewportRect,
    key: KeyEvent,
    before: DiffMode,
    after: AppMode,
    effects: DiffEffects,
)
    requires
        diff_key_applied(
            page,
            editor,
            content,
            sessions,
            facts,
            area,
            key,
            before,
            after,
            effects,
        ),
        before.line_comments.editing_index is None,
        sessions.len() <= usize::MAX,
    ensures
        key.code == KeyCode::Char('?') ==> {
            &&& after matches AppMode::Help {
                context: HelpContext::Diff { can_comment, diff },
                scroll_offset,
            }
            &&& scroll_offset == 0
            &&& can_comment == (facts.allows_reply && session_listed(sessions, before.session_id@))
            &&& diff == (DiffMode { scroll_cache: None, ..before })
            &&& effects.saved is None
            &&& effects.inserted is None
            &&& effects.preview is None
            &&& !effects.lookup_files
        },
        after is Help ==> key.code == KeyCode::Char('?'),
{
    lemma_row_of(sessions, before.session_id@);
}

/// The letter `q`, and escape outside of the content, leave the page: for the
/// composer or question it was opened from, and else for the end of the session.
/// Its comments are kept.
pub proof fn lemma_page_is_left<P: DiffPage, E: CommentEditor>(
    page: &P,
    editor: &E,
    content: DiffContent,
    sessions: Seq<Session>,
    facts: DiffReplyFacts,
    area: ViewportRect,
    key: KeyEvent,
    before: DiffMode,
    after: AppMode,
    effects: DiffEffects,
)
    requires
        diff_key_applied(
            page,
            editor,
            content,
            sessions,
            facts,
            area,
            key,
            before,
            after,
            effects,
        ),
        before.line_comments.editing_index is None,
    ensures
        key.code == KeyCode::Char('q') || key.code == KeyCode::Esc && before.focus
            == DiffFocus::Files ==> {
            &&& before.restore is None ==> after == (AppMode::View {
                scroll_offset: None,
                session_id: before.session_id,
            })
            &&& before.restore matches Some(DiffRestoreTarget::Prompt(prompt)) ==> after == (
            AppMode::Prompt { focus: ChatFocus::Input, prompt })
            &&& before.restore matches Some(DiffRestoreTarget::Question(question)) ==> after == (
            AppMode::Question { focus: ChatFocus::Input, question })
            &&& effects.saved matches Some(saved)
            &&& saved.comments == before.line_comments
            &&& saved.session_id == before.session_id
            &&& effects.preview is None
            &&& effects.inserted is None
            &&& !effects.lookup_files
        },
        after is View || after is Question ==> key.code == KeyCode::Char('q') || key.code
            == KeyCode::Esc && before.focus == DiffFocus::Files,
        effects.saved matches Some(saved) ==> saved.session_id == before.session_id
            && saved.comments.comments == before.line_comments.comments,
{
}

/// The letter `s` turns comments into a reply below what the composer held, and
/// puts the cursor behind it.
pub proof fn lemma_s_replies_with_comments<P: DiffPage, E: CommentEditor>(
    page: &P,
    editor: &E,
    content: DiffContent,
    sessions: Seq<Session>,
    facts: DiffReplyFacts,
    area: ViewportRect,
    key: KeyEvent,
    before: DiffMode,
    after: AppMode,
    effects: DiffEffects,
)
    requires
        diff_key_applied(
            page,
            editor,
            content,
            sessions,
            facts,
            area,
            key,
            before,
            after,
            effects,
        ),
        before.line_comments.editing_index is None,
        sessions.len() <= usize::MAX,
        letter(key, 's'),
    ensures
        !(facts.allows_reply && facts.allows_prompt && session_listed(sessions, before.session_id@)
            && before.line_comments.selection_start is None && before.line_comments.comments@.len()
            > 0) || (before.restore matches Some(DiffRestoreTarget::Question(_))) ==> after
            == AppMode::Diff(before) && effects.saved is None && effects.inserted is None,
        facts.allows_reply && facts.allows_prompt && session_listed(sessions, before.session_id@)
            && before.line_comments.selection_start is None && before.line_comments.comments@.len()
            > 0 && !(before.restore matches Some(DiffRestoreTarget::Question(_))) ==> {
            &&& effects.saved matches Some(saved)
            &&& saved.comments == before.line_comments
            &&& saved.session_id == before.session_id
            &&& after matches AppMode::Prompt { focus, prompt }
            &&& focus == ChatFocus::Input
            &&& before.restore is None ==> {
                &&& prompt.input.text@ == facts.comment_blocks@
                &&& prompt.input.cursor == facts.comment_blocks@.len()
                &&& prompt.session_id == before.session_id
                &&& prompt.history_state.position is None
            }
            &&& before.restore matches Some(DiffRestoreTarget::Prompt(base)) ==> {
                &&& prompt.session_id == base.session_id
                &&& facts.comment_blocks@.len() == 0 ==> prompt == base && effects.inserted is None
                &&& facts.comment_blocks@.len() > 0 ==> {
                    &&& base.input.text@.len() == 0 ==> prompt.input.text@ == facts.comment_blocks@
                    &&& base.input.text@.len() > 0 ==> prompt.input.text@ == base.input.text@ + seq![
                        '\n',
                        '\n',
                    ] + facts.comment_blocks@
                    &&& prompt.input.cursor == prompt.input.text@.len()
                    &&& effects.inserted == Some(
                        (base.input.text@.len() as usize, prompt.input.cursor),
                    )
                }
            }
        },
{
    lemma_row_of(sessions, before.session_id@);
    reveal_strlit("\n\n");
    assert("\n\n"@ =~= seq!['\n', '\n']);
}

/// The composer opens only for a reply: by the letter `s`, or as the page that
/// the diff was opened from.
pub proof fn lemma_only_s_replies<P: DiffPage, E: CommentEditor>(
    page: &P,
    editor: &E,
    content: DiffContent,
    sessions: Seq<Session>,
    facts: DiffReplyFacts,
    area: ViewportRect,
    key: KeyEvent,
    before: DiffMode,
    after: AppMode,
    effects: DiffEffects,
)
    requires
        diff_key_applied(
            page,
            editor,
            content,
            sessions,
            facts,
            area,
            key,
            before,
            after,
            effects,
        ),
        before.line_comments.editing_index is None,
        effects.inserted is Some,
    ensures
        letter(key, 's'),
        after is Prompt,
{
}

/// Shift and `v` begin a row selection at the selected line; escape ends it and
/// leaves the page where it was.
pub proof fn lemma_row_selection_keys<P: DiffPage, E: CommentEditor>(
    page: &P,
    editor: &E,
    content: DiffContent,
    sessions: Seq<Session>,
    facts: DiffReplyFacts,
    area: ViewportRect,
    key: KeyEvent,
    before: DiffMode,
    after: AppMode,
    effects: DiffEffects,
)
    requires
        diff_key_applied(
            page,
            editor,
            content,
            sessions,
            facts,
            area,
            key,
            before,
            after,
            effects,
        ),
        before.line_comments.editing_index is None,
        sessions.len() <= usize::MAX,
        before.focus == DiffFocus::Content,
    ensures
        shift_only(key) && (key.code == KeyCode::Char('v') || key.code == KeyCode::Char('V'))
            && facts.allows_reply && session_listed(sessions, before.session_id@) && !in_sidebar(
            before,
        ) && !shows_preview(content, before) ==> {
            &&& after matches AppMode::Diff(shown)
            &&& shown.line_comments == (DiffLineComments {
                selection_start: Some(before.selected_diff_line_index),
                ..before.line_comments
            })
            &&& shown == (DiffMode { line_comments: shown.line_comments, ..before })
        },
        key.code == KeyCode::Esc && before.line_comments.selection_start is Some ==> {
            &&& after matches AppMode::Diff(shown)
            &&& shown.line_comments == (DiffLineComments {
                selection_start: None,
                ..before.line_comments
            })
            &&& shown == (DiffMode { line_comments: shown.line_comments, ..before })
        },
        shift_only(key) && (key.code == KeyCode::Char('v') || key.code == KeyCode::Char('V')) && !(
        facts.allows_reply && session_listed(sessions, before.session_id@) && !in_sidebar(before)
            && !shows_preview(content, before)) ==> after == AppMode::Diff(before),
{
    lemma_row_of(sessions, before.session_id@);
}

/// A key asks for a comment on the whole selected file, on what the
/// highlighted comment is about, or on the changed lines from one end of the
/// row selection to the other.
pub proof fn lemma_comment_targets(
    content: DiffContent,
    diff: DiffMode,
    key: KeyEvent,
    can_comment: bool,
    target: Option<DiffCommentTarget>,
)
    requires
        comment_requested(content, diff, key, can_comment, target),
        content.items@.len() <= usize::MAX,
    ensures
        target is Some ==> can_comment && !in_sidebar(diff),
        target matches Some(DiffCommentTarget::File { path }) ==> {
            let whole = shift_only(key) && (key.code == KeyCode::Char('c') || key.code
                == KeyCode::Char('C'));
            &&& whole || key.code == KeyCode::Enter && bare(key)
            &&& whole ==> content.items@[diff.file_explorer_selected_index as int].path == Some(path)
        },
        can_comment && !in_sidebar(diff) && shift_only(key) && (key.code == KeyCode::Char('c')
            || key.code == KeyCode::Char('C')) ==> (target is Some) == on_file(content, diff),
        target matches Some(DiffCommentTarget::Lines(lines)) ==> {
            &&& key.code == KeyCode::Enter && bare(key)
            &&& diff.focus == DiffFocus::Content
            &&& !shows_preview(content, diff)
        },
        ({
            let row = diff.file_explorer_selected_index;
            let line = diff.selected_diff_line_index;
            let changed = content.items@[row as int].changed_lines@;
            can_comment && key.code == KeyCode::Enter && bare(key) && diff.focus
                == DiffFocus::Content && !in_sidebar(diff) && !shows_preview(content, diff)
                && diff.line_comments.selected_comment is None && row < content.items@.len() && line
                < changed.len() ==> {
                &&& target matches Some(DiffCommentTarget::Lines(lines))
                &&& diff.line_comments.selection_start is None ==> lines@ == seq![changed[line as int]]
                &&& diff.line_comments.selection_start matches Some(start) ==> {
                    &&& start <= line ==> lines@ == changed.subrange(start as int, line + 1)
                    &&& line < start < changed.len() ==> lines@ == changed.subrange(
                        line as int,
                        start + 1,
                    )
                    &&& start >= changed.len() ==> lines@ == changed.subrange(
                        line as int,
                        changed.len() as int,
                    )
                }
            }
        }),
{
    let row = diff.file_explorer_selected_index;
    let line = diff.selected_diff_line_index;
    if row < content.items@.len() {
        let changed = content.items@[row as int].changed_lines@;
        if line < changed.len() {
            assert(changed.subrange(line as int, line + 1) =~= seq![changed[line as int]]);
            assert(changed.skip(line as int) =~= changed.subrange(
                line as int,
                changed.len() as int,
            ));
        }
    }
}

/// Whether the editor takes a key for these things.
pub open spec fn means<E: CommentEditor>(
    editor: &E,
    key: KeyEvent,
    inserts_newline: bool,
    is_enter: bool,
) -> bool {
    &&& forall|answer: bool|
        call_ensures(E::inserts_newline, (editor, key), answer) ==> answer == inserts_newline
    &&& forall|answer: bool|
        call_ensures(E::is_enter_key, (editor, key.code), answer) ==> answer == is_enter
}

/// Whether a comment is being edited that is there.
pub open spec fn edits(diff: DiffMode) -> bool {
    diff.line_comments.editing_index matches Some(index) && index < diff.line_comments.comments@.len()
}

/// Escape and enter close the edited comment, as the editor closes it, unless
/// files are being looked up for it.
pub proof fn lemma_comment_is_closed<E: CommentEditor>(
    editor: &E,
    key: KeyEvent,
    before: DiffMode,
    after: DiffMode,
    lookup: bool,
    is_enter: bool,
    closed: DiffLineComments,
)
    requires
        comment_key_applied(editor, key, before, after, lookup),
        means(editor, key, false, is_enter),
        key.code == KeyCode::Esc || is_enter,
        before.line_comments.at_mention_state is None,
        forall|answer: DiffLineComments|
            call_ensures(E::finish_editing, (editor, before.line_comments), answer) ==> answer
                == closed,
    ensures
        after.line_comments == closed,
        !lookup,
        after == (DiffMode {
            line_comments: closed,
            scroll_cache: after.scroll_cache,
            ..before
        }),
        closed.comments@.len() == before.line_comments.comments@.len() ==> after.scroll_cache
            == before.scroll_cache,
        closed.comments@.len() != before.line_comments.comments@.len() ==> after.scroll_cache
            is None,
{
}

/// While files are looked up, escape ends the lookup and keeps the text.
pub proof fn lemma_escape_ends_lookup<E: CommentEditor>(
    editor: &E,
    key: KeyEvent,
    before: DiffMode,
    after: DiffMode,
    lookup: bool,
    is_enter: bool,
)
    requires
        comment_key_applied(editor, key, before, after, lookup),
        means(editor, key, false, is_enter),
        key.code == KeyCode::Esc,
        before.line_comments.at_mention_state is Some,
        edits(before),
    ensures
        after.line_comments.at_mention_state is None,
        after.line_comments.comments == before.line_comments.comments,
        after.line_comments.editing_index == before.line_comments.editing_index,
        !lookup,
{
}

/// While files are looked up, the arrows move through them and tab or enter
/// take the highlighted one into the text.
pub proof fn lemma_lookup_keys<E: CommentEditor>(
    editor: &E,
    key: KeyEvent,
    before: DiffMode,
    after: DiffMode,
    lookup: bool,
    is_enter: bool,
    above: AtMentionState,
    below: AtMentionState,
    taken: InputState,
)
    requires
        comment_key_applied(editor, key, before, after, lookup),
        means(editor, key, false, is_enter),
        before.line_comments.at_mention_state is Some,
        edits(before),
        forall|answer: AtMentionState|
            call_ensures(
                E::mention_above,
                (editor, before.line_comments.at_mention_state->0),
                answer,
            ) ==> answer == above,
        forall|answer: AtMentionState|
            call_ensures(
                E::mention_below,
                (
                    editor,
                    &before.line_comments.comments@[before.line_comments.editing_index->0 as int].input,
                    before.line_comments.at_mention_state->0,
                ),
                answer,
            ) ==> answer == below,
        forall|answer: Option<InputState>|
            call_ensures(
                E::with_mention,
                (
                    editor,
                    &before.line_comments.comments@[before.line_comments.editing_index->0 as int].input,
                    before.line_comments.at_mention_state->0,
                ),
                answer,
            ) ==> answer == Some(taken),
    ensures
        key.code == KeyCode::Up ==> after.line_comments.at_mention_state == Some(above),
        key.code == KeyCode::Down ==> after.line_comments.at_mention_state == Some(below),
        key.code == KeyCode::Tab || key.code == KeyCode::Enter ==> {
            let index = before.line_comments.editing_index->0 as int;
            &&& after.line_comments.at_mention_state is None
            &&& after.line_comments.comments@.len() == before.line_comments.comments@.len()
            &&& after.line_comments.comments@[index].input == taken
            &&& after.line_comments.comments@[index].target
                == before.line_comments.comments@[index].target
        },
        key.code == KeyCode::Up || key.code == KeyCode::Down ==> after.line_comments.comments
            == before.line_comments.comments,
        key.code == KeyCode::Up || key.code == KeyCode::Down || key.code == KeyCode::Tab || key.code
            == KeyCode::Enter ==> !lookup && after.line_comments.editing_index
            == before.line_comments.editing_index,
{
}

/// Any other key goes to the text as the editor has it; only the edited
/// comment changes, and the lookup is opened, kept or ended as the editor
/// says.
pub proof fn lemma_edited_text<E: CommentEditor>(
    editor: &E,
    key: KeyEvent,
    before: DiffMode,
    after: DiffMode,
    lookup: bool,
    inserts_newline: bool,
    is_enter: bool,
    result: Option<InputState>,
    sync: MentionSync,
)
    requires
        comment_key_applied(editor, key, before, after, lookup),
        means(editor, key, inserts_newline, is_enter),
        edits(before),
        inserts_newline || !(key.code == KeyCode::Esc || is_enter || key.code == KeyCode::Up
            || key.code == KeyCode::Down || key.code == KeyCode::Tab || key.code == KeyCode::Enter
            || key.code == KeyCode::Char('\r') || key.code == KeyCode::Char('\n')),
        key.code != KeyCode::Esc,
        forall|answer: Option<InputState>|
            call_ensures(
                E::edited,
                (
                    editor,
                    &before.line_comments.comments@[before.line_comments.editing_index->0 as int].input,
                    key,
                ),
                answer,
            ) ==> answer == result,
        result matches Some(next) ==> forall|answer: MentionSync|
            call_ensures(
                E::mention_sync,
                (editor, &next, before.line_comments.at_mention_state),
                answer,
            ) ==> answer == sync,
    ensures
        result is None ==> after == before && !lookup,
        result matches Some(next) ==> {
            let index = before.line_comments.editing_index->0 as int;
            &&& after.line_comments.comments@.len() == before.line_comments.comments@.len()
            &&& after.line_comments.comments@[index].input == next
            &&& after.line_comments.comments@[index].target
                == before.line_comments.comments@[index].target
            &&& forall|i: int|
                0 <= i < before.line_comments.comments@.len() && i != index
                    ==> after.line_comments.comments@[i] == before.line_comments.comments@[i]
            &&& after.line_comments.editing_index == before.line_comments.editing_index
            &&& lookup <==> sync == MentionSync::Activate
            &&& sync == MentionSync::Activate ==> after.line_comments.at_mention_state == Some(
                AtMentionState { selected_index: 0 },
            )
            &&& sync == MentionSync::Dismiss ==> after.line_comments.at_mention_state is None
            &&& sync == MentionSync::KeepOpen ==> (after.line_comments.at_mention_state is Some)
                == (before.line_comments.at_mention_state is Some)
        },
{
}

/// Pasted text stands at the cursor of the edited comment, with unified line
/// breaks; without an edited comment it goes nowhere.
pub proof fn lemma_comment_takes_paste<E: CommentEditor>(
    editor: &E,
    pasted: Seq<char>,
    before: DiffMode,
    after: DiffMode,
    lookup: bool,
)
    requires
        pasted_into_comment(editor, pasted, before, after, lookup),
    ensures
        before.line_comments.editing_index is None ==> after == before && !lookup,
        edits(before) ==> {
            let index = before.line_comments.editing_index->0 as int;
            let old_input = before.line_comments.comments@[index].input;
            let new_input = after.line_comments.comments@[index].input;
            let text = unified_breaks(pasted);
            &&& after.line_comments.comments@.len() == before.line_comments.comments@.len()
            &&& new_input.text@.len() == old_input.text@.len() + text.len()
            &&& old_input.cursor <= old_input.text@.len() ==> {
                &&& new_input.cursor == old_input.cursor + text.len()
                &&& new_input.text@.subrange(old_input.cursor as int, new_input.cursor as int) == text
                &&& new_input.text@.take(old_input.cursor as int) == old_input.text@.take(
                    old_input.cursor as int,
                )
            }
            &&& old_input.cursor > old_input.text@.len() ==> new_input.text@ == old_input.text@ + text
            &&& forall|i: int|
                0 <= i < before.line_comments.comments@.len() && i != index
                    ==> after.line_comments.comments@[i] == before.line_comments.comments@[i]
        },
{
    if edits(before) {
        let index = before.line_comments.editing_index->0 as int;
        let old_input = before.line_comments.comments@[index].input;
        let new_input = after.line_comments.comments@[index].input;
        let text = unified_breaks(pasted);
        if old_input.cursor <= old_input.text@.len() {
            assert(new_input.text@.subrange(old_input.cursor as int, new_input.cursor as int)
                =~= text);
            assert(new_input.text@.take(old_input.cursor as int) =~= old_input.text@.take(
                old_input.cursor as int,
            ));
        } else {
            assert(new_input.text@ =~= old_input.text@ + text);
        }
    }
}

/// A key that only moves through the page does to it what the page's own step
/// does, and nothing else.
pub proof fn lemma_moving_keys_move_page<P: DiffPage, E: CommentEditor>(
    page: &P,
    editor: &E,
    content: DiffContent,
    sessions: Seq<Session>,
    facts: DiffReplyFacts,
    area: ViewportRect,
    key: KeyEvent,
    before: DiffMode,
    after: AppMode,
    effects: DiffEffects,
)
    requires
        diff_key_applied(
            page,
            editor,
            content,
            sessions,
            facts,
            area,
            key,
            before,
            after,
            effects,
        ),
        before.line_comments.editing_index is None,
        goes_down(key) || goes_up(key) || letter(key, 'l') || letter(key, 'p') || letter(key, 'f')
            || letter(key, 'h') || letter(key, 'c') || key.code == KeyCode::Left,
    ensures
        after matches AppMode::Diff(shown) && step_taken(
            page,
            content,
            sessions,
            area,
            step_for(before.focus, key),
            before,
            shown,
            effects.preview,
        ),
        effects.saved is None,
        effects.inserted is None,
        !effects.lookup_files,
{
}

/// A comment on lines that are not shown, or on another file, is not opened.
/// Any other one is opened by the editor, in the content and without a
/// preview; one on the whole file selects its first changed line.
pub proof fn lemma_comment_is_opened<P: DiffPage, E: CommentEditor>(
    page: &P,
    editor: &E,
    content: DiffContent,
    area: ViewportRect,
    target: DiffCommentTarget,
    before: DiffMode,
    after: DiffMode,
    comments: DiffLineComments,
    index: usize,
)
    requires
        comment_opened(page, editor, content, area, target, before, after),
        content.items@.len() <= usize::MAX,
        before.file_explorer_selected_index < content.items@.len(),
        content.items@[before.file_explorer_selected_index as int].changed_lines@.len()
            <= usize::MAX,
        forall|given: DiffLineComments, answer: (DiffLineComments, usize)|
            (given == before.line_comments || given == (DiffLineComments {
                selection_start: None,
                ..before.line_comments
            })) && call_ensures(E::start_editing, (editor, given, target), answer) ==> answer == (
                comments,
                index,
            ),
    ensures
        ({
            let item = content.items@[before.file_explorer_selected_index as int];
            let shown = match target {
                DiffCommentTarget::File { path } => item.path is Some && item.path->0@ == path@,
                DiffCommentTarget::Lines(lines) => lines@.len() > 0 && exists|i: int|
                    0 <= i < item.changed_lines@.len() && same_anchor(
                        #[trigger] item.changed_lines@[i],
                        lines@[lines@.len() - 1],
                    ),
            };
            &&& !shown ==> after == before
            &&& shown ==> {
                &&& after.line_comments == comments
                &&& after.focus == DiffFocus::Content
                &&& after.preview is Disabled
                &&& after.scroll_cache is None
                &&& target is File ==> after.selected_diff_line_index == 0
                &&& target is Lines ==> after.selected_diff_line_index
                    == before.selected_diff_line_index
                &&& after.file_explorer_selected_index == before.file_explorer_selected_index
            }
        }),
{
    let item = content.items@[before.file_explorer_selected_index as int];
    if let DiffCommentTarget::Lines(lines) = target {
        if lines@.len() > 0 {
            lemma_anchor_found(item.changed_lines@, lines@[lines@.len() - 1], 0);
        }
    }
}

/// Two anchors are the same where they name the same line of the same side of
/// the same file, with the same text.
pub proof fn lemma_same_anchor(left: DiffLineCommentAnchor, right: DiffLineCommentAnchor)
    ensures
        same_anchor(left, right) <==> (left.path@ == right.path@ && left.line == right.line
            && left.side == right.side && left.content@ == right.content@),
{
}

/// Comments that become a reply keep the composer's history and its place, and
/// close its menus.
pub proof fn lemma_reply_keeps_composer(
    before: PromptModeSnapshot,
    after: PromptModeSnapshot,
    blocks: Seq<char>,
    inserted: Option<(usize, usize)>,
)
    requires
        comments_appended(before, after, blocks, inserted),
    ensures
        after.history_state.entries == before.history_state.entries,
        after.scroll_offset == before.scroll_offset,
        after.session_id == before.session_id,
        blocks.len() > 0 ==> after.history_state.position is None && after.at_mention_state is None
            && after.slash_selected_index == 0,
        blocks.len() == 0 ==> after == before,
        inserted is Some <==> blocks.len() > 0,
{
}

/// Previews are numbered one after the other, and begin again behind the
/// largest number.
pub proof fn lemma_preview_numbers(preview: DiffPreview, number: u64)
    requires
        match preview {
            DiffPreview::Disabled { request_id } => request_id == number,
            DiffPreview::Loading { path, request_id } => request_id == number,
            DiffPreview::Ready { path, request_id, text } => request_id == number,
            DiffPreview::Unavailable { path, reason, request_id } => request_id == number,
            DiffPreview::Unsupported { request_id } => request_id == number,
        },
    ensures
        preview.request() == number,
        number < 18_446_744_073_709_551_615 ==> preview.following_request() == number + 1,
        number == 18_446_744_073_709_551_615 ==> preview.following_request() == 0,
        preview.off() == (DiffPreview::Disabled { request_id: number }),
        preview.shown_path() == previewed(preview),
{
}

/// A row selection spans from the line where it began to the selected one,
/// whichever comes first.
pub proof fn lemma_selected_rows(comments: DiffLineComments, line: usize)
    ensures
        ({
            let (first, last) = comments.row_bounds(line);
            &&& first <= last
            &&& comments.selection_start is None ==> first == line && last == line
            &&& comments.selection_start matches Some(start) ==> (first == start && last == line
                || first == line && last == start)
        }),
{
}

/// A preview of a file whose session is gone says so, under the number that
/// its request would have had.
pub proof fn lemma_preview_without_worktree(
    content: DiffContent,
    file_index: usize,
    previous: DiffPreview,
    sessions: Seq<Session>,
    session_id: SessionId,
    preview: DiffPreview,
    request: Option<PreviewRequest>,
)
    requires
        starts_preview(content, file_index, previous, sessions, session_id, preview, request),
        file_index < content.items@.len(),
        content.items@[file_index as int].is_markdown,
        content.items@[file_index as int].path is Some,
        sessions.len() <= usize::MAX,
        !session_listed(sessions, session_id@),
    ensures
        request is None,
        ({
            &&& preview matches DiffPreview::Unavailable { path, reason, request_id }
            &&& content.items@[file_index as int].path == Some(path)
            &&& request_id == previous.following_request()
            &&& reason matches DiffPreviewUnavailableReason::LoadFailed(message)
            &&& message@ == "Session worktree is unavailable"@
        }),
{
    lemma_row_of(sessions, session_id@);
}

/// Comments of a page that was opened from the session view become the reply
/// of an empty composer, which can recall the prompts of its session.
pub proof fn lemma_reply_starts_empty(
    diff: DiffMode,
    session: Session,
    prompt: PromptModeSnapshot,
)
    requires
        base_prompt(diff, session, prompt),
        diff.restore is None,
    ensures
        prompt.input.text@.len() == 0,
        prompt.input.cursor == 0,
        prompt.session_id == diff.session_id,
        prompt.scroll_offset is None,
        prompt.at_mention_state is None,
        prompt.slash_selected_index == 0,
        prompt.history_state.position is None,
        texts(prompt.history_state.entries@) == recalled_prompts(session),
{
}

} // verus!
