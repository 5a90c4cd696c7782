//! Keys and pointer gestures of the diff page.

use vstd::prelude::*;

use crate::app_mode::{
    AppMode, ChatFocus, DiffCommentTarget, DiffFocus, DiffLineComments, DiffMode,
    DiffRestoreTarget, HelpContext, PromptHistoryState, PromptModeSnapshot,
};
use crate::diff_comments::{
    CommentEditor, comment_key_applied, comment_opened, handle_line_comment_edit_key,
    start_line_comment_edit,
};
use crate::diff_navigation::{
    DiffDirection, FileSelectionTarget, apply_navigation_key, comment_requested, file_selected,
    handle_row_selection_key, move_file_selection, row_selection, selected_line_comment_target,
    step_for, step_taken,
};
use crate::diff_page::{DiffContent, DiffPage};
use crate::diff_preview::PreviewRequest;
use crate::geometry::ViewportRect;
use crate::input::InputState;
use crate::key::{KeyCode, KeyEvent, is_plain_char_key, plain_char};
use crate::prompt_history::{recalled_prompts, session_prompt_history_entries};
use crate::session::{Session, SessionId, row_of, session_row};
use crate::text::joined;
use crate::text_lines::texts;
use crate::viewport::{
    LayoutSnapshot, MOUSE_WHEEL_SCROLL_LINES, ScrollRegion, WheelDirection,
};

verus! {

/// Comments to be kept for the next visit to a session's diff.
#[derive(Debug)]
pub struct SavedComments {
    pub comments: DiffLineComments,
    pub session_id: SessionId,
}

/// What a key on the diff page leaves to be done.
#[derive(Debug)]
pub struct DiffEffects {
    /// The text that went into the composer, from its first character to the
    /// one behind its last.
    pub inserted: Option<(usize, usize)>,
    /// Whether files are to be looked up for a comment.
    pub lookup_files: bool,
    pub preview: Option<PreviewRequest>,
    pub saved: Option<SavedComments>,
}

impl DiffEffects {
    /// Nothing is left to be done.
    pub open spec fn none_spec() -> DiffEffects {
        DiffEffects { inserted: None, lookup_files: false, preview: None, saved: None }
    }

    /// Leaves nothing to be done.
    pub fn none() -> (effects: DiffEffects)
        ensures
            effects == DiffEffects::none_spec(),
    {
        DiffEffects { inserted: None, lookup_files: false, preview: None, saved: None }
    }
}

/// What decides whether comments can become a reply.
#[derive(Debug)]
pub struct DiffReplyFacts {
    /// Whether the session takes a reply from a diff that was opened here.
    pub allows_reply: bool,
    /// Whether the session takes a reply at all.
    pub allows_prompt: bool,
    /// All comments as one text.
    pub comment_blocks: String,
}

/// Whether the diff page can collect comments for a reply.
pub open spec fn reply_available(diff: DiffMode, sessions: Seq<Session>, allows: bool) -> bool {
    row_of(sessions, diff.session_id@) is Some && allows
}

/// Reports whether the diff page can collect comments for a reply.
pub fn can_reply_with_line_comments(diff: &DiffMode, sessions: &Vec<Session>, allows: bool) -> (
    result: bool)
    ensures
        result == reply_available(*diff, sessions@, allows),
{
    session_row(sessions, diff.session_id.as_str()).is_some() && allows
}

/// Whether the pointer may move the selection of the file explorer.
///
/// It may not while the keyboard could not: while a comment is edited, while
/// rows are selected and while the review comments have the keyboard.
pub open spec fn explorer_open_to_pointer(diff: DiffMode) -> bool {
    diff.line_comments.editing_index is None && diff.line_comments.selection_start is None
        && !diff.review_comments_focused()
}

/// Reports whether the pointer may move the selection of the file explorer.
pub fn file_list_accepts_pointer(diff: &DiffMode) -> (result: bool)
    ensures
        result == explorer_open_to_pointer(*diff),
{
    !diff.line_comments.is_editing() && !diff.line_comments.is_selecting()
        && !diff.are_review_comments_focused()
}

/// The row that a wheel notch moves to.
pub open spec fn wheel_target(direction: WheelDirection) -> FileSelectionTarget {
    match direction {
        WheelDirection::Down => FileSelectionTarget::Adjacent(DiffDirection::Next),
        WheelDirection::Up => FileSelectionTarget::Adjacent(DiffDirection::Previous),
    }
}

/// The offset of the diff panel after a wheel notch.
pub open spec fn wheel_offset(region: ScrollRegion, offset: u16, direction: WheelDirection) -> u16 {
    match direction {
        WheelDirection::Down => region.down(offset, MOUSE_WHEEL_SCROLL_LINES),
        WheelDirection::Up => region.up(offset, MOUSE_WHEEL_SCROLL_LINES),
    }
}

/// Whether a pointer gesture moved the selection of the file explorer.
pub open spec fn pointer_selected(
    content: DiffContent,
    sessions: Seq<Session>,
    target: FileSelectionTarget,
    before: DiffMode,
    after: DiffMode,
    changed: bool,
    preview: Option<PreviewRequest>,
) -> bool {
    if explorer_open_to_pointer(before) {
        &&& file_selected(content, sessions, target, before, after, preview)
        &&& changed == (after.file_explorer_selected_index != before.file_explorer_selected_index)
    } else {
        after == before && !changed && preview is None
    }
}

/// Moves the selection of the file explorer by a pointer gesture.
fn select_by_pointer(
    diff: &mut DiffMode,
    content: &DiffContent,
    sessions: &Vec<Session>,
    target: FileSelectionTarget,
) -> (outcome: (bool, Option<PreviewRequest>))
    ensures
        pointer_selected(
            *content,
            sessions@,
            target,
            *old(diff),
            *final(diff),
            outcome.0,
            outcome.1,
        ),
{
    if !file_list_accepts_pointer(diff) {
        return (false, None);
    }
    move_file_selection(diff, content, sessions, target)
}

/// Whether the wheel is over the diff panel of the last frame.
pub open spec fn over_panel(layout: LayoutSnapshot, column: u16, row: u16) -> bool {
    layout.diff_panel matches Some(region) && region.area.has_cell(column as int, row as int)
}

/// Whether the wheel is over the file explorer of the last frame.
pub open spec fn over_file_list(layout: LayoutSnapshot, column: u16, row: u16) -> bool {
    layout.diff_file_list matches Some(list) && list.has_cell(column as int, row as int)
}

/// Applies a wheel notch: the panel scrolls, the explorer moves its selection.
///
/// Returns whether anything changed, and the file to be read for a preview.
pub fn handle_mouse_wheel(
    diff: &mut DiffMode,
    content: &DiffContent,
    sessions: &Vec<Session>,
    layout: &LayoutSnapshot,
    column: u16,
    row: u16,
    direction: WheelDirection,
) -> (outcome: (bool, Option<PreviewRequest>))
    ensures
        if over_panel(*layout, column, row) {
            let offset = wheel_offset(
                layout.diff_panel->0,
                old(diff).scroll_offset,
                direction,
            );
            &&& *final(diff) == (DiffMode { scroll_offset: offset, ..*old(diff) })
            &&& outcome == (offset != old(diff).scroll_offset, None::<PreviewRequest>)
        } else if over_file_list(*layout, column, row) {
            pointer_selected(
                *content,
                sessions@,
                wheel_target(direction),
                *old(diff),
                *final(diff),
                outcome.0,
                outcome.1,
            )
        } else {
            *final(diff) == *old(diff) && outcome == (false, None::<PreviewRequest>)
        },
{
    if let Some(region) = layout.diff_panel {
        if region.contains(column, row) {
            let next: u16 = match direction {
                WheelDirection::Down => region.scroll_down(
                    diff.scroll_offset,
                    MOUSE_WHEEL_SCROLL_LINES,
                ),
                WheelDirection::Up => region.scroll_up(
                    diff.scroll_offset,
                    MOUSE_WHEEL_SCROLL_LINES,
                ),
            };
            let changed: bool = next != diff.scroll_offset;
            diff.scroll_offset = next;
            return (changed, None);
        }
    }
    if let Some(list) = layout.diff_file_list {
        if list.contains(column, row) {
            let target: FileSelectionTarget = match direction {
                WheelDirection::Down => FileSelectionTarget::Adjacent(DiffDirection::Next),
                WheelDirection::Up => FileSelectionTarget::Adjacent(DiffDirection::Previous),
            };
            return select_by_pointer(diff, content, sessions, target);
        }
    }
    (false, None)
}

/// Selects the row of the file explorer that was clicked.
///
/// Returns whether another row is selected, and the file to be read for a
/// preview.
pub fn handle_file_click(
    diff: &mut DiffMode,
    content: &DiffContent,
    sessions: &Vec<Session>,
    index: usize,
) -> (outcome: (bool, Option<PreviewRequest>))
    ensures
        pointer_selected(
            *content,
            sessions@,
            FileSelectionTarget::Index(index),
            *old(diff),
            *final(diff),
            outcome.0,
            outcome.1,
        ),
{
    select_by_pointer(diff, content, sessions, FileSelectionTarget::Index(index))
}

/// Reports whether a key gives up loading a diff.
pub fn handle_loading(key: KeyEvent) -> (cancels: bool)
    ensures
        cancels == (key.code == KeyCode::Char('q') || key.code == KeyCode::Esc),
{
    match key.code {
        KeyCode::Char(character) => character == 'q',
        KeyCode::Esc => true,
        _ => false,
    }
}

/// The help overlay over a diff page, which comes back without a measured
/// scroll limit.
pub open spec fn diff_help(diff: DiffMode, can_comment: bool) -> AppMode {
    AppMode::Help {
        context: HelpContext::Diff {
            can_comment,
            diff: DiffMode { scroll_cache: None, ..diff },
        },
        scroll_offset: 0,
    }
}

/// Whether a key leaves the diff page.
pub open spec fn exit_key(diff: DiffMode, key: KeyEvent) -> bool {
    key.code == KeyCode::Char('q') || (key.code == KeyCode::Esc && diff.focus != DiffFocus::Content)
}

/// The mode that a diff page gives way to: the one it was opened from, or the
/// session view at its end.
pub open spec fn mode_after_diff(diff: DiffMode) -> AppMode {
    match diff.restore {
        Some(target) => target.mode(),
        None => AppMode::View { scroll_offset: None, session_id: diff.session_id },
    }
}

/// Opens the help overlay over the diff page.
pub fn open_help(mode: &mut AppMode, can_comment: bool)
    ensures
        *final(mode) == (match *old(mode) {
            AppMode::Diff(diff) => diff_help(diff, can_comment),
            other => other,
        }),
{
    let mut current: AppMode = AppMode::List;
    std::mem::swap(mode, &mut current);
    *mode = match current {
        AppMode::Diff(diff) => {
            let mut shown: DiffMode = diff;
            shown.scroll_cache = None;
            AppMode::Help {
                context: HelpContext::Diff { can_comment, diff: shown },
                scroll_offset: 0,
            }
        },
        other => other,
    };
}

/// Leaves the diff page and hands out its comments.
pub fn leave_diff(mode: &mut AppMode) -> (saved: Option<SavedComments>)
    ensures
        match *old(mode) {
            AppMode::Diff(diff) => {
                &&& *final(mode) == mode_after_diff(diff)
                &&& saved == Some(
                    SavedComments { comments: diff.line_comments, session_id: diff.session_id },
                )
            },
            other => *final(mode) == other && saved is None,
        },
{
    let mut current: AppMode = AppMode::List;
    std::mem::swap(mode, &mut current);
    match current {
        AppMode::Diff(diff) => {
            let session_id: SessionId = diff.session_id;
            let saved: SavedComments = SavedComments {
                comments: diff.line_comments,
                session_id: session_id.clone(),
            };
            *mode = match diff.restore {
                Some(target) => target.into_mode(),
                None => AppMode::View { scroll_offset: None, session_id },
            };
            Some(saved)
        },
        other => {
            *mode = other;
            None
        },
    }
}

/// Whether a key turns the comments of a page into a reply.
pub open spec fn submits_comments(diff: DiffMode, key: KeyEvent, can_comment: bool) -> bool {
    &&& can_comment
    &&& plain_char(key, 's')
    &&& diff.line_comments.editing_index is None
    &&& diff.line_comments.selection_start is None
    &&& diff.line_comments.comments@.len() > 0
}

/// Reports whether a key turns the comments of a page into a reply.
pub fn should_submit_line_comments(diff: &DiffMode, key: KeyEvent, can_comment: bool) -> (result:
    bool)
    ensures
        result == submits_comments(*diff, key, can_comment),
{
    can_comment && is_plain_char_key(key, 's') && !diff.line_comments.is_editing()
        && !diff.line_comments.is_selecting() && diff.line_comments.comments.len() > 0
}

/// Whether `prompt` is the composer that comments are written into: the one
/// that the diff was opened from, or an empty one.
pub open spec fn base_prompt(diff: DiffMode, session: Session, prompt: PromptModeSnapshot) -> bool {
    match diff.restore {
        Some(DiffRestoreTarget::Prompt(restored)) => prompt == restored,
        _ => {
            &&& prompt.at_mention_state is None
            &&& texts(prompt.history_state.entries@) == recalled_prompts(session)
            &&& prompt.history_state.position is None
            &&& prompt.input.text@.len() == 0
            &&& prompt.input.cursor == 0
            &&& prompt.scroll_offset is None
            &&& prompt.session_id == diff.session_id
            &&& prompt.slash_selected_index == 0
        },
    }
}

/// The text of a composer with comments below what it held.
pub open spec fn text_with_comments(text: Seq<char>, blocks: Seq<char>) -> Seq<char> {
    if text.len() == 0 {
        blocks
    } else {
        text + "\n\n"@ + blocks
    }
}

/// Whether `after` is the composer `before` with comments below its text.
pub open spec fn comments_appended(
    before: PromptModeSnapshot,
    after: PromptModeSnapshot,
    blocks: Seq<char>,
    inserted: Option<(usize, usize)>,
) -> bool {
    if blocks.len() == 0 {
        after == before && inserted is None
    } else {
        &&& after.at_mention_state is None
        &&& after.history_state.entries == before.history_state.entries
        &&& after.history_state.position is None
        &&& after.input.text@ == text_with_comments(before.input.text@, blocks)
        &&& after.input.cursor == after.input.text@.len()
        &&& after.scroll_offset == before.scroll_offset
        &&& after.session_id == before.session_id
        &&& after.slash_selected_index == 0
        &&& inserted == Some((before.input.text@.len() as usize, after.input.cursor))
    }
}

/// Writes comments below the text of a composer.
///
/// Returns where the new text lies, so that image positions can follow it.
pub fn append_line_comments(prompt: &mut PromptModeSnapshot, comment_blocks: &str) -> (inserted:
    Option<(usize, usize)>)
    ensures
        comments_appended(*old(prompt), *final(prompt), comment_blocks@, inserted),
{
    if comment_blocks.is_empty() {
        return None;
    }
    let is_empty: bool = prompt.input.text.as_str().is_empty();
    let insertion: String = if is_empty {
        joined("", comment_blocks)
    } else {
        joined("\n\n", comment_blocks)
    };
    prompt.input.move_end();
    let start: usize = prompt.input.cursor;
    prompt.input.insert_text(insertion.as_str());
    proof {
        reveal_strlit("");
        let text = old(prompt).input.text@;
        assert(text.take(text.len() as int) =~= text);
        assert(text.skip(text.len() as int) =~= Seq::empty());
        assert(prompt.input.text@ =~= text_with_comments(text, comment_blocks@));
    }
    prompt.at_mention_state = None;
    prompt.history_state.position = None;
    prompt.slash_selected_index = 0;
    Some((start, prompt.input.cursor))
}

/// Whether the comments of a page became a reply in the composer.
///
/// A page that was opened from a question keeps its comments, as does one
/// whose session takes no reply.
pub open spec fn reply_opened(
    sessions: Seq<Session>,
    facts: DiffReplyFacts,
    before: DiffMode,
    after: AppMode,
    saved: Option<SavedComments>,
    inserted: Option<(usize, usize)>,
) -> bool {
    let row = row_of(sessions, before.session_id@);
    if before.restore matches Some(DiffRestoreTarget::Question(_)) || row is None
        || !facts.allows_prompt {
        after == AppMode::Diff(before) && saved is None && inserted is None
    } else {
        &&& saved == Some(
            SavedComments { comments: before.line_comments, session_id: before.session_id },
        )
        &&& after matches AppMode::Prompt { focus: ChatFocus::Input, prompt }
        &&& exists|base: PromptModeSnapshot| #[trigger]
            base_prompt(before, sessions[row->0 as int], base) && comments_appended(
                base,
                prompt,
                facts.comment_blocks@,
                inserted,
            )
    }
}

/// Turns the comments of a page into a reply in the composer.
fn open_line_comment_prompt(diff: DiffMode, sessions: &Vec<Session>, facts: &DiffReplyFacts) -> (
    outcome: (AppMode, Option<SavedComments>, Option<(usize, usize)>))
    ensures
        reply_opened(sessions@, *facts, diff, outcome.0, outcome.1, outcome.2),
{
    if matches!(diff.restore, Some(DiffRestoreTarget::Question(_))) {
        return (AppMode::Diff(diff), None, None);
    }
    let row: usize = match session_row(sessions, diff.session_id.as_str()) {
        Some(row) => row,
        None => {
            return (AppMode::Diff(diff), None, None);
        },
    };
    if !facts.allows_prompt {
        return (AppMode::Diff(diff), None, None);
    }
    let ghost before = diff;
    let mut prompt: PromptModeSnapshot = match diff.restore {
        Some(DiffRestoreTarget::Prompt(restored)) => restored,
        _ => {
            let entries: Vec<String> = session_prompt_history_entries(&sessions[row]);
            PromptModeSnapshot {
                at_mention_state: None,
                history_state: PromptHistoryState::new(entries),
                input: InputState::default(),
                scroll_offset: None,
                session_id: diff.session_id.clone(),
                slash_selected_index: 0,
            }
        },
    };
    let ghost base = prompt;
    assert(base_prompt(before, sessions@[row as int], base));
    let inserted: Option<(usize, usize)> = append_line_comments(
        &mut prompt,
        facts.comment_blocks.as_str(),
    );
    let saved: SavedComments = SavedComments {
        comments: diff.line_comments,
        session_id: diff.session_id,
    };
    (prompt.into_prompt_mode(), Some(saved), inserted)
}

/// Whether `middle` is the page after a navigation key, and `request` the
/// file to be read for its preview.
pub open spec fn page_navigated<P: DiffPage>(
    page: &P,
    content: DiffContent,
    sessions: Seq<Session>,
    area: ViewportRect,
    key: KeyEvent,
    can_comment: bool,
    before: DiffMode,
    middle: DiffMode,
    request: Option<PreviewRequest>,
) -> bool {
    match row_selection(content, before, key, can_comment) {
        Some(next) => middle == next && request is None,
        None => step_taken(
            page,
            content,
            sessions,
            area,
            step_for(before.focus, key),
            before,
            middle,
            request,
        ),
    }
}

/// Whether a navigation key led from one state of the page to the other.
///
/// A key that begins or ends a row selection does nothing else. A key that
/// asks for a comment opens it after the page has moved, and only where it
/// does not may it turn the comments into a reply.
pub open spec fn navigation_applied<P: DiffPage, E: CommentEditor>(
    page: &P,
    editor: &E,
    content: DiffContent,
    sessions: Seq<Session>,
    facts: DiffReplyFacts,
    area: ViewportRect,
    key: KeyEvent,
    before: DiffMode,
    after: AppMode,
    effects: DiffEffects,
) -> bool {
    let can_comment = reply_available(before, sessions, facts.allows_reply);
    !effects.lookup_files && exists|middle: DiffMode| #[trigger]
        page_navigated(
            page,
            content,
            sessions,
            area,
            key,
            can_comment,
            before,
            middle,
            effects.preview,
        ) && if row_selection(content, before, key, can_comment) is Some {
            key_settled(sessions, facts, key, can_comment, middle, after, effects)
        } else {
            comment_or_settled(
                page,
                editor,
                content,
                sessions,
                facts,
                area,
                key,
                before,
                middle,
                after,
                effects,
            )
        }
}

/// Whether a comment was opened where the key asked for one.
pub open spec fn comment_or_settled<P: DiffPage, E: CommentEditor>(
    page: &P,
    editor: &E,
    content: DiffContent,
    sessions: Seq<Session>,
    facts: DiffReplyFacts,
    area: ViewportRect,
    key: KeyEvent,
    before: DiffMode,
    middle: DiffMode,
    after: AppMode,
    effects: DiffEffects,
) -> bool {
    let can_comment = reply_available(before, sessions, facts.allows_reply);
    exists|target: Option<DiffCommentTarget>| #[trigger]
        comment_requested(content, before, key, can_comment, target) && match target {
            Some(wanted) => {
                &&& effects.saved is None
                &&& effects.inserted is None
                &&& after matches AppMode::Diff(shown)
                &&& comment_opened(page, editor, content, area, wanted, middle, shown)
            },
            None => key_settled(sessions, facts, key, can_comment, middle, after, effects),
        }
}

/// Whether a key that opened no comment turned the comments into a reply, or
/// left the page as it was.
pub open spec fn key_settled(
    sessions: Seq<Session>,
    facts: DiffReplyFacts,
    key: KeyEvent,
    can_comment: bool,
    middle: DiffMode,
    after: AppMode,
    effects: DiffEffects,
) -> bool {
    if submits_comments(middle, key, can_comment) {
        reply_opened(sessions, facts, middle, after, effects.saved, effects.inserted)
    } else {
        after == AppMode::Diff(middle) && effects.saved is None && effects.inserted is None
    }
}

/// Applies a navigation key of the diff page.
pub fn handle_navigation_key<P: DiffPage, E: CommentEditor>(
    diff: DiffMode,
    content: &DiffContent,
    sessions: &Vec<Session>,
    facts: &DiffReplyFacts,
    page: &P,
    editor: &E,
    area: ViewportRect,
    key: KeyEvent,
) -> (outcome: (AppMode, DiffEffects))
    ensures
        navigation_applied(
            page,
            editor,
            *content,
            sessions@,
            *facts,
            area,
            key,
            diff,
            outcome.0,
            outcome.1,
        ),
{
    let ghost before = diff;
    let mut shown: DiffMode = diff;
    let can_comment: bool = can_reply_with_line_comments(&shown, sessions, facts.allows_reply);
    let mut effects: DiffEffects = DiffEffects::none();
    if !handle_row_selection_key(&mut shown, content, key, can_comment) {
        let target: Option<DiffCommentTarget> = selected_line_comment_target(
            &shown,
            content,
            key,
            can_comment,
        );
        assert(comment_requested(*content, before, key, can_comment, target));
        effects.preview = apply_navigation_key(&mut shown, content, sessions, page, area, key);
        let ghost middle = shown;
        assert(page_navigated(
            page,
            *content,
            sessions@,
            area,
            key,
            can_comment,
            before,
            middle,
            effects.preview,
        ));
        if let Some(wanted) = target {
            start_line_comment_edit(&mut shown, content, page, editor, area, wanted);
            assert(comment_or_settled(
                page,
                editor,
                *content,
                sessions@,
                *facts,
                area,
                key,
                before,
                middle,
                AppMode::Diff(shown),
                effects,
            ));
            return (AppMode::Diff(shown), effects);
        }
    }
    let ghost middle = shown;
    assert(page_navigated(
        page,
        *content,
        sessions@,
        area,
        key,
        can_comment,
        before,
        middle,
        effects.preview,
    ));
    if should_submit_line_comments(&shown, key, can_comment) {
        let (mode, saved, inserted) = open_line_comment_prompt(shown, sessions, facts);
        effects.saved = saved;
        effects.inserted = inserted;
        assert(key_settled(sessions@, *facts, key, can_comment, middle, mode, effects));
        return (mode, effects);
    }
    assert(key_settled(
        sessions@,
        *facts,
        key,
        can_comment,
        middle,
        AppMode::Diff(shown),
        effects,
    ));
    (AppMode::Diff(shown), effects)
}

/// Whether a key was applied to the diff page.
///
/// A comment that is being edited gets every key. Otherwise the help, the way
/// out and the navigation come in this order.
pub open spec fn diff_key_applied<P: DiffPage, E: CommentEditor>(
    page: &P,
    editor: &E,
    content: DiffContent,
    sessions: Seq<Session>,
    facts: DiffReplyFacts,
    area: ViewportRect,
    key: KeyEvent,
    before: DiffMode,
    after: AppMode,
    effects: DiffEffects,
) -> bool {
    if before.line_comments.editing_index is Some {
        &&& effects == (DiffEffects {
            lookup_files: effects.lookup_files,
            ..DiffEffects::none_spec()
        })
        &&& after matches AppMode::Diff(shown)
        &&& comment_key_applied(editor, key, before, shown, effects.lookup_files)
    } else if key.code == KeyCode::Char('?') {
        &&& after == diff_help(before, reply_available(before, sessions, facts.allows_reply))
        &&& effects == DiffEffects::none_spec()
    } else if exit_key(before, key) {
        &&& after == mode_after_diff(before)
        &&& effects == (DiffEffects {
            saved: Some(
                SavedComments { comments: before.line_comments, session_id: before.session_id },
            ),
            ..DiffEffects::none_spec()
        })
    } else {
        navigation_applied(
            page,
            editor,
            content,
            sessions,
            facts,
            area,
            key,
            before,
            after,
            effects,
        )
    }
}

/// Applies a key to the diff page; in any other mode nothing happens.
pub fn handle_key<P: DiffPage, E: CommentEditor>(
    mode: &mut AppMode,
    content: &DiffContent,
    sessions: &Vec<Session>,
    facts: &DiffReplyFacts,
    page: &P,
    editor: &E,
    area: ViewportRect,
    key: KeyEvent,
) -> (effects: DiffEffects)
    ensures
        match *old(mode) {
            AppMode::Diff(diff) => diff_key_applied(
                page,
                editor,
                *content,
                sessions@,
                *facts,
                area,
                key,
                diff,
                *final(mode),
                effects,
            ),
            other => *final(mode) == other && effects == DiffEffects::none_spec(),
        },
{
    let mut current: AppMode = AppMode::List;
    std::mem::swap(mode, &mut current);
    match current {
        AppMode::Diff(diff) => {
            let mut shown: DiffMode = diff;
            let (is_edited, lookup_files) = handle_line_comment_edit_key(&mut shown, editor, key);
            if is_edited {
                *mode = AppMode::Diff(shown);
                let mut effects: DiffEffects = DiffEffects::none();
                effects.lookup_files = lookup_files;
                return effects;
            }
            if key.code == KeyCode::Char('?') {
                let can_comment: bool = can_reply_with_line_comments(
                    &shown,
                    sessions,
                    facts.allows_reply,
                );
                *mode = AppMode::Diff(shown);
                open_help(mode, can_comment);
                return DiffEffects::none();
            }
            if key.code == KeyCode::Char('q') || (key.code == KeyCode::Esc && shown.focus
                != DiffFocus::Content) {
                *mode = AppMode::Diff(shown);
                let mut effects: DiffEffects = DiffEffects::none();
                effects.saved = leave_diff(mode);
                return effects;
            }
            let (next, effects) = handle_navigation_key(
                shown,
                content,
                sessions,
                facts,
                page,
                editor,
                area,
                key,
            );
            *mode = next;
            effects
        },
        other => {
            *mode = other;
            DiffEffects::none()
        },
    }
}

/// Leaving the diff page gives the mode back that it was opened from.
pub proof fn lemma_leaving_restores_origin(diff: DiffMode, target: DiffRestoreTarget)
    requires
        diff.restore == Some(target),
    ensures
        mode_after_diff(diff) == target.mode(),
{
}

/// A comment that is being edited keeps every key on the page.
pub proof fn lemma_edited_comment_keeps_page<P: DiffPage, E: CommentEditor>(
    page: &P,
    editor: &E,
    content: DiffContent,
    sessions: Seq<Session>,
    facts: DiffReplyFacts,
    area: ViewportRect,
    key: KeyEvent,
    before: DiffMode,
    after: AppMode,
    effects: DiffEffects,
)
    requires
        diff_key_applied(
            page,
            editor,
            content,
            sessions,
            facts,
            area,
            key,
            before,
            after,
            effects,
        ),
        before.line_comments.editing_index is Some,
    ensures
        after is Diff,
        effects.saved is None,
        effects.preview is None,
{
}

/// Whatever key is pressed, a page that stays open goes on showing the same
/// diff of the same session and leads back to where it was opened from.
pub proof fn lemma_open_page_keeps_its_diff<P: DiffPage, E: CommentEditor>(
    page: &P,
    editor: &E,
    content: DiffContent,
    sessions: Seq<Session>,
    facts: DiffReplyFacts,
    area: ViewportRect,
    key: KeyEvent,
    before: DiffMode,
    after: DiffMode,
    effects: DiffEffects,
)
    requires
        diff_key_applied(
            page,
            editor,
            content,
            sessions,
            facts,
            area,
            key,
            before,
            AppMode::Diff(after),
            effects,
        ),
    ensures
        after.diff == before.diff,
        after.restore == before.restore,
        after.session_id == before.session_id,
        mode_after_diff(after) == mode_after_diff(before),
{
}

/// A wheel notch over the panel keeps its offset inside the content.
pub proof fn lemma_wheel_offset_in_range(
    region: ScrollRegion,
    offset: u16,
    direction: WheelDirection,
)
    ensures
        wheel_offset(region, offset, direction) <= region.limit(),
{
}

} // verus!
