//! Writing comments on the diff page.

use vstd::prelude::*;

use crate::app_mode::{
    AtMentionState, DiffComment, DiffCommentTarget, DiffFocus, DiffLineComments, DiffMode,
};
use crate::diff_navigation::{offset_or, place_of};
use crate::diff_page::{DiffContent, DiffPage, DiffPlace, anchor_position};
use crate::geometry::ViewportRect;
use crate::input::{InputState, normalize_pasted_text, unified_breaks};
use crate::key::{KeyCode, KeyEvent};
use crate::text::same_text;

verus! {

/// What becomes of the file lookup after an edit.
#[derive(Clone, Copy, Debug, PartialEq, Eq, Structural)]
pub enum MentionSync {
    Activate,
    Dismiss,
    KeepOpen,
}

/// The text field of a comment and its file lookup.
///
/// Key bindings, text editing and the lookup are shared with the composer.
pub trait CommentEditor {
    /// Opens the comment on a target and returns its place in the list.
    fn start_editing(&self, comments: DiffLineComments, target: DiffCommentTarget) -> (
        DiffLineComments,
        usize,
    );

    /// Closes the comment that is being edited.
    fn finish_editing(&self, comments: DiffLineComments) -> DiffLineComments;

    /// Reports whether a key breaks the line.
    fn inserts_newline(&self, key: KeyEvent) -> bool;

    /// Reports whether a key is one of the enter keys.
    fn is_enter_key(&self, code: KeyCode) -> bool;

    /// Highlights the file above.
    fn mention_above(&self, state: AtMentionState) -> AtMentionState;

    /// Highlights the file below.
    fn mention_below(&self, input: &InputState, state: AtMentionState) -> AtMentionState;

    /// Writes the highlighted file into the text.
    fn with_mention(&self, input: &InputState, state: AtMentionState) -> Option<InputState>;

    /// Applies an editing key; other keys give nothing.
    fn edited(&self, input: &InputState, key: KeyEvent) -> Option<InputState>;

    /// Decides what becomes of the lookup.
    fn mention_sync(&self, input: &InputState, state: Option<AtMentionState>) -> MentionSync;
}

/// The text field that is being edited.
pub open spec fn edited_input(comments: DiffLineComments) -> Option<InputState> {
    match comments.editing_index {
        Some(index) if index < comments.comments@.len() => Some(
            comments.comments@[index as int].input,
        ),
        _ => None,
    }
}

/// Whether `after` is `before` with another text in the edited comment.
pub open spec fn input_replaced(
    before: DiffLineComments,
    after: DiffLineComments,
    input: InputState,
) -> bool {
    let index = before.editing_index->0 as int;
    &&& edited_input(before) is Some
    &&& after.comments@ == before.comments@.update(
        index,
        DiffComment { input, target: before.comments@[index].target },
    )
    &&& after.at_mention_state == before.at_mention_state
    &&& after.editing_index == before.editing_index
    &&& after.selected_comment == before.selected_comment
    &&& after.selection_start == before.selection_start
}

/// Puts another text into the edited comment.
fn replace_input(comments: &mut DiffLineComments, index: usize, input: InputState)
    requires
        old(comments).editing_index == Some(index),
        index < old(comments).comments@.len(),
    ensures
        input_replaced(*old(comments), *final(comments), input),
{
    comments.comments[index].input = input;
    assert(comments.comments@ =~= old(comments).comments@.update(
        index as int,
        DiffComment { input, target: old(comments).comments@[index as int].target },
    ));
}

/// The file lookup after the editor decided what becomes of it.
pub open spec fn synced_mention(state: Option<AtMentionState>, sync: MentionSync) -> Option<
    AtMentionState,
> {
    match sync {
        MentionSync::Dismiss => None,
        MentionSync::KeepOpen => match state {
            Some(_) => Some(AtMentionState { selected_index: 0 }),
            None => None,
        },
        MentionSync::Activate => Some(AtMentionState { selected_index: 0 }),
    }
}

/// Whether the file lookup was brought in line with the edited text; `lookup`
/// tells whether its files are to be read.
pub open spec fn mention_synced<E: CommentEditor>(
    editor: &E,
    before: DiffMode,
    after: DiffMode,
    lookup: bool,
) -> bool {
    match edited_input(before.line_comments) {
        None => after == before && !lookup,
        Some(input) => exists|sync: MentionSync| #[trigger]
            call_ensures(
                E::mention_sync,
                (editor, &input, before.line_comments.at_mention_state),
                sync,
            ) && lookup == (sync == MentionSync::Activate) && after == (DiffMode {
                line_comments: DiffLineComments {
                    at_mention_state: synced_mention(before.line_comments.at_mention_state, sync),
                    ..before.line_comments
                },
                ..before
            }),
    }
}

/// Brings the file lookup in line with the edited text and reports whether
/// its files are to be read.
pub fn sync_comment_at_mention<E: CommentEditor>(diff: &mut DiffMode, editor: &E) -> (lookup: bool)
    ensures
        mention_synced(editor, *old(diff), *final(diff), lookup),
{
    let index: usize = match diff.line_comments.editing_index {
        Some(index) => index,
        None => {
            return false;
        },
    };
    if index >= diff.line_comments.comments.len() {
        return false;
    }
    let sync: MentionSync = editor.mention_sync(
        &diff.line_comments.comments[index].input,
        diff.line_comments.at_mention_state,
    );
    assert(call_ensures(
        E::mention_sync,
        (
            editor,
            &old(diff).line_comments.comments@[index as int].input,
            old(diff).line_comments.at_mention_state,
        ),
        sync,
    ));
    match sync {
        MentionSync::Dismiss => {
            diff.line_comments.at_mention_state = None;
            false
        },
        MentionSync::KeepOpen => {
            if diff.line_comments.at_mention_state.is_some() {
                diff.line_comments.at_mention_state = Some(AtMentionState { selected_index: 0 });
            }
            false
        },
        MentionSync::Activate => {
            diff.line_comments.at_mention_state = Some(AtMentionState { selected_index: 0 });
            true
        },
    }
}

/// Whether `middle` is the page with `input` in the edited comment.
pub open spec fn page_with_input(before: DiffMode, middle: DiffMode, input: InputState) -> bool {
    &&& input_replaced(before.line_comments, middle.line_comments, input)
    &&& middle == (DiffMode { line_comments: middle.line_comments, ..before })
}

/// Whether an editing key was applied to the edited comment.
pub open spec fn input_key_applied<E: CommentEditor>(
    editor: &E,
    key: KeyEvent,
    before: DiffMode,
    after: DiffMode,
    lookup: bool,
) -> bool {
    match edited_input(before.line_comments) {
        None => after == before && !lookup,
        Some(input) => exists|result: Option<InputState>| #[trigger]
            call_ensures(E::edited, (editor, &input, key), result) && match result {
                None => after == before && !lookup,
                Some(next) => exists|middle: DiffMode| #[trigger]
                    page_with_input(before, middle, next) && mention_synced(
                        editor,
                        middle,
                        after,
                        lookup,
                    ),
            },
    }
}

/// Applies an editing key to the edited comment.
pub fn apply_comment_input_key<E: CommentEditor>(
    diff: &mut DiffMode,
    editor: &E,
    key: KeyEvent,
) -> (lookup: bool)
    ensures
        input_key_applied(editor, key, *old(diff), *final(diff), lookup),
{
    let index: usize = match diff.line_comments.editing_index {
        Some(index) => index,
        None => {
            return false;
        },
    };
    if index >= diff.line_comments.comments.len() {
        return false;
    }
    let result: Option<InputState> = editor.edited(&diff.line_comments.comments[index].input, key);
    assert(call_ensures(
        E::edited,
        (editor, &old(diff).line_comments.comments@[index as int].input, key),
        result,
    ));
    match result {
        None => false,
        Some(next) => {
            replace_input(&mut diff.line_comments, index, next);
            let ghost middle = *diff;
            assert(page_with_input(*old(diff), middle, next));
            sync_comment_at_mention(diff, editor)
        },
    }
}

/// Whether pasted text went into the edited comment.
pub open spec fn pasted_into_comment<E: CommentEditor>(
    editor: &E,
    pasted: Seq<char>,
    before: DiffMode,
    after: DiffMode,
    lookup: bool,
) -> bool {
    match edited_input(before.line_comments) {
        None => after == before && !lookup,
        Some(input) => exists|next: InputState, middle: DiffMode| #[trigger]
            page_with_input(before, middle, next) && mention_synced(editor, middle, after, lookup)
                && next.text@ == input.text@.take(input.insertion_point()) + unified_breaks(pasted)
                + input.text@.skip(input.insertion_point()) && next.cursor
                == input.insertion_point() + unified_breaks(pasted).len(),
    }
}

/// Pastes text into the edited comment, with its line breaks unified.
pub fn handle_paste<E: CommentEditor>(diff: &mut DiffMode, editor: &E, pasted_text: &str) -> (
    lookup: bool)
    ensures
        pasted_into_comment(editor, pasted_text@, *old(diff), *final(diff), lookup),
{
    let index: usize = match diff.line_comments.editing_index {
        Some(index) => index,
        None => {
            return false;
        },
    };
    if index >= diff.line_comments.comments.len() {
        return false;
    }
    let text: String = normalize_pasted_text(pasted_text);
    let mut next: InputState = diff.line_comments.comments[index].input.clone();
    next.insert_text(text.as_str());
    let ghost written = next;
    replace_input(&mut diff.line_comments, index, next);
    let ghost middle = *diff;
    assert(page_with_input(*old(diff), middle, written));
    sync_comment_at_mention(diff, editor)
}

/// What a key does to the comment that is being edited.
#[derive(Clone, Copy, Debug, PartialEq, Eq, Structural)]
pub enum CommentStep {
    AcceptMention,
    CloseMention,
    Edit,
    Finish,
    MentionAbove,
    MentionBelow,
}

/// Whether a key accepts the highlighted file.
pub open spec fn accepts_mention(code: KeyCode) -> bool {
    code == KeyCode::Tab || code == KeyCode::Enter || code == KeyCode::Char('\r') || code
        == KeyCode::Char('\n')
}

/// The step that a key asks for.
///
/// While files are looked up, the lookup gets the keys that it knows.
pub open spec fn comment_step(
    comments: DiffLineComments,
    key: KeyEvent,
    inserts_newline: bool,
    is_enter: bool,
) -> CommentStep {
    if !inserts_newline && comments.at_mention_state is Some && edited_input(comments) is Some {
        if key.code == KeyCode::Esc {
            CommentStep::CloseMention
        } else if key.code == KeyCode::Up {
            CommentStep::MentionAbove
        } else if key.code == KeyCode::Down {
            CommentStep::MentionBelow
        } else if accepts_mention(key.code) {
            CommentStep::AcceptMention
        } else {
            CommentStep::Edit
        }
    } else if key.code == KeyCode::Esc || (is_enter && !inserts_newline) {
        CommentStep::Finish
    } else {
        CommentStep::Edit
    }
}

/// Finds the step that a key asks for.
fn find_comment_step(
    comments: &DiffLineComments,
    key: KeyEvent,
    inserts_newline: bool,
    is_enter: bool,
) -> (step: CommentStep)
    ensures
        step == comment_step(*comments, key, inserts_newline, is_enter),
{
    let has_input: bool = match comments.editing_index {
        Some(index) => index < comments.comments.len(),
        None => false,
    };
    if !inserts_newline && comments.at_mention_state.is_some() && has_input {
        match key.code {
            KeyCode::Esc => CommentStep::CloseMention,
            KeyCode::Up => CommentStep::MentionAbove,
            KeyCode::Down => CommentStep::MentionBelow,
            KeyCode::Tab | KeyCode::Enter => CommentStep::AcceptMention,
            KeyCode::Char(character) => if character == '\r' || character == '\n' {
                CommentStep::AcceptMention
            } else {
                CommentStep::Edit
            },
            _ => CommentStep::Edit,
        }
    } else if key.code == KeyCode::Esc || (is_enter && !inserts_newline) {
        CommentStep::Finish
    } else {
        CommentStep::Edit
    }
}

/// The page with another file lookup.
pub open spec fn with_mention_state(diff: DiffMode, state: Option<AtMentionState>) -> DiffMode {
    DiffMode {
        line_comments: DiffLineComments { at_mention_state: state, ..diff.line_comments },
        ..diff
    }
}

/// Whether a step was applied to the comment that is being edited.
pub open spec fn comment_step_taken<E: CommentEditor>(
    editor: &E,
    step: CommentStep,
    key: KeyEvent,
    before: DiffMode,
    after: DiffMode,
    lookup: bool,
) -> bool {
    let comments = before.line_comments;
    match step {
        CommentStep::AcceptMention => {
            let input = edited_input(comments)->0;
            &&& !lookup
            &&& exists|result: Option<InputState>| #[trigger]
                call_ensures(
                    E::with_mention,
                    (editor, &input, comments.at_mention_state->0),
                    result,
                ) && match result {
                    Some(next) => exists|middle: DiffMode| #[trigger]
                        page_with_input(before, middle, next) && after == with_mention_state(
                            middle,
                            None,
                        ),
                    None => after == with_mention_state(before, None),
                }
        },
        CommentStep::CloseMention => after == with_mention_state(before, None) && !lookup,
        CommentStep::Edit => input_key_applied(editor, key, before, after, lookup),
        CommentStep::Finish => !lookup && exists|closed: DiffLineComments| #[trigger]
            call_ensures(E::finish_editing, (editor, comments), closed) && after == (DiffMode {
                line_comments: closed,
                scroll_cache: if closed.comments@.len() == comments.comments@.len() {
                    before.scroll_cache
                } else {
                    None
                },
                ..before
            }),
        CommentStep::MentionAbove => !lookup && exists|state: AtMentionState| #[trigger]
            call_ensures(E::mention_above, (editor, comments.at_mention_state->0), state) && after
                == with_mention_state(before, Some(state)),
        CommentStep::MentionBelow => !lookup && exists|state: AtMentionState| #[trigger]
            call_ensures(
                E::mention_below,
                (editor, &edited_input(comments)->0, comments.at_mention_state->0),
                state,
            ) && after == with_mention_state(before, Some(state)),
    }
}

/// Whether a key was applied to the comment that is being edited.
pub open spec fn comment_key_applied<E: CommentEditor>(
    editor: &E,
    key: KeyEvent,
    before: DiffMode,
    after: DiffMode,
    lookup: bool,
) -> bool {
    exists|inserts_newline: bool, is_enter: bool| #[trigger]
        key_meaning(editor, key, inserts_newline, is_enter) && comment_step_taken(
            editor,
            comment_step(before.line_comments, key, inserts_newline, is_enter),
            key,
            before,
            after,
            lookup,
        )
}

/// What the editor says about a key.
pub open spec fn key_meaning<E: CommentEditor>(
    editor: &E,
    key: KeyEvent,
    inserts_newline: bool,
    is_enter: bool,
) -> bool {
    &&& call_ensures(E::inserts_newline, (editor, key), inserts_newline)
    &&& call_ensures(E::is_enter_key, (editor, key.code), is_enter)
}

/// Applies a key to the comment that is being edited.
///
/// Returns whether files are to be looked up.
fn apply_comment_key<E: CommentEditor>(diff: &mut DiffMode, editor: &E, key: KeyEvent) -> (lookup:
    bool)
    ensures
        comment_key_applied(editor, key, *old(diff), *final(diff), lookup),
{
    let inserts_newline: bool = editor.inserts_newline(key);
    let is_enter: bool = editor.is_enter_key(key.code);
    assert(key_meaning(editor, key, inserts_newline, is_enter));
    let step: CommentStep = find_comment_step(
        &diff.line_comments,
        key,
        inserts_newline,
        is_enter,
    );
    let index: usize = match diff.line_comments.editing_index {
        Some(index) => index,
        None => 0,
    };
    match step {
        CommentStep::Edit => apply_comment_input_key(diff, editor, key),
        CommentStep::Finish => {
            let mut comments: DiffLineComments = DiffLineComments::default();
            std::mem::swap(&mut comments, &mut diff.line_comments);
            let count: usize = comments.comments.len();
            let closed: DiffLineComments = editor.finish_editing(comments);
            assert(call_ensures(
                E::finish_editing,
                (editor, old(diff).line_comments),
                closed,
            ));
            if closed.comments.len() != count {
                diff.scroll_cache = None;
            }
            diff.line_comments = closed;
            false
        },
        CommentStep::CloseMention => {
            diff.line_comments.at_mention_state = None;
            false
        },
        CommentStep::AcceptMention | CommentStep::MentionAbove | CommentStep::MentionBelow => {
            if let Some(state) = diff.line_comments.at_mention_state {
                match step {
                    CommentStep::MentionAbove => {
                        let next: AtMentionState = editor.mention_above(state);
                        assert(call_ensures(E::mention_above, (editor, state), next));
                        diff.line_comments.at_mention_state = Some(next);
                    },
                    CommentStep::MentionBelow => {
                        let next: AtMentionState = editor.mention_below(
                            &diff.line_comments.comments[index].input,
                            state,
                        );
                        assert(call_ensures(
                            E::mention_below,
                            (
                                editor,
                                &old(diff).line_comments.comments@[index as int].input,
                                state,
                            ),
                            next,
                        ));
                        diff.line_comments.at_mention_state = Some(next);
                    },
                    _ => {
                        let result: Option<InputState> = editor.with_mention(
                            &diff.line_comments.comments[index].input,
                            state,
                        );
                        assert(call_ensures(
                            E::with_mention,
                            (
                                editor,
                                &old(diff).line_comments.comments@[index as int].input,
                                state,
                            ),
                            result,
                        ));
                        if let Some(next) = result {
                            replace_input(&mut diff.line_comments, index, next);
                            let ghost middle = *diff;
                            assert(page_with_input(*old(diff), middle, next));
                        }
                        diff.line_comments.at_mention_state = None;
                    },
                }
            }
            false
        },
    }
}

/// Applies a key to the comment that is being edited, before any shortcut.
///
/// Returns whether there is such a comment, and whether files are to be
/// looked up.
pub fn handle_line_comment_edit_key<E: CommentEditor>(
    diff: &mut DiffMode,
    editor: &E,
    key: KeyEvent,
) -> (outcome: (bool, bool))
    ensures
        outcome.0 == (old(diff).line_comments.editing_index is Some),
        if outcome.0 {
            comment_key_applied(editor, key, *old(diff), *final(diff), outcome.1)
        } else {
            *final(diff) == *old(diff) && !outcome.1
        },
{
    if !diff.line_comments.is_editing() {
        return (false, false);
    }
    let lookup: bool = apply_comment_key(diff, editor, key);
    (true, lookup)
}

/// The changed line that a new comment belongs to.
///
/// A comment on the selected file belongs to its first changed line; one on
/// lines belongs to the last of them. A target that is not shown has none.
pub open spec fn comment_line(
    content: DiffContent,
    file_index: usize,
    target: DiffCommentTarget,
) -> Option<usize> {
    match target {
        DiffCommentTarget::File { path } => match content.file_path(file_index) {
            Some(selected) if selected@ == path@ => Some(0),
            _ => None,
        },
        DiffCommentTarget::Lines(anchors) => if anchors@.len() == 0 {
            None
        } else {
            anchor_position(content.changed_lines(file_index), anchors@.last(), 0)
        },
    }
}

/// Finds the changed line that a new comment belongs to.
fn find_comment_line(content: &DiffContent, file_index: usize, target: &DiffCommentTarget) -> (
    line: Option<usize>)
    ensures
        line == comment_line(*content, file_index, *target),
{
    match target {
        DiffCommentTarget::File { path } => match content.selected_file_path(file_index) {
            Some(selected) => if same_text(selected.as_str(), path.as_str()) {
                Some(0)
            } else {
                None
            },
            None => None,
        },
        DiffCommentTarget::Lines(anchors) => {
            if anchors.len() == 0 {
                return None;
            }
            content.changed_line_index_for_anchor(file_index, &anchors[anchors.len() - 1])
        },
    }
}

/// The page just before the editor opens a comment: one on a whole file ends
/// a row selection.
pub open spec fn before_editing(diff: DiffMode, target: DiffCommentTarget) -> DiffLineComments {
    match target {
        DiffCommentTarget::File { .. } => DiffLineComments {
            selection_start: None,
            ..diff.line_comments
        },
        DiffCommentTarget::Lines(_) => diff.line_comments,
    }
}

/// The page while a comment is being edited, not yet scrolled to it.
pub open spec fn with_editor_open(
    diff: DiffMode,
    target: DiffCommentTarget,
    comments: DiffLineComments,
    line: usize,
) -> DiffMode {
    DiffMode {
        focus: DiffFocus::Content,
        line_comments: comments,
        preview: diff.preview.off(),
        scroll_cache: None,
        selected_diff_line_index: match target {
            DiffCommentTarget::File { .. } => line,
            DiffCommentTarget::Lines(_) => diff.selected_diff_line_index,
        },
        ..diff
    }
}

/// Whether a comment was opened for editing and the page shows it.
pub open spec fn comment_opened<P: DiffPage, E: CommentEditor>(
    page: &P,
    editor: &E,
    content: DiffContent,
    area: ViewportRect,
    target: DiffCommentTarget,
    before: DiffMode,
    after: DiffMode,
) -> bool {
    match comment_line(content, before.file_explorer_selected_index, target) {
        None => after == before,
        Some(line) => exists|comments: DiffLineComments, index: usize, given: Option<u16>| #[trigger]
            opened_at(page, editor, area, target, before, line, comments, index, given) && after
                == (DiffMode {
                scroll_offset: offset_or(given, before.scroll_offset),
                ..with_editor_open(before, target, comments, line)
            }),
    }
}

/// Whether the editor opened a comment at `index`, which the page shows at
/// the offset that it `given`.
pub open spec fn opened_at<P: DiffPage, E: CommentEditor>(
    page: &P,
    editor: &E,
    area: ViewportRect,
    target: DiffCommentTarget,
    diff: DiffMode,
    line: usize,
    comments: DiffLineComments,
    index: usize,
    given: Option<u16>,
) -> bool {
    &&& call_ensures(
        E::start_editing,
        (editor, before_editing(diff, target), target),
        (comments, index),
    )
    &&& call_ensures(
        P::selection_scroll,
        (page, &comments, place_of(diff, area), line, Some(index), diff.scroll_offset),
        given,
    )
}

/// Opens a comment for editing and scrolls to it.
pub fn start_line_comment_edit<P: DiffPage, E: CommentEditor>(
    diff: &mut DiffMode,
    content: &DiffContent,
    page: &P,
    editor: &E,
    area: ViewportRect,
    target: DiffCommentTarget,
)
    ensures
        comment_opened(page, editor, *content, area, target, *old(diff), *final(diff)),
{
    let file_index: usize = diff.file_explorer_selected_index;
    let line: usize = match find_comment_line(content, file_index, &target) {
        Some(line) => line,
        None => {
            return;
        },
    };
    let is_file: bool = matches!(target, DiffCommentTarget::File { .. });
    if is_file {
        diff.line_comments.cancel_selection();
    }
    let mut before: DiffLineComments = DiffLineComments::default();
    std::mem::swap(&mut before, &mut diff.line_comments);
    assert(before == before_editing(*old(diff), target));
    let (comments, index) = editor.start_editing(before, target);
    let place: DiffPlace = DiffPlace { area, file_index };
    let given: Option<u16> = page.selection_scroll(
        &comments,
        place,
        line,
        Some(index),
        diff.scroll_offset,
    );
    assert(opened_at(page, editor, area, target, *old(diff), line, comments, index, given));
    diff.line_comments = comments;
    diff.focus = DiffFocus::Content;
    diff.preview = diff.preview.disabled();
    diff.scroll_cache = None;
    if is_file {
        diff.selected_diff_line_index = line;
    }
    if let Some(offset) = given {
        diff.scroll_offset = offset;
    }
    assert(*diff == (DiffMode {
        scroll_offset: offset_or(given, old(diff).scroll_offset),
        ..with_editor_open(*old(diff), target, comments, line)
    }));
}

} // verus!
