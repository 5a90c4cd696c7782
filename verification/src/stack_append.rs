//! Keys of the popup that selects a session's new parent.

use vstd::prelude::*;

use crate::app_mode::AppMode;
use crate::key::{KeyCode, KeyEvent, is_quit_letter, quit_letter};
use crate::session::{Session, SessionId};
use crate::session_creation::APPEND_OPTION;
use crate::viewport::{least, minus};

verus! {

/// A session that moves under another one.
#[derive(Debug)]
pub struct StackAppend {
    pub parent_session_id: SessionId,
    pub session_id: SessionId,
}

/// The identifiers of the eligible sessions, in list order.
pub open spec fn eligible_ids(sessions: Seq<Session>, eligible: Seq<bool>) -> Seq<SessionId>
    decreases sessions.len(),
{
    if sessions.len() == 0 {
        Seq::empty()
    } else {
        let row = sessions.len() - 1;
        let earlier = eligible_ids(sessions.drop_last(), eligible);
        if row < eligible.len() && eligible[row] {
            earlier.push(sessions.last().id)
        } else {
            earlier
        }
    }
}

/// Collects the identifiers of the eligible sessions, in list order.
pub fn stack_append_parent_session_ids(sessions: &Vec<Session>, eligible: &Vec<bool>) -> (ids: Vec<
    SessionId,
>)
    ensures
        ids@ == eligible_ids(sessions@, eligible@),
{
    let mut ids: Vec<SessionId> = Vec::new();
    let mut row: usize = 0;
    assert(sessions@.take(0) =~= Seq::empty());
    while row < sessions.len()
        invariant
            row <= sessions@.len(),
            ids@ == eligible_ids(sessions@.take(row as int), eligible@),
        decreases sessions@.len() - row,
    {
        assert(sessions@.take(row as int + 1).drop_last() =~= sessions@.take(row as int));
        if row < eligible.len() && eligible[row] {
            ids.push(sessions[row].id.clone());
        }
        row = row + 1;
    }
    assert(sessions@.take(row as int) =~= sessions@);
    ids
}

/// The highlighted row one step further.
pub open spec fn parent_moved(index: usize, count: int, move_up: bool) -> usize {
    if move_up {
        minus(index as int, 1) as usize
    } else {
        least(index + 1, minus(count, 1)) as usize
    }
}

/// Moves the highlighted parent by one row; it stops at both ends.
pub fn update_stack_append_parent_selection(mode: &mut AppMode, parent_count: usize, move_up: bool)
    ensures
        *final(mode) == (match *old(mode) {
            AppMode::StackAppendParentSelection { selected_parent_index, session_id } => {
                AppMode::StackAppendParentSelection {
                    selected_parent_index: parent_moved(
                        selected_parent_index,
                        parent_count as int,
                        move_up,
                    ),
                    session_id,
                }
            },
            other => other,
        }),
{
    if let AppMode::StackAppendParentSelection { selected_parent_index, .. } = mode {
        let index: usize = *selected_parent_index;
        *selected_parent_index = if move_up {
            index.saturating_sub(1)
        } else {
            let next: usize = index.saturating_add(1);
            let last: usize = parent_count.saturating_sub(1);
            if next < last {
                next
            } else {
                last
            }
        };
    }
}

/// The move that the popup asks for, if its highlighted row exists.
pub open spec fn chosen_parent(mode: AppMode, parents: Seq<SessionId>) -> Option<StackAppend> {
    match mode {
        AppMode::StackAppendParentSelection { selected_parent_index, session_id } => {
            if selected_parent_index < parents.len() {
                Some(
                    StackAppend {
                        parent_session_id: parents[selected_parent_index as int],
                        session_id,
                    },
                )
            } else {
                None
            }
        },
        _ => None,
    }
}

/// Closes the popup and returns the move that it asks for.
pub fn append_session_to_selected_stack(mode: &mut AppMode, parents: &Vec<SessionId>) -> (append:
    Option<StackAppend>)
    ensures
        append == chosen_parent(*old(mode), parents@),
        *final(mode) == (if *old(mode) is StackAppendParentSelection {
            AppMode::List
        } else {
            *old(mode)
        }),
{
    let append: Option<StackAppend> = match &*mode {
        AppMode::StackAppendParentSelection { selected_parent_index, session_id } => {
            if *selected_parent_index < parents.len() {
                Some(
                    StackAppend {
                        parent_session_id: parents[*selected_parent_index].clone(),
                        session_id: session_id.clone(),
                    },
                )
            } else {
                None
            }
        },
        _ => {
            return None;
        },
    };
    *mode = AppMode::List;
    append
}

/// The move that a key asks for, and the mode that follows it.
pub open spec fn append_key_result(mode: AppMode, parents: Seq<SessionId>, key: KeyEvent) -> (
    Option<StackAppend>,
    AppMode,
) {
    match mode {
        AppMode::StackAppendParentSelection { selected_parent_index, session_id } => {
            if key.code == KeyCode::Esc {
                (None, AppMode::SessionCreation { selected_option_index: APPEND_OPTION })
            } else if quit_letter(key.code) {
                (None, AppMode::List)
            } else if key.code == KeyCode::Up || key.code == KeyCode::Char('k') {
                (
                    None,
                    AppMode::StackAppendParentSelection {
                        selected_parent_index: parent_moved(
                            selected_parent_index,
                            parents.len() as int,
                            true,
                        ),
                        session_id,
                    },
                )
            } else if key.code == KeyCode::Down || key.code == KeyCode::Char('j') {
                (
                    None,
                    AppMode::StackAppendParentSelection {
                        selected_parent_index: parent_moved(
                            selected_parent_index,
                            parents.len() as int,
                            false,
                        ),
                        session_id,
                    },
                )
            } else if key.code == KeyCode::Enter {
                (chosen_parent(mode, parents), AppMode::List)
            } else {
                (None, mode)
            }
        },
        _ => (None, mode),
    }
}

/// Applies a key of the popup and returns the move that it asks for.
pub fn handle_stack_append_parent_key(
    mode: &mut AppMode,
    parents: &Vec<SessionId>,
    key: KeyEvent,
) -> (append: Option<StackAppend>)
    ensures
        (append, *final(mode)) == append_key_result(*old(mode), parents@, key),
{
    if !matches!(&*mode, AppMode::StackAppendParentSelection { .. }) {
        return None;
    }
    if key.code == KeyCode::Esc {
        *mode = AppMode::SessionCreation { selected_option_index: APPEND_OPTION };
        return None;
    }
    if is_quit_letter(key.code) {
        *mode = AppMode::List;
        return None;
    }
    if key.code == KeyCode::Up || key.code == KeyCode::Char('k') {
        update_stack_append_parent_selection(mode, parents.len(), true);
        return None;
    }
    if key.code == KeyCode::Down || key.code == KeyCode::Char('j') {
        update_stack_append_parent_selection(mode, parents.len(), false);
        return None;
    }
    if key.code == KeyCode::Enter {
        return append_session_to_selected_stack(mode, parents);
    }
    None
}

/// Shows why a session could not be moved.
pub fn show_append_failure(mode: &mut AppMode, error: String)
    ensures
        *final(mode) matches AppMode::SyncBlockedPopup {
            default_branch,
            is_loading,
            message,
            project_name,
            title,
        } && default_branch is None && !is_loading && message == error && project_name is None
            && title@ == "Append to stack failed"@,
{
    *mode = AppMode::SyncBlockedPopup {
        default_branch: None,
        is_loading: false,
        message: error,
        project_name: None,
        title: "Append to stack failed".to_owned(),
    };
}

/// A highlighted row of the popup stays inside the list.
pub proof fn lemma_parent_moves_stay_inside(index: usize, count: int, move_up: bool)
    requires
        index < count <= usize::MAX,
    ensures
        parent_moved(index, count, move_up) < count,
{
}

} // verus!
