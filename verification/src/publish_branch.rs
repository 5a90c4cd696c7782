//! Keys of the popup that asks for a remote branch name.

use vstd::prelude::*;

use crate::app_mode::{AppMode, ConfirmationViewMode, PublishBranchAction, PublishBranchInput};
use crate::input::InputState;
use crate::key::{KeyCode, KeyEvent};
use crate::session::SessionId;
use crate::text::{trim, trimmed};

verus! {

/// A branch that is to be published.
#[derive(Debug)]
pub struct BranchPublication {
    pub action: PublishBranchAction,
    /// The name to be published under; the default one if there is none.
    pub remote_branch_name: Option<String>,
    pub restore_view: ConfirmationViewMode,
    pub session_id: SessionId,
}

/// The branch name that was entered: a locked name always counts, any other
/// only if it is not blank.
pub open spec fn entered_name(input: PublishBranchInput) -> Option<Seq<char>> {
    let name = trimmed(input.input.text@);
    if input.locked_upstream_ref is Some || name.len() > 0 {
        Some(name)
    } else {
        None
    }
}

/// Whether `publication` publishes what was entered.
pub open spec fn publishes(input: PublishBranchInput, publication: BranchPublication) -> bool {
    &&& publication.action == input.publish_branch_action
    &&& publication.restore_view == input.restore_view
    &&& publication.session_id == input.restore_view.session_id
    &&& match entered_name(input) {
        Some(name) => publication.remote_branch_name matches Some(remote) && remote@ == name,
        None => publication.remote_branch_name is None,
    }
}

/// Collects what was entered.
fn publication_of(input: PublishBranchInput) -> (publication: BranchPublication)
    ensures
        publishes(input, publication),
{
    let name: String = trim(input.input.text.as_str());
    let remote_branch_name: Option<String> = if input.locked_upstream_ref.is_some()
        || !name.as_str().is_empty() {
        Some(name)
    } else {
        None
    };
    let session_id: SessionId = input.restore_view.session_id.clone();
    BranchPublication {
        action: input.publish_branch_action,
        remote_branch_name,
        restore_view: input.restore_view,
        session_id,
    }
}

/// Applies a key of the popup and returns the publication that it asks for.
///
/// Only `Esc` closes the popup. `edited` is the input as the key changes it;
/// a locked name does not change.
pub fn handle_publish_branch_input_key(
    mode: &mut AppMode,
    edited: Option<InputState>,
    key: KeyEvent,
) -> (publication: Option<BranchPublication>)
    ensures
        match *old(mode) {
            AppMode::PublishBranchInput(input) => {
                if key.code == KeyCode::Esc {
                    publication is None && *final(mode) == input.restore_view.view_mode()
                } else if key.code == KeyCode::Enter {
                    &&& publication matches Some(publication)
                    &&& publishes(input, publication)
                    &&& *final(mode) == AppMode::List
                } else if input.locked_upstream_ref is None && edited is Some {
                    &&& publication is None
                    &&& *final(mode) == AppMode::PublishBranchInput(
                        PublishBranchInput { input: edited->0, ..input },
                    )
                } else {
                    publication is None && *final(mode) == *old(mode)
                }
            },
            other => publication is None && *final(mode) == other,
        },
{
    let mut current: AppMode = AppMode::List;
    std::mem::swap(mode, &mut current);
    match current {
        AppMode::PublishBranchInput(input) => {
            if key.code == KeyCode::Esc {
                *mode = input.restore_view.into_view_mode();
                return None;
            }
            if key.code == KeyCode::Enter {
                return Some(publication_of(input));
            }
            let is_locked: bool = input.locked_upstream_ref.is_some();
            let mut shown: PublishBranchInput = input;
            if !is_locked {
                if let Some(next) = edited {
                    shown.input = next;
                }
            }
            *mode = AppMode::PublishBranchInput(shown);
            None
        },
        other => {
            *mode = other;
            None
        },
    }
}

} // verus!
