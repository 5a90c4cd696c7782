//! What follows from the answer to a confirmation popup.

use vstd::prelude::*;

use crate::app_mode::{
    AppMode, Confirmation, ConfirmationIntent, ConfirmationViewMode, restore_mode, restored_mode,
};
use crate::session::{Session, SessionId, row_of, session_row};
use crate::text::same_text;

verus! {

/// Answer to a confirmation popup.
#[derive(Clone, Copy, Debug, PartialEq, Eq, Structural)]
pub enum ConfirmationDecision {
    Cancel,
    Confirm,
    /// No answer yet.
    Continue,
    Reject,
}

/// Where verified work is delivered to.
#[derive(Clone, Copy, Debug, PartialEq, Eq, Structural)]
pub enum IntegrationApproach {
    LocalMerge,
    ReviewRequest,
}

/// What an answer asks for.
///
/// Where a view is carried along, it is shown once the work is done; after
/// continuing or forking it is shown only if that failed.
#[allow(inconsistent_fields)]
#[derive(Debug)]
pub enum ConfirmedAction {
    ApproveIntegration {
        approach: IntegrationApproach,
        restore_view: Option<ConfirmationViewMode>,
        session_id: SessionId,
    },
    CancelSession { session_id: SessionId },
    ContinueSession { restore_view: Option<ConfirmationViewMode>, session_id: SessionId },
    DetachManagedSession { restore_view: Option<ConfirmationViewMode>, session_id: SessionId },
    ForkSession { restore_view: Option<ConfirmationViewMode>, session_id: SessionId },
    MergeSession { session_id: SessionId },
    Nothing,
    OpenManagedWorktree { restore_view: ConfirmationViewMode },
    Quit,
    /// The shown review goes away; a new one starts if the session exists.
    RegenerateReview { session_id: SessionId, starts_review: bool },
}

/// Whether cancelling leads back to the view that the popup was opened from.
pub open spec fn cancel_restores(intent: ConfirmationIntent) -> bool {
    intent != ConfirmationIntent::Quit && intent != ConfirmationIntent::CancelSession
}

/// The mode after a popup was cancelled.
pub open spec fn cancel_mode(mode: AppMode) -> AppMode {
    match mode {
        AppMode::Confirmation(popup) => if cancel_restores(popup.confirmation_intent) {
            restored_mode(popup.restore_view)
        } else {
            AppMode::List
        },
        _ => AppMode::List,
    }
}

/// Builds the mode after a popup was cancelled.
pub fn confirmation_cancel_mode(mode: &AppMode) -> (next: AppMode)
    ensures
        next == cancel_mode(*mode),
{
    match mode {
        AppMode::Confirmation(popup) => match popup.confirmation_intent {
            ConfirmationIntent::Quit | ConfirmationIntent::CancelSession => AppMode::List,
            _ => match &popup.restore_view {
                Some(view) => view.clone().into_view_mode(),
                None => AppMode::List,
            },
        },
        _ => AppMode::List,
    }
}

/// The action and mode after the integration of verified work was decided.
pub open spec fn integration_result(popup: Confirmation, approach: IntegrationApproach) -> (
    ConfirmedAction,
    AppMode,
) {
    match popup.session_id {
        Some(session_id) => (
            ConfirmedAction::ApproveIntegration {
                approach,
                restore_view: popup.restore_view,
                session_id,
            },
            AppMode::Confirmation(popup),
        ),
        None => (ConfirmedAction::Nothing, restored_mode(popup.restore_view)),
    }
}

/// The action and mode after a new review was asked for.
pub open spec fn regenerate_result(popup: Confirmation, sessions: Seq<Session>) -> (
    ConfirmedAction,
    AppMode,
) {
    match popup.session_id {
        None => (ConfirmedAction::Nothing, AppMode::List),
        Some(session_id) => {
            let starts_review = row_of(sessions, session_id@) is Some;
            (
                ConfirmedAction::RegenerateReview { session_id, starts_review },
                match popup.restore_view {
                    Some(view) => view.view_mode(),
                    None => if starts_review {
                        AppMode::View { scroll_offset: None, session_id }
                    } else {
                        AppMode::List
                    },
                },
            )
        },
    }
}

/// The action and mode after a managed worktree was to be opened.
pub open spec fn managed_worktree_result(popup: Confirmation) -> (ConfirmedAction, AppMode) {
    match popup.restore_view {
        None => (ConfirmedAction::Nothing, AppMode::List),
        Some(view) => match popup.session_id {
            Some(session_id) if session_id@ == view.session_id@ => (
                ConfirmedAction::OpenManagedWorktree { restore_view: view },
                AppMode::Confirmation(popup),
            ),
            _ => (ConfirmedAction::Nothing, view.view_mode()),
        },
    }
}

/// The action and mode after a popup was confirmed.
pub open spec fn confirm_result(popup: Confirmation, sessions: Seq<Session>) -> (
    ConfirmedAction,
    AppMode,
) {
    let restore_view = popup.restore_view;
    match popup.confirmation_intent {
        ConfirmationIntent::Quit => (ConfirmedAction::Quit, AppMode::List),
        ConfirmationIntent::CancelSession => (
            match popup.session_id {
                Some(session_id) => ConfirmedAction::CancelSession { session_id },
                None => ConfirmedAction::Nothing,
            },
            AppMode::List,
        ),
        ConfirmationIntent::ContinueSession => match popup.session_id {
            Some(session_id) => (
                ConfirmedAction::ContinueSession { restore_view, session_id },
                AppMode::Confirmation(popup),
            ),
            None => (ConfirmedAction::Nothing, restored_mode(restore_view)),
        },
        ConfirmationIntent::ForkSession => match popup.session_id {
            Some(session_id) => (
                ConfirmedAction::ForkSession { restore_view, session_id },
                AppMode::Confirmation(popup),
            ),
            None => (ConfirmedAction::Nothing, restored_mode(restore_view)),
        },
        ConfirmationIntent::MergeSession => (
            match popup.session_id {
                Some(session_id) => ConfirmedAction::MergeSession { session_id },
                None => ConfirmedAction::Nothing,
            },
            restored_mode(restore_view),
        ),
        ConfirmationIntent::RegenerateReview => regenerate_result(popup, sessions),
        ConfirmationIntent::DetachManagedSession => match popup.session_id {
            Some(session_id) => (
                ConfirmedAction::DetachManagedSession { restore_view, session_id },
                AppMode::Confirmation(popup),
            ),
            None => (ConfirmedAction::Nothing, restored_mode(restore_view)),
        },
        ConfirmationIntent::OpenManagedWorktree => managed_worktree_result(popup),
        ConfirmationIntent::ChooseIntegrationApproach => integration_result(
            popup,
            IntegrationApproach::LocalMerge,
        ),
    }
}

/// Copies the view to come back to.
fn copy_view(view: &Option<ConfirmationViewMode>) -> (copy: Option<ConfirmationViewMode>)
    ensures
        copy == *view,
{
    match view {
        Some(view) => Some(view.clone()),
        None => None,
    }
}

/// Decides on the integration of verified work.
fn handle_integration_approach_confirmation(
    popup: Confirmation,
    approach: IntegrationApproach,
) -> (result: (ConfirmedAction, AppMode))
    ensures
        result == integration_result(popup, approach),
{
    match &popup.session_id {
        Some(session_id) => {
            let action: ConfirmedAction = ConfirmedAction::ApproveIntegration {
                approach,
                restore_view: copy_view(&popup.restore_view),
                session_id: session_id.clone(),
            };
            (action, AppMode::Confirmation(popup))
        },
        None => (ConfirmedAction::Nothing, restore_mode(popup.restore_view)),
    }
}

/// Decides on a new review.
fn handle_regenerate_review_confirmation(popup: Confirmation, sessions: &Vec<Session>) -> (result: (
    ConfirmedAction,
    AppMode,
))
    ensures
        result == regenerate_result(popup, sessions@),
{
    match popup.session_id {
        None => (ConfirmedAction::Nothing, AppMode::List),
        Some(session_id) => {
            let starts_review: bool = session_row(sessions, session_id.as_str()).is_some();
            let mode: AppMode = match popup.restore_view {
                Some(view) => view.into_view_mode(),
                None => if starts_review {
                    AppMode::View { scroll_offset: None, session_id: session_id.clone() }
                } else {
                    AppMode::List
                },
            };
            (ConfirmedAction::RegenerateReview { session_id, starts_review }, mode)
        },
    }
}

/// Decides on opening a managed worktree.
fn handle_open_managed_worktree_confirmation(popup: Confirmation) -> (result: (
    ConfirmedAction,
    AppMode,
))
    ensures
        result == managed_worktree_result(popup),
{
    let view: ConfirmationViewMode = match &popup.restore_view {
        None => {
            return (ConfirmedAction::Nothing, AppMode::List);
        },
        Some(view) => view.clone(),
    };
    let is_viewed: bool = match &popup.session_id {
        Some(session_id) => same_text(session_id.as_str(), view.session_id.as_str()),
        None => false,
    };
    if is_viewed {
        (
            ConfirmedAction::OpenManagedWorktree { restore_view: view },
            AppMode::Confirmation(popup),
        )
    } else {
        (ConfirmedAction::Nothing, view.into_view_mode())
    }
}

/// Decides what a confirmed popup asks for.
pub fn handle_confirmation_confirm(popup: Confirmation, sessions: &Vec<Session>) -> (result: (
    ConfirmedAction,
    AppMode,
))
    ensures
        result == confirm_result(popup, sessions@),
{
    match popup.confirmation_intent {
        ConfirmationIntent::Quit => (ConfirmedAction::Quit, AppMode::List),
        ConfirmationIntent::CancelSession => (
            match popup.session_id {
                Some(session_id) => ConfirmedAction::CancelSession { session_id },
                None => ConfirmedAction::Nothing,
            },
            AppMode::List,
        ),
        ConfirmationIntent::ContinueSession => match &popup.session_id {
            Some(session_id) => {
                let action: ConfirmedAction = ConfirmedAction::ContinueSession {
                    restore_view: copy_view(&popup.restore_view),
                    session_id: session_id.clone(),
                };
                (action, AppMode::Confirmation(popup))
            },
            None => (ConfirmedAction::Nothing, restore_mode(popup.restore_view)),
        },
        ConfirmationIntent::ForkSession => match &popup.session_id {
            Some(session_id) => {
                let action: ConfirmedAction = ConfirmedAction::ForkSession {
                    restore_view: copy_view(&popup.restore_view),
                    session_id: session_id.clone(),
                };
                (action, AppMode::Confirmation(popup))
            },
            None => (ConfirmedAction::Nothing, restore_mode(popup.restore_view)),
        },
        ConfirmationIntent::MergeSession => (
            match popup.session_id {
                Some(session_id) => ConfirmedAction::MergeSession { session_id },
                None => ConfirmedAction::Nothing,
            },
            restore_mode(popup.restore_view),
        ),
        ConfirmationIntent::RegenerateReview => handle_regenerate_review_confirmation(
            popup,
            sessions,
        ),
        ConfirmationIntent::DetachManagedSession => match &popup.session_id {
            Some(session_id) => {
                let action: ConfirmedAction = ConfirmedAction::DetachManagedSession {
                    restore_view: copy_view(&popup.restore_view),
                    session_id: session_id.clone(),
                };
                (action, AppMode::Confirmation(popup))
            },
            None => (ConfirmedAction::Nothing, restore_mode(popup.restore_view)),
        },
        ConfirmationIntent::OpenManagedWorktree => handle_open_managed_worktree_confirmation(popup),
        ConfirmationIntent::ChooseIntegrationApproach => handle_integration_approach_confirmation(
            popup,
            IntegrationApproach::LocalMerge,
        ),
    }
}

/// The action and mode after the second answer was given.
///
/// It only differs from cancelling where verified work is delivered.
pub open spec fn reject_result(popup: Confirmation) -> (ConfirmedAction, AppMode) {
    if popup.confirmation_intent == ConfirmationIntent::ChooseIntegrationApproach {
        integration_result(popup, IntegrationApproach::ReviewRequest)
    } else {
        (ConfirmedAction::Nothing, cancel_mode(AppMode::Confirmation(popup)))
    }
}

/// Decides what the second answer asks for.
pub fn handle_confirmation_reject(popup: Confirmation) -> (result: (ConfirmedAction, AppMode))
    ensures
        result == reject_result(popup),
{
    if popup.confirmation_intent == ConfirmationIntent::ChooseIntegrationApproach {
        return handle_integration_approach_confirmation(popup, IntegrationApproach::ReviewRequest);
    }
    let mode: AppMode = AppMode::Confirmation(popup);
    (ConfirmedAction::Nothing, confirmation_cancel_mode(&mode))
}

/// A popup with another highlighted answer.
pub open spec fn highlighted(popup: Confirmation, index: usize) -> Confirmation {
    Confirmation { selected_confirmation_index: index, ..popup }
}

/// Highlights an answer of a shown confirmation popup.
pub fn highlight_answer(mode: &mut AppMode, index: usize)
    ensures
        *final(mode) == (match *old(mode) {
            AppMode::Confirmation(popup) => AppMode::Confirmation(highlighted(popup, index)),
            other => other,
        }),
{
    let mut current: AppMode = AppMode::List;
    std::mem::swap(mode, &mut current);
    *mode = match current {
        AppMode::Confirmation(popup) => AppMode::Confirmation(
            Confirmation { selected_confirmation_index: index, ..popup },
        ),
        other => other,
    };
}

/// The action and mode after an answer.
pub open spec fn decision_result(
    popup: Confirmation,
    sessions: Seq<Session>,
    decision: ConfirmationDecision,
) -> (ConfirmedAction, AppMode) {
    match decision {
        ConfirmationDecision::Confirm => confirm_result(popup, sessions),
        ConfirmationDecision::Reject => reject_result(popup),
        ConfirmationDecision::Cancel => (
            ConfirmedAction::Nothing,
            cancel_mode(AppMode::Confirmation(popup)),
        ),
        ConfirmationDecision::Continue => (ConfirmedAction::Nothing, AppMode::Confirmation(popup)),
    }
}

/// Applies the answer to a confirmation popup and returns what it asks for.
pub fn handle_confirmation_decision(
    mode: &mut AppMode,
    sessions: &Vec<Session>,
    decision: ConfirmationDecision,
) -> (action: ConfirmedAction)
    ensures
        match *old(mode) {
            AppMode::Confirmation(popup) => (action, *final(mode)) == decision_result(
                popup,
                sessions@,
                decision,
            ),
            other => action is Nothing && *final(mode) == other,
        },
{
    let mut current: AppMode = AppMode::List;
    std::mem::swap(mode, &mut current);
    match current {
        AppMode::Confirmation(popup) => {
            let (action, next): (ConfirmedAction, AppMode) = match decision {
                ConfirmationDecision::Confirm => handle_confirmation_confirm(popup, sessions),
                ConfirmationDecision::Reject => handle_confirmation_reject(popup),
                ConfirmationDecision::Cancel => {
                    let shown: AppMode = AppMode::Confirmation(popup);
                    (ConfirmedAction::Nothing, confirmation_cancel_mode(&shown))
                },
                ConfirmationDecision::Continue => (
                    ConfirmedAction::Nothing,
                    AppMode::Confirmation(popup),
                ),
            };
            *mode = next;
            action
        },
        other => {
            *mode = other;
            ConfirmedAction::Nothing
        },
    }
}

/// Cancelling does nothing to any session, and brings back the view that the
/// popup was opened from, or else the list.
pub proof fn lemma_cancel_changes_nothing(
    popup: Confirmation,
    sessions: Seq<Session>,
    view: ConfirmationViewMode,
)
    requires
        popup.restore_view == Some(view),
    ensures
        decision_result(popup, sessions, ConfirmationDecision::Cancel).0 is Nothing,
        decision_result(popup, sessions, ConfirmationDecision::Cancel).1 == (if cancel_restores(
            popup.confirmation_intent,
        ) {
            view.view_mode()
        } else {
            AppMode::List
        }),
{
}

/// Only a confirmed popup that asks to quit ends the program.
pub proof fn lemma_only_confirmed_quit_ends(
    popup: Confirmation,
    sessions: Seq<Session>,
    decision: ConfirmationDecision,
)
    ensures
        decision_result(popup, sessions, decision).0 is Quit <==> decision
            == ConfirmationDecision::Confirm && popup.confirmation_intent
            == ConfirmationIntent::Quit,
{
}

} // verus!
