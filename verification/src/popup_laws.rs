//! What each key and click of a popup leads to.

use vstd::prelude::*;

use crate::app_mode::{
    AppMode, Confirmation, ConfirmationIntent, ConfirmationViewMode, DiffSidebarFocus,
    PublishBranchInput,
};
use crate::click_handler::{ClickFacts, ListPages, MouseOutcome, SettingsLists, click_applied};
use crate::confirmation::{ConfirmationDecision, ConfirmedAction, IntegrationApproach};
use crate::diff_page::DiffContent;
use crate::diff_preview::PreviewRequest;
use crate::key::{KeyCode, KeyEvent};
use crate::key_dispatch::{KeyAction, PopupFacts, key_applied};
use crate::key_handler::{KeyRoute, key_route, sends_reply};
use crate::prompt_history::{prompts_in, recalled_prompts, written_prompt};
use crate::session::{Session, SessionId, Status, lemma_row_of, session_listed};
use crate::session_creation::{
    CreateSessionMode, SelectedSessionFacts, enabled_up_to, option_above, option_below,
};
use crate::stack_append::eligible_ids;
use crate::tab::Tab;
use crate::text::trimmed;
use crate::text_lines::lines_of;
use crate::viewport::ListRegionKind;

verus! {

/// Whether a key closes a popup without an answer.
pub open spec fn closes(key: KeyEvent) -> bool {
    key.code == KeyCode::Esc || key.code == KeyCode::Char('q') || key.code == KeyCode::Char('Q')
}

/// Whether a key goes a row up.
pub open spec fn row_up(key: KeyEvent) -> bool {
    key.code == KeyCode::Up || key.code == KeyCode::Char('k')
}

/// Whether a key goes a row down.
pub open spec fn row_down(key: KeyEvent) -> bool {
    key.code == KeyCode::Down || key.code == KeyCode::Char('j')
}

/// Whether a mode is the view of a session, where it was left.
pub open spec fn is_view_of(mode: AppMode, view: ConfirmationViewMode) -> bool {
    mode == (AppMode::View { scroll_offset: view.scroll_offset, session_id: view.session_id })
}

/// Whether a mode is the view that a popup was opened from, or the list where
/// it was opened from none.
pub open spec fn is_back(mode: AppMode, view: Option<ConfirmationViewMode>) -> bool {
    match view {
        Some(view) => is_view_of(mode, view),
        None => mode == AppMode::List,
    }
}

/// Whether an option of the creation popup can be chosen.
pub open spec fn offered(facts: SelectedSessionFacts, option: int) -> bool {
    0 <= option < 3 || option == 3 && facts.stacked_parent is Some || option == 4
        && facts.append_source is Some
}

/// A popup that is left, or not answered yet, does nothing: it stays with the
/// highlighted answer, or gives way to what it was opened from. Leaving a
/// question about quitting or cancelling leads to the list.
pub proof fn lemma_unanswered_popup(
    before: AppMode,
    sessions: Seq<Session>,
    allows_reply: bool,
    facts: PopupFacts,
    key: KeyEvent,
    after: AppMode,
    action: KeyAction,
    popup: Confirmation,
)
    requires
        key_applied(before, sessions, allows_reply, facts, key, after, action),
        before == AppMode::Confirmation(popup),
    ensures
        facts.confirmation_decision == ConfirmationDecision::Continue ==> {
            &&& action == KeyAction::Confirmed(ConfirmedAction::Nothing)
            &&& after matches AppMode::Confirmation(shown)
            &&& shown == (Confirmation {
                selected_confirmation_index: facts.confirmation_index,
                ..popup
            })
        },
        facts.confirmation_decision == ConfirmationDecision::Cancel ==> {
            &&& action == KeyAction::Confirmed(ConfirmedAction::Nothing)
            &&& popup.confirmation_intent == ConfirmationIntent::Quit || popup.confirmation_intent
                == ConfirmationIntent::CancelSession ==> after == AppMode::List
            &&& popup.confirmation_intent != ConfirmationIntent::Quit && popup.confirmation_intent
                != ConfirmationIntent::CancelSession ==> is_back(after, popup.restore_view)
        },
        facts.confirmation_decision == ConfirmationDecision::Reject && popup.confirmation_intent
            != ConfirmationIntent::ChooseIntegrationApproach ==> {
            &&& action == KeyAction::Confirmed(ConfirmedAction::Nothing)
            &&& popup.confirmation_intent == ConfirmationIntent::Quit || popup.confirmation_intent
                == ConfirmationIntent::CancelSession ==> after == AppMode::List
            &&& popup.confirmation_intent != ConfirmationIntent::Quit && popup.confirmation_intent
                != ConfirmationIntent::CancelSession ==> is_back(after, popup.restore_view)
        },
{
}

/// A confirmed question about a session does what it asked for, to the session
/// that it asked about.
pub proof fn lemma_confirmed_popup(
    before: AppMode,
    sessions: Seq<Session>,
    allows_reply: bool,
    facts: PopupFacts,
    key: KeyEvent,
    after: AppMode,
    action: KeyAction,
    popup: Confirmation,
    session_id: SessionId,
)
    requires
        key_applied(before, sessions, allows_reply, facts, key, after, action),
        before == AppMode::Confirmation(popup),
        facts.confirmation_decision == ConfirmationDecision::Confirm,
        popup.session_id == Some(session_id),
        sessions.len() <= usize::MAX,
    ensures
        action matches KeyAction::Confirmed(confirmed),
        popup.confirmation_intent == ConfirmationIntent::Quit ==> action == KeyAction::Confirmed(
            ConfirmedAction::Quit,
        ),
        popup.confirmation_intent == ConfirmationIntent::CancelSession ==> action
            == KeyAction::Confirmed(ConfirmedAction::CancelSession { session_id }) && after
            == AppMode::List,
        popup.confirmation_intent == ConfirmationIntent::MergeSession ==> action
            == KeyAction::Confirmed(ConfirmedAction::MergeSession { session_id }) && is_back(
            after,
            popup.restore_view,
        ),
        popup.confirmation_intent == ConfirmationIntent::ContinueSession ==> action
            == KeyAction::Confirmed(
            ConfirmedAction::ContinueSession { restore_view: popup.restore_view, session_id },
        ) && after is Confirmation,
        popup.confirmation_intent == ConfirmationIntent::ForkSession ==> action
            == KeyAction::Confirmed(
            ConfirmedAction::ForkSession { restore_view: popup.restore_view, session_id },
        ) && after is Confirmation,
        popup.confirmation_intent == ConfirmationIntent::DetachManagedSession ==> action
            == KeyAction::Confirmed(
            ConfirmedAction::DetachManagedSession { restore_view: popup.restore_view, session_id },
        ) && after is Confirmation,
        popup.confirmation_intent == ConfirmationIntent::ChooseIntegrationApproach ==> action
            == KeyAction::Confirmed(
            ConfirmedAction::ApproveIntegration {
                approach: IntegrationApproach::LocalMerge,
                restore_view: popup.restore_view,
                session_id,
            },
        ) && after is Confirmation,
        popup.confirmation_intent == ConfirmationIntent::RegenerateReview ==> {
            &&& action == KeyAction::Confirmed(
                ConfirmedAction::RegenerateReview {
                    session_id,
                    starts_review: session_listed(sessions, session_id@),
                },
            )
            &&& popup.restore_view matches Some(view) ==> is_view_of(after, view)
            &&& popup.restore_view is None && session_listed(sessions, session_id@) ==> after == (
            AppMode::View { scroll_offset: None, session_id })
            &&& popup.restore_view is None && !session_listed(sessions, session_id@) ==> after
                == AppMode::List
        },
        popup.confirmation_intent == ConfirmationIntent::OpenManagedWorktree ==> {
            &&& popup.restore_view matches Some(view) ==> {
                &&& view.session_id@ == session_id@ ==> action == KeyAction::Confirmed(
                    ConfirmedAction::OpenManagedWorktree { restore_view: view },
                ) && after is Confirmation
                &&& view.session_id@ != session_id@ ==> action == KeyAction::Confirmed(
                    ConfirmedAction::Nothing,
                ) && is_view_of(after, view)
            }
            &&& popup.restore_view is None ==> action == KeyAction::Confirmed(
                ConfirmedAction::Nothing,
            ) && after == AppMode::List
        },
{
    lemma_row_of(sessions, session_id@);
}

/// Verified work is merged by the first answer and sent for a review by the
/// second one.
pub proof fn lemma_integration_answers(
    before: AppMode,
    sessions: Seq<Session>,
    allows_reply: bool,
    facts: PopupFacts,
    key: KeyEvent,
    after: AppMode,
    action: KeyAction,
    popup: Confirmation,
    session_id: SessionId,
)
    requires
        key_applied(before, sessions, allows_reply, facts, key, after, action),
        before == AppMode::Confirmation(popup),
        popup.confirmation_intent == ConfirmationIntent::ChooseIntegrationApproach,
        popup.session_id == Some(session_id),
    ensures
        facts.confirmation_decision == ConfirmationDecision::Confirm ==> action
            == KeyAction::Confirmed(
            ConfirmedAction::ApproveIntegration {
                approach: IntegrationApproach::LocalMerge,
                restore_view: popup.restore_view,
                session_id,
            },
        ),
        facts.confirmation_decision == ConfirmationDecision::Reject ==> action
            == KeyAction::Confirmed(
            ConfirmedAction::ApproveIntegration {
                approach: IntegrationApproach::ReviewRequest,
                restore_view: popup.restore_view,
                session_id,
            },
        ),
{
}

/// A confirmed question about no session only ends the program, where it asked
/// to, and otherwise goes back.
pub proof fn lemma_confirmed_without_session(
    before: AppMode,
    sessions: Seq<Session>,
    allows_reply: bool,
    facts: PopupFacts,
    key: KeyEvent,
    after: AppMode,
    action: KeyAction,
    popup: Confirmation,
)
    requires
        key_applied(before, sessions, allows_reply, facts, key, after, action),
        before == AppMode::Confirmation(popup),
        facts.confirmation_decision == ConfirmationDecision::Confirm,
        popup.session_id is None,
    ensures
        popup.confirmation_intent == ConfirmationIntent::Quit ==> action == KeyAction::Confirmed(
            ConfirmedAction::Quit,
        ) && after == AppMode::List,
        popup.confirmation_intent != ConfirmationIntent::Quit ==> action == KeyAction::Confirmed(
            ConfirmedAction::Nothing,
        ),
        popup.confirmation_intent == ConfirmationIntent::CancelSession || popup.confirmation_intent
            == ConfirmationIntent::RegenerateReview ==> after == AppMode::List,
        popup.confirmation_intent == ConfirmationIntent::ContinueSession
            || popup.confirmation_intent == ConfirmationIntent::ForkSession
            || popup.confirmation_intent == ConfirmationIntent::MergeSession
            || popup.confirmation_intent == ConfirmationIntent::DetachManagedSession
            || popup.confirmation_intent == ConfirmationIntent::OpenManagedWorktree
            || popup.confirmation_intent == ConfirmationIntent::ChooseIntegrationApproach
            ==> is_back(after, popup.restore_view),
{
}

/// The options of a new session are regular, draft, orchestrator, stacked on the
/// selected session, and moving that session; enter takes the highlighted one.
pub proof fn lemma_creation_choices(
    before: AppMode,
    sessions: Seq<Session>,
    allows_reply: bool,
    facts: PopupFacts,
    key: KeyEvent,
    after: AppMode,
    action: KeyAction,
    option: usize,
)
    requires
        key_applied(before, sessions, allows_reply, facts, key, after, action),
        before == (AppMode::SessionCreation { selected_option_index: option }),
        key.code == KeyCode::Enter,
    ensures
        option == 0 ==> action == KeyAction::CreateSession(CreateSessionMode::Regular),
        option == 1 ==> action == KeyAction::CreateSession(CreateSessionMode::Draft),
        option == 2 ==> action == KeyAction::CreateSession(CreateSessionMode::Orchestrator),
        option == 3 ==> {
            &&& facts.selected_session.stacked_parent matches Some(parent_session_id) ==> action
                == KeyAction::CreateSession(CreateSessionMode::Stacked { parent_session_id })
            &&& facts.selected_session.stacked_parent is None ==> action is Nothing
        },
        option == 4 ==> {
            &&& action is Nothing
            &&& facts.selected_session.append_source matches Some(session_id) ==> after == (
            AppMode::StackAppendParentSelection { selected_parent_index: 0, session_id })
            &&& facts.selected_session.append_source is None ==> after == before
        },
        option > 4 ==> action is Nothing,
        option != 4 ==> after == before,
{
}

/// In the creation popup the keys down and up go to the nearest option that can
/// be chosen in their direction, and stay where there is none.
pub proof fn lemma_creation_moves(
    before: AppMode,
    sessions: Seq<Session>,
    allows_reply: bool,
    facts: PopupFacts,
    key: KeyEvent,
    after: AppMode,
    action: KeyAction,
    option: usize,
)
    requires
        key_applied(before, sessions, allows_reply, facts, key, after, action),
        before == (AppMode::SessionCreation { selected_option_index: option }),
        offered(facts.selected_session, option as int),
    ensures
        row_down(key) || row_up(key) ==> {
            &&& action is Nothing
            &&& after matches AppMode::SessionCreation { selected_option_index }
            &&& offered(facts.selected_session, selected_option_index as int)
            &&& row_down(key) && !row_up(key) ==> {
                &&& selected_option_index >= option
                &&& forall|i: int|
                    option < i < selected_option_index ==> !offered(facts.selected_session, i)
                &&& selected_option_index == option ==> forall|i: int|
                    option < i ==> !offered(facts.selected_session, i)
            }
            &&& row_up(key) ==> {
                &&& selected_option_index <= option
                &&& forall|i: int|
                    selected_option_index < i < option ==> !offered(facts.selected_session, i)
                &&& selected_option_index == option ==> option == 0
            }
        },
        closes(key) ==> after == AppMode::List && action is Nothing,
        !closes(key) && !row_up(key) && !row_down(key) && key.code != KeyCode::Enter ==> after
            == before && action is Nothing,
{
    let selected = facts.selected_session;
    reveal_with_fuel(option_above, 6);
    reveal_with_fuel(option_below, 6);
    reveal_with_fuel(enabled_up_to, 6);
}

/// The warning in front of the creation popup leads on to it by enter.
pub proof fn lemma_warning_keys(
    before: AppMode,
    sessions: Seq<Session>,
    allows_reply: bool,
    facts: PopupFacts,
    key: KeyEvent,
    after: AppMode,
    action: KeyAction,
)
    requires
        key_applied(before, sessions, allows_reply, facts, key, after, action),
        before == AppMode::PreCommitHookWarning,
    ensures
        key.code == KeyCode::Enter ==> after == (AppMode::SessionCreation {
            selected_option_index: 0,
        }),
        closes(key) ==> after == AppMode::List,
        key.code != KeyCode::Enter && !closes(key) ==> after == before,
        action is Nothing,
{
}

/// The project switcher moves between its rows, stops at both ends, and enter
/// switches to the highlighted project unless it is the active one.
pub proof fn lemma_switcher_keys(
    before: AppMode,
    sessions: Seq<Session>,
    allows_reply: bool,
    facts: PopupFacts,
    key: KeyEvent,
    after: AppMode,
    action: KeyAction,
    row: usize,
)
    requires
        key_applied(before, sessions, allows_reply, facts, key, after, action),
        before == (AppMode::ProjectSwitcher { selected_option_index: row }),
        row < facts.projects@.len() <= usize::MAX,
    ensures
        row_up(key) && row > 0 ==> after == (AppMode::ProjectSwitcher {
            selected_option_index: (row - 1) as usize,
        }),
        row_up(key) && row == 0 ==> after == before,
        row_down(key) && row + 1 < facts.projects@.len() ==> after == (AppMode::ProjectSwitcher {
            selected_option_index: (row + 1) as usize,
        }),
        row_down(key) && row + 1 == facts.projects@.len() ==> after == before,
        key.code == KeyCode::Enter ==> {
            let project = facts.projects@[row as int];
            &&& after == AppMode::List
            &&& project.id == facts.active_project_id ==> action is Nothing
            &&& project.id != facts.active_project_id ==> {
                &&& action matches KeyAction::SwitchProject(switched)
                &&& switched.project_id == project.id
                &&& switched.label == project.label
            }
        },
        closes(key) ==> after == AppMode::List,
        key.code != KeyCode::Enter ==> action is Nothing,
        key.code != KeyCode::Enter && !closes(key) && !row_up(key) && !row_down(key) ==> after
            == before,
{
}

/// The command selector goes around its commands, and enter runs the selected
/// one in the worktree.
pub proof fn lemma_selector_keys(
    before: AppMode,
    sessions: Seq<Session>,
    allows_reply: bool,
    facts: PopupFacts,
    key: KeyEvent,
    after: AppMode,
    action: KeyAction,
    commands: Vec<String>,
    restore_view: ConfirmationViewMode,
    row: usize,
)
    requires
        key_applied(before, sessions, allows_reply, facts, key, after, action),
        before == (AppMode::LaunchConfigurationSelector {
            commands,
            restore_view,
            selected_command_index: row,
        }),
        row < commands@.len() <= usize::MAX,
    ensures
        row_down(key) || row_up(key) ==> {
            &&& after matches AppMode::LaunchConfigurationSelector {
                commands: kept,
                restore_view: kept_view,
                selected_command_index,
            }
            &&& kept == commands
            &&& kept_view == restore_view
            &&& row_down(key) && row + 1 < commands@.len() ==> selected_command_index == row + 1
            &&& row_down(key) && row + 1 == commands@.len() ==> selected_command_index == 0
            &&& row_up(key) && row > 0 ==> selected_command_index == row - 1
            &&& row_up(key) && row == 0 ==> selected_command_index == commands@.len() - 1
        },
        key.code == KeyCode::Enter ==> {
            &&& action matches KeyAction::OpenWorktree(opening)
            &&& opening.command == Some(commands@[row as int])
            &&& is_view_of(after, restore_view)
        },
        key.code == KeyCode::Esc || key.code == KeyCode::Char('q') ==> is_view_of(
            after,
            restore_view,
        ),
        key.code != KeyCode::Enter ==> action is Nothing,
        key.code != KeyCode::Enter && key.code != KeyCode::Esc && key.code != KeyCode::Char('q')
            && !row_up(key) && !row_down(key) ==> after == before,
{
    let count = commands@.len() as int;
    if row + 1 < count {
        assert((row + 1) % count == row + 1) by (nonlinear_arith)
            requires
                0 <= row + 1 < count,
        ;
    } else {
        assert((row + 1) % count == 0) by (nonlinear_arith)
            requires
                row + 1 == count,
                count > 0,
        ;
    }
}

/// The branch popup publishes under the entered name without the white space
/// around it, and under the default name where none was entered; a locked name
/// does not change.
pub proof fn lemma_branch_keys(
    before: AppMode,
    sessions: Seq<Session>,
    allows_reply: bool,
    facts: PopupFacts,
    key: KeyEvent,
    after: AppMode,
    action: KeyAction,
    input: PublishBranchInput,
)
    requires
        key_applied(before, sessions, allows_reply, facts, key, after, action),
        before == AppMode::PublishBranchInput(input),
    ensures
        key.code == KeyCode::Enter ==> {
            &&& after == AppMode::List
            &&& action matches KeyAction::Publish(publication)
            &&& publication.action == input.publish_branch_action
            &&& publication.session_id == input.restore_view.session_id
            &&& publication.restore_view == input.restore_view
            &&& publication.remote_branch_name matches Some(name) ==> name@ == trimmed(
                input.input.text@,
            )
            &&& publication.remote_branch_name is None <==> (trimmed(input.input.text@).len() == 0
                && input.locked_upstream_ref is None)
        },
        key.code == KeyCode::Esc ==> is_view_of(after, input.restore_view),
        key.code != KeyCode::Enter ==> action is Nothing,
        key.code != KeyCode::Enter && key.code != KeyCode::Esc ==> {
            &&& after matches AppMode::PublishBranchInput(shown)
            &&& input.locked_upstream_ref is Some || facts.edited_branch_name is None ==> shown
                == input
            &&& facts.edited_branch_name matches Some(edited) ==> (input.locked_upstream_ref is None
                ==> shown == (PublishBranchInput { input: edited, ..input }))
        },
{
}

/// The parent popup moves between its rows, stops at both ends, and enter moves
/// the session under the highlighted parent; escape goes back one popup.
pub proof fn lemma_parent_keys(
    before: AppMode,
    sessions: Seq<Session>,
    allows_reply: bool,
    facts: PopupFacts,
    key: KeyEvent,
    after: AppMode,
    action: KeyAction,
    row: usize,
    session_id: SessionId,
)
    requires
        key_applied(before, sessions, allows_reply, facts, key, after, action),
        before == (AppMode::StackAppendParentSelection { selected_parent_index: row, session_id }),
        row < facts.stack_parents@.len() <= usize::MAX,
    ensures
        row_up(key) || row_down(key) ==> {
            &&& after matches AppMode::StackAppendParentSelection {
                selected_parent_index,
                session_id: kept,
            }
            &&& kept == session_id
            &&& row_up(key) && row > 0 ==> selected_parent_index == row - 1
            &&& row_up(key) && row == 0 ==> selected_parent_index == 0
            &&& row_down(key) && row + 1 < facts.stack_parents@.len() ==> selected_parent_index
                == row + 1
            &&& row_down(key) && row + 1 == facts.stack_parents@.len() ==> selected_parent_index
                == row
        },
        key.code == KeyCode::Enter ==> {
            &&& after == AppMode::List
            &&& action matches KeyAction::AppendToStack(append)
            &&& append.parent_session_id == facts.stack_parents@[row as int]
            &&& append.session_id == session_id
        },
        key.code == KeyCode::Esc ==> after == (AppMode::SessionCreation {
            selected_option_index: 4,
        }),
        key.code == KeyCode::Char('q') || key.code == KeyCode::Char('Q') ==> after == AppMode::List,
        key.code != KeyCode::Enter ==> action is Nothing,
        key.code != KeyCode::Enter && !closes(key) && !row_up(key) && !row_down(key) ==> after
            == before,
{
}

/// A popup whose highlighted row is gone only closes.
pub proof fn lemma_missing_rows(
    before: AppMode,
    sessions: Seq<Session>,
    allows_reply: bool,
    facts: PopupFacts,
    key: KeyEvent,
    after: AppMode,
    action: KeyAction,
)
    requires
        key_applied(before, sessions, allows_reply, facts, key, after, action),
        key.code == KeyCode::Enter,
    ensures
        before matches AppMode::StackAppendParentSelection { selected_parent_index, session_id } ==> (
        selected_parent_index >= facts.stack_parents@.len() ==> after == AppMode::List && action
            is Nothing),
        before matches AppMode::ProjectSwitcher { selected_option_index } ==> (selected_option_index
            >= facts.projects@.len() ==> after == AppMode::List && action is Nothing),
        before matches AppMode::LaunchConfigurationSelector {
            commands,
            restore_view,
            selected_command_index,
        } ==> (selected_command_index >= commands@.len() ==> {
            &&& is_view_of(after, restore_view)
            &&& action matches KeyAction::OpenWorktree(opening)
            &&& opening.command is None
        }),
{
}

/// A message over the view goes away by enter, escape or `q` once it is loaded,
/// and no key does anything else; a diff that is loading is given up by `q` or
/// escape.
pub proof fn lemma_message_keys(
    before: AppMode,
    sessions: Seq<Session>,
    allows_reply: bool,
    facts: PopupFacts,
    key: KeyEvent,
    after: AppMode,
    action: KeyAction,
)
    requires
        key_applied(before, sessions, allows_reply, facts, key, after, action),
    ensures
        before matches AppMode::ViewInfoPopup { is_loading, message, restore_view, title } ==> {
            &&& action is Nothing
            &&& is_loading ==> after == before
            &&& !is_loading && (closes(key) || key.code == KeyCode::Enter) ==> is_view_of(
                after,
                restore_view,
            )
            &&& !closes(key) && key.code != KeyCode::Enter ==> after == before
        },
        before is DiffLoading ==> {
            &&& after == before
            &&& key.code == KeyCode::Char('q') || key.code == KeyCode::Esc ==> action
                is CancelDiffLoad
            &&& key.code != KeyCode::Char('q') && key.code != KeyCode::Esc ==> action is Nothing
        },
{
}

/// Every other page gets its own keys and stays as it is until it has handled
/// them.
pub proof fn lemma_pages_get_their_keys(
    before: AppMode,
    sessions: Seq<Session>,
    allows_reply: bool,
    facts: PopupFacts,
    key: KeyEvent,
    after: AppMode,
    action: KeyAction,
)
    requires
        key_applied(before, sessions, allows_reply, facts, key, after, action),
    ensures
        before is List ==> action == KeyAction::ForPage(KeyRoute::List),
        before is View ==> action == KeyAction::ForPage(KeyRoute::View),
        before is Prompt ==> action == KeyAction::ForPage(KeyRoute::Prompt),
        before is Question ==> action == KeyAction::ForPage(KeyRoute::Question),
        before is Help ==> action == KeyAction::ForPage(KeyRoute::Help),
        before is SyncBlockedPopup ==> action == KeyAction::ForPage(KeyRoute::SyncBlockedPopup),
        before is Diff ==> {
            &&& action matches KeyAction::ForPage(route)
            &&& route is Diff || route is ReviewComments
        },
        action is ForPage ==> after == before,
        action is ForPage <==> (before is List || before is View || before is Prompt || before
            is Question || before is Help || before is SyncBlockedPopup || before is Diff),
{
}

/// A key goes to the handler of what is shown.
pub proof fn lemma_key_goes_to_shown_page(
    mode: AppMode,
    sessions: Vec<Session>,
    allows_reply: bool,
    key: KeyEvent,
    route: KeyRoute,
)
    requires
        call_ensures(key_route, (&mode, &sessions, allows_reply, key), route),
    ensures
        mode is Confirmation <==> route is Confirmation,
        mode is DiffLoading <==> route is DiffLoading,
        mode is Help <==> route is Help,
        mode is LaunchConfigurationSelector <==> route is LaunchConfigurationSelector,
        mode is List <==> route is List,
        mode is PreCommitHookWarning <==> route is PreCommitHookWarning,
        mode is ProjectSwitcher <==> route is ProjectSwitcher,
        mode is Prompt <==> route is Prompt,
        mode is PublishBranchInput <==> route is PublishBranchInput,
        mode is Question <==> route is Question,
        mode is SessionCreation <==> route is SessionCreation,
        mode is StackAppendParentSelection <==> route is StackAppendParentSelection,
        mode is SyncBlockedPopup <==> route is SyncBlockedPopup,
        mode is View <==> route is View,
        mode is ViewInfoPopup <==> route is ViewInfoPopup,
{
}

/// On the diff page the review comments get the keys while they have the
/// keyboard, but for the help, the way out and a reply; a bare `s` replies
/// with comments that are there, if nothing else is going on.
pub proof fn lemma_diff_page_keys(
    mode: AppMode,
    sessions: Vec<Session>,
    allows_reply: bool,
    key: KeyEvent,
    route: KeyRoute,
)
    requires
        call_ensures(key_route, (&mode, &sessions, allows_reply, key), route),
        sessions@.len() <= usize::MAX,
    ensures
        mode matches AppMode::Diff(diff) ==> {
            let submits = allows_reply && session_listed(sessions@, diff.session_id@) && key.code
                == KeyCode::Char('s') && !key.modifiers.alt && !key.modifiers.control
                && !key.modifiers.shift && !key.modifiers.other
                && diff.line_comments.editing_index is None
                && diff.line_comments.selection_start is None
                && diff.line_comments.comments@.len() > 0;
            let in_comments = diff.review_comments is Some && diff.review_comments->0.sidebar_focus
                == DiffSidebarFocus::Comments;
            &&& route is ReviewComments <==> in_comments && !submits && key.code != KeyCode::Char(
                '?',
            ) && key.code != KeyCode::Char('q')
            &&& !(route is ReviewComments) ==> route == (KeyRoute::Diff {
                submits_comments: submits,
            })
        },
{
    if let AppMode::Diff(diff) = mode {
        lemma_row_of(sessions@, diff.session_id@);
    }
}

/// A reply is sent exactly where the key wrote it into the composer.
pub proof fn lemma_reply_is_sent(route: KeyRoute, mode: AppMode, sent: bool)
    requires
        call_ensures(sends_reply, (route, &mode), sent),
    ensures
        sent <==> mode is Prompt && route == (KeyRoute::Diff { submits_comments: true }),
{
}

/// A click on an item of a popup highlights it, and one on the highlighted item
/// activates it; what is not offered cannot be clicked.
pub proof fn lemma_popup_clicks(
    kind: ListRegionKind,
    index: usize,
    content: DiffContent,
    sessions: Seq<Session>,
    facts: ClickFacts,
    mode_before: AppMode,
    mode_after: AppMode,
    pages_before: ListPages,
    pages_after: ListPages,
    outcome: MouseOutcome,
    preview: Option<PreviewRequest>,
)
    requires
        click_applied(
            kind,
            index,
            content,
            sessions,
            facts,
            mode_before,
            mode_after,
            pages_before,
            pages_after,
            outcome,
            preview,
        ),
    ensures
        kind == ListRegionKind::SessionCreation ==> {
            mode_before matches AppMode::SessionCreation { selected_option_index } ==> {
                &&& !offered(facts.selected, index as int) ==> mode_after == mode_before && outcome
                    == MouseOutcome::Ignored
                &&& offered(facts.selected, index as int) ==> {
                    &&& mode_after == (AppMode::SessionCreation { selected_option_index: index })
                    &&& selected_option_index == index ==> outcome == MouseOutcome::Activate
                    &&& selected_option_index != index ==> outcome == MouseOutcome::Redraw
                }
            }
        },
        kind == ListRegionKind::ProjectSwitcher ==> {
            mode_before matches AppMode::ProjectSwitcher { selected_option_index } ==> {
                &&& index >= facts.project_count ==> mode_after == mode_before && outcome
                    == MouseOutcome::Ignored
                &&& index < facts.project_count ==> {
                    &&& mode_after == (AppMode::ProjectSwitcher { selected_option_index: index })
                    &&& selected_option_index == index ==> outcome == MouseOutcome::Activate
                    &&& selected_option_index != index ==> outcome == MouseOutcome::Redraw
                }
            }
        },
        kind == ListRegionKind::StackAppendParent ==> {
            mode_before matches AppMode::StackAppendParentSelection {
                selected_parent_index,
                session_id,
            } ==> {
                &&& index >= facts.parent_count ==> mode_after == mode_before && outcome
                    == MouseOutcome::Ignored
                &&& index < facts.parent_count ==> {
                    &&& mode_after == (AppMode::StackAppendParentSelection {
                        selected_parent_index: index,
                        session_id,
                    })
                    &&& selected_parent_index == index ==> outcome == MouseOutcome::Activate
                    &&& selected_parent_index != index ==> outcome == MouseOutcome::Redraw
                }
            }
        },
        kind == ListRegionKind::LaunchConfigurationSelector ==> {
            mode_before matches AppMode::LaunchConfigurationSelector {
                commands,
                restore_view,
                selected_command_index,
            } ==> {
                &&& index >= commands@.len() ==> mode_after == mode_before && outcome
                    == MouseOutcome::Ignored
                &&& index < commands@.len() ==> {
                    &&& mode_after == (AppMode::LaunchConfigurationSelector {
                        commands,
                        restore_view,
                        selected_command_index: index,
                    })
                    &&& selected_command_index == index ==> outcome == MouseOutcome::Activate
                    &&& selected_command_index != index ==> outcome == MouseOutcome::Redraw
                }
            }
        },
        kind == ListRegionKind::SessionCreation && !(mode_before is SessionCreation) || kind
            == ListRegionKind::ProjectSwitcher && !(mode_before is ProjectSwitcher) || kind
            == ListRegionKind::StackAppendParent && !(mode_before is StackAppendParentSelection)
            || kind == ListRegionKind::LaunchConfigurationSelector && !(mode_before
            is LaunchConfigurationSelector) ==> mode_after == mode_before && outcome
            == MouseOutcome::Ignored,
        kind != ListRegionKind::DiffFiles ==> preview is None,
        kind == ListRegionKind::SessionCreation || kind == ListRegionKind::ProjectSwitcher || kind
            == ListRegionKind::StackAppendParent || kind
            == ListRegionKind::LaunchConfigurationSelector || kind == ListRegionKind::DiffFiles
            ==> pages_after == pages_before,
{
}

/// A click on a tab shows its page, unless it shows already or something lies
/// over the page: a place without a tab shows nothing.
pub proof fn lemma_tab_clicks(
    kind: ListRegionKind,
    index: usize,
    content: DiffContent,
    sessions: Seq<Session>,
    facts: ClickFacts,
    mode_before: AppMode,
    mode_after: AppMode,
    pages_before: ListPages,
    pages_after: ListPages,
    outcome: MouseOutcome,
    preview: Option<PreviewRequest>,
)
    requires
        click_applied(
            kind,
            index,
            content,
            sessions,
            facts,
            mode_before,
            mode_after,
            pages_before,
            pages_after,
            outcome,
            preview,
        ),
        kind == ListRegionKind::Tabs,
    ensures
        mode_after == mode_before,
        pages_after == pages_before,
        outcome is SwitchTab ==> mode_before is List && !pages_before.settings.is_selector_open
            && !pages_before.settings.is_editor_open,
        outcome matches MouseOutcome::SwitchTab(tab) ==> tab != pages_before.current_tab
            && Tab::at_position(index) == Some(tab),
        !(outcome is SwitchTab) ==> outcome == MouseOutcome::Ignored,
        mode_before is List && !pages_before.settings.is_selector_open
            && !pages_before.settings.is_editor_open ==> {
            Tab::at_position(index) matches Some(tab) ==> (outcome is SwitchTab) == (tab
                != pages_before.current_tab)
        },
{
}

/// A click on a row of a list page selects it, and one on the selected row
/// activates it, while nothing lies over the page.
pub proof fn lemma_page_clicks(
    kind: ListRegionKind,
    index: usize,
    content: DiffContent,
    sessions: Seq<Session>,
    facts: ClickFacts,
    mode_before: AppMode,
    mode_after: AppMode,
    pages_before: ListPages,
    pages_after: ListPages,
    outcome: MouseOutcome,
    preview: Option<PreviewRequest>,
)
    requires
        click_applied(
            kind,
            index,
            content,
            sessions,
            facts,
            mode_before,
            mode_after,
            pages_before,
            pages_after,
            outcome,
            preview,
        ),
        mode_before is List,
        !pages_before.settings.is_selector_open,
        !pages_before.settings.is_editor_open,
    ensures
        kind == ListRegionKind::Sessions && pages_before.current_tab == Tab::Sessions && index
            < pages_before.session_count ==> {
            &&& pages_after == (ListPages { selected_session: Some(index), ..pages_before })
            &&& pages_before.selected_session == Some(index) ==> outcome == MouseOutcome::Activate
            &&& pages_before.selected_session != Some(index) ==> outcome == MouseOutcome::Redraw
        },
        kind == ListRegionKind::Sessions && (pages_before.current_tab != Tab::Sessions || index
            >= pages_before.session_count) ==> pages_after == pages_before && outcome
            == MouseOutcome::Ignored,
        kind == ListRegionKind::Projects && pages_before.current_tab == Tab::Projects && index
            < pages_before.project_count ==> {
            &&& pages_after == (ListPages { selected_project: Some(index), ..pages_before })
            &&& pages_before.selected_project == Some(index) ==> outcome == MouseOutcome::Activate
            &&& pages_before.selected_project != Some(index) ==> outcome == MouseOutcome::Redraw
        },
        kind == ListRegionKind::Projects && index >= pages_before.project_count ==> pages_after
            == pages_before && outcome != MouseOutcome::Redraw,
        kind == ListRegionKind::Settings && index >= pages_before.settings.item_count
            ==> pages_after == pages_before && outcome != MouseOutcome::Redraw,
        kind == ListRegionKind::Projects && pages_before.current_tab != Tab::Projects
            ==> pages_after == pages_before && outcome == MouseOutcome::Ignored,
        kind == ListRegionKind::Settings && pages_before.current_tab == Tab::Settings && index
            < pages_before.settings.item_count ==> {
            &&& pages_after == (ListPages {
                settings: SettingsLists { selected_index: index, ..pages_before.settings },
                ..pages_before
            })
            &&& pages_before.settings.selected_index == index ==> outcome == MouseOutcome::Activate
            &&& pages_before.settings.selected_index != index ==> outcome == MouseOutcome::Redraw
        },
        kind == ListRegionKind::Settings && pages_before.current_tab != Tab::Settings
            ==> pages_after == pages_before && outcome == MouseOutcome::Ignored,
        kind == ListRegionKind::SettingsSelector || kind
            == ListRegionKind::LaunchConfigurationEditor ==> pages_after == pages_before && outcome
            == MouseOutcome::Ignored,
        kind == ListRegionKind::Sessions || kind == ListRegionKind::Projects || kind
            == ListRegionKind::Settings ==> mode_after == mode_before,
{
}

/// A list over the settings gets the clicks while it is open: the selector, and
/// the editor while nothing is typed; the pages below do not.
pub proof fn lemma_settings_list_clicks(
    kind: ListRegionKind,
    index: usize,
    content: DiffContent,
    sessions: Seq<Session>,
    facts: ClickFacts,
    mode_before: AppMode,
    mode_after: AppMode,
    pages_before: ListPages,
    pages_after: ListPages,
    outcome: MouseOutcome,
    preview: Option<PreviewRequest>,
)
    requires
        click_applied(
            kind,
            index,
            content,
            sessions,
            facts,
            mode_before,
            mode_after,
            pages_before,
            pages_after,
            outcome,
            preview,
        ),
        mode_before is List,
        pages_before.current_tab == Tab::Settings,
        index < pages_before.settings.item_count,
    ensures
        kind == ListRegionKind::SettingsSelector && pages_before.settings.is_selector_open || kind
            == ListRegionKind::LaunchConfigurationEditor && pages_before.settings.is_editor_open
            && !pages_before.settings.is_editor_input_active ==> {
            &&& pages_after.settings.selected_index == index
            &&& pages_before.settings.selected_index == index ==> outcome == MouseOutcome::Activate
            &&& pages_before.settings.selected_index != index ==> outcome == MouseOutcome::Redraw
        },
        pages_before.settings.is_selector_open || pages_before.settings.is_editor_open ==> (kind
            == ListRegionKind::Settings || kind == ListRegionKind::Sessions || kind
            == ListRegionKind::Projects || kind == ListRegionKind::Tabs ==> pages_after
            == pages_before && outcome == MouseOutcome::Ignored),
        kind == ListRegionKind::LaunchConfigurationEditor
            && pages_before.settings.is_editor_input_active ==> pages_after == pages_before
            && outcome == MouseOutcome::Ignored,
{
}

/// The eligible parents of a session are the eligible rows of the list, in
/// its order.
pub proof fn lemma_eligible_parents_follow(
    first: Seq<Session>,
    last: Session,
    eligible: Seq<bool>,
)
    ensures
        first.len() < eligible.len() && eligible[first.len() as int] ==> eligible_ids(
            first.push(last),
            eligible,
        ) == eligible_ids(first, eligible).push(last.id),
        !(first.len() < eligible.len() && eligible[first.len() as int]) ==> eligible_ids(
            first.push(last),
            eligible,
        ) == eligible_ids(first, eligible),
        eligible_ids(Seq::empty(), eligible).len() == 0,
{
    assert(first.push(last).drop_last() =~= first);
}

/// A prompt in a transcript starts behind the marker, and its further lines
/// behind an indent as wide.
pub proof fn lemma_written_lines(lines: Seq<Seq<char>>, line: int)
    requires
        0 <= line < lines.len(),
    ensures
        written_prompt(lines).len() == lines.len(),
        written_prompt(lines)[line].len() == lines[line].len() + 3,
        written_prompt(lines)[line].skip(3) == lines[line],
        line == 0 ==> written_prompt(lines)[line].take(3) == seq![' ', '\u{203a}', ' '],
        line > 0 ==> written_prompt(lines)[line].take(3) == seq![' ', ' ', ' '],
{
    reveal_strlit(" \u{203a} ");
    reveal_strlit("   ");
    assert(written_prompt(lines)[line].skip(3) =~= lines[line]);
    if line == 0 {
        assert(written_prompt(lines)[line].take(3) =~= seq![' ', '\u{203a}', ' ']);
    } else {
        assert(written_prompt(lines)[line].take(3) =~= seq![' ', ' ', ' ']);
    }
}

/// Lines without the marker hold no prompt, wherever they stand between
/// prompts.
pub proof fn lemma_other_lines_hold_no_prompt(lines: Seq<Seq<char>>, later: Seq<Seq<char>>)
    requires
        forall|i: int|
            0 <= i < lines.len() ==> !(seq![' ', '\u{203a}', ' '].is_prefix_of(#[trigger] lines[i])),
    ensures
        prompts_in(lines + later) == prompts_in(later),
    decreases lines.len(),
{
    reveal_strlit(" \u{203a} ");
    assert(" \u{203a} "@ =~= seq![' ', '\u{203a}', ' ']);
    if lines.len() == 0 {
        assert(lines + later =~= later);
    } else {
        let rest = lines.skip(1);
        assert forall|i: int| 0 <= i < rest.len() implies !(seq![
            ' ',
            '\u{203a}',
            ' ',
        ].is_prefix_of(#[trigger] rest[i])) by {
            assert(rest[i] == lines[i + 1]);
        }
        lemma_other_lines_hold_no_prompt(rest, later);
        assert((lines + later).skip(1) =~= rest + later);
        assert((lines + later)[0] == lines[0]);
    }
}

/// A draft recalls its staged prompt, and a session without a transcript
/// nothing.
pub proof fn lemma_recalled_prompts(session: Session)
    ensures
        session.status == Status::Draft && session.is_draft ==> recalled_prompts(session) == seq![
            session.prompt@,
        ],
        !(session.status == Status::Draft && session.is_draft) && session.replay_text is None
            ==> recalled_prompts(session).len() == 0,
        !(session.status == Status::Draft && session.is_draft) ==> {
            session.replay_text matches Some(text) ==> recalled_prompts(session) == prompts_in(
                lines_of(text@),
            )
        },
{
}

} // verus!
