//! What follows a key, from whichever handler it goes to.

use vstd::prelude::*;

use crate::app_mode::{AppMode, PublishBranchInput};
use crate::confirmation::{
    ConfirmationDecision, ConfirmedAction, decision_result, handle_confirmation_decision,
    highlight_answer, highlighted,
};
use crate::diff::{DiffEffects, DiffReplyFacts, diff_key_applied, handle_key, handle_loading};
use crate::diff_comments::CommentEditor;
use crate::diff_page::{DiffContent, DiffPage};
use crate::geometry::ViewportRect;
use crate::input::InputState;
use crate::key::{KeyCode, KeyEvent};
use crate::key_handler::{
    KeyRoute, content_area_for_terminal, handle_view_info_popup_key, info_popup_result, key_route,
    route_of, sends_reply,
};
use crate::launch_configuration_selector::{
    WorktreeOpening, handle_launch_configuration_selector_key, selection_can_move,
    selector_key_result,
};
use crate::project_switcher::{ProjectSwitch, handle_project_switcher_key, switcher_key_result};
use crate::project_switcher_overlay::ProjectListItem;
use crate::publish_branch::{BranchPublication, handle_publish_branch_input_key, publishes};
use crate::session::{Session, SessionId};
use crate::session_creation::{
    CreateSessionMode, SelectedSessionFacts, creation_key_result,
    handle_pre_commit_hook_warning_key, handle_session_creation_key, warning_key_result,
};
use crate::stack_append::{StackAppend, append_key_result, handle_stack_append_parent_key};

verus! {

/// What the handlers of popups look up.
#[derive(Debug)]
pub struct PopupFacts {
    pub active_project_id: i64,
    /// What the key answers to a shown confirmation popup.
    pub confirmation_decision: ConfirmationDecision,
    /// The answer of a shown confirmation popup that the key left highlighted.
    pub confirmation_index: usize,
    /// The branch name after the key edited it, if it did.
    pub edited_branch_name: Option<InputState>,
    /// Projects, the one used last first.
    pub projects: Vec<ProjectListItem>,
    pub selected_session: SelectedSessionFacts,
    /// Sessions under which the selected one can move.
    pub stack_parents: Vec<SessionId>,
}

/// What is left to be done after a key.
#[derive(Debug)]
pub enum KeyAction {
    AppendToStack(StackAppend),
    CancelDiffLoad,
    Confirmed(ConfirmedAction),
    CreateSession(CreateSessionMode),
    /// The key belongs to a page, which handles it.
    ForPage(KeyRoute),
    Nothing,
    OpenWorktree(WorktreeOpening),
    Publish(BranchPublication),
    SwitchProject(ProjectSwitch),
}

impl KeyAction {
    /// Whether the key ends the program.
    pub open spec fn ends_program(self) -> bool {
        self matches KeyAction::Confirmed(confirmed) && confirmed is Quit
    }

    /// Reports whether the key ends the program.
    pub fn quits(&self) -> (result: bool)
        ensures
            result == self.ends_program(),
    {
        match self {
            KeyAction::Confirmed(confirmed) => matches!(confirmed, ConfirmedAction::Quit),
            _ => false,
        }
    }
}

/// What follows a key.
#[derive(Debug)]
pub struct KeyOutcome {
    pub action: KeyAction,
    /// Whether the screen is painted anew once the action was carried out.
    pub redraws: bool,
}

/// Whether a key of the branch-name popup was applied.
pub open spec fn branch_key_applied(
    input: PublishBranchInput,
    edited: Option<InputState>,
    key: KeyEvent,
    after: AppMode,
    action: KeyAction,
) -> bool {
    if key.code == KeyCode::Esc {
        action is Nothing && after == input.restore_view.view_mode()
    } else if key.code == KeyCode::Enter {
        &&& action matches KeyAction::Publish(publication)
        &&& publishes(input, publication)
        &&& after == AppMode::List
    } else if input.locked_upstream_ref is None && edited is Some {
        &&& action is Nothing
        &&& after == AppMode::PublishBranchInput(PublishBranchInput { input: edited->0, ..input })
    } else {
        action is Nothing && after == AppMode::PublishBranchInput(input)
    }
}

/// Whether a key was applied: a popup's key by the popup, and any other left
/// to the page that it belongs to.
pub open spec fn key_applied(
    before: AppMode,
    sessions: Seq<Session>,
    allows_reply: bool,
    facts: PopupFacts,
    key: KeyEvent,
    after: AppMode,
    action: KeyAction,
) -> bool {
    let route = route_of(before, sessions, allows_reply, key);
    match before {
        AppMode::Confirmation(popup) => {
            let (confirmed, next) = decision_result(
                highlighted(popup, facts.confirmation_index),
                sessions,
                facts.confirmation_decision,
            );
            action == KeyAction::Confirmed(confirmed) && after == next
        },
        AppMode::SessionCreation { .. } => {
            let (created, next) = creation_key_result(before, facts.selected_session, key);
            after == next && match created {
                Some(created) => action == KeyAction::CreateSession(created),
                None => action is Nothing,
            }
        },
        AppMode::ProjectSwitcher { .. } => {
            let (switched, next) = switcher_key_result(
                before,
                facts.projects@,
                facts.active_project_id,
                key,
            );
            after == next && match switched {
                Some(switched) => action == KeyAction::SwitchProject(switched),
                None => action is Nothing,
            }
        },
        AppMode::LaunchConfigurationSelector {
            commands,
            restore_view,
            selected_command_index,
        } => {
            let (opening, next) = selector_key_result(
                commands,
                restore_view,
                selected_command_index,
                key,
            );
            after == next && match opening {
                Some(opening) => action == KeyAction::OpenWorktree(opening),
                None => action is Nothing,
            }
        },
        AppMode::PublishBranchInput(input) => branch_key_applied(
            input,
            facts.edited_branch_name,
            key,
            after,
            action,
        ),
        AppMode::StackAppendParentSelection { .. } => {
            let (append, next) = append_key_result(before, facts.stack_parents@, key);
            after == next && match append {
                Some(append) => action == KeyAction::AppendToStack(append),
                None => action is Nothing,
            }
        },
        AppMode::PreCommitHookWarning => action is Nothing && after == warning_key_result(
            before,
            key,
        ),
        AppMode::ViewInfoPopup { .. } => action is Nothing && after == info_popup_result(
            before,
            key,
        ),
        AppMode::DiffLoading { .. } => after == before && if key.code == KeyCode::Char('q')
            || key.code == KeyCode::Esc {
            action is CancelDiffLoad
        } else {
            action is Nothing
        },
        _ => after == before && action == KeyAction::ForPage(route),
    }
}

/// Applies a key to the popup that shows, and leaves any other key to its
/// page. Every key paints the screen anew, also one that changes nothing.
pub fn handle_key_event(
    mode: &mut AppMode,
    sessions: &Vec<Session>,
    allows_reply: bool,
    facts: PopupFacts,
    key: KeyEvent,
) -> (outcome: KeyOutcome)
    requires
        selection_can_move(*old(mode), key),
    ensures
        key_applied(*old(mode), sessions@, allows_reply, facts, key, *final(mode), outcome.action),
        outcome.redraws,
{
    KeyOutcome { action: apply_key(mode, sessions, allows_reply, facts, key), redraws: true }
}

/// Applies a key and finds out what is left to be done.
fn apply_key(
    mode: &mut AppMode,
    sessions: &Vec<Session>,
    allows_reply: bool,
    facts: PopupFacts,
    key: KeyEvent,
) -> (action: KeyAction)
    requires
        selection_can_move(*old(mode), key),
    ensures
        key_applied(*old(mode), sessions@, allows_reply, facts, key, *final(mode), action),
{
    let route: KeyRoute = key_route(mode, sessions, allows_reply, key);
    match route {
        KeyRoute::Confirmation => {
            highlight_answer(mode, facts.confirmation_index);
            KeyAction::Confirmed(
                handle_confirmation_decision(mode, sessions, facts.confirmation_decision),
            )
        },
        KeyRoute::SessionCreation => match handle_session_creation_key(
            mode,
            &facts.selected_session,
            key,
        ) {
            Some(created) => KeyAction::CreateSession(created),
            None => KeyAction::Nothing,
        },
        KeyRoute::ProjectSwitcher => match handle_project_switcher_key(
            mode,
            &facts.projects,
            facts.active_project_id,
            key,
        ) {
            Some(switched) => KeyAction::SwitchProject(switched),
            None => KeyAction::Nothing,
        },
        KeyRoute::LaunchConfigurationSelector => match handle_launch_configuration_selector_key(
            mode,
            key,
        ) {
            Some(opening) => KeyAction::OpenWorktree(opening),
            None => KeyAction::Nothing,
        },
        KeyRoute::PublishBranchInput => match handle_publish_branch_input_key(
            mode,
            facts.edited_branch_name,
            key,
        ) {
            Some(publication) => KeyAction::Publish(publication),
            None => KeyAction::Nothing,
        },
        KeyRoute::StackAppendParentSelection => match handle_stack_append_parent_key(
            mode,
            &facts.stack_parents,
            key,
        ) {
            Some(append) => KeyAction::AppendToStack(append),
            None => KeyAction::Nothing,
        },
        KeyRoute::PreCommitHookWarning => {
            handle_pre_commit_hook_warning_key(mode, key);
            KeyAction::Nothing
        },
        KeyRoute::ViewInfoPopup => {
            handle_view_info_popup_key(mode, key);
            KeyAction::Nothing
        },
        KeyRoute::DiffLoading => if handle_loading(key) {
            KeyAction::CancelDiffLoad
        } else {
            KeyAction::Nothing
        },
        page => KeyAction::ForPage(page),
    }
}

/// What follows a key on the diff page.
#[derive(Debug)]
pub struct DiffPageOutcome {
    pub effects: DiffEffects,
    /// Whether the reply that the key wrote is sent at once.
    pub sends_reply: bool,
}

/// Applies a key to the diff page of a terminal.
pub fn handle_diff_page_key<P: DiffPage, E: CommentEditor>(
    mode: &mut AppMode,
    content: &DiffContent,
    sessions: &Vec<Session>,
    facts: &DiffReplyFacts,
    page: &P,
    editor: &E,
    terminal_width: u16,
    terminal_height: u16,
    key: KeyEvent,
) -> (outcome: DiffPageOutcome)
    ensures
        match *old(mode) {
            AppMode::Diff(diff) => exists|area: ViewportRect| #[trigger]
                diff_key_applied(
                    page,
                    editor,
                    *content,
                    sessions@,
                    *facts,
                    area,
                    key,
                    diff,
                    *final(mode),
                    outcome.effects,
                ) && area.x == 0 && area.width == terminal_width && (terminal_height >= 2
                    ==> area.y == 1 && area.height == terminal_height - 2),
            other => *final(mode) == other && outcome.effects == DiffEffects::none_spec(),
        },
        outcome.sends_reply == (route_of(*old(mode), sessions@, facts.allows_reply, key) == (
        KeyRoute::Diff { submits_comments: true }) && *final(mode) is Prompt),
{
    let route: KeyRoute = key_route(mode, sessions, facts.allows_reply, key);
    let area: ViewportRect = content_area_for_terminal(terminal_width, terminal_height);
    let ghost before = *mode;
    let effects: DiffEffects = handle_key(
        mode,
        content,
        sessions,
        facts,
        page,
        editor,
        area,
        key,
    );
    proof {
        if let AppMode::Diff(diff) = before {
            assert(diff_key_applied(
                page,
                editor,
                *content,
                sessions@,
                *facts,
                area,
                key,
                diff,
                *mode,
                effects,
            ));
        }
    }
    DiffPageOutcome { effects, sends_reply: sends_reply(route, mode) }
}

/// A key ends the program only from a confirmation popup that asks to quit.
pub proof fn lemma_only_quit_popup_ends_program(
    before: AppMode,
    sessions: Seq<Session>,
    allows_reply: bool,
    facts: PopupFacts,
    key: KeyEvent,
    after: AppMode,
    action: KeyAction,
)
    requires
        key_applied(before, sessions, allows_reply, facts, key, after, action),
        action.ends_program(),
    ensures
        before matches AppMode::Confirmation(popup) && popup.confirmation_intent
            == crate::app_mode::ConfirmationIntent::Quit && facts.confirmation_decision
            == ConfirmationDecision::Confirm && after == AppMode::List,
{
    if let AppMode::Confirmation(popup) = before {
        crate::confirmation::lemma_only_confirmed_quit_ends(
            highlighted(popup, facts.confirmation_index),
            sessions,
            facts.confirmation_decision,
        );
    }
}

} // verus!
