//! Keys of the session view.

use vstd::prelude::*;

use crate::app_mode::{
    AppMode, ChatFocus, Confirmation, ConfirmationIntent, ConfirmationViewMode, HelpContext,
    PromptHistoryState, PromptModeSnapshot, PublishBranchAction, PublishBranchInput,
};
use crate::input::InputState;
use crate::key::{KeyCode, KeyEvent, KeyModifiers, lower, to_lower};
use crate::prompt_history::{recalled_prompts, session_prompt_history_entries};
use crate::session::{Session, Status};
use crate::session_view::{
    ViewContext, ViewMetrics, ViewPendingUpdate, ViewSessionSnapshot, full_step,
    is_review_loading_status_message, is_view_diff_allowed, is_view_review_allowed,
    review_loading_prefix, scroll_offset_down, scroll_offset_half_page_down,
    scroll_offset_half_page_up, scroll_offset_up,
};
use crate::text_lines::{copy_texts, texts};
use crate::viewport::{tail_down, tail_up};

verus! {

/// What a key of the session view means beyond its snapshot.
#[derive(Debug)]
pub struct ViewKeyFacts {
    /// Name under which the branch is published unless another is entered.
    pub default_branch_name: String,
    /// Option that a new confirmation popup highlights.
    pub default_option_index: usize,
    pub has_multiple_follow_up_tasks: bool,
    /// Whether the review panel shows a review.
    pub has_review_text: bool,
    /// Whether the key pastes an image.
    pub is_image_paste: bool,
    /// Whether the key types its character.
    pub is_insertable: bool,
    pub launch_configurations: Vec<String>,
    /// Name of the published branch, without its remote.
    pub published_branch_name: Option<String>,
    /// Message of the review panel.
    pub review_status: Option<String>,
}

/// How a key scrolls the transcript.
#[derive(Clone, Copy, Debug, PartialEq, Eq, Structural)]
pub enum ViewScroll {
    Bottom,
    Down,
    HalfPageDown,
    HalfPageUp,
    Top,
    Up,
}

/// What a key asks for.
#[derive(Clone, Copy, Debug, PartialEq, Eq, Structural)]
pub enum ViewCommand {
    ContinueSession,
    EndTurn,
    FollowUpTask,
    Fork,
    Help,
    Ignore,
    List,
    Merge,
    NextFollowUpTask,
    OpenComposer,
    OpenSlashComposer,
    OpenWorktree,
    PasteImage,
    PreviousFollowUpTask,
    Publish(PublishBranchAction),
    Rebase,
    Review,
    Scroll(ViewScroll),
    ShowDiff,
    StartStaged,
}

/// What is to be done outside of the interface.
#[derive(Debug)]
pub enum ViewAction {
    EndTurn,
    LaunchOrOpenFollowUpTask,
    LoadDiff,
    LoadReview,
    Nothing,
    OpenWorktree { command: Option<String> },
    PasteImage,
    Rebase,
    SelectNextFollowUpTask,
    SelectPreviousFollowUpTask,
    StartStagedSession,
}

/// The command of a primary key.
pub open spec fn primary_command(
    key: KeyEvent,
    snapshot: ViewSessionSnapshot,
    facts: ViewKeyFacts,
) -> Option<ViewCommand> {
    let code = key.code;
    if code == KeyCode::Char('q') {
        Some(ViewCommand::List)
    } else if code == KeyCode::Char('o') && snapshot.open_worktree.enabled() {
        Some(ViewCommand::OpenWorktree)
    } else if code == KeyCode::Char('l') && snapshot.follow_up_task_action is Some {
        Some(ViewCommand::FollowUpTask)
    } else if code == KeyCode::Char('s') && snapshot.start_staged_session.enabled() {
        Some(ViewCommand::StartStaged)
    } else if (code == KeyCode::Char('v') || code == KeyCode::Char('V')) && facts.is_image_paste
        && snapshot.image_paste_available() {
        Some(ViewCommand::PasteImage)
    } else if code == KeyCode::Char('c') && key.modifiers == KeyModifiers::none_spec()
        && snapshot.continue_terminal_session.enabled() {
        Some(ViewCommand::ContinueSession)
    } else if code == KeyCode::Char('[') && facts.has_multiple_follow_up_tasks {
        Some(ViewCommand::PreviousFollowUpTask)
    } else if code == KeyCode::Char(']') && facts.has_multiple_follow_up_tasks {
        Some(ViewCommand::NextFollowUpTask)
    } else if code == KeyCode::Enter && snapshot.composer_available() {
        Some(ViewCommand::OpenComposer)
    } else if code == KeyCode::Char('/') && snapshot.slash_composer_available()
        && facts.is_insertable {
        Some(ViewCommand::OpenSlashComposer)
    } else {
        None
    }
}

/// The scrolling of a key.
pub open spec fn scroll_command(key: KeyEvent) -> Option<ViewScroll> {
    let code = key.code;
    if code == KeyCode::Char('j') || code == KeyCode::Down {
        Some(ViewScroll::Down)
    } else if code == KeyCode::Char('k') || code == KeyCode::Up {
        Some(ViewScroll::Up)
    } else if code == KeyCode::Char('g') {
        Some(ViewScroll::Top)
    } else if code == KeyCode::Char('G') {
        Some(ViewScroll::Bottom)
    } else if code == KeyCode::Char('d') && key.modifiers.control {
        Some(ViewScroll::HalfPageDown)
    } else if code == KeyCode::Char('u') && key.modifiers.control {
        Some(ViewScroll::HalfPageUp)
    } else {
        None
    }
}

/// Whether the key is the letter `p` in either case.
pub open spec fn publish_letter(code: KeyCode) -> bool {
    code matches KeyCode::Char(character) && lower(character) == 'p'
}

/// The command of a workflow key.
pub open spec fn workflow_command(key: KeyEvent, snapshot: ViewSessionSnapshot) -> Option<
    ViewCommand,
> {
    let code = key.code;
    let control = key.modifiers.control;
    if code == KeyCode::Char('d') && !control && snapshot.session_status.review_ready() {
        Some(ViewCommand::ShowDiff)
    } else if publish_letter(code) && !control && snapshot.publish_pull_request_action is Some {
        Some(ViewCommand::Publish(snapshot.publish_pull_request_action->0))
    } else if code == KeyCode::Char('F') && !control && snapshot.fork_session.enabled() {
        Some(ViewCommand::Fork)
    } else if code == KeyCode::Char('f') && !control && snapshot.session_status.review_ready() {
        Some(ViewCommand::Review)
    } else if code == KeyCode::Char('m') && snapshot.mergeable() {
        Some(ViewCommand::Merge)
    } else if code == KeyCode::Char('r') && snapshot.rebasable() {
        Some(ViewCommand::Rebase)
    } else if code == KeyCode::Char('c') && control && snapshot.session_status
        == Status::InProgress {
        Some(ViewCommand::EndTurn)
    } else if code == KeyCode::Char('?') {
        Some(ViewCommand::Help)
    } else {
        None
    }
}

/// The command of a key: primary keys come first, then scrolling, then the
/// workflow.
pub open spec fn command_of(
    key: KeyEvent,
    snapshot: ViewSessionSnapshot,
    facts: ViewKeyFacts,
) -> ViewCommand {
    match primary_command(key, snapshot, facts) {
        Some(command) => command,
        None => match scroll_command(key) {
            Some(scroll) => ViewCommand::Scroll(scroll),
            None => match workflow_command(key, snapshot) {
                Some(command) => command,
                None => ViewCommand::Ignore,
            },
        },
    }
}

/// Finds the command of a primary key.
pub fn find_primary_command(
    key: KeyEvent,
    snapshot: &ViewSessionSnapshot,
    facts: &ViewKeyFacts,
) -> (command: Option<ViewCommand>)
    ensures
        command == primary_command(key, *snapshot, *facts),
{
    match key.code {
        KeyCode::Char('q') => Some(ViewCommand::List),
        KeyCode::Char('o') if snapshot.can_open_worktree() => Some(ViewCommand::OpenWorktree),
        KeyCode::Char('l') if snapshot.follow_up_task_action.is_some() => Some(
            ViewCommand::FollowUpTask,
        ),
        KeyCode::Char('s') if snapshot.can_start_staged_session() => Some(ViewCommand::StartStaged),
        KeyCode::Char('v') if facts.is_image_paste
            && snapshot.can_paste_image_into_draft_composer() => Some(ViewCommand::PasteImage),
        KeyCode::Char('V') if facts.is_image_paste
            && snapshot.can_paste_image_into_draft_composer() => Some(ViewCommand::PasteImage),
        KeyCode::Char('c') if key.modifiers == KeyModifiers::none()
            && snapshot.can_continue_terminal_session() => Some(ViewCommand::ContinueSession),
        KeyCode::Char('[') if facts.has_multiple_follow_up_tasks => Some(
            ViewCommand::PreviousFollowUpTask,
        ),
        KeyCode::Char(']') if facts.has_multiple_follow_up_tasks => Some(
            ViewCommand::NextFollowUpTask,
        ),
        KeyCode::Enter if snapshot.can_open_prompt_composer() => Some(ViewCommand::OpenComposer),
        KeyCode::Char('/') if snapshot.can_launch_configuration_composer() && facts.is_insertable
        => Some(ViewCommand::OpenSlashComposer),
        _ => None,
    }
}

/// Finds the scrolling of a key.
pub fn find_scroll_command(key: KeyEvent) -> (scroll: Option<ViewScroll>)
    ensures
        scroll == scroll_command(key),
{
    match key.code {
        KeyCode::Char('j') | KeyCode::Down => Some(ViewScroll::Down),
        KeyCode::Char('k') | KeyCode::Up => Some(ViewScroll::Up),
        KeyCode::Char('g') => Some(ViewScroll::Top),
        KeyCode::Char('G') => Some(ViewScroll::Bottom),
        KeyCode::Char('d') if key.modifiers.control => Some(ViewScroll::HalfPageDown),
        KeyCode::Char('u') if key.modifiers.control => Some(ViewScroll::HalfPageUp),
        _ => None,
    }
}

/// Finds the command of a workflow key.
pub fn find_workflow_command(key: KeyEvent, snapshot: &ViewSessionSnapshot) -> (command: Option<
    ViewCommand,
>)
    ensures
        command == workflow_command(key, *snapshot),
{
    let character: char = match key.code {
        KeyCode::Char(character) => character,
        _ => {
            return None;
        },
    };
    let control: bool = key.modifiers.control;
    if character == 'd' && !control && is_view_diff_allowed(snapshot.session_status) {
        return Some(ViewCommand::ShowDiff);
    }
    if to_lower(character) == 'p' && !control {
        if let Some(action) = snapshot.publish_pull_request_action {
            return Some(ViewCommand::Publish(action));
        }
    }
    if character == 'F' && !control && snapshot.can_fork_session() {
        return Some(ViewCommand::Fork);
    }
    if character == 'f' && !control && is_view_review_allowed(snapshot.session_status) {
        return Some(ViewCommand::Review);
    }
    if character == 'm' && snapshot.can_merge_session() {
        return Some(ViewCommand::Merge);
    }
    if character == 'r' && snapshot.can_rebase_session() {
        return Some(ViewCommand::Rebase);
    }
    if character == 'c' && control && snapshot.session_status == Status::InProgress {
        return Some(ViewCommand::EndTurn);
    }
    if character == '?' {
        return Some(ViewCommand::Help);
    }
    None
}

/// Finds the command of a key.
pub fn view_command(key: KeyEvent, snapshot: &ViewSessionSnapshot, facts: &ViewKeyFacts) -> (
    command: ViewCommand)
    ensures
        command == command_of(key, *snapshot, *facts),
{
    if let Some(command) = find_primary_command(key, snapshot, facts) {
        return command;
    }
    if let Some(scroll) = find_scroll_command(key) {
        return ViewCommand::Scroll(scroll);
    }
    match find_workflow_command(key, snapshot) {
        Some(command) => command,
        None => ViewCommand::Ignore,
    }
}

/// The offset after scrolling.
pub open spec fn scrolled(offset: Option<u16>, metrics: ViewMetrics, scroll: ViewScroll) -> Option<
    u16,
> {
    let half_page = full_step(metrics.view_height as int / 2);
    match scroll {
        ViewScroll::Bottom => None,
        ViewScroll::Down => tail_down(offset, 1, metrics.limit()),
        ViewScroll::HalfPageDown => tail_down(offset, half_page, metrics.limit()),
        ViewScroll::HalfPageUp => Some(tail_up(offset, half_page, metrics.limit()) as u16),
        ViewScroll::Top => Some(0),
        ViewScroll::Up => Some(tail_up(offset, 1, metrics.limit()) as u16),
    }
}

/// Scrolls the transcript.
pub fn handle_scroll(pending: &mut ViewPendingUpdate, metrics: ViewMetrics, scroll: ViewScroll)
    ensures
        final(pending).scroll_offset == scrolled(old(pending).scroll_offset, metrics, scroll),
{
    let offset: Option<u16> = pending.scroll_offset;
    pending.scroll_offset = match scroll {
        ViewScroll::Bottom => None,
        ViewScroll::Down => scroll_offset_down(offset, metrics, 1),
        ViewScroll::HalfPageDown => scroll_offset_half_page_down(offset, metrics),
        ViewScroll::HalfPageUp => Some(scroll_offset_half_page_up(offset, metrics)),
        ViewScroll::Top => Some(0),
        ViewScroll::Up => Some(scroll_offset_up(offset, metrics, 1)),
    };
}

/// The view that a popup over the session comes back to.
pub open spec fn view_to_restore(context: ViewContext) -> ConfirmationViewMode {
    ConfirmationViewMode { scroll_offset: context.scroll_offset, session_id: context.session_id }
}

/// Builds the view that a popup over the session comes back to.
pub fn confirmation_view_mode(context: &ViewContext) -> (view: ConfirmationViewMode)
    ensures
        view == view_to_restore(*context),
{
    ConfirmationViewMode {
        scroll_offset: context.scroll_offset,
        session_id: context.session_id.clone(),
    }
}

/// Whether a mode is a popup over the session that asks the given question.
pub open spec fn asks(
    mode: AppMode,
    context: ViewContext,
    intent: ConfirmationIntent,
    title: Seq<char>,
    message: Seq<char>,
    option_index: usize,
) -> bool {
    &&& mode matches AppMode::Confirmation(popup)
    &&& popup.confirmation_intent == intent
    &&& popup.confirmation_title@ == title
    &&& popup.confirmation_message@ == message
    &&& popup.restore_view == Some(view_to_restore(context))
    &&& popup.selected_confirmation_index == option_index
    &&& popup.session_id == Some(context.session_id)
}

/// Asks a question over the session.
fn open_confirmation(
    mode: &mut AppMode,
    context: &ViewContext,
    intent: ConfirmationIntent,
    title: &str,
    message: &str,
    option_index: usize,
)
    ensures
        asks(*final(mode), *context, intent, title@, message@, option_index),
{
    *mode = AppMode::Confirmation(
        Confirmation {
            confirmation_intent: intent,
            confirmation_message: message.to_owned(),
            confirmation_title: title.to_owned(),
            restore_view: Some(confirmation_view_mode(context)),
            selected_confirmation_index: option_index,
            session_id: Some(context.session_id.clone()),
        },
    );
}

/// Whether a mode asks to fork the session.
pub open spec fn asks_to_fork(mode: AppMode, context: ViewContext, option_index: usize) -> bool {
    asks(
        mode,
        context,
        ConfirmationIntent::ForkSession,
        "Confirm Fork"@,
        "Fork this session into a new session with the current transcript history?"@,
        option_index,
    )
}

/// Asks to fork the session.
pub fn open_fork_confirmation(mode: &mut AppMode, context: &ViewContext, option_index: usize)
    ensures
        asks_to_fork(*final(mode), *context, option_index),
{
    open_confirmation(
        mode,
        context,
        ConfirmationIntent::ForkSession,
        "Confirm Fork",
        "Fork this session into a new session with the current transcript history?",
        option_index,
    );
}

/// Whether a mode asks to merge the session.
pub open spec fn asks_to_merge(mode: AppMode, context: ViewContext, option_index: usize) -> bool {
    asks(
        mode,
        context,
        ConfirmationIntent::MergeSession,
        "Confirm Merge"@,
        "Add this session to merge queue?"@,
        option_index,
    )
}

/// Asks to merge the session.
pub fn open_merge_confirmation(mode: &mut AppMode, context: &ViewContext, option_index: usize)
    ensures
        asks_to_merge(*final(mode), *context, option_index),
{
    open_confirmation(
        mode,
        context,
        ConfirmationIntent::MergeSession,
        "Confirm Merge",
        "Add this session to merge queue?",
        option_index,
    );
}

/// Whether a mode asks to continue the session in a draft.
pub open spec fn asks_to_continue(mode: AppMode, context: ViewContext, option_index: usize) -> bool {
    asks(
        mode,
        context,
        ConfirmationIntent::ContinueSession,
        "Confirm Continue"@,
        "Create a new draft session with initial context from this session?"@,
        option_index,
    )
}

/// Asks to continue the session in a draft.
pub fn open_continue_confirmation(mode: &mut AppMode, context: &ViewContext, option_index: usize)
    ensures
        asks_to_continue(*final(mode), *context, option_index),
{
    open_confirmation(
        mode,
        context,
        ConfirmationIntent::ContinueSession,
        "Confirm Continue",
        "Create a new draft session with initial context from this session?",
        option_index,
    );
}

/// Whether a mode asks for a new review.
pub open spec fn asks_to_regenerate(
    mode: AppMode,
    context: ViewContext,
    option_index: usize,
) -> bool {
    asks(
        mode,
        context,
        ConfirmationIntent::RegenerateReview,
        "Confirm Regenerate"@,
        "Regenerate focused review?"@,
        option_index,
    )
}

/// Whether the worktree of the session is opened, or the user is asked with
/// which of several commands.
pub open spec fn worktree_requested(
    commands: Seq<String>,
    context: ViewContext,
    before: AppMode,
    after: AppMode,
    action: ViewAction,
) -> bool {
    if commands.len() > 1 {
        &&& action is Nothing
        &&& after matches AppMode::LaunchConfigurationSelector {
            commands: offered,
            restore_view,
            selected_command_index,
        }
        &&& offered@ == commands
        &&& restore_view == view_to_restore(context)
        &&& selected_command_index == 0
    } else {
        &&& after == before
        &&& action == (ViewAction::OpenWorktree {
            command: if commands.len() == 1 {
                Some(commands[0])
            } else {
                None
            },
        })
    }
}

/// Opens the worktree of the session, or asks with which of several commands.
pub fn open_worktree_for_view_session(
    mode: &mut AppMode,
    context: &ViewContext,
    commands: &Vec<String>,
) -> (action: ViewAction)
    ensures
        worktree_requested(commands@, *context, *old(mode), *final(mode), action),
{
    if commands.len() > 1 {
        *mode = AppMode::LaunchConfigurationSelector {
            commands: copy_texts(commands),
            restore_view: confirmation_view_mode(context),
            selected_command_index: 0,
        };
        return ViewAction::Nothing;
    }
    let command: Option<String> = if commands.len() == 1 {
        Some(commands[0].clone())
    } else {
        None
    };
    ViewAction::OpenWorktree { command }
}

/// Whether the review was asked for: nothing happens while one is in
/// progress, one that is shown is only replaced after a confirmation, and
/// otherwise it is loaded and the transcript follows its end.
pub open spec fn review_requested(
    facts: ViewKeyFacts,
    context: ViewContext,
    before: AppMode,
    after: AppMode,
    offset_before: Option<u16>,
    offset_after: Option<u16>,
    action: ViewAction,
) -> bool {
    if facts.review_status matches Some(message) && review_loading_prefix().is_prefix_of(
        message@,
    ) {
        after == before && offset_after == offset_before && action is Nothing
    } else if facts.has_review_text || facts.review_status is Some {
        &&& asks_to_regenerate(after, context, facts.default_option_index)
        &&& offset_after == offset_before
        &&& action is Nothing
    } else {
        after == before && offset_after is None && action is LoadReview
    }
}

/// Asks for the review.
pub fn open_or_regenerate_review(
    mode: &mut AppMode,
    context: &ViewContext,
    facts: &ViewKeyFacts,
    pending: &mut ViewPendingUpdate,
) -> (action: ViewAction)
    ensures
        review_requested(
            *facts,
            *context,
            *old(mode),
            *final(mode),
            old(pending).scroll_offset,
            final(pending).scroll_offset,
            action,
        ),
{
    let is_loading: bool = match &facts.review_status {
        Some(message) => is_review_loading_status_message(message.as_str()),
        None => false,
    };
    if is_loading {
        return ViewAction::Nothing;
    }
    if facts.has_review_text || facts.review_status.is_some() {
        open_confirmation(
            mode,
            context,
            ConfirmationIntent::RegenerateReview,
            "Confirm Regenerate",
            "Regenerate focused review?",
            facts.default_option_index,
        );
        return ViewAction::Nothing;
    }
    pending.scroll_offset = None;
    ViewAction::LoadReview
}

/// Whether a mode is the composer of the session with the given text.
pub open spec fn composes(
    mode: AppMode,
    context: ViewContext,
    session: Session,
    text: Seq<char>,
    scroll_offset: Option<u16>,
) -> bool {
    &&& mode matches AppMode::Prompt { focus: ChatFocus::Input, prompt }
    &&& prompt.at_mention_state is None
    &&& texts(prompt.history_state.entries@) == recalled_prompts(session)
    &&& prompt.history_state.position is None
    &&& prompt.input.text@ == text
    &&& prompt.input.cursor == text.len()
    &&& prompt.scroll_offset == scroll_offset
    &&& prompt.session_id == context.session_id
    &&& prompt.slash_selected_index == 0
}

/// Opens the composer of the session on a text.
pub fn switch_view_to_prompt(
    mode: &mut AppMode,
    context: &ViewContext,
    session: &Session,
    text: &str,
    scroll_offset: Option<u16>,
)
    ensures
        composes(*final(mode), *context, *session, text@, scroll_offset),
{
    let entries: Vec<String> = session_prompt_history_entries(session);
    let prompt: PromptModeSnapshot = PromptModeSnapshot {
        at_mention_state: None,
        history_state: PromptHistoryState::new(entries),
        input: InputState::with_text(text),
        scroll_offset,
        session_id: context.session_id.clone(),
        slash_selected_index: 0,
    };
    *mode = prompt.into_prompt_mode();
}

/// The help overlay over the session view.
pub open spec fn view_help(context: ViewContext, snapshot: ViewSessionSnapshot) -> AppMode {
    AppMode::Help {
        context: HelpContext::View {
            can_fork_session: snapshot.fork_session.enabled(),
            can_merge_session_branch: snapshot.merge_session_branch.enabled(),
            can_mutate_session_branch: snapshot.mutate_session_branch.enabled(),
            can_open_worktree: snapshot.open_worktree.enabled(),
            can_rebase_session_branch: snapshot.rebase_session_branch.enabled(),
            can_reply_to_session: snapshot.reply_to_session.enabled(),
            can_start_staged_session: snapshot.start_staged_session.enabled(),
            publish_pull_request_action: snapshot.publish_pull_request_action,
            scroll_offset: context.scroll_offset,
            session_id: context.session_id,
            session_state: snapshot.session_state,
        },
        scroll_offset: 0,
    }
}

/// Opens the help overlay over the session view.
pub fn open_view_help_overlay(
    mode: &mut AppMode,
    context: &ViewContext,
    snapshot: &ViewSessionSnapshot,
)
    ensures
        *final(mode) == view_help(*context, *snapshot),
{
    *mode = AppMode::Help {
        context: HelpContext::View {
            can_fork_session: snapshot.can_fork_session(),
            can_merge_session_branch: snapshot.can_merge_session_branch(),
            can_mutate_session_branch: snapshot.can_mutate_session_branch(),
            can_open_worktree: snapshot.can_open_worktree(),
            can_rebase_session_branch: snapshot.can_rebase_session_branch(),
            can_reply_to_session: snapshot.can_reply_to_session(),
            can_start_staged_session: snapshot.can_start_staged_session(),
            publish_pull_request_action: snapshot.publish_pull_request_action,
            scroll_offset: context.scroll_offset,
            session_id: context.session_id.clone(),
            session_state: snapshot.session_state,
        },
        scroll_offset: 0,
    };
}

/// Whether a mode asks for the name under which the session is published; a
/// published session keeps its name.
pub open spec fn asks_for_branch(
    mode: AppMode,
    context: ViewContext,
    session: Session,
    facts: ViewKeyFacts,
    action: PublishBranchAction,
) -> bool {
    &&& mode matches AppMode::PublishBranchInput(popup)
    &&& popup.default_branch_name == facts.default_branch_name
    &&& popup.locked_upstream_ref == session.published_upstream_ref
    &&& popup.publish_branch_action == action
    &&& popup.restore_view == view_to_restore(context)
    &&& match facts.published_branch_name {
        Some(name) if session.published_upstream_ref is Some => popup.input.text@ == name@
            && popup.input.cursor == name@.len(),
        _ => popup.input.text@.len() == 0 && popup.input.cursor == 0,
    }
}

/// Asks for the name under which the session is published.
pub fn open_publish_branch_input(
    mode: &mut AppMode,
    context: &ViewContext,
    session: &Session,
    facts: &ViewKeyFacts,
    action: PublishBranchAction,
)
    ensures
        asks_for_branch(*final(mode), *context, *session, *facts, action),
{
    let locked_upstream_ref: Option<String> = match &session.published_upstream_ref {
        Some(reference) => Some(reference.clone()),
        None => None,
    };
    let input: InputState = match &facts.published_branch_name {
        Some(name) => if locked_upstream_ref.is_some() {
            InputState::with_text(name.as_str())
        } else {
            InputState::default()
        },
        None => InputState::default(),
    };
    *mode = AppMode::PublishBranchInput(
        PublishBranchInput {
            default_branch_name: facts.default_branch_name.clone(),
            input,
            locked_upstream_ref,
            publish_branch_action: action,
            restore_view: confirmation_view_mode(context),
        },
    );
}

/// What a command leaves to be done.
#[derive(Debug)]
pub struct ViewKeyOutcome {
    pub action: ViewAction,
    /// Whether the pending scroll offset is written back afterwards.
    pub applies_scroll: bool,
}

/// Whether the pending scroll offset is written back after a command.
pub open spec fn applies_scroll(command: ViewCommand) -> bool {
    match command {
        ViewCommand::FollowUpTask
        | ViewCommand::StartStaged
        | ViewCommand::PasteImage
        | ViewCommand::ContinueSession
        | ViewCommand::Publish(_)
        | ViewCommand::Fork
        | ViewCommand::EndTurn
        | ViewCommand::Help => false,
        _ => true,
    }
}

/// Whether a command was carried out.
pub open spec fn command_applied(
    command: ViewCommand,
    context: ViewContext,
    metrics: ViewMetrics,
    snapshot: ViewSessionSnapshot,
    session: Session,
    facts: ViewKeyFacts,
    before: AppMode,
    after: AppMode,
    offset_before: Option<u16>,
    offset_after: Option<u16>,
    action: ViewAction,
) -> bool {
    let option_index = facts.default_option_index;
    match command {
        ViewCommand::Review => review_requested(
            facts,
            context,
            before,
            after,
            offset_before,
            offset_after,
            action,
        ),
        ViewCommand::Scroll(scroll) => after == before && offset_after == scrolled(
            offset_before,
            metrics,
            scroll,
        ) && action is Nothing,
        _ => {
            &&& offset_after == offset_before
            &&& match command {
                ViewCommand::ContinueSession => asks_to_continue(after, context, option_index)
                    && action is Nothing,
                ViewCommand::EndTurn => after == before && action is EndTurn,
                ViewCommand::FollowUpTask => after == before && action is LaunchOrOpenFollowUpTask,
                ViewCommand::Fork => asks_to_fork(after, context, option_index)
                    && action is Nothing,
                ViewCommand::Help => after == view_help(context, snapshot) && action is Nothing,
                ViewCommand::List => after == AppMode::List && action is Nothing,
                ViewCommand::Merge => asks_to_merge(after, context, option_index)
                    && action is Nothing,
                ViewCommand::NextFollowUpTask => after == before
                    && action is SelectNextFollowUpTask,
                ViewCommand::OpenComposer => composes(
                    after,
                    context,
                    session,
                    ""@,
                    offset_before,
                ) && action is Nothing,
                ViewCommand::OpenSlashComposer => composes(
                    after,
                    context,
                    session,
                    "/"@,
                    offset_before,
                ) && action is Nothing,
                ViewCommand::OpenWorktree => worktree_requested(
                    facts.launch_configurations@,
                    context,
                    before,
                    after,
                    action,
                ),
                ViewCommand::PasteImage => composes(
                    after,
                    context,
                    session,
                    ""@,
                    offset_before,
                ) && action is PasteImage,
                ViewCommand::PreviousFollowUpTask => after == before
                    && action is SelectPreviousFollowUpTask,
                ViewCommand::Publish(publish) => asks_for_branch(
                    after,
                    context,
                    session,
                    facts,
                    publish,
                ) && action is Nothing,
                ViewCommand::Rebase => after == before && action is Rebase,
                ViewCommand::ShowDiff => after == before && action is LoadDiff,
                ViewCommand::StartStaged => after == before && action is StartStagedSession,
                _ => after == before && action is Nothing,
            }
        },
    }
}

/// Carries out a command.
fn run_view_command(
    command: ViewCommand,
    mode: &mut AppMode,
    context: &ViewContext,
    metrics: ViewMetrics,
    snapshot: &ViewSessionSnapshot,
    session: &Session,
    facts: &ViewKeyFacts,
    pending: &mut ViewPendingUpdate,
) -> (action: ViewAction)
    ensures
        command_applied(
            command,
            *context,
            metrics,
            *snapshot,
            *session,
            *facts,
            *old(mode),
            *final(mode),
            old(pending).scroll_offset,
            final(pending).scroll_offset,
            action,
        ),
{
    let option_index: usize = facts.default_option_index;
    match command {
        ViewCommand::ContinueSession => {
            open_continue_confirmation(mode, context, option_index);
            ViewAction::Nothing
        },
        ViewCommand::EndTurn => ViewAction::EndTurn,
        ViewCommand::FollowUpTask => ViewAction::LaunchOrOpenFollowUpTask,
        ViewCommand::Fork => {
            open_fork_confirmation(mode, context, option_index);
            ViewAction::Nothing
        },
        ViewCommand::Help => {
            open_view_help_overlay(mode, context, snapshot);
            ViewAction::Nothing
        },
        ViewCommand::Ignore => ViewAction::Nothing,
        ViewCommand::List => {
            *mode = AppMode::List;
            ViewAction::Nothing
        },
        ViewCommand::Merge => {
            open_merge_confirmation(mode, context, option_index);
            ViewAction::Nothing
        },
        ViewCommand::NextFollowUpTask => ViewAction::SelectNextFollowUpTask,
        ViewCommand::OpenComposer => {
            switch_view_to_prompt(mode, context, session, "", pending.scroll_offset);
            ViewAction::Nothing
        },
        ViewCommand::OpenSlashComposer => {
            switch_view_to_prompt(mode, context, session, "/", pending.scroll_offset);
            ViewAction::Nothing
        },
        ViewCommand::OpenWorktree => open_worktree_for_view_session(
            mode,
            context,
            &facts.launch_configurations,
        ),
        ViewCommand::PasteImage => {
            switch_view_to_prompt(mode, context, session, "", pending.scroll_offset);
            ViewAction::PasteImage
        },
        ViewCommand::PreviousFollowUpTask => ViewAction::SelectPreviousFollowUpTask,
        ViewCommand::Publish(action) => {
            open_publish_branch_input(mode, context, session, facts, action);
            ViewAction::Nothing
        },
        ViewCommand::Rebase => ViewAction::Rebase,
        ViewCommand::Review => open_or_regenerate_review(mode, context, facts, pending),
        ViewCommand::Scroll(scroll) => {
            handle_scroll(pending, metrics, scroll);
            ViewAction::Nothing
        },
        ViewCommand::ShowDiff => ViewAction::LoadDiff,
        ViewCommand::StartStaged => ViewAction::StartStagedSession,
    }
}

/// Applies a key of the session view.
pub fn handle_view_key(
    mode: &mut AppMode,
    key: KeyEvent,
    context: &ViewContext,
    metrics: ViewMetrics,
    snapshot: &ViewSessionSnapshot,
    session: &Session,
    facts: &ViewKeyFacts,
    pending: &mut ViewPendingUpdate,
) -> (outcome: ViewKeyOutcome)
    ensures
        ({
            let command = command_of(key, *snapshot, *facts);
            &&& outcome.applies_scroll == applies_scroll(command)
            &&& command_applied(
                command,
                *context,
                metrics,
                *snapshot,
                *session,
                *facts,
                *old(mode),
                *final(mode),
                old(pending).scroll_offset,
                final(pending).scroll_offset,
                outcome.action,
            )
        }),
{
    let command: ViewCommand = view_command(key, snapshot, facts);
    let applies: bool = !matches!(
        command,
        ViewCommand::FollowUpTask
            | ViewCommand::StartStaged
            | ViewCommand::PasteImage
            | ViewCommand::ContinueSession
            | ViewCommand::Publish(_)
            | ViewCommand::Fork
            | ViewCommand::EndTurn
            | ViewCommand::Help
    );
    let action: ViewAction = run_view_command(
        command,
        mode,
        context,
        metrics,
        snapshot,
        session,
        facts,
        pending,
    );
    ViewKeyOutcome { action, applies_scroll: applies }
}

/// Every question over the session comes back to the view it was asked from.
pub proof fn lemma_questions_restore_view(
    mode: AppMode,
    context: ViewContext,
    intent: ConfirmationIntent,
    title: Seq<char>,
    message: Seq<char>,
    option_index: usize,
)
    requires
        asks(mode, context, intent, title, message, option_index),
    ensures
        mode matches AppMode::Confirmation(popup) && popup.restore_view matches Some(view)
            && view.view_mode() == (AppMode::View {
            scroll_offset: context.scroll_offset,
            session_id: context.session_id,
        }),
{
}

/// A session that is over can only be left, read, forked, continued or
/// published: no key starts work on its branch.
pub proof fn lemma_finished_session_keys(
    key: KeyEvent,
    snapshot: ViewSessionSnapshot,
    facts: ViewKeyFacts,
)
    requires
        snapshot.session_status == Status::Done || snapshot.session_status == Status::Canceled,
    ensures
        ({
            let command = command_of(key, snapshot, facts);
            &&& command != ViewCommand::OpenComposer
            &&& command != ViewCommand::OpenSlashComposer
            &&& command != ViewCommand::PasteImage
            &&& command != ViewCommand::Merge
            &&& command != ViewCommand::Rebase
            &&& command != ViewCommand::Review
            &&& command != ViewCommand::ShowDiff
            &&& command != ViewCommand::EndTurn
        }),
{
}

} // verus!
