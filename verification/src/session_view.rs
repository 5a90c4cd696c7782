//! What the session view allows and how it scrolls.

use vstd::prelude::*;

use crate::app_mode::{AppMode, FollowUpTaskAction, PublishBranchAction, ViewSessionState};
use crate::session::{Session, SessionId, Status, row_of, session_row};
use crate::text::{has_prefix, joined, same_text};
use crate::viewport::{bottom_offset, minus, tail_down, tail_up};

verus! {

/// The viewed session and its place in the list.
#[derive(Debug)]
pub struct ViewContext {
    pub scroll_offset: Option<u16>,
    pub session_id: SessionId,
    pub session_index: usize,
}

/// Size of the viewed transcript and of its panel.
#[derive(Clone, Copy, Debug, PartialEq, Eq, Structural)]
pub struct ViewMetrics {
    pub total_lines: u16,
    pub view_height: u16,
}

impl ViewMetrics {
    /// The largest scroll offset.
    pub open spec fn limit(self) -> int {
        bottom_offset(self.total_lines as int, self.view_height as int)
    }
}

/// Scroll change that a key leaves behind.
#[derive(Clone, Copy, Debug, PartialEq, Eq, Structural)]
pub struct ViewPendingUpdate {
    pub scroll_offset: Option<u16>,
}

impl ViewPendingUpdate {
    /// Starts from the offset of the view.
    pub fn from_context(context: &ViewContext) -> (update: ViewPendingUpdate)
        ensures
            update.scroll_offset == context.scroll_offset,
    {
        ViewPendingUpdate { scroll_offset: context.scroll_offset }
    }
}

/// Whether an action is offered.
#[derive(Clone, Copy, Debug, PartialEq, Eq, Structural)]
pub enum ViewActionState {
    Disabled,
    Enabled,
}

impl ViewActionState {
    /// Whether the action is offered.
    pub open spec fn enabled(self) -> bool {
        self == ViewActionState::Enabled
    }

    /// The state of an action that is offered or not.
    pub open spec fn of(is_enabled: bool) -> ViewActionState {
        if is_enabled {
            ViewActionState::Enabled
        } else {
            ViewActionState::Disabled
        }
    }

    /// Builds the state of an action that is offered or not.
    pub fn from_bool(is_enabled: bool) -> (state: ViewActionState)
        ensures
            state == ViewActionState::of(is_enabled),
            state.enabled() == is_enabled,
    {
        if is_enabled {
            return ViewActionState::Enabled;
        }
        ViewActionState::Disabled
    }

    /// Reports whether the action is offered.
    pub fn is_enabled(self) -> (result: bool)
        ensures
            result == self.enabled(),
    {
        self == ViewActionState::Enabled
    }
}

/// Whether a session's worktree may be opened.
pub open spec fn worktree_open_allowed(status: Status) -> bool {
    match status {
        Status::Done
        | Status::Canceled
        | Status::InProgress
        | Status::Rebasing
        | Status::Merging
        | Status::Queued => false,
        _ => true,
    }
}

/// Whether merging and slash commands are available.
pub open spec fn action_allowed(status: Status) -> bool {
    match status {
        Status::Done
        | Status::InProgress
        | Status::Rebasing
        | Status::Merging
        | Status::Queued
        | Status::Canceled => false,
        _ => true,
    }
}

/// Whether the composer may be opened; a running turn queues messages.
pub open spec fn chat_allowed(status: Status) -> bool {
    action_allowed(status) || status == Status::InProgress
}

/// Whether a sync may be started, or queued behind a running turn.
pub open spec fn rebase_allowed(status: Status) -> bool {
    status.review_ready() || status == Status::InProgress
}

/// Reports whether a session's worktree may be opened.
pub fn is_view_worktree_open_allowed(status: Status) -> (allowed: bool)
    ensures
        allowed == worktree_open_allowed(status),
{
    !matches!(
        status,
        Status::Done
            | Status::Canceled
            | Status::InProgress
            | Status::Rebasing
            | Status::Merging
            | Status::Queued
    )
}

/// Reports whether merging and slash commands are available.
pub fn is_view_action_allowed(status: Status) -> (allowed: bool)
    ensures
        allowed == action_allowed(status),
{
    !matches!(
        status,
        Status::Done
            | Status::InProgress
            | Status::Rebasing
            | Status::Merging
            | Status::Queued
            | Status::Canceled
    )
}

/// Reports whether the composer may be opened.
pub fn is_view_chat_allowed(status: Status) -> (allowed: bool)
    ensures
        allowed == chat_allowed(status),
{
    is_view_action_allowed(status) || matches!(status, Status::InProgress)
}

/// Reports whether the diff may be opened.
pub fn is_view_diff_allowed(status: Status) -> (allowed: bool)
    ensures
        allowed == status.review_ready(),
{
    status.allows_review_actions()
}

/// Reports whether a focused review may be opened.
pub fn is_view_review_allowed(status: Status) -> (allowed: bool)
    ensures
        allowed == status.review_ready(),
{
    status.allows_review_actions()
}

/// Reports whether a sync may be started or queued.
pub fn is_view_rebase_allowed(status: Status) -> (allowed: bool)
    ensures
        allowed == rebase_allowed(status),
{
    status.allows_review_actions() || matches!(status, Status::InProgress)
}

/// A session that is over takes no action at all.
pub proof fn lemma_terminal_status_allows_nothing(status: Status)
    requires
        status == Status::Done || status == Status::Canceled,
    ensures
        !worktree_open_allowed(status),
        !action_allowed(status),
        !chat_allowed(status),
        !rebase_allowed(status),
        !status.review_ready(),
{
}

/// What a session and its stack say about the actions of its view.
#[derive(Debug)]
pub struct ViewSessionFacts {
    pub allows_continuation: bool,
    pub allows_fork: bool,
    pub can_merge_in_stack: bool,
    pub can_mutate_in_stack: bool,
    pub can_rebase_in_stack: bool,
    pub can_reply_in_stack: bool,
    pub can_start_staged: bool,
    pub follow_up_task_action: Option<FollowUpTaskAction>,
    pub publish_pull_request_action: Option<PublishBranchAction>,
    pub session_state: ViewSessionState,
    /// Worktrees that were looked for, at most one for each session.
    pub worktrees: Vec<SessionWorktree>,
}

/// Whether the worktree of a session exists.
#[derive(Debug)]
pub struct SessionWorktree {
    pub is_available: bool,
    pub session_id: SessionId,
}

/// Whether the worktree of a session is known to exist, seen from the entry
/// at `from` on.
pub open spec fn worktree_known(
    worktrees: Seq<SessionWorktree>,
    session_id: Seq<char>,
    from: int,
) -> bool
    decreases worktrees.len() - from,
{
    if from < 0 || from >= worktrees.len() {
        false
    } else if worktrees[from].session_id@ == session_id {
        worktrees[from].is_available
    } else {
        worktree_known(worktrees, session_id, from + 1)
    }
}

/// Reports whether the worktree of a session is known to exist.
pub fn is_worktree_available(worktrees: &Vec<SessionWorktree>, session_id: &str) -> (result: bool)
    ensures
        result == worktree_known(worktrees@, session_id@, 0),
{
    let mut index: usize = 0;
    while index < worktrees.len()
        invariant
            index <= worktrees@.len(),
            worktree_known(worktrees@, session_id@, 0) == worktree_known(
                worktrees@,
                session_id@,
                index as int,
            ),
        decreases worktrees@.len() - index,
    {
        if same_text(worktrees[index].session_id.as_str(), session_id) {
            return worktrees[index].is_available;
        }
        index = index + 1;
    }
    false
}

/// The actions that a viewed session offers.
#[derive(Debug)]
pub struct ViewSessionSnapshot {
    pub continue_terminal_session: ViewActionState,
    pub follow_up_task_action: Option<FollowUpTaskAction>,
    pub fork_session: ViewActionState,
    pub merge_session_branch: ViewActionState,
    pub mutate_session_branch: ViewActionState,
    pub open_worktree: ViewActionState,
    pub publish_pull_request_action: Option<PublishBranchAction>,
    pub rebase_session_branch: ViewActionState,
    pub reply_to_session: ViewActionState,
    pub session_state: ViewSessionState,
    pub session_status: Status,
    pub start_staged_session: ViewActionState,
}

/// The actions that a viewed session offers; its worktree only where it is
/// known to exist.
pub open spec fn snapshot_of(
    status: Status,
    session_id: Seq<char>,
    facts: ViewSessionFacts,
) -> ViewSessionSnapshot {
    ViewSessionSnapshot {
        continue_terminal_session: ViewActionState::of(facts.allows_continuation),
        follow_up_task_action: facts.follow_up_task_action,
        fork_session: ViewActionState::of(facts.allows_fork),
        merge_session_branch: ViewActionState::of(facts.can_merge_in_stack),
        mutate_session_branch: ViewActionState::of(facts.can_mutate_in_stack),
        open_worktree: ViewActionState::of(
            worktree_open_allowed(status) && worktree_known(facts.worktrees@, session_id, 0),
        ),
        publish_pull_request_action: facts.publish_pull_request_action,
        rebase_session_branch: ViewActionState::of(facts.can_rebase_in_stack),
        reply_to_session: ViewActionState::of(facts.can_reply_in_stack),
        session_state: facts.session_state,
        session_status: status,
        start_staged_session: ViewActionState::of(facts.can_start_staged),
    }
}

/// Collects the actions that the session in the viewed row offers; a row that
/// is gone has none.
pub fn view_session_snapshot(
    sessions: &Vec<Session>,
    context: &ViewContext,
    facts: &ViewSessionFacts,
) -> (snapshot: Option<ViewSessionSnapshot>)
    ensures
        snapshot == (if context.session_index < sessions@.len() {
            Some(
                snapshot_of(
                    sessions@[context.session_index as int].status,
                    context.session_id@,
                    *facts,
                ),
            )
        } else {
            None
        }),
{
    if context.session_index >= sessions.len() {
        return None;
    }
    let status: Status = sessions[context.session_index].status;
    let can_open_worktree: bool = is_view_worktree_open_allowed(status) && is_worktree_available(
        &facts.worktrees,
        context.session_id.as_str(),
    );
    Some(
        ViewSessionSnapshot {
            continue_terminal_session: ViewActionState::from_bool(facts.allows_continuation),
            follow_up_task_action: facts.follow_up_task_action,
            fork_session: ViewActionState::from_bool(facts.allows_fork),
            merge_session_branch: ViewActionState::from_bool(facts.can_merge_in_stack),
            mutate_session_branch: ViewActionState::from_bool(facts.can_mutate_in_stack),
            open_worktree: ViewActionState::from_bool(can_open_worktree),
            publish_pull_request_action: facts.publish_pull_request_action,
            rebase_session_branch: ViewActionState::from_bool(facts.can_rebase_in_stack),
            reply_to_session: ViewActionState::from_bool(facts.can_reply_in_stack),
            session_state: facts.session_state,
            session_status: status,
            start_staged_session: ViewActionState::from_bool(facts.can_start_staged),
        },
    )
}

impl ViewSessionSnapshot {
    /// Whether editing only stages drafts and so touches no branch.
    pub open spec fn edits_drafts_only(&self) -> bool {
        self.session_state == ViewSessionState::NewSession || self.session_state
            == ViewSessionState::StackedDraft
    }

    /// Whether the session can enter the merge queue.
    pub open spec fn mergeable(&self) -> bool {
        action_allowed(self.session_status) && self.merge_session_branch.enabled()
            && self.session_state != ViewSessionState::StackedDraft
    }

    /// Whether the session can be synced.
    pub open spec fn rebasable(&self) -> bool {
        rebase_allowed(self.session_status) && self.rebase_session_branch.enabled()
            && self.session_state != ViewSessionState::StackedDraft
    }

    /// Whether the composer can be opened.
    pub open spec fn composer_available(&self) -> bool {
        chat_allowed(self.session_status) && (self.edits_drafts_only()
            || self.reply_to_session.enabled())
    }

    /// Whether the composer can be opened on a slash command.
    pub open spec fn slash_composer_available(&self) -> bool {
        action_allowed(self.session_status) && (self.edits_drafts_only()
            || self.mutate_session_branch.enabled())
    }

    /// Whether a pasted image can open the composer of a draft.
    pub open spec fn image_paste_available(&self) -> bool {
        self.composer_available() && self.edits_drafts_only()
    }

    /// Reports whether the session can enter the merge queue.
    pub fn can_merge_session(&self) -> (result: bool)
        ensures
            result == self.mergeable(),
    {
        is_view_action_allowed(self.session_status) && self.can_merge_session_branch()
            && self.session_state != ViewSessionState::StackedDraft
    }

    /// Reports whether the session can be synced.
    pub fn can_rebase_session(&self) -> (result: bool)
        ensures
            result == self.rebasable(),
    {
        is_view_rebase_allowed(self.session_status) && self.can_rebase_session_branch()
            && self.session_state != ViewSessionState::StackedDraft
    }

    /// Reports whether a finished session can be continued in a draft.
    pub fn can_continue_terminal_session(&self) -> (result: bool)
        ensures
            result == self.continue_terminal_session.enabled(),
    {
        self.continue_terminal_session.is_enabled()
    }

    /// Reports whether the session can be forked.
    pub fn can_fork_session(&self) -> (result: bool)
        ensures
            result == self.fork_session.enabled(),
    {
        self.fork_session.is_enabled()
    }

    /// Reports whether the stack lets the session change its branch.
    pub fn can_mutate_session_branch(&self) -> (result: bool)
        ensures
            result == self.mutate_session_branch.enabled(),
    {
        self.mutate_session_branch.is_enabled()
    }

    /// Reports whether the stack lets the session merge.
    pub fn can_merge_session_branch(&self) -> (result: bool)
        ensures
            result == self.merge_session_branch.enabled(),
    {
        self.merge_session_branch.is_enabled()
    }

    /// Reports whether the worktree can be opened.
    pub fn can_open_worktree(&self) -> (result: bool)
        ensures
            result == self.open_worktree.enabled(),
    {
        self.open_worktree.is_enabled()
    }

    /// Reports whether the stack lets the session sync.
    pub fn can_rebase_session_branch(&self) -> (result: bool)
        ensures
            result == self.rebase_session_branch.enabled(),
    {
        self.rebase_session_branch.is_enabled()
    }

    /// Reports whether the stack lets the session take a reply.
    pub fn can_reply_to_session(&self) -> (result: bool)
        ensures
            result == self.reply_to_session.enabled(),
    {
        self.reply_to_session.is_enabled()
    }

    /// Reports whether a staged draft can start.
    pub fn can_start_staged_session(&self) -> (result: bool)
        ensures
            result == self.start_staged_session.enabled(),
    {
        self.start_staged_session.is_enabled()
    }

    /// Reports whether the composer can be opened.
    pub fn can_open_prompt_composer(&self) -> (result: bool)
        ensures
            result == self.composer_available(),
    {
        if !is_view_chat_allowed(self.session_status) {
            return false;
        }
        self.can_edit_without_branch_work() || self.can_reply_to_session()
    }

    /// Reports whether the composer can be opened on a slash command.
    pub fn can_launch_configuration_composer(&self) -> (result: bool)
        ensures
            result == self.slash_composer_available(),
    {
        if !is_view_action_allowed(self.session_status) {
            return false;
        }
        self.can_edit_without_branch_work() || self.can_mutate_session_branch()
    }

    /// Reports whether a pasted image can open the composer of a draft.
    pub fn can_paste_image_into_draft_composer(&self) -> (result: bool)
        ensures
            result == self.image_paste_available(),
    {
        self.can_open_prompt_composer() && self.can_edit_without_branch_work()
    }

    /// Reports whether editing only stages drafts.
    pub fn can_edit_without_branch_work(&self) -> (result: bool)
        ensures
            result == self.edits_drafts_only(),
    {
        matches!(
            self.session_state,
            ViewSessionState::NewSession | ViewSessionState::StackedDraft
        )
    }
}

/// Rows around the transcript panel.
pub const VIEW_CHROME_HEIGHT: u16 = 5;

/// Columns around the transcript panel.
pub const VIEW_CHROME_WIDTH: u16 = 2;

/// Computes the width in which the transcript of a terminal is laid out.
pub fn view_output_width(terminal_width: u16) -> (width: u16)
    ensures
        width == minus(terminal_width as int, VIEW_CHROME_WIDTH as int),
{
    terminal_width.saturating_sub(VIEW_CHROME_WIDTH)
}

/// Builds the metrics of a transcript of `total_lines` in a terminal.
pub fn view_metrics(terminal_height: u16, total_lines: u16) -> (metrics: ViewMetrics)
    ensures
        metrics.total_lines == total_lines,
        metrics.view_height == minus(terminal_height as int, VIEW_CHROME_HEIGHT as int),
{
    ViewMetrics { total_lines, view_height: terminal_height.saturating_sub(VIEW_CHROME_HEIGHT) }
}

/// Finds the viewed session; without it the view gives way to the list.
pub fn view_context(mode: &mut AppMode, sessions: &Vec<Session>) -> (context: Option<ViewContext>)
    ensures
        match *old(mode) {
            AppMode::View { scroll_offset, session_id } => match row_of(sessions@, session_id@) {
                Some(index) => {
                    &&& *final(mode) == *old(mode)
                    &&& context == Some(
                        ViewContext { scroll_offset, session_id, session_index: index },
                    )
                },
                None => *final(mode) == AppMode::List && context is None,
            },
            _ => *final(mode) == *old(mode) && context is None,
        },
{
    let (session_id, scroll_offset): (SessionId, Option<u16>) = match &*mode {
        AppMode::View { session_id, scroll_offset } => (session_id.clone(), *scroll_offset),
        _ => {
            return None;
        },
    };
    match session_row(sessions, session_id.as_str()) {
        Some(session_index) => Some(ViewContext { scroll_offset, session_id, session_index }),
        None => {
            *mode = AppMode::List;
            None
        },
    }
}

/// Writes a scroll offset back into the session view.
pub fn apply_view_scroll_and_output_mode(mode: &mut AppMode, scroll_offset: Option<u16>)
    ensures
        *final(mode) == (match *old(mode) {
            AppMode::View { session_id, .. } => AppMode::View { scroll_offset, session_id },
            other => other,
        }),
{
    if let AppMode::View { scroll_offset: view_scroll_offset, .. } = mode {
        *view_scroll_offset = scroll_offset;
    }
}

/// A scroll step of at least one line.
pub open spec fn full_step(step: int) -> int {
    if step < 1 {
        1
    } else {
        step
    }
}

/// Scrolls the transcript down; at its end it follows new output.
pub fn scroll_offset_down(scroll_offset: Option<u16>, metrics: ViewMetrics, step: u16) -> (next:
    Option<u16>)
    ensures
        next == tail_down(scroll_offset, full_step(step as int), metrics.limit()),
{
    match scroll_offset {
        None => None,
        Some(current) => {
            let lines: u16 = if step < 1 {
                1
            } else {
                step
            };
            let wanted: u16 = current.saturating_add(lines);
            if wanted >= metrics.total_lines.saturating_sub(metrics.view_height) {
                return None;
            }
            Some(wanted)
        },
    }
}

/// Scrolls the transcript up, away from its end.
pub fn scroll_offset_up(scroll_offset: Option<u16>, metrics: ViewMetrics, step: u16) -> (next: u16)
    ensures
        next == tail_up(scroll_offset, full_step(step as int), metrics.limit()),
{
    let current: u16 = match scroll_offset {
        Some(current) => current,
        None => metrics.total_lines.saturating_sub(metrics.view_height),
    };
    let lines: u16 = if step < 1 {
        1
    } else {
        step
    };
    current.saturating_sub(lines)
}

/// Scrolls the transcript down by half a page.
pub fn scroll_offset_half_page_down(scroll_offset: Option<u16>, metrics: ViewMetrics) -> (next:
    Option<u16>)
    ensures
        next == tail_down(
            scroll_offset,
            full_step(metrics.view_height as int / 2),
            metrics.limit(),
        ),
{
    scroll_offset_down(scroll_offset, metrics, half_page_scroll_step(metrics))
}

/// Scrolls the transcript up by half a page.
pub fn scroll_offset_half_page_up(scroll_offset: Option<u16>, metrics: ViewMetrics) -> (next: u16)
    ensures
        next == tail_up(scroll_offset, full_step(metrics.view_height as int / 2), metrics.limit()),
{
    scroll_offset_up(scroll_offset, metrics, half_page_scroll_step(metrics))
}

/// Computes the lines of half a page.
pub fn half_page_scroll_step(metrics: ViewMetrics) -> (step: u16)
    ensures
        step == metrics.view_height as int / 2,
{
    metrics.view_height / 2
}

/// Scrolling up always leaves the end, and scrolling down by as much comes
/// back to where it began or follows the end again.
pub proof fn lemma_scroll_up_then_down(scroll_offset: Option<u16>, metrics: ViewMetrics, step: int)
    requires
        0 <= step <= u16::MAX,
    ensures
        ({
            let lines = full_step(step);
            let up = tail_up(scroll_offset, lines, metrics.limit());
            let back = tail_down(Some(up as u16), lines, metrics.limit());
            scroll_offset matches Some(offset) ==> (lines <= offset < metrics.limit() ==> back
                == Some(offset))
        }),
        ({
            let lines = full_step(step);
            let up = tail_up(None, lines, metrics.limit());
            tail_down(Some(up as u16), lines, metrics.limit()) is None
        }),
{
}

/// Every offset of a scrolled transcript lies above its end.
pub proof fn lemma_scrolled_offsets_in_range(
    scroll_offset: Option<u16>,
    metrics: ViewMetrics,
    step: int,
)
    requires
        0 <= step <= u16::MAX,
        scroll_offset matches Some(offset) ==> offset <= metrics.limit(),
    ensures
        tail_down(scroll_offset, full_step(step), metrics.limit()) matches Some(offset) ==> offset
            < metrics.limit(),
        0 <= tail_up(scroll_offset, full_step(step), metrics.limit()) <= metrics.limit(),
{
}

/// Text that starts every message about a review in progress.
pub open spec fn review_loading_prefix() -> Seq<char> {
    "Reviewing changes with "@
}

/// Reports whether a review message says that the review is in progress.
pub fn is_review_loading_status_message(message: &str) -> (is_loading: bool)
    ensures
        is_loading == review_loading_prefix().is_prefix_of(message@),
{
    has_prefix(message, "Reviewing changes with ")
}

/// Writes the message about a review that a model is working on.
pub fn review_loading_message(model: &str) -> (message: String)
    ensures
        message@ == review_loading_prefix() + model@,
        review_loading_prefix().is_prefix_of(message@),
{
    joined("Reviewing changes with ", model)
}

} // verus!
