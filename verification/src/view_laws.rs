//! What each key of the session view leads to.

use vstd::prelude::*;

use crate::app_mode::{
    AppMode, ChatFocus, ConfirmationIntent, HelpContext, ViewSessionState,
};
use crate::key::{KeyCode, KeyEvent};
use crate::prompt_history::recalled_prompts;
use crate::session::{Session, Status, row_of};
use crate::session_view::{
    SessionWorktree, ViewActionState, ViewContext, ViewMetrics, ViewSessionFacts,
    ViewSessionSnapshot, snapshot_of, worktree_known,
};
use crate::text_lines::texts;
use crate::view_keys::{
    ViewAction, ViewKeyFacts, ViewScroll, applies_scroll, command_applied, command_of,
    scrolled,
};

verus! {

/// Whether a session can take on something new: it is neither over nor at
/// work.
pub open spec fn takes_actions(status: Status) -> bool {
    status == Status::AgentReview || status == Status::Draft || status == Status::Question
        || status == Status::Review
}

/// Whether the view shows a draft.
pub open spec fn is_draft_view(snapshot: ViewSessionSnapshot) -> bool {
    snapshot.session_state is NewSession || snapshot.session_state is StackedDraft
}

/// Whether a session takes messages: also while it is at work on one, and
/// unless it is a draft only where its stack lets it reply.
pub open spec fn takes_messages(snapshot: ViewSessionSnapshot) -> bool {
    &&& takes_actions(snapshot.session_status) || snapshot.session_status == Status::InProgress
    &&& is_draft_view(snapshot) || snapshot.reply_to_session == ViewActionState::Enabled
}

/// Whether a session takes slash commands.
pub open spec fn takes_slash_commands(snapshot: ViewSessionSnapshot) -> bool {
    &&& takes_actions(snapshot.session_status)
    &&& is_draft_view(snapshot) || snapshot.mutate_session_branch == ViewActionState::Enabled
}

/// Whether the work of a session waits for a review.
pub open spec fn in_review(snapshot: ViewSessionSnapshot) -> bool {
    snapshot.session_status == Status::Review || snapshot.session_status == Status::AgentReview
}

/// Whether no modifier is held.
pub open spec fn unmodified(key: KeyEvent) -> bool {
    !key.modifiers.alt && !key.modifiers.control && !key.modifiers.shift && !key.modifiers.other
}

/// Whether a mode is the composer of the viewed session, with the cursor
/// behind its text.
pub open spec fn is_composer(
    mode: AppMode,
    context: ViewContext,
    offset: Option<u16>,
    text: Seq<char>,
) -> bool {
    &&& mode matches AppMode::Prompt { focus, prompt }
    &&& focus == ChatFocus::Input
    &&& prompt.input.text@ == text
    &&& prompt.input.cursor == text.len()
    &&& prompt.session_id == context.session_id
    &&& prompt.scroll_offset == offset
    &&& prompt.at_mention_state is None
    &&& prompt.history_state.position is None
    &&& prompt.slash_selected_index == 0
}

/// Whether a mode asks a question about the viewed session and comes back to
/// the view.
pub open spec fn is_question(
    mode: AppMode,
    context: ViewContext,
    facts: ViewKeyFacts,
    intent: ConfirmationIntent,
) -> bool {
    &&& mode matches AppMode::Confirmation(popup)
    &&& popup.confirmation_intent == intent
    &&& popup.session_id == Some(context.session_id)
    &&& popup.selected_confirmation_index == facts.default_option_index
    &&& popup.restore_view matches Some(view)
    &&& view.session_id == context.session_id
    &&& view.scroll_offset == context.scroll_offset
}

/// Lines of the transcript that do not fit into its panel.
pub open spec fn hidden(metrics: ViewMetrics) -> int {
    if metrics.total_lines < metrics.view_height {
        0
    } else {
        metrics.total_lines - metrics.view_height
    }
}

/// Lines of half a page, at least one.
pub open spec fn half_page(metrics: ViewMetrics) -> int {
    if metrics.view_height < 4 {
        1
    } else {
        metrics.view_height as int / 2
    }
}

/// Whether the transcript moved down: short of its end by that many lines,
/// and otherwise to its end.
pub open spec fn moved_down(
    metrics: ViewMetrics,
    lines: int,
    before: Option<u16>,
    after: Option<u16>,
) -> bool {
    &&& before is None ==> after is None
    &&& before matches Some(offset) ==> {
        &&& offset + lines < hidden(metrics) ==> after == Some((offset + lines) as u16)
        &&& offset + lines >= hidden(metrics) ==> after is None
    }
}

/// Whether the transcript moved up by that many lines, but not above its
/// first one.
pub open spec fn moved_up(
    metrics: ViewMetrics,
    lines: int,
    before: Option<u16>,
    after: Option<u16>,
) -> bool {
    let start = match before {
        Some(offset) => offset as int,
        None => hidden(metrics),
    };
    &&& start >= lines ==> after == Some((start - lines) as u16)
    &&& start < lines ==> after == Some(0u16)
}

/// Whether a key moves a line down.
pub open spec fn scrolls_down(key: KeyEvent) -> bool {
    key.code == KeyCode::Char('j') || key.code == KeyCode::Down
}

/// Whether a key moves a line up.
pub open spec fn scrolls_up(key: KeyEvent) -> bool {
    key.code == KeyCode::Char('k') || key.code == KeyCode::Up
}

/// Whether a key scrolls.
pub open spec fn is_scroll_key(key: KeyEvent) -> bool {
    scrolls_down(key) || scrolls_up(key) || key.code == KeyCode::Char('g') || key.code
        == KeyCode::Char('G') || key.modifiers.control && (key.code == KeyCode::Char('d')
        || key.code == KeyCode::Char('u'))
}

/// Whether a letter means something in the view.
pub open spec fn view_letter(letter: char) -> bool {
    letter == 'q' || letter == 'o' || letter == 'l' || letter == 's' || letter == 'v' || letter
        == 'V' || letter == 'c' || letter == '[' || letter == ']' || letter == '/' || letter == 'j'
        || letter == 'k' || letter == 'g' || letter == 'G' || letter == 'd' || letter == 'u'
        || letter == 'p' || letter == 'P' || letter == 'F' || letter == 'f' || letter == 'm'
        || letter == 'r' || letter == '?'
}

/// The enter key opens the empty composer of a session that takes messages, and
/// does nothing elsewhere.
pub proof fn lemma_enter_opens_composer(
    key: KeyEvent,
    context: ViewContext,
    metrics: ViewMetrics,
    snapshot: ViewSessionSnapshot,
    session: Session,
    facts: ViewKeyFacts,
    before: AppMode,
    after: AppMode,
    offset_before: Option<u16>,
    offset_after: Option<u16>,
    action: ViewAction,
)
    requires
        command_applied(
            command_of(key, snapshot, facts),
            context,
            metrics,
            snapshot,
            session,
            facts,
            before,
            after,
            offset_before,
            offset_after,
            action,
        ),
    ensures
        key.code == KeyCode::Enter && takes_messages(snapshot) ==> {
            &&& is_composer(after, context, offset_before, Seq::empty())
            &&& action is Nothing
            &&& offset_after == offset_before
        },
        key.code == KeyCode::Enter && !takes_messages(snapshot) ==> {
            &&& after == before
            &&& action is Nothing
            &&& offset_after == offset_before
        },
{
    reveal_strlit("");
    assert(""@ =~= Seq::<char>::empty());
}

/// The slash opens the composer on a slash, where commands may be typed; no
/// other key puts text into it.
pub proof fn lemma_slash_opens_composer(
    key: KeyEvent,
    context: ViewContext,
    metrics: ViewMetrics,
    snapshot: ViewSessionSnapshot,
    session: Session,
    facts: ViewKeyFacts,
    before: AppMode,
    after: AppMode,
    offset_before: Option<u16>,
    offset_after: Option<u16>,
    action: ViewAction,
)
    requires
        command_applied(
            command_of(key, snapshot, facts),
            context,
            metrics,
            snapshot,
            session,
            facts,
            before,
            after,
            offset_before,
            offset_after,
            action,
        ),
    ensures
        key.code == KeyCode::Char('/') && takes_slash_commands(snapshot) && facts.is_insertable ==> {
            &&& is_composer(after, context, offset_before, seq!['/'])
            &&& action is Nothing
        },
        key.code == KeyCode::Char('/') && !(takes_slash_commands(snapshot) && facts.is_insertable)
            ==> after == before && action is Nothing,
        after matches AppMode::Prompt { focus, prompt } ==> (before is Prompt || key.code
            == KeyCode::Char('/') || prompt.input.text@.len() == 0),
        after is Prompt && !(before is Prompt) ==> (key.code == KeyCode::Enter || key.code
            == KeyCode::Char('/') || action is PasteImage),
{
    reveal_strlit("");
    reveal_strlit("/");
    assert("/"@ =~= seq!['/']);
}

/// Every composer that is opened can recall the prompts of its session.
pub proof fn lemma_composer_recalls_prompts(
    key: KeyEvent,
    context: ViewContext,
    metrics: ViewMetrics,
    snapshot: ViewSessionSnapshot,
    session: Session,
    facts: ViewKeyFacts,
    before: AppMode,
    after: AppMode,
    offset_before: Option<u16>,
    offset_after: Option<u16>,
    action: ViewAction,
)
    requires
        command_applied(
            command_of(key, snapshot, facts),
            context,
            metrics,
            snapshot,
            session,
            facts,
            before,
            after,
            offset_before,
            offset_after,
            action,
        ),
    ensures
        after matches AppMode::Prompt { focus, prompt } ==> (before is Prompt || texts(
            prompt.history_state.entries@,
        ) == recalled_prompts(session)),
{
}

/// An image is pasted into the empty composer of a draft, and only by the two
/// letters that paste.
pub proof fn lemma_pasted_image_opens_composer(
    key: KeyEvent,
    context: ViewContext,
    metrics: ViewMetrics,
    snapshot: ViewSessionSnapshot,
    session: Session,
    facts: ViewKeyFacts,
    before: AppMode,
    after: AppMode,
    offset_before: Option<u16>,
    offset_after: Option<u16>,
    action: ViewAction,
)
    requires
        command_applied(
            command_of(key, snapshot, facts),
            context,
            metrics,
            snapshot,
            session,
            facts,
            before,
            after,
            offset_before,
            offset_after,
            action,
        ),
    ensures
        action is PasteImage <==> ((key.code == KeyCode::Char('v') || key.code == KeyCode::Char('V'))
            && facts.is_image_paste && is_draft_view(snapshot) && takes_messages(snapshot)),
        action is PasteImage ==> is_composer(after, context, offset_before, Seq::empty()),
{
    reveal_strlit("");
    assert(""@ =~= Seq::<char>::empty());
}

/// The letter `q` goes back to the list, and no other key does.
pub proof fn lemma_q_goes_back(
    key: KeyEvent,
    context: ViewContext,
    metrics: ViewMetrics,
    snapshot: ViewSessionSnapshot,
    session: Session,
    facts: ViewKeyFacts,
    before: AppMode,
    after: AppMode,
    offset_before: Option<u16>,
    offset_after: Option<u16>,
    action: ViewAction,
)
    requires
        command_applied(
            command_of(key, snapshot, facts),
            context,
            metrics,
            snapshot,
            session,
            facts,
            before,
            after,
            offset_before,
            offset_after,
            action,
        ),
    ensures
        key.code == KeyCode::Char('q') ==> after == AppMode::List && action is Nothing,
        after == AppMode::List && before != AppMode::List ==> key.code == KeyCode::Char('q'),
{
}

/// Work outside of the interface starts only from its own key, and only where
/// the session offers it.
pub proof fn lemma_keys_start_work(
    key: KeyEvent,
    context: ViewContext,
    metrics: ViewMetrics,
    snapshot: ViewSessionSnapshot,
    session: Session,
    facts: ViewKeyFacts,
    before: AppMode,
    after: AppMode,
    offset_before: Option<u16>,
    offset_after: Option<u16>,
    action: ViewAction,
)
    requires
        command_applied(
            command_of(key, snapshot, facts),
            context,
            metrics,
            snapshot,
            session,
            facts,
            before,
            after,
            offset_before,
            offset_after,
            action,
        ),
    ensures
        action is LaunchOrOpenFollowUpTask <==> (key.code == KeyCode::Char('l')
            && snapshot.follow_up_task_action is Some),
        action is StartStagedSession <==> (key.code == KeyCode::Char('s')
            && snapshot.start_staged_session == ViewActionState::Enabled),
        action is SelectPreviousFollowUpTask <==> (key.code == KeyCode::Char('[')
            && facts.has_multiple_follow_up_tasks),
        action is SelectNextFollowUpTask <==> (key.code == KeyCode::Char(']')
            && facts.has_multiple_follow_up_tasks),
        action is LoadDiff <==> (key.code == KeyCode::Char('d') && !key.modifiers.control
            && in_review(snapshot)),
        action is Rebase <==> (key.code == KeyCode::Char('r') && (in_review(snapshot)
            || snapshot.session_status == Status::InProgress) && snapshot.rebase_session_branch
            == ViewActionState::Enabled && snapshot.session_state
            != ViewSessionState::StackedDraft),
        action is EndTurn <==> (key.code == KeyCode::Char('c') && key.modifiers.control
            && snapshot.session_status == Status::InProgress),
        !(action is Nothing || action is PasteImage) ==> after == before,
        !(action is Nothing || action is LoadReview) ==> offset_after == offset_before,
{
}

/// The letter `o` opens the worktree with the only command there is, or with
/// none; of several commands the first is offered.
pub proof fn lemma_o_opens_worktree(
    key: KeyEvent,
    context: ViewContext,
    metrics: ViewMetrics,
    snapshot: ViewSessionSnapshot,
    session: Session,
    facts: ViewKeyFacts,
    before: AppMode,
    after: AppMode,
    offset_before: Option<u16>,
    offset_after: Option<u16>,
    action: ViewAction,
)
    requires
        command_applied(
            command_of(key, snapshot, facts),
            context,
            metrics,
            snapshot,
            session,
            facts,
            before,
            after,
            offset_before,
            offset_after,
            action,
        ),
    ensures
        action is OpenWorktree ==> key.code == KeyCode::Char('o') && snapshot.open_worktree
            == ViewActionState::Enabled,
        key.code == KeyCode::Char('o') && snapshot.open_worktree == ViewActionState::Enabled ==> {
            let commands = facts.launch_configurations@;
            &&& commands.len() == 0 ==> after == before && action == (ViewAction::OpenWorktree {
                command: None,
            })
            &&& commands.len() == 1 ==> after == before && action == (ViewAction::OpenWorktree {
                command: Some(commands[0]),
            })
            &&& commands.len() > 1 ==> {
                &&& action is Nothing
                &&& after matches AppMode::LaunchConfigurationSelector {
                    commands: offered,
                    restore_view,
                    selected_command_index,
                }
                &&& offered@ == commands
                &&& selected_command_index == 0
                &&& restore_view.session_id == context.session_id
                &&& restore_view.scroll_offset == context.scroll_offset
            }
        },
        after is LaunchConfigurationSelector && !(before is LaunchConfigurationSelector)
            ==> key.code == KeyCode::Char('o') && facts.launch_configurations@.len() > 1,
{
}

/// Each question about the session is asked by its own key, where the session
/// allows what it asks for.
pub proof fn lemma_keys_ask(
    key: KeyEvent,
    context: ViewContext,
    metrics: ViewMetrics,
    snapshot: ViewSessionSnapshot,
    session: Session,
    facts: ViewKeyFacts,
    before: AppMode,
    after: AppMode,
    offset_before: Option<u16>,
    offset_after: Option<u16>,
    action: ViewAction,
)
    requires
        command_applied(
            command_of(key, snapshot, facts),
            context,
            metrics,
            snapshot,
            session,
            facts,
            before,
            after,
            offset_before,
            offset_after,
            action,
        ),
    ensures
        key.code == KeyCode::Char('c') && unmodified(key) && snapshot.continue_terminal_session
            == ViewActionState::Enabled ==> is_question(
            after,
            context,
            facts,
            ConfirmationIntent::ContinueSession,
        ),
        key.code == KeyCode::Char('F') && !key.modifiers.control && snapshot.fork_session
            == ViewActionState::Enabled ==> is_question(
            after,
            context,
            facts,
            ConfirmationIntent::ForkSession,
        ),
        key.code == KeyCode::Char('m') && takes_actions(snapshot.session_status)
            && snapshot.merge_session_branch == ViewActionState::Enabled && snapshot.session_state
            != ViewSessionState::StackedDraft ==> is_question(
            after,
            context,
            facts,
            ConfirmationIntent::MergeSession,
        ),
        after matches AppMode::Confirmation(popup) ==> {
            ||| before is Confirmation
            ||| key.code == KeyCode::Char('c') && popup.confirmation_intent
                == ConfirmationIntent::ContinueSession && unmodified(key)
                && snapshot.continue_terminal_session == ViewActionState::Enabled
            ||| key.code == KeyCode::Char('F') && popup.confirmation_intent
                == ConfirmationIntent::ForkSession && snapshot.fork_session
                == ViewActionState::Enabled && !key.modifiers.control
            ||| key.code == KeyCode::Char('m') && popup.confirmation_intent
                == ConfirmationIntent::MergeSession && takes_actions(snapshot.session_status)
                && snapshot.merge_session_branch == ViewActionState::Enabled
                && snapshot.session_state != ViewSessionState::StackedDraft
            ||| key.code == KeyCode::Char('f') && popup.confirmation_intent
                == ConfirmationIntent::RegenerateReview && in_review(snapshot)
        },
        after is Confirmation && !(before is Confirmation) ==> action is Nothing && offset_after
            == offset_before,
{
}

/// The texts of a question name what it asks for.
pub proof fn lemma_question_texts(
    key: KeyEvent,
    context: ViewContext,
    metrics: ViewMetrics,
    snapshot: ViewSessionSnapshot,
    session: Session,
    facts: ViewKeyFacts,
    before: AppMode,
    after: AppMode,
    offset_before: Option<u16>,
    offset_after: Option<u16>,
    action: ViewAction,
)
    requires
        command_applied(
            command_of(key, snapshot, facts),
            context,
            metrics,
            snapshot,
            session,
            facts,
            before,
            after,
            offset_before,
            offset_after,
            action,
        ),
    ensures
        after matches AppMode::Confirmation(popup) ==> (before is Confirmation || match popup.confirmation_intent {
            ConfirmationIntent::ContinueSession => popup.confirmation_title@
                == "Confirm Continue"@ && popup.confirmation_message@
                == "Create a new draft session with initial context from this session?"@,
            ConfirmationIntent::ForkSession => popup.confirmation_title@ == "Confirm Fork"@
                && popup.confirmation_message@
                == "Fork this session into a new session with the current transcript history?"@,
            ConfirmationIntent::MergeSession => popup.confirmation_title@ == "Confirm Merge"@
                && popup.confirmation_message@ == "Add this session to merge queue?"@,
            ConfirmationIntent::RegenerateReview => popup.confirmation_title@
                == "Confirm Regenerate"@ && popup.confirmation_message@
                == "Regenerate focused review?"@,
            _ => false,
        }),
{
}

/// The letter `f` loads a review where there is none, asks before it replaces
/// one, and leaves one alone that is being written.
pub proof fn lemma_f_asks_for_review(
    key: KeyEvent,
    context: ViewContext,
    metrics: ViewMetrics,
    snapshot: ViewSessionSnapshot,
    session: Session,
    facts: ViewKeyFacts,
    before: AppMode,
    after: AppMode,
    offset_before: Option<u16>,
    offset_after: Option<u16>,
    action: ViewAction,
)
    requires
        command_applied(
            command_of(key, snapshot, facts),
            context,
            metrics,
            snapshot,
            session,
            facts,
            before,
            after,
            offset_before,
            offset_after,
            action,
        ),
    ensures
        action is LoadReview <==> (key.code == KeyCode::Char('f') && !key.modifiers.control
            && in_review(snapshot) && !facts.has_review_text && facts.review_status is None),
        action is LoadReview ==> after == before && offset_after is None,
        key.code == KeyCode::Char('f') && !key.modifiers.control && in_review(snapshot) ==> {
            &&& facts.review_status matches Some(message) ==> {
                &&& "Reviewing changes with "@.is_prefix_of(message@) ==> after == before
                    && action is Nothing && offset_after == offset_before
                &&& !"Reviewing changes with "@.is_prefix_of(message@) ==> is_question(
                    after,
                    context,
                    facts,
                    ConfirmationIntent::RegenerateReview,
                )
            }
            &&& facts.review_status is None && facts.has_review_text ==> is_question(
                after,
                context,
                facts,
                ConfirmationIntent::RegenerateReview,
            )
        },
{
}

/// The question mark opens the help over the view, which remembers what the
/// session offers and where the view stands.
pub proof fn lemma_question_mark_opens_help(
    key: KeyEvent,
    context: ViewContext,
    metrics: ViewMetrics,
    snapshot: ViewSessionSnapshot,
    session: Session,
    facts: ViewKeyFacts,
    before: AppMode,
    after: AppMode,
    offset_before: Option<u16>,
    offset_after: Option<u16>,
    action: ViewAction,
)
    requires
        command_applied(
            command_of(key, snapshot, facts),
            context,
            metrics,
            snapshot,
            session,
            facts,
            before,
            after,
            offset_before,
            offset_after,
            action,
        ),
    ensures
        after is Help && !(before is Help) ==> key.code == KeyCode::Char('?'),
        key.code == KeyCode::Char('?') ==> {
            &&& action is Nothing
            &&& after matches AppMode::Help {
                context: HelpContext::View {
                    can_fork_session,
                    can_merge_session_branch,
                    can_mutate_session_branch,
                    can_open_worktree,
                    can_rebase_session_branch,
                    can_reply_to_session,
                    can_start_staged_session,
                    publish_pull_request_action,
                    scroll_offset: view_offset,
                    session_id,
                    session_state,
                },
                scroll_offset,
            }
            &&& scroll_offset == 0
            &&& can_fork_session == (snapshot.fork_session == ViewActionState::Enabled)
            &&& can_merge_session_branch == (snapshot.merge_session_branch
                == ViewActionState::Enabled)
            &&& can_mutate_session_branch == (snapshot.mutate_session_branch
                == ViewActionState::Enabled)
            &&& can_open_worktree == (snapshot.open_worktree == ViewActionState::Enabled)
            &&& can_rebase_session_branch == (snapshot.rebase_session_branch
                == ViewActionState::Enabled)
            &&& can_reply_to_session == (snapshot.reply_to_session == ViewActionState::Enabled)
            &&& can_start_staged_session == (snapshot.start_staged_session
                == ViewActionState::Enabled)
            &&& publish_pull_request_action == snapshot.publish_pull_request_action
            &&& view_offset == context.scroll_offset
            &&& session_id == context.session_id
            &&& session_state == snapshot.session_state
        },
{
}

/// The letter `p` asks for the branch to publish to, and a published branch
/// keeps its name.
pub proof fn lemma_p_asks_for_branch(
    key: KeyEvent,
    context: ViewContext,
    metrics: ViewMetrics,
    snapshot: ViewSessionSnapshot,
    session: Session,
    facts: ViewKeyFacts,
    before: AppMode,
    after: AppMode,
    offset_before: Option<u16>,
    offset_after: Option<u16>,
    action: ViewAction,
)
    requires
        command_applied(
            command_of(key, snapshot, facts),
            context,
            metrics,
            snapshot,
            session,
            facts,
            before,
            after,
            offset_before,
            offset_after,
            action,
        ),
    ensures
        after is PublishBranchInput && !(before is PublishBranchInput) ==> (key.code
            == KeyCode::Char('p') || key.code == KeyCode::Char('P')) && !key.modifiers.control
            && snapshot.publish_pull_request_action is Some,
        (key.code == KeyCode::Char('p') || key.code == KeyCode::Char('P')) && !key.modifiers.control
            && snapshot.publish_pull_request_action is Some ==> {
            &&& action is Nothing
            &&& after matches AppMode::PublishBranchInput(popup)
            &&& snapshot.publish_pull_request_action == Some(popup.publish_branch_action)
            &&& popup.default_branch_name == facts.default_branch_name
            &&& popup.locked_upstream_ref == session.published_upstream_ref
            &&& popup.restore_view.session_id == context.session_id
            &&& popup.restore_view.scroll_offset == context.scroll_offset
            &&& popup.input.cursor == popup.input.text@.len()
            &&& session.published_upstream_ref is None ==> popup.input.text@.len() == 0
            &&& facts.published_branch_name is None ==> popup.input.text@.len() == 0
            &&& facts.published_branch_name matches Some(name)
                ==> session.published_upstream_ref is Some ==> popup.input.text@ == name@
        },
{
}

/// The scroll keys only move the transcript: by a line, by half a page, to its
/// first line or to its end, which it then follows.
pub proof fn lemma_scroll_keys(
    key: KeyEvent,
    context: ViewContext,
    metrics: ViewMetrics,
    snapshot: ViewSessionSnapshot,
    session: Session,
    facts: ViewKeyFacts,
    before: AppMode,
    after: AppMode,
    offset_before: Option<u16>,
    offset_after: Option<u16>,
    action: ViewAction,
)
    requires
        command_applied(
            command_of(key, snapshot, facts),
            context,
            metrics,
            snapshot,
            session,
            facts,
            before,
            after,
            offset_before,
            offset_after,
            action,
        ),
    ensures
        scrolls_down(key) ==> moved_down(metrics, 1, offset_before, offset_after),
        scrolls_up(key) ==> moved_up(metrics, 1, offset_before, offset_after),
        key.code == KeyCode::Char('g') ==> offset_after == Some(0u16),
        key.code == KeyCode::Char('G') ==> offset_after is None,
        key.code == KeyCode::Char('d') && key.modifiers.control ==> moved_down(
            metrics,
            half_page(metrics),
            offset_before,
            offset_after,
        ),
        key.code == KeyCode::Char('u') && key.modifiers.control ==> moved_up(
            metrics,
            half_page(metrics),
            offset_before,
            offset_after,
        ),
        is_scroll_key(key) ==> after == before && action is Nothing,
        offset_after != offset_before ==> is_scroll_key(key) || action is LoadReview,
{
}

/// Keys without a meaning change nothing.
pub proof fn lemma_other_keys_ignored(
    key: KeyEvent,
    context: ViewContext,
    metrics: ViewMetrics,
    snapshot: ViewSessionSnapshot,
    session: Session,
    facts: ViewKeyFacts,
    before: AppMode,
    after: AppMode,
    offset_before: Option<u16>,
    offset_after: Option<u16>,
    action: ViewAction,
)
    requires
        command_applied(
            command_of(key, snapshot, facts),
            context,
            metrics,
            snapshot,
            session,
            facts,
            before,
            after,
            offset_before,
            offset_after,
            action,
        ),
    ensures
        !(key.code is Char) && key.code != KeyCode::Enter && key.code != KeyCode::Up && key.code
            != KeyCode::Down ==> after == before && offset_after == offset_before
            && action is Nothing,
        key.code matches KeyCode::Char(letter) && !view_letter(letter) ==> after == before
            && offset_after == offset_before && action is Nothing,
{
}

/// A line down and a line up come back to the same offset, as do half a page
/// up and half a page down.
pub proof fn lemma_scroll_keys_come_back(metrics: ViewMetrics, offset: u16)
    requires
        offset < hidden(metrics),
    ensures
        offset + 1 < hidden(metrics) ==> scrolled(
            scrolled(Some(offset), metrics, ViewScroll::Down),
            metrics,
            ViewScroll::Up,
        ) == Some(offset),
        offset > 0 ==> scrolled(
            scrolled(Some(offset), metrics, ViewScroll::Up),
            metrics,
            ViewScroll::Down,
        ) == Some(offset),
        offset >= half_page(metrics) ==> scrolled(
            scrolled(Some(offset), metrics, ViewScroll::HalfPageUp),
            metrics,
            ViewScroll::HalfPageDown,
        ) == Some(offset),
        offset + half_page(metrics) < hidden(metrics) ==> scrolled(
            scrolled(Some(offset), metrics, ViewScroll::HalfPageDown),
            metrics,
            ViewScroll::HalfPageUp,
        ) == Some(offset),
{
}

/// The offset is written back into the view unless another page or a running
/// task took its place.
pub proof fn lemma_written_offset(key: KeyEvent, snapshot: ViewSessionSnapshot, facts: ViewKeyFacts)
    ensures
        ({
            let applies = applies_scroll(command_of(key, snapshot, facts));
            &&& is_scroll_key(key) ==> applies
            &&& key.code == KeyCode::Char('?') ==> !applies
            &&& key.code == KeyCode::Enter || key.code == KeyCode::Char('/') ==> applies
            &&& key.code == KeyCode::Char('q') || key.code == KeyCode::Char('o') ==> applies
            &&& key.code == KeyCode::Char('m') || key.code == KeyCode::Char('r') ==> applies
            &&& key.code == KeyCode::Char('f') || key.code == KeyCode::Char('d') ==> applies
            &&& key.code == KeyCode::Char('[') || key.code == KeyCode::Char(']') ==> applies
            &&& key.code == KeyCode::Char('l') ==> applies == (snapshot.follow_up_task_action
                is None)
            &&& key.code == KeyCode::Char('s') ==> applies == (snapshot.start_staged_session
                == ViewActionState::Disabled)
            &&& key.code == KeyCode::Char('F') && !key.modifiers.control ==> applies == (
            snapshot.fork_session == ViewActionState::Disabled)
            &&& key.code == KeyCode::Char('p') && !key.modifiers.control ==> applies == (
            snapshot.publish_pull_request_action is None)
            &&& key.code == KeyCode::Char('c') && key.modifiers.control ==> applies == (
            snapshot.session_status != Status::InProgress)
            &&& key.code == KeyCode::Char('c') && unmodified(key) ==> applies == (
            snapshot.continue_terminal_session == ViewActionState::Disabled)
            &&& key.code == KeyCode::Char('v') ==> applies == !(facts.is_image_paste
                && is_draft_view(snapshot) && takes_messages(snapshot))
        }),
{
}

/// A view offers exactly what its session and its stack allow; its worktree
/// only where it is there and nobody works in it.
pub proof fn lemma_offered_actions(
    status: Status,
    session_id: Seq<char>,
    facts: ViewSessionFacts,
)
    ensures
        ({
            let snapshot = snapshot_of(status, session_id, facts);
            &&& (snapshot.continue_terminal_session == ViewActionState::Enabled)
                == facts.allows_continuation
            &&& (snapshot.fork_session == ViewActionState::Enabled) == facts.allows_fork
            &&& (snapshot.merge_session_branch == ViewActionState::Enabled)
                == facts.can_merge_in_stack
            &&& (snapshot.mutate_session_branch == ViewActionState::Enabled)
                == facts.can_mutate_in_stack
            &&& (snapshot.rebase_session_branch == ViewActionState::Enabled)
                == facts.can_rebase_in_stack
            &&& (snapshot.reply_to_session == ViewActionState::Enabled) == facts.can_reply_in_stack
            &&& (snapshot.start_staged_session == ViewActionState::Enabled)
                == facts.can_start_staged
            &&& (snapshot.open_worktree == ViewActionState::Enabled) == (takes_actions(status)
                && worktree_known(facts.worktrees@, session_id, 0))
            &&& snapshot.session_status == status
            &&& snapshot.session_state == facts.session_state
            &&& snapshot.follow_up_task_action == facts.follow_up_task_action
            &&& snapshot.publish_pull_request_action == facts.publish_pull_request_action
        }),
{
}

/// The first entry of a session says whether its worktree is there; without
/// one it is not.
pub proof fn lemma_known_worktree(worktrees: Seq<SessionWorktree>, session_id: Seq<char>, entry: int)
    requires
        0 <= entry <= worktrees.len(),
        forall|i: int| 0 <= i < entry ==> (#[trigger] worktrees[i]).session_id@ != session_id,
    ensures
        entry == worktrees.len() ==> !worktree_known(worktrees, session_id, 0),
        entry < worktrees.len() && worktrees[entry].session_id@ == session_id ==> worktree_known(
            worktrees,
            session_id,
            0,
        ) == worktrees[entry].is_available,
{
    lemma_known_from(worktrees, session_id, entry, entry);
}

proof fn lemma_known_from(
    worktrees: Seq<SessionWorktree>,
    session_id: Seq<char>,
    entry: int,
    skipped: int,
)
    requires
        0 <= skipped <= entry <= worktrees.len(),
        forall|i: int| 0 <= i < entry ==> (#[trigger] worktrees[i]).session_id@ != session_id,
    ensures
        worktree_known(worktrees, session_id, entry - skipped) == worktree_known(
            worktrees,
            session_id,
            entry,
        ),
    decreases skipped,
{
    if skipped > 0 {
        lemma_known_from(worktrees, session_id, entry, skipped - 1);
        assert(worktrees[entry - skipped].session_id@ != session_id);
    }
}

/// A session is found in the first row that carries its identifier.
pub proof fn lemma_first_row(sessions: Seq<Session>, id: Seq<char>, row: int)
    requires
        sessions.len() <= usize::MAX,
        0 <= row < sessions.len(),
        sessions[row].id@ == id,
        forall|i: int| 0 <= i < row ==> (#[trigger] sessions[i]).id@ != id,
    ensures
        row_of(sessions, id) == Some(row as usize),
    decreases sessions.len(),
{
    let rest = sessions.drop_last();
    if row < rest.len() {
        lemma_first_row(rest, id, row);
    } else {
        lemma_no_row(rest, id);
    }
}

/// A session that no row carries is not found.
pub proof fn lemma_no_row(sessions: Seq<Session>, id: Seq<char>)
    requires
        forall|i: int| 0 <= i < sessions.len() ==> (#[trigger] sessions[i]).id@ != id,
    ensures
        row_of(sessions, id) is None,
    decreases sessions.len(),
{
    if sessions.len() > 0 {
        assert(sessions[sessions.len() - 1].id@ != id);
        lemma_no_row(sessions.drop_last(), id);
    }
}

} // verus!
