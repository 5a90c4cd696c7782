//! Interface modes and the state that each of them carries.

use vstd::prelude::*;

use crate::geometry::ViewportRect;
use crate::input::InputState;
use crate::session::SessionId;

verus! {

/// What a confirmation popup asks for.
#[derive(Clone, Copy, Debug, PartialEq, Eq, Structural)]
pub enum ConfirmationIntent {
    CancelSession,
    ChooseIntegrationApproach,
    ContinueSession,
    DetachManagedSession,
    ForkSession,
    MergeSession,
    OpenManagedWorktree,
    Quit,
    RegenerateReview,
}

/// Where the branch of a session is published to.
#[derive(Clone, Copy, Debug, PartialEq, Eq, Structural)]
pub enum PublishBranchAction {
    PublishPullRequest,
    Push,
}

/// What the selected follow-up task offers.
#[derive(Clone, Copy, Debug, PartialEq, Eq, Structural)]
pub enum FollowUpTaskAction {
    Launch,
    Open,
}

/// The viewed session's condition as the help overlay distinguishes it.
#[derive(Clone, Copy, Debug, PartialEq, Eq, Structural)]
pub enum ViewSessionState {
    Canceled,
    Done,
    InProgress,
    MergeQueue,
    NewSession,
    Rebasing,
    Review,
    StackedDraft,
}

/// Which half of a chat page has the keyboard.
#[derive(Clone, Copy, Debug, PartialEq, Eq, Structural)]
pub enum ChatFocus {
    Input,
    Output,
}

/// Which pane of the diff page has the keyboard.
#[derive(Clone, Copy, Debug, PartialEq, Eq, Structural)]
pub enum DiffFocus {
    Content,
    Files,
}

/// Which list of the diff sidebar has the keyboard.
#[derive(Clone, Copy, Debug, PartialEq, Eq, Structural)]
pub enum DiffSidebarFocus {
    Comments,
    Files,
}

/// Side of a diff that a line belongs to.
#[derive(Clone, Copy, Debug, PartialEq, Eq, Structural)]
pub enum DiffLineSide {
    New,
    Old,
}

/// A session view to come back to.
#[derive(Debug)]
pub struct ConfirmationViewMode {
    pub scroll_offset: Option<u16>,
    pub session_id: SessionId,
}

impl Clone for ConfirmationViewMode {
    fn clone(&self) -> (copy: ConfirmationViewMode)
        ensures
            copy == *self,
    {
        ConfirmationViewMode {
            scroll_offset: self.scroll_offset,
            session_id: self.session_id.clone(),
        }
    }
}

impl ConfirmationViewMode {
    /// The session view that this snapshot describes.
    pub open spec fn view_mode(self) -> AppMode {
        AppMode::View { scroll_offset: self.scroll_offset, session_id: self.session_id }
    }

    /// Turns the snapshot into the session view that it describes.
    pub fn into_view_mode(self) -> (mode: AppMode)
        ensures
            mode == self.view_mode(),
    {
        AppMode::View { scroll_offset: self.scroll_offset, session_id: self.session_id }
    }
}

/// The view to come back to, or the session list where there is none.
pub open spec fn restored_mode(restore_view: Option<ConfirmationViewMode>) -> AppMode {
    match restore_view {
        Some(view) => view.view_mode(),
        None => AppMode::List,
    }
}

/// Builds the mode to come back to.
pub fn restore_mode(restore_view: Option<ConfirmationViewMode>) -> (mode: AppMode)
    ensures
        mode == restored_mode(restore_view),
{
    match restore_view {
        Some(view) => view.into_view_mode(),
        None => AppMode::List,
    }
}

/// Selection state of a file lookup popup.
#[derive(Clone, Copy, Debug, PartialEq, Eq, Structural)]
pub struct AtMentionState {
    pub selected_index: usize,
}

/// Earlier prompts and the one that is recalled.
#[derive(Debug)]
pub struct PromptHistoryState {
    pub entries: Vec<String>,
    pub position: Option<usize>,
}

impl PromptHistoryState {
    /// Builds the history of `entries` with nothing recalled.
    pub fn new(entries: Vec<String>) -> (history: PromptHistoryState)
        ensures
            history == (PromptHistoryState { entries, position: None }),
    {
        PromptHistoryState { entries, position: None }
    }
}

/// The composer of a session and what surrounds it.
#[derive(Debug)]
pub struct PromptModeSnapshot {
    pub at_mention_state: Option<AtMentionState>,
    pub history_state: PromptHistoryState,
    pub input: InputState,
    pub scroll_offset: Option<u16>,
    pub session_id: SessionId,
    /// Highlighted row of the slash-command menu.
    pub slash_selected_index: usize,
}

/// A clarification question and the answer in progress.
#[derive(Debug)]
pub struct QuestionModeSnapshot {
    pub current_index: usize,
    pub input: InputState,
    pub scroll_offset: Option<u16>,
    /// The highlighted option, or `None` while a free answer is typed.
    pub selected_option_index: Option<usize>,
    pub session_id: SessionId,
}

/// One changed line that a comment can point at.
#[derive(Debug)]
pub struct DiffLineCommentAnchor {
    pub content: String,
    pub line: usize,
    pub path: String,
    pub side: DiffLineSide,
}

impl Clone for DiffLineCommentAnchor {
    fn clone(&self) -> (copy: DiffLineCommentAnchor)
        ensures
            copy == *self,
    {
        DiffLineCommentAnchor {
            content: self.content.clone(),
            line: self.line,
            path: self.path.clone(),
            side: self.side,
        }
    }
}

/// What a diff comment is about.
#[derive(Debug)]
pub enum DiffCommentTarget {
    File { path: String },
    /// Changed lines in display order; there is at least one.
    Lines(Vec<DiffLineCommentAnchor>),
}

/// One diff comment.
#[derive(Debug)]
pub struct DiffComment {
    pub input: InputState,
    pub target: DiffCommentTarget,
}

/// All comments on the shown diff and which of them is worked on.
#[derive(Debug)]
pub struct DiffLineComments {
    pub at_mention_state: Option<AtMentionState>,
    pub comments: Vec<DiffComment>,
    /// The comment whose text is being edited.
    pub editing_index: Option<usize>,
    /// The highlighted comment.
    pub selected_comment: Option<usize>,
    /// The changed line at which a row selection began.
    pub selection_start: Option<usize>,
}

impl Default for DiffLineComments {
    fn default() -> (comments: DiffLineComments)
        ensures
            comments.comments@.len() == 0,
            comments.at_mention_state is None,
            comments.editing_index is None,
            comments.selected_comment is None,
            comments.selection_start is None,
    {
        DiffLineComments {
            at_mention_state: None,
            comments: Vec::new(),
            editing_index: None,
            selected_comment: None,
            selection_start: None,
        }
    }
}

impl DiffLineComments {
    /// Reports whether a comment is being edited.
    pub fn is_editing(&self) -> (result: bool)
        ensures
            result == (self.editing_index is Some),
    {
        self.editing_index.is_some()
    }

    /// Reports whether a row selection is active.
    pub fn is_selecting(&self) -> (result: bool)
        ensures
            result == (self.selection_start is Some),
    {
        self.selection_start.is_some()
    }

    /// The first and last changed line of the row selection that ends at
    /// `line`.
    pub open spec fn row_bounds(self, line: usize) -> (usize, usize) {
        match self.selection_start {
            Some(start) => if start <= line {
                (start, line)
            } else {
                (line, start)
            },
            None => (line, line),
        }
    }

    /// Computes the first and last selected changed line.
    pub fn selected_row_bounds(&self, line: usize) -> (bounds: (usize, usize))
        ensures
            bounds == self.row_bounds(line),
    {
        match self.selection_start {
            Some(start) => if start <= line {
                (start, line)
            } else {
                (line, start)
            },
            None => (line, line),
        }
    }

    /// Ends the row selection.
    pub fn cancel_selection(&mut self)
        ensures
            *final(self) == (DiffLineComments { selection_start: None, ..*old(self) }),
    {
        self.selection_start = None;
    }

    /// Begins a row selection at `line`.
    pub fn start_selection(&mut self, line: usize)
        ensures
            *final(self) == (DiffLineComments { selection_start: Some(line), ..*old(self) }),
    {
        self.selection_start = Some(line);
    }

    /// Highlights the given comment, or none.
    pub fn set_selected_comment(&mut self, comment: Option<usize>)
        ensures
            *final(self) == (DiffLineComments { selected_comment: comment, ..*old(self) }),
    {
        self.selected_comment = comment;
    }
}

/// Why a preview cannot be shown.
#[derive(Debug)]
pub enum DiffPreviewUnavailableReason {
    LoadFailed(String),
    TooLarge,
}

/// Markdown preview of the selected file.
///
/// Each preview carries the number of the request it stems from, so that a
/// late answer to an earlier request can be told apart.
#[derive(Debug)]
pub enum DiffPreview {
    Disabled { request_id: u64 },
    Loading { path: String, request_id: u64 },
    Ready { path: String, request_id: u64, text: String },
    Unavailable { path: String, reason: DiffPreviewUnavailableReason, request_id: u64 },
    Unsupported { request_id: u64 },
}

impl DiffPreview {
    /// The number of the request that the preview stems from.
    pub open spec fn request(self) -> u64 {
        match self {
            DiffPreview::Disabled { request_id } => request_id,
            DiffPreview::Loading { request_id, .. } => request_id,
            DiffPreview::Ready { request_id, .. } => request_id,
            DiffPreview::Unavailable { request_id, .. } => request_id,
            DiffPreview::Unsupported { request_id } => request_id,
        }
    }

    /// The previewed file, where there is one.
    pub open spec fn shown_path(self) -> Option<Seq<char>> {
        match self {
            DiffPreview::Disabled { .. } => None,
            DiffPreview::Loading { path, .. } => Some(path@),
            DiffPreview::Ready { path, .. } => Some(path@),
            DiffPreview::Unavailable { path, .. } => Some(path@),
            DiffPreview::Unsupported { .. } => None,
        }
    }

    /// The number of the request after this preview's.
    pub open spec fn following_request(self) -> u64 {
        if self.request() == u64::MAX {
            0
        } else {
            (self.request() + 1) as u64
        }
    }

    /// Returns the number of the request that the preview stems from.
    pub fn request_id(&self) -> (id: u64)
        ensures
            id == self.request(),
    {
        match self {
            DiffPreview::Disabled { request_id } => *request_id,
            DiffPreview::Loading { request_id, .. } => *request_id,
            DiffPreview::Ready { request_id, .. } => *request_id,
            DiffPreview::Unavailable { request_id, .. } => *request_id,
            DiffPreview::Unsupported { request_id } => *request_id,
        }
    }

    /// Returns the number for a new request.
    pub fn next_request_id(&self) -> (id: u64)
        ensures
            id == self.following_request(),
    {
        let current: u64 = self.request_id();
        if current == u64::MAX {
            0
        } else {
            current + 1
        }
    }

    /// Returns the previewed file, where there is one.
    pub fn path(&self) -> (path: Option<&String>)
        ensures
            path is Some == self.shown_path() is Some,
            path matches Some(text) ==> self.shown_path() == Some(text@),
    {
        match self {
            DiffPreview::Disabled { .. } => None,
            DiffPreview::Loading { path, .. } => Some(path),
            DiffPreview::Ready { path, .. } => Some(path),
            DiffPreview::Unavailable { path, .. } => Some(path),
            DiffPreview::Unsupported { .. } => None,
        }
    }

    /// Reports whether previews are switched on.
    pub fn is_enabled(&self) -> (result: bool)
        ensures
            result == (*self !is Disabled),
    {
        !matches!(self, DiffPreview::Disabled { .. })
    }

    /// The switched-off form of this preview.
    pub open spec fn off(self) -> DiffPreview {
        DiffPreview::Disabled { request_id: self.request() }
    }

    /// Returns the switched-off form of this preview.
    pub fn disabled(&self) -> (preview: DiffPreview)
        ensures
            preview == self.off(),
    {
        DiffPreview::Disabled { request_id: self.request_id() }
    }
}

/// Review comments that share the sidebar with the file list.
#[derive(Clone, Copy, Debug, PartialEq, Eq, Structural)]
pub struct DiffReviewComments {
    pub sidebar_focus: DiffSidebarFocus,
}

/// A measured scroll limit and what it was measured for.
#[derive(Clone, Copy, Debug, PartialEq, Eq, Structural)]
pub struct DiffScrollCache {
    pub content_area: ViewportRect,
    pub file_explorer_selected_index: usize,
    pub max_scroll_offset: u16,
}

/// The mode that a diff page was opened from.
#[derive(Debug)]
pub enum DiffRestoreTarget {
    Prompt(PromptModeSnapshot),
    Question(QuestionModeSnapshot),
}

/// State of the diff page.
#[derive(Debug)]
pub struct DiffMode {
    pub diff: String,
    pub file_explorer_selected_index: usize,
    pub focus: DiffFocus,
    pub line_comments: DiffLineComments,
    pub preview: DiffPreview,
    pub restore: Option<DiffRestoreTarget>,
    pub review_comments: Option<DiffReviewComments>,
    pub scroll_cache: Option<DiffScrollCache>,
    pub scroll_offset: u16,
    pub selected_diff_line_index: usize,
    pub session_id: SessionId,
}

impl DiffMode {
    /// Whether the review comments of the sidebar have the keyboard.
    pub open spec fn review_comments_focused(self) -> bool {
        self.review_comments matches Some(comments) && comments.sidebar_focus
            == DiffSidebarFocus::Comments
    }

    /// Reports whether the review comments of the sidebar have the keyboard.
    pub fn are_review_comments_focused(&self) -> (result: bool)
        ensures
            result == self.review_comments_focused(),
    {
        match self.review_comments {
            Some(comments) => matches!(comments.sidebar_focus, DiffSidebarFocus::Comments),
            None => false,
        }
    }
}

/// The page that a help overlay explains.
#[derive(Debug)]
pub enum HelpContext {
    Diff { can_comment: bool, diff: DiffMode },
    List,
    View {
        can_fork_session: bool,
        can_merge_session_branch: bool,
        can_mutate_session_branch: bool,
        can_open_worktree: bool,
        can_rebase_session_branch: bool,
        can_reply_to_session: bool,
        can_start_staged_session: bool,
        publish_pull_request_action: Option<PublishBranchAction>,
        scroll_offset: Option<u16>,
        session_id: SessionId,
        session_state: ViewSessionState,
    },
}

/// A popup that waits for a yes or a no.
#[derive(Debug)]
pub struct Confirmation {
    pub confirmation_intent: ConfirmationIntent,
    pub confirmation_message: String,
    pub confirmation_title: String,
    pub restore_view: Option<ConfirmationViewMode>,
    pub selected_confirmation_index: usize,
    pub session_id: Option<SessionId>,
}

/// The popup that asks for a remote branch name.
#[derive(Debug)]
pub struct PublishBranchInput {
    pub default_branch_name: String,
    pub input: InputState,
    /// The published branch; while there is one the name cannot change.
    pub locked_upstream_ref: Option<String>,
    pub publish_branch_action: PublishBranchAction,
    pub restore_view: ConfirmationViewMode,
}

/// What the interface shows and where its keys go.
#[allow(inconsistent_fields)]
#[derive(Debug)]
pub enum AppMode {
    Confirmation(Confirmation),
    Diff(DiffMode),
    DiffLoading { session_id: SessionId },
    Help { context: HelpContext, scroll_offset: u16 },
    LaunchConfigurationSelector {
        commands: Vec<String>,
        restore_view: ConfirmationViewMode,
        selected_command_index: usize,
    },
    List,
    PreCommitHookWarning,
    ProjectSwitcher { selected_option_index: usize },
    Prompt { focus: ChatFocus, prompt: PromptModeSnapshot },
    PublishBranchInput(PublishBranchInput),
    Question { focus: ChatFocus, question: QuestionModeSnapshot },
    SessionCreation { selected_option_index: usize },
    StackAppendParentSelection { selected_parent_index: usize, session_id: SessionId },
    SyncBlockedPopup {
        default_branch: Option<String>,
        is_loading: bool,
        message: String,
        project_name: Option<String>,
        title: String,
    },
    View { scroll_offset: Option<u16>, session_id: SessionId },
    ViewInfoPopup {
        is_loading: bool,
        message: String,
        restore_view: ConfirmationViewMode,
        title: String,
    },
}

impl PromptModeSnapshot {
    /// The composer mode that this snapshot describes.
    pub open spec fn prompt_mode(self) -> AppMode {
        AppMode::Prompt { focus: ChatFocus::Input, prompt: self }
    }

    /// Turns the snapshot into the composer mode that it describes.
    pub fn into_prompt_mode(self) -> (mode: AppMode)
        ensures
            mode == self.prompt_mode(),
    {
        AppMode::Prompt { focus: ChatFocus::Input, prompt: self }
    }
}

impl DiffRestoreTarget {
    /// The mode that the diff page gives back.
    pub open spec fn mode(self) -> AppMode {
        match self {
            DiffRestoreTarget::Prompt(prompt) => prompt.prompt_mode(),
            DiffRestoreTarget::Question(question) => AppMode::Question {
                focus: ChatFocus::Input,
                question,
            },
        }
    }

    /// Turns the target into the mode that the diff page gives back.
    pub fn into_mode(self) -> (mode: AppMode)
        ensures
            mode == self.mode(),
    {
        match self {
            DiffRestoreTarget::Prompt(prompt) => prompt.into_prompt_mode(),
            DiffRestoreTarget::Question(question) => AppMode::Question {
                focus: ChatFocus::Input,
                question,
            },
        }
    }
}

} // verus!
