//! Session snapshots as the interface reads them.

use vstd::prelude::*;

use crate::text::same_text;

verus! {

/// Stable identifier of a session.
pub type SessionId = String;

/// Lifecycle status of a session.
#[derive(Clone, Copy, Debug, PartialEq, Eq, Structural)]
pub enum Status {
    AgentReview,
    Canceled,
    Done,
    Draft,
    InProgress,
    Merging,
    Question,
    Queued,
    Rebasing,
    Review,
}

impl Status {
    /// Whether review work may start in this status.
    pub open spec fn review_ready(self) -> bool {
        self == Status::Review || self == Status::AgentReview
    }

    /// Reports whether review work may start in this status.
    pub fn allows_review_actions(self) -> (allowed: bool)
        ensures
            allowed == self.review_ready(),
    {
        matches!(self, Status::Review | Status::AgentReview)
    }
}

/// What a transcript row records.
#[derive(Clone, Copy, Debug, PartialEq, Eq, Structural)]
pub enum SessionMessageKind {
    AssistantAnswer,
    FocusedReview,
    TurnSummary,
    UserPrompt,
    WorkflowNotice,
}

/// Progress of a transcript row.
#[derive(Clone, Copy, Debug, PartialEq, Eq, Structural)]
pub enum SessionMessageState {
    Failed,
    Pending,
    Resolved,
}

/// One typed transcript row.
#[derive(Debug)]
pub struct SessionMessage {
    pub content: String,
    pub kind: SessionMessageKind,
    pub position: i64,
    pub state: SessionMessageState,
}

/// The part of a session that the interface reads.
#[derive(Debug)]
pub struct Session {
    pub base_branch: String,
    pub folder: String,
    pub id: SessionId,
    pub is_draft: bool,
    pub parent_session_id: Option<SessionId>,
    pub prompt: String,
    pub published_upstream_ref: Option<String>,
    pub queued_messages: Vec<String>,
    /// The transcript as one text with prompt markers, when there is any.
    pub replay_text: Option<String>,
    pub status: Status,
    pub title: String,
    pub transcript: Vec<SessionMessage>,
    pub updated_at: i64,
}

impl Session {
    /// Whether the session still collects drafts.
    pub open spec fn previews_draft(&self) -> bool {
        self.status == Status::Draft && self.is_draft
    }

    /// Whether the session sits on top of another one.
    pub open spec fn stacked(&self) -> bool {
        self.parent_session_id is Some
    }

    /// Reports whether the session still collects drafts.
    pub fn is_draft_preview(&self) -> (result: bool)
        ensures
            result == self.previews_draft(),
    {
        matches!(self.status, Status::Draft) && self.is_draft
    }

    /// Reports whether the session sits on top of another one.
    pub fn is_stacked_child(&self) -> (result: bool)
        ensures
            result == self.stacked(),
    {
        self.parent_session_id.is_some()
    }

    /// Reports whether any draft text is staged.
    pub fn has_staged_drafts(&self) -> (result: bool)
        ensures
            result == (self.prompt@.len() > 0),
    {
        !self.prompt.as_str().is_empty()
    }
}

/// Whether some session carries this identifier.
pub open spec fn session_listed(sessions: Seq<Session>, id: Seq<char>) -> bool {
    exists|i: int| 0 <= i < sessions.len() && (#[trigger] sessions[i]).id@ == id
}

/// The first row that carries this identifier.
pub open spec fn row_of(sessions: Seq<Session>, id: Seq<char>) -> Option<usize>
    decreases sessions.len(),
{
    if sessions.len() == 0 {
        None
    } else {
        match row_of(sessions.drop_last(), id) {
            Some(row) => Some(row),
            None => if sessions.last().id@ == id {
                Some((sessions.len() - 1) as usize)
            } else {
                None
            },
        }
    }
}

/// A session is listed exactly when it has a row, and that row carries its
/// identifier.
pub proof fn lemma_row_of(sessions: Seq<Session>, id: Seq<char>)
    requires
        sessions.len() <= usize::MAX,
    ensures
        (row_of(sessions, id) is Some) == session_listed(sessions, id),
        row_of(sessions, id) matches Some(row) ==> row < sessions.len() && sessions[row as int].id@
            == id,
    decreases sessions.len(),
{
    if sessions.len() > 0 {
        let rest = sessions.drop_last();
        lemma_row_of(rest, id);
        if row_of(rest, id) is Some {
            let row = row_of(rest, id)->0;
            assert(rest[row as int] == sessions[row as int]);
        }
        if session_listed(sessions, id) {
            let i = choose|i: int| 0 <= i < sessions.len() && (#[trigger] sessions[i]).id@ == id;
            if i < rest.len() {
                assert(rest[i].id@ == id);
            }
        }
    }
}

/// Finds the first row that carries `id`.
pub fn session_row(sessions: &Vec<Session>, id: &str) -> (row: Option<usize>)
    ensures
        row == row_of(sessions@, id@),
        row is Some == session_listed(sessions@, id@),
        row matches Some(index) ==> index < sessions@.len() && sessions@[index as int].id@ == id@,
{
    let mut index: usize = 0;
    while index < sessions.len()
        invariant
            index <= sessions@.len(),
            row_of(sessions@.take(index as int), id@) is None,
            forall|i: int| 0 <= i < index ==> (#[trigger] sessions@[i]).id@ != id@,
        decreases sessions@.len() - index,
    {
        assert(sessions@.take(index as int + 1).drop_last() =~= sessions@.take(index as int));
        if same_text(sessions[index].id.as_str(), id) {
            proof {
                lemma_row_of_prefix(sessions@, id@, (index + 1) as nat);
            }
            return Some(index);
        }
        index = index + 1;
    }
    assert(sessions@.take(index as int) =~= sessions@);
    None
}

proof fn lemma_row_of_prefix(sessions: Seq<Session>, id: Seq<char>, count: nat)
    requires
        count <= sessions.len(),
        row_of(sessions.take(count as int), id) is Some,
    ensures
        row_of(sessions, id) == row_of(sessions.take(count as int), id),
    decreases sessions.len(),
{
    if count < sessions.len() {
        assert(sessions.drop_last().take(count as int) =~= sessions.take(count as int));
        lemma_row_of_prefix(sessions.drop_last(), id, count);
    } else {
        assert(sessions.take(count as int) =~= sessions);
    }
}

} // verus!
