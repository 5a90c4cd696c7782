//! Focused reviews and stopped turns of a viewed session.

use std::collections::VecDeque;

use vstd::prelude::*;

use crate::app_mode::{
    AppMode, DiffFocus, DiffLineComments, DiffMode, DiffPreview,
};
use crate::session::{Session, SessionId, SessionMessageState, Status, row_of, session_row};
use crate::session_view::ViewContext;
use crate::text::{blank, has_prefix, is_blank, joined, same_text, white};

verus! {

/// State of a session's focused review.
///
/// Each entry carries the hash of the diff that it is about.
#[derive(Debug)]
pub enum ReviewCacheEntry {
    Loading { diff_hash: u64 },
    Ready { diff_hash: u64, text: String },
    /// No review starts by itself until the next turn.
    Suppressed { diff_hash: u64 },
}

/// One session's review.
#[derive(Debug)]
pub struct SessionReview {
    pub entry: ReviewCacheEntry,
    pub session_id: SessionId,
}

/// The focused reviews, at most one for each session.
#[derive(Debug)]
pub struct ReviewCache {
    pub reviews: Vec<SessionReview>,
}

/// The place of a session's review.
pub open spec fn review_position(reviews: Seq<SessionReview>, id: Seq<char>, from: int) -> Option<
    int,
>
    decreases reviews.len() - from,
{
    if from < 0 || from >= reviews.len() {
        None
    } else if reviews[from].session_id@ == id {
        Some(from)
    } else {
        review_position(reviews, id, from + 1)
    }
}

/// A found review is the session's, and a session without one has none.
pub proof fn lemma_review_position(reviews: Seq<SessionReview>, id: Seq<char>, from: int)
    requires
        0 <= from <= reviews.len(),
    ensures
        match review_position(reviews, id, from) {
            Some(index) => from <= index < reviews.len() && reviews[index].session_id@ == id,
            None => forall|i: int|
                from <= i < reviews.len() ==> (#[trigger] reviews[i]).session_id@ != id,
        },
    decreases reviews.len() - from,
{
    if from < reviews.len() && reviews[from].session_id@ != id {
        lemma_review_position(reviews, id, from + 1);
    }
}

impl ReviewCache {
    /// No session has two reviews.
    pub open spec fn well_formed(self) -> bool {
        forall|i: int, j: int|
            0 <= i < j < self.reviews@.len() ==> (#[trigger] self.reviews@[i]).session_id@ != (
            #[trigger] self.reviews@[j]).session_id@
    }

    /// The review of a session.
    pub open spec fn review_of(self, id: Seq<char>) -> Option<ReviewCacheEntry> {
        match review_position(self.reviews@, id, 0) {
            Some(index) => Some(self.reviews@[index].entry),
            None => None,
        }
    }

    /// Builds a cache without any review.
    pub fn new() -> (cache: ReviewCache)
        ensures
            cache.well_formed(),
            cache.reviews@.len() == 0,
    {
        ReviewCache { reviews: Vec::new() }
    }

    /// Finds the place of a session's review.
    fn position(&self, id: &str) -> (position: Option<usize>)
        ensures
            match position {
                Some(index) => review_position(self.reviews@, id@, 0) == Some(index as int)
                    && index < self.reviews@.len(),
                None => review_position(self.reviews@, id@, 0) is None,
            },
    {
        let mut index: usize = 0;
        while index < self.reviews.len()
            invariant
                index <= self.reviews@.len(),
                review_position(self.reviews@, id@, 0) == review_position(
                    self.reviews@,
                    id@,
                    index as int,
                ),
            decreases self.reviews@.len() - index,
        {
            if same_text(self.reviews[index].session_id.as_str(), id) {
                return Some(index);
            }
            index = index + 1;
        }
        None
    }

    /// Looks up the review of a session.
    pub fn get(&self, id: &str) -> (entry: Option<&ReviewCacheEntry>)
        ensures
            match entry {
                Some(entry) => self.review_of(id@) == Some(*entry),
                None => self.review_of(id@) is None,
            },
    {
        match self.position(id) {
            Some(index) => Some(&self.reviews[index].entry),
            None => None,
        }
    }

    /// Sets the review of a session.
    pub fn insert(&mut self, session_id: SessionId, entry: ReviewCacheEntry)
        requires
            old(self).well_formed(),
        ensures
            final(self).well_formed(),
            final(self).review_of(session_id@) == Some(entry),
            forall|other: Seq<char>|
                other != session_id@ ==> #[trigger] final(self).review_of(other) == old(
                    self,
                ).review_of(other),
    {
        let ghost before = self.reviews@;
        let ghost id = session_id@;
        match self.position(session_id.as_str()) {
            Some(index) => {
                proof {
                    lemma_review_position(before, id, 0);
                }
                self.reviews[index].entry = entry;
                proof {
                    let after = self.reviews@;
                    assert(after =~= before.update(
                        index as int,
                        SessionReview { entry, session_id: before[index as int].session_id },
                    ));
                    assert forall|i: int| 0 <= i < after.len() implies (
                    #[trigger] after[i]).session_id@ == before[i].session_id@ by {}
                    lemma_same_ids(before, after, id, 0);
                    assert forall|other: Seq<char>| other != id implies #[trigger] self.review_of(
                        other,
                    ) == old(self).review_of(other) by {
                        lemma_same_ids(before, after, other, 0);
                        lemma_review_position(before, other, 0);
                    }
                }
            },
            None => {
                self.reviews.push(SessionReview { entry, session_id });
                proof {
                    let after = self.reviews@;
                    lemma_review_position(before, id, 0);
                    lemma_pushed(before, after, id, 0);
                    assert forall|other: Seq<char>| other != id implies #[trigger] self.review_of(
                        other,
                    ) == old(self).review_of(other) by {
                        lemma_pushed(before, after, other, 0);
                        lemma_review_position(before, other, 0);
                    }
                }
            },
        }
    }
}

proof fn lemma_same_ids(
    before: Seq<SessionReview>,
    after: Seq<SessionReview>,
    id: Seq<char>,
    from: int,
)
    requires
        before.len() == after.len(),
        0 <= from <= before.len(),
        forall|i: int| 0 <= i < after.len() ==> (#[trigger] after[i]).session_id@
            == before[i].session_id@,
    ensures
        review_position(after, id, from) == review_position(before, id, from),
    decreases before.len() - from,
{
    if from < before.len() && before[from].session_id@ != id {
        assert(after[from].session_id@ == before[from].session_id@);
        lemma_same_ids(before, after, id, from + 1);
    } else if from < before.len() {
        assert(after[from].session_id@ == before[from].session_id@);
    }
}

proof fn lemma_pushed(
    before: Seq<SessionReview>,
    after: Seq<SessionReview>,
    id: Seq<char>,
    from: int,
)
    requires
        after == before.push(after.last()),
        after.len() > 0,
        0 <= from <= before.len(),
    ensures
        review_position(after, id, from) == (match review_position(before, id, from) {
            Some(index) => Some(index),
            None => if after.last().session_id@ == id {
                Some(before.len() as int)
            } else {
                None
            },
        }),
    decreases before.len() - from,
{
    if from < before.len() {
        assert(after[from] == before[from]);
        if before[from].session_id@ != id {
            lemma_pushed(before, after, id, from + 1);
        }
    } else {
        reveal_with_fuel(review_position, 2);
        assert(after[from] == after.last());
    }
}

/// Text that starts every message about a diff that could not be loaded.
pub open spec fn diff_failure_prefix() -> Seq<char> {
    "Failed to run git diff: "@
}

/// Where the diff of a session is taken, and against which branch.
#[derive(Debug)]
pub struct DiffRequest {
    pub base_branch: String,
    pub folder: String,
}

/// Finds out where the diff of the viewed session is taken; a session that is
/// gone has none.
pub fn session_diff_request(sessions: &Vec<Session>, context: &ViewContext) -> (request: Option<
    DiffRequest,
>)
    ensures
        request == (if context.session_index < sessions@.len() {
            let session = sessions@[context.session_index as int];
            Some(DiffRequest { base_branch: session.base_branch, folder: session.folder })
        } else {
            None
        }),
{
    if context.session_index >= sessions.len() {
        return None;
    }
    let session: &Session = &sessions[context.session_index];
    Some(
        DiffRequest {
            base_branch: session.base_branch.clone(),
            folder: session.folder.clone(),
        },
    )
}

/// The text that stands for a session's diff: the diff, why it could not be
/// loaded, or nothing for a session that is gone.
pub fn view_session_diff(loaded: Option<Result<String, String>>) -> (diff: String)
    ensures
        match loaded {
            Some(Ok(text)) => diff == text,
            Some(Err(error)) => diff@ == diff_failure_prefix() + error@,
            None => diff@.len() == 0,
        },
{
    match loaded {
        Some(Ok(text)) => text,
        Some(Err(error)) => joined("Failed to run git diff: ", error.as_str()),
        None => String::new(),
    }
}

/// Whether a mode is the diff page of a session, just opened.
pub open spec fn shows_diff(mode: AppMode, session_id: SessionId, diff: String) -> bool {
    &&& mode matches AppMode::Diff(page)
    &&& page.diff == diff
    &&& page.file_explorer_selected_index == 0
    &&& page.focus == DiffFocus::Files
    &&& page.line_comments.at_mention_state is None
    &&& page.line_comments.comments@.len() == 0
    &&& page.line_comments.editing_index is None
    &&& page.line_comments.selected_comment is None
    &&& page.line_comments.selection_start is None
    &&& page.preview == (DiffPreview::Disabled { request_id: 0 })
    &&& page.restore is None
    &&& page.review_comments is None
    &&& page.scroll_cache is None
    &&& page.scroll_offset == 0
    &&& page.selected_diff_line_index == 0
    &&& page.session_id == session_id
}

/// Opens the diff page unless there is nothing to show, and reports whether
/// it did.
pub fn show_diff_for_view_session(mode: &mut AppMode, context: &ViewContext, diff: String) -> (
    opened: bool)
    ensures
        opened == !blank(diff@),
        opened ==> shows_diff(*final(mode), context.session_id, diff),
        !opened ==> *final(mode) == *old(mode),
{
    if is_blank(diff.as_str()) {
        return false;
    }
    *mode = AppMode::Diff(
        DiffMode {
            diff,
            file_explorer_selected_index: 0,
            focus: DiffFocus::Files,
            line_comments: DiffLineComments::default(),
            preview: DiffPreview::Disabled { request_id: 0 },
            restore: None,
            review_comments: None,
            scroll_cache: None,
            scroll_offset: 0,
            selected_diff_line_index: 0,
            session_id: context.session_id.clone(),
        },
    );
    true
}

/// Whether a review is still to be made: a suppressed one counts as none.
pub open spec fn review_missing(entry: Option<ReviewCacheEntry>) -> bool {
    match entry {
        None => true,
        Some(entry) => entry is Suppressed,
    }
}

/// Whether a review of the viewed session is to be started: it has none yet
/// and the session is still listed.
pub open spec fn review_wanted(
    cache: ReviewCache,
    sessions: Seq<Session>,
    context: ViewContext,
) -> bool {
    review_missing(cache.review_of(context.session_id@)) && context.session_index < sessions.len()
}

/// Reports whether the diff of a session is to be loaded for its review.
pub fn needs_review_diff(
    cache: &ReviewCache,
    sessions: &Vec<Session>,
    context: &ViewContext,
) -> (needed: bool)
    ensures
        needed == review_wanted(*cache, sessions@, *context),
{
    let is_missing: bool = match cache.get(context.session_id.as_str()) {
        None => true,
        Some(entry) => matches!(entry, ReviewCacheEntry::Suppressed { .. }),
    };
    is_missing && context.session_index < sessions.len()
}

/// What follows from a loaded diff.
#[derive(Debug)]
pub enum ReviewStart {
    /// The message is posted into the transcript.
    Post { diff_hash: u64, state: SessionMessageState, text: String },
    /// A pending review is posted and the review of the diff starts in the
    /// folder of the session.
    Start { diff: String, diff_hash: u64, folder: String },
}

/// Whether `start` is what follows from a loaded diff, and `entry` the
/// review that is remembered.
pub open spec fn review_started(
    folder: Seq<char>,
    diff: Seq<char>,
    diff_hash: u64,
    entry: ReviewCacheEntry,
    start: ReviewStart,
) -> bool {
    if blank(diff) {
        &&& entry matches ReviewCacheEntry::Ready { diff_hash: hash, text }
        &&& hash == diff_hash
        &&& text@ == "No diff changes found for review."@
        &&& start matches ReviewStart::Post {
            diff_hash: posted_hash,
            state: SessionMessageState::Resolved,
            text: posted,
        }
        &&& posted_hash == diff_hash
        &&& posted@ == text@
    } else if "Failed to run git diff:"@.is_prefix_of(diff) {
        &&& entry matches ReviewCacheEntry::Ready { diff_hash: hash, text }
        &&& hash == diff_hash
        &&& text@ == diff
        &&& start matches ReviewStart::Post {
            diff_hash: posted_hash,
            state: SessionMessageState::Failed,
            text: posted,
        }
        &&& posted_hash == diff_hash
        &&& posted@ == diff
    } else {
        &&& entry == (ReviewCacheEntry::Loading { diff_hash })
        &&& start matches ReviewStart::Start {
            diff: reviewed,
            diff_hash: reviewed_hash,
            folder: reviewed_folder,
        }
        &&& reviewed@ == diff
        &&& reviewed_hash == diff_hash
        &&& reviewed_folder@ == folder
    }
}

/// Starts the review of the viewed session with its loaded diff.
///
/// A session that has a review, finished or under way, keeps it, and one that
/// is gone gets none: then nothing changes. Without changes there is nothing
/// to review, and a diff that could not be loaded is shown instead of a
/// review.
pub fn open_review_output_mode(
    cache: &mut ReviewCache,
    sessions: &Vec<Session>,
    context: &ViewContext,
    diff: &String,
    diff_hash: u64,
) -> (start: Option<ReviewStart>)
    requires
        old(cache).well_formed(),
    ensures
        final(cache).well_formed(),
        (start is Some) == review_wanted(*old(cache), sessions@, *context),
        match start {
            Some(start) => final(cache).review_of(context.session_id@) matches Some(entry)
                && review_started(
                sessions@[context.session_index as int].folder@,
                diff@,
                diff_hash,
                entry,
                start,
            ),
            None => *final(cache) == *old(cache),
        },
        forall|other: Seq<char>|
            other != context.session_id@ ==> #[trigger] final(cache).review_of(other) == old(
                cache,
            ).review_of(other),
{
    if !needs_review_diff(cache, sessions, context) {
        return None;
    }
    let session_id: SessionId = context.session_id.clone();
    if is_blank(diff.as_str()) {
        let entry: ReviewCacheEntry = ReviewCacheEntry::Ready {
            diff_hash,
            text: "No diff changes found for review.".to_owned(),
        };
        let start: ReviewStart = ReviewStart::Post {
            diff_hash,
            state: SessionMessageState::Resolved,
            text: "No diff changes found for review.".to_owned(),
        };
        cache.insert(session_id, entry);
        return Some(start);
    }
    if has_prefix(diff.as_str(), "Failed to run git diff:") {
        cache.insert(session_id, ReviewCacheEntry::Ready { diff_hash, text: diff.clone() });
        return Some(
            ReviewStart::Post { diff_hash, state: SessionMessageState::Failed, text: diff.clone() },
        );
    }
    cache.insert(session_id, ReviewCacheEntry::Loading { diff_hash });
    Some(
        ReviewStart::Start {
            diff: diff.clone(),
            diff_hash,
            folder: sessions[context.session_index].folder.clone(),
        },
    )
}

/// A review that is finished or under way is never replaced: asking again
/// starts nothing.
pub proof fn lemma_started_review_is_kept(
    cache: ReviewCache,
    sessions: Seq<Session>,
    context: ViewContext,
    folder: Seq<char>,
    diff: Seq<char>,
    diff_hash: u64,
    entry: ReviewCacheEntry,
    start: ReviewStart,
)
    requires
        review_started(folder, diff, diff_hash, entry, start),
        cache.review_of(context.session_id@) == Some(entry),
    ensures
        !review_wanted(cache, sessions, context),
{
}

/// A diff that could not be loaded is shown as a failed review.
pub proof fn lemma_failed_diff_is_posted(
    folder: Seq<char>,
    error: Seq<char>,
    diff_hash: u64,
    entry: ReviewCacheEntry,
    start: ReviewStart,
)
    requires
        review_started(folder, diff_failure_prefix() + error, diff_hash, entry, start),
    ensures
        start matches ReviewStart::Post { state: SessionMessageState::Failed, text, .. } && text@
            == diff_failure_prefix() + error,
{
    reveal_strlit("Failed to run git diff: ");
    reveal_strlit("Failed to run git diff:");
    let diff = diff_failure_prefix() + error;
    assert(diff[0] == 'F');
    assert(!white(diff[0]));
    assert(!blank(diff));
    let prefix = "Failed to run git diff:"@;
    assert forall|i: int| 0 <= i < prefix.len() implies prefix[i] == diff[i] by {}
    assert(prefix.is_prefix_of(diff));
}

/// State that a session shares with the worker that runs its turns.
#[derive(Debug)]
pub struct SessionHandle {
    /// Whether the running turn was told to stop.
    pub is_cancelled: bool,
    /// Messages that wait for the running turn, oldest first.
    pub queued_messages: VecDeque<String>,
    pub status: Status,
}

/// What `Ctrl+C` does to a running turn.
#[derive(Debug)]
pub enum TurnEnd {
    /// The turn is interrupted.
    CancelTurn,
    /// The message that was queued last is taken back; the turn goes on. The
    /// files that were attached to the message are released, and the event
    /// follows.
    RetractMessage { event: TurnEvent, message: String },
}

/// What is announced after a turn was interrupted or a message taken back.
#[derive(Debug)]
pub enum TurnEvent {
    /// The lists of sessions and projects are loaded again.
    RefreshSessionsAndProjects,
    /// The session is to be painted anew.
    SessionUpdated { session_id: SessionId },
}

/// Whether the row of a session was refreshed from what the session shares
/// with its worker: its queue and its status. Everything else stays as it is.
pub open spec fn row_refreshed(
    before: Seq<Session>,
    after: Seq<Session>,
    id: Seq<char>,
    handle: SessionHandle,
) -> bool {
    match row_of(before, id) {
        Some(row) => {
            &&& after.len() == before.len()
            &&& after[row as int].queued_messages@ == handle.queued_messages@
            &&& after[row as int] == (Session {
                queued_messages: after[row as int].queued_messages,
                status: handle.status,
                ..before[row as int]
            })
            &&& forall|i: int|
                0 <= i < before.len() && i != row ==> #[trigger] after[i] == before[i]
        },
        None => after == before,
    }
}

/// Whether a press of `Ctrl+C` was applied: the message that was queued last
/// is taken back and nothing else happens to the turn; without one nothing
/// changes yet.
pub open spec fn press_applied(
    id: SessionId,
    handle: Option<SessionHandle>,
    sessions: Seq<Session>,
    handle_after: Option<SessionHandle>,
    sessions_after: Seq<Session>,
    end: TurnEnd,
) -> bool {
    match handle {
        Some(before) if before.queued_messages@.len() > 0 => {
            &&& handle_after matches Some(after)
            &&& after.queued_messages@ == before.queued_messages@.drop_last()
            &&& after == (SessionHandle { queued_messages: after.queued_messages, ..before })
            &&& end == (TurnEnd::RetractMessage {
                event: TurnEvent::SessionUpdated { session_id: id },
                message: before.queued_messages@.last(),
            })
            &&& row_refreshed(sessions, sessions_after, id@, after)
        },
        _ => {
            &&& handle_after == handle
            &&& sessions_after == sessions
            &&& end is CancelTurn
        },
    }
}

/// Copies a queue into a row of the session list.
fn shown_queue(queue: &VecDeque<String>) -> (texts: Vec<String>)
    ensures
        texts@ == queue@,
{
    let mut texts: Vec<String> = Vec::new();
    let mut index: usize = 0;
    while index < queue.len()
        invariant
            index <= queue@.len(),
            texts@ == queue@.take(index as int),
        decreases queue@.len() - index,
    {
        texts.push(queue[index].clone());
        assert(texts@ =~= queue@.take(index as int + 1));
        index = index + 1;
    }
    assert(texts@ =~= queue@);
    texts
}

/// Takes back the message that was queued last; without one the turn is to be
/// interrupted.
///
/// The worker may have started a queued message meanwhile, so the row of the
/// session is refreshed from what the two share.
pub fn end_in_progress_turn(
    handle: &mut Option<SessionHandle>,
    sessions: &mut Vec<Session>,
    session_id: &SessionId,
) -> (end: TurnEnd)
    ensures
        press_applied(
            *session_id,
            *old(handle),
            old(sessions)@,
            *final(handle),
            final(sessions)@,
            end,
        ),
{
    match handle {
        Some(shared) => {
            if shared.queued_messages.len() == 0 {
                return TurnEnd::CancelTurn;
            }
            match shared.queued_messages.pop_back() {
                Some(message) => {
                    let queue: Vec<String> = shown_queue(&shared.queued_messages);
                    proof {
                        assert(sessions@.len() == sessions.len());
                        crate::session::lemma_row_of(sessions@, session_id@);
                    }
                    if let Some(row) = session_row(sessions, session_id.as_str()) {
                        sessions[row].queued_messages = queue;
                        sessions[row].status = shared.status;
                    }
                    TurnEnd::RetractMessage {
                        event: TurnEvent::SessionUpdated { session_id: session_id.clone() },
                        message,
                    }
                },
                None => TurnEnd::CancelTurn,
            }
        },
        None => TurnEnd::CancelTurn,
    }
}

/// The messages that are left in a queue after some presses of `Ctrl+C`.
pub open spec fn queue_after_presses(queue: Seq<String>, presses: nat) -> Seq<String>
    decreases presses,
{
    if presses == 0 {
        queue
    } else {
        queue_after_presses(queue, (presses - 1) as nat).drop_last()
    }
}

/// Each press takes back one message, the newest first: what is left is what
/// was queued before, and only a press after the last message interrupts the
/// turn.
pub proof fn lemma_presses_retract_newest_first(queue: Seq<String>, presses: nat)
    requires
        presses <= queue.len(),
    ensures
        queue_after_presses(queue, presses) == queue.take(queue.len() - presses),
        (queue_after_presses(queue, presses).len() == 0) == (presses == queue.len()),
    decreases presses,
{
    if presses > 0 {
        lemma_presses_retract_newest_first(queue, (presses - 1) as nat);
    }
    assert(queue_after_presses(queue, presses) =~= queue.take(queue.len() - presses));
}

/// A running turn between two presses of `Ctrl+C`.
pub struct TurnState {
    pub handle: Option<SessionHandle>,
    pub sessions: Seq<Session>,
}

/// Whether one press of `Ctrl+C` led from a state to the next.
pub open spec fn pressed(id: SessionId, before: TurnState, after: TurnState) -> bool {
    exists|end: TurnEnd| #[trigger]
        press_applied(
            id,
            before.handle,
            before.sessions,
            after.handle,
            after.sessions,
            end,
        )
}

/// While messages are queued, the presses of `Ctrl+C` only take them back:
/// the worker is not told to stop, and the session keeps its status, in its
/// row and where it shares it with the worker. The row shows what is left.
pub proof fn lemma_presses_drain_queue(
    states: Seq<TurnState>,
    id: SessionId,
    handle: SessionHandle,
    row: usize,
)
    requires
        states.len() > 0,
        states[0].handle == Some(handle),
        row_of(states[0].sessions, id@) == Some(row),
        row < states[0].sessions.len() <= usize::MAX,
        states[0].sessions[row as int].status == handle.status,
        states.len() - 1 <= handle.queued_messages@.len(),
        forall|i: int|
            0 < i < states.len() ==> pressed(id, states[i - 1], #[trigger] states[i]),
    ensures
        ({
            let last = states.last();
            let left = handle.queued_messages@.take(
                handle.queued_messages@.len() - (states.len() - 1),
            );
            &&& last.handle matches Some(shared)
            &&& shared.queued_messages@ == left
            &&& shared.status == handle.status
            &&& shared.is_cancelled == handle.is_cancelled
            &&& last.sessions.len() == states[0].sessions.len()
            &&& row_of(last.sessions, id@) == Some(row)
            &&& last.sessions[row as int].status == handle.status
            &&& states.len() > 1 ==> last.sessions[row as int].queued_messages@ == left
        }),
    decreases states.len(),
{
    if states.len() == 1 {
        assert(handle.queued_messages@.take(handle.queued_messages@.len() as int)
            =~= handle.queued_messages@);
    } else {
        let earlier = states.drop_last();
        assert forall|i: int| 0 < i < earlier.len() implies pressed(
            id,
            earlier[i - 1],
            #[trigger] earlier[i],
        ) by {
            assert(pressed(id, states[i - 1], states[i]));
        }
        lemma_presses_drain_queue(earlier, id, handle, row);
        let before = earlier.last();
        let after = states.last();
        assert(pressed(id, states[states.len() - 2], states[states.len() - 1]));
        let left = handle.queued_messages@.len() - (states.len() - 2);
        assert(handle.queued_messages@.take(left).drop_last() =~= handle.queued_messages@.take(
            left - 1,
        ));
        lemma_same_rows(before.sessions, after.sessions, id@);
    }
}

/// Rows with the same identifiers are found at the same places.
proof fn lemma_same_rows(before: Seq<Session>, after: Seq<Session>, id: Seq<char>)
    requires
        before.len() == after.len(),
        forall|i: int| 0 <= i < before.len() ==> (#[trigger] after[i]).id@ == before[i].id@,
    ensures
        row_of(after, id) == row_of(before, id),
    decreases before.len(),
{
    if before.len() > 0 {
        lemma_same_rows(before.drop_last(), after.drop_last(), id);
        assert(after[after.len() - 1].id@ == before[before.len() - 1].id@);
    }
}

/// Whether `after` is `before` with another status in one row.
pub open spec fn status_changed(
    before: Seq<Session>,
    after: Seq<Session>,
    row: int,
    status: Status,
) -> bool {
    &&& after.len() == before.len()
    &&& after[row] == (Session { status, ..before[row] })
    &&& forall|i: int| 0 <= i < before.len() && i != row ==> #[trigger] after[i] == before[i]
}

/// Interrupts a turn: its worker is told to stop. Returns the status that is
/// to be stored for the session before `finish_cancelled_turn` goes on.
pub fn cancel_in_progress_turn(handle: &mut Option<SessionHandle>) -> (status: Status)
    ensures
        status == Status::Review,
        *final(handle) == (match *old(handle) {
            Some(before) => Some(SessionHandle { is_cancelled: true, ..before }),
            None => None,
        }),
{
    if let Some(shared) = handle {
        shared.is_cancelled = true;
    }
    Status::Review
}

/// Returns the session of an interrupted turn to review, and keeps a review
/// from starting by itself. The returned events are announced in order.
///
/// If the new status could not be stored, everything stays as it is.
pub fn finish_cancelled_turn(
    handle: &mut Option<SessionHandle>,
    sessions: &mut Vec<Session>,
    cache: &mut ReviewCache,
    session_id: &SessionId,
    is_stored: bool,
) -> (events: Vec<TurnEvent>)
    requires
        old(cache).well_formed(),
    ensures
        final(cache).well_formed(),
        !is_stored ==> {
            &&& *final(handle) == *old(handle)
            &&& final(sessions)@ == old(sessions)@
            &&& *final(cache) == *old(cache)
            &&& events@.len() == 0
        },
        is_stored ==> {
            &&& *final(handle) == (match *old(handle) {
                Some(before) => Some(SessionHandle { status: Status::Review, ..before }),
                None => None,
            })
            &&& match row_of(old(sessions)@, session_id@) {
                Some(row) => status_changed(
                    old(sessions)@,
                    final(sessions)@,
                    row as int,
                    Status::Review,
                ),
                None => final(sessions)@ == old(sessions)@,
            }
            &&& final(cache).review_of(session_id@) == Some(
                ReviewCacheEntry::Suppressed { diff_hash: 0 },
            )
            &&& events@ == seq![
                TurnEvent::SessionUpdated { session_id: *session_id },
                TurnEvent::RefreshSessionsAndProjects,
            ]
        },
        forall|other: Seq<char>|
            other != session_id@ ==> #[trigger] final(cache).review_of(other) == old(
                cache,
            ).review_of(other),
{
    let mut events: Vec<TurnEvent> = Vec::new();
    if !is_stored {
        return events;
    }
    if let Some(shared) = handle {
        shared.status = Status::Review;
    }
    if let Some(row) = session_row(sessions, session_id.as_str()) {
        sessions[row].status = Status::Review;
    }
    suppress_auto_review_for_stopped_turn(cache, session_id);
    events.push(TurnEvent::SessionUpdated { session_id: session_id.clone() });
    events.push(TurnEvent::RefreshSessionsAndProjects);
    events
}

/// Keeps a review of a stopped turn from starting by itself.
pub fn suppress_auto_review_for_stopped_turn(cache: &mut ReviewCache, session_id: &SessionId)
    requires
        old(cache).well_formed(),
    ensures
        final(cache).well_formed(),
        final(cache).review_of(session_id@) == Some(ReviewCacheEntry::Suppressed { diff_hash: 0 }),
        forall|other: Seq<char>|
            other != session_id@ ==> #[trigger] final(cache).review_of(other) == old(
                cache,
            ).review_of(other),
{
    cache.insert(session_id.clone(), ReviewCacheEntry::Suppressed { diff_hash: 0 });
}

/// A suppressed review can still be asked for.
pub proof fn lemma_suppressed_review_can_start(entry: ReviewCacheEntry)
    requires
        entry is Suppressed,
    ensures
        review_missing(Some(entry)),
{
}

} // verus!
