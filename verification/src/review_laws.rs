//! How reviews start, turns end and drafts are shown.

use vstd::prelude::*;

use crate::output_laws::has_text;
use crate::prompt_history::{lemma_written_prompt_recalled, prompts_in, written_prompt};
use crate::review::{
    ReviewCache, ReviewCacheEntry, ReviewStart, SessionHandle, TurnEnd, TurnEvent,
    press_applied, review_missing, review_position, review_started,
    review_wanted, row_refreshed, shows_diff, status_changed, view_session_diff,
};
use crate::app_mode::{AppMode, DiffFocus};
use crate::session::{Session, SessionId, SessionMessageState, Status};
use crate::session_view::ViewContext;
use crate::text::{blank, trimmed};
use crate::text_laws::lemma_joined_comes_apart;
use crate::text_lines::{joined_with, lemma_split_on, split_on};
use crate::transcript_sections::{draft_note, draft_preview, preview_transcript, staged_block};
use crate::view_laws::{lemma_first_row, lemma_no_row};

verus! {

/// A diff without text is reviewed as unchanged, one that could not be loaded
/// as failed, and any other one starts a review in the session's folder.
pub proof fn lemma_review_starts(
    folder: Seq<char>,
    diff: Seq<char>,
    diff_hash: u64,
    entry: ReviewCacheEntry,
    start: ReviewStart,
)
    requires
        review_started(folder, diff, diff_hash, entry, start),
    ensures
        !has_text(diff) ==> {
            &&& entry matches ReviewCacheEntry::Ready { diff_hash: kept, text }
            &&& kept == diff_hash
            &&& text@ == "No diff changes found for review."@
            &&& start matches ReviewStart::Post { diff_hash: posted, state, text: shown }
            &&& posted == diff_hash
            &&& state == SessionMessageState::Resolved
            &&& shown@ == "No diff changes found for review."@
        },
        has_text(diff) && "Failed to run git diff:"@.is_prefix_of(diff) ==> {
            &&& entry matches ReviewCacheEntry::Ready { diff_hash: kept, text }
            &&& kept == diff_hash
            &&& text@ == diff
            &&& start matches ReviewStart::Post { diff_hash: posted, state, text: shown }
            &&& posted == diff_hash
            &&& state == SessionMessageState::Failed
            &&& shown@ == diff
        },
        has_text(diff) && !("Failed to run git diff:"@.is_prefix_of(diff)) ==> {
            &&& entry == (ReviewCacheEntry::Loading { diff_hash })
            &&& start matches ReviewStart::Start {
                diff: reviewed,
                diff_hash: hash,
                folder: place,
            }
            &&& reviewed@ == diff
            &&& hash == diff_hash
            &&& place@ == folder
        },
{
    if has_text(diff) {
        let i = choose|i: int| 0 <= i < diff.len() && !crate::text::white(#[trigger] diff[i]);
        assert(!blank(diff));
    } else {
        assert(blank(diff));
    }
}

/// A review is wanted where there is none or it was only held back, while its
/// session is listed.
pub proof fn lemma_review_is_wanted(
    cache: ReviewCache,
    sessions: Seq<Session>,
    context: ViewContext,
    diff_hash: u64,
    text: String,
)
    ensures
        review_missing(None),
        review_missing(Some(ReviewCacheEntry::Suppressed { diff_hash })),
        !review_missing(Some(ReviewCacheEntry::Loading { diff_hash })),
        !review_missing(Some(ReviewCacheEntry::Ready { diff_hash, text })),
        context.session_index >= sessions.len() ==> !review_wanted(cache, sessions, context),
        context.session_index < sessions.len() && cache.reviews@.len() == 0 ==> review_wanted(
            cache,
            sessions,
            context,
        ),
{
}

/// Each session has its own review.
pub proof fn lemma_own_review(cache: ReviewCache, index: int)
    requires
        cache.well_formed(),
        0 <= index < cache.reviews@.len(),
    ensures
        cache.review_of(cache.reviews@[index].session_id@) == Some(cache.reviews@[index].entry),
{
    lemma_review_from(cache.reviews@, cache.reviews@[index].session_id@, index, index);
}

/// A session that no review belongs to has none.
pub proof fn lemma_no_review(cache: ReviewCache, id: Seq<char>)
    requires
        forall|i: int|
            0 <= i < cache.reviews@.len() ==> (#[trigger] cache.reviews@[i]).session_id@ != id,
    ensures
        cache.review_of(id) is None,
{
    let count = cache.reviews@.len() as int;
    lemma_review_from(cache.reviews@, id, count, count);
}

proof fn lemma_review_from(
    reviews: Seq<crate::review::SessionReview>,
    id: Seq<char>,
    index: int,
    skipped: int,
)
    requires
        0 <= skipped <= index <= reviews.len(),
        forall|i: int| 0 <= i < index ==> (#[trigger] reviews[i]).session_id@ != id,
    ensures
        review_position(reviews, id, index - skipped) == review_position(reviews, id, index),
    decreases skipped,
{
    if skipped > 0 {
        lemma_review_from(reviews, id, index, skipped - 1);
        assert(reviews[index - skipped].session_id@ != id);
    }
}

/// Stopping a turn takes back the message that was queued last, and only a
/// turn without queued messages is interrupted.
pub proof fn lemma_press_takes_back_newest(
    id: SessionId,
    handle: Option<SessionHandle>,
    sessions: Seq<Session>,
    handle_after: Option<SessionHandle>,
    sessions_after: Seq<Session>,
    end: TurnEnd,
)
    requires
        press_applied(id, handle, sessions, handle_after, sessions_after, end),
    ensures
        handle is None || handle->0.queued_messages@.len() == 0 ==> end == TurnEnd::CancelTurn
            && handle_after == handle && sessions_after == sessions,
        handle matches Some(before) ==> (before.queued_messages@.len() > 0 ==> {
            let count = before.queued_messages@.len();
            &&& end matches TurnEnd::RetractMessage { event, message }
            &&& message == before.queued_messages@[count - 1]
            &&& event == (TurnEvent::SessionUpdated { session_id: id })
            &&& handle_after matches Some(after)
            &&& after.queued_messages@ == before.queued_messages@.take(count - 1)
            &&& after.is_cancelled == before.is_cancelled
            &&& after.status == before.status
            &&& row_refreshed(sessions, sessions_after, id@, after)
        }),
{
    if let Some(before) = handle {
        let count = before.queued_messages@.len();
        if count > 0 {
            assert(before.queued_messages@.drop_last() =~= before.queued_messages@.take(
                count - 1,
            ));
        }
    }
}

/// A refreshed row shows the queue and the status that its session shares, and
/// keeps all else; no other row changes.
pub proof fn lemma_refreshed_row(
    before: Seq<Session>,
    after: Seq<Session>,
    id: Seq<char>,
    handle: SessionHandle,
    row: int,
)
    requires
        row_refreshed(before, after, id, handle),
        before.len() <= usize::MAX,
        0 <= row < before.len(),
        before[row].id@ == id,
        forall|i: int| 0 <= i < row ==> (#[trigger] before[i]).id@ != id,
    ensures
        after.len() == before.len(),
        after[row].queued_messages@ == handle.queued_messages@,
        after[row].status == handle.status,
        after[row].id == before[row].id,
        after[row].title == before[row].title,
        after[row].transcript == before[row].transcript,
        after[row].prompt == before[row].prompt,
        forall|i: int| 0 <= i < before.len() && i != row ==> #[trigger] after[i] == before[i],
{
    lemma_first_row(before, id, row);
}

/// A session that is not listed has no row to refresh.
pub proof fn lemma_nothing_refreshed(
    before: Seq<Session>,
    after: Seq<Session>,
    id: Seq<char>,
    handle: SessionHandle,
)
    requires
        row_refreshed(before, after, id, handle),
        forall|i: int| 0 <= i < before.len() ==> (#[trigger] before[i]).id@ != id,
    ensures
        after == before,
{
    lemma_no_row(before, id);
}

/// What stands for a diff: the diff itself, why it could not be loaded, or
/// nothing.
pub proof fn lemma_shown_diff(loaded: Option<Result<String, String>>, diff: String)
    requires
        call_ensures(view_session_diff, (loaded,), diff),
    ensures
        loaded matches Some(Ok(text)) ==> diff == text,
        loaded matches Some(Err(error)) ==> diff@ == "Failed to run git diff: "@ + error@,
        loaded is None ==> diff@.len() == 0,
{
}

/// A diff page opens at its first file, in the explorer, without comments or a
/// preview.
pub proof fn lemma_opened_diff_page(mode: AppMode, session_id: SessionId, diff: String)
    requires
        shows_diff(mode, session_id, diff),
    ensures
        mode matches AppMode::Diff(page) && page.diff == diff && page.session_id == session_id
            && page.focus == DiffFocus::Files && page.file_explorer_selected_index == 0
            && page.scroll_offset == 0 && page.selected_diff_line_index == 0
            && page.line_comments.comments@.len() == 0 && page.line_comments.editing_index is None
            && page.line_comments.selection_start is None
            && page.line_comments.selected_comment is None
            && page.line_comments.at_mention_state is None && page.scroll_cache is None
            && page.preview is Disabled
            && page.restore is None && page.review_comments is None,
{
}

/// The note of a draft says where its messages are and what starts them.
pub proof fn lemma_draft_notes(has_drafts: bool, is_stacked: bool)
    ensures
        has_drafts && is_stacked ==> draft_note(has_drafts, is_stacked)
            == "Draft messages stay local until the parent is review-ready and you press `s` in session view to start the stacked bundle from its parent branch."@,
        has_drafts && !is_stacked ==> draft_note(has_drafts, is_stacked)
            == "Draft messages stay local until you press `s` in session view to start the staged bundle."@,
        !has_drafts && is_stacked ==> draft_note(has_drafts, is_stacked)
            == "No draft messages staged yet. Use `Enter` to stage the first draft locally. The `s` start action appears after the parent is review-ready."@,
        !has_drafts && !is_stacked ==> draft_note(has_drafts, is_stacked)
            == "No draft messages staged yet. Use `Enter` to stage the first draft locally, then press `s` in session view to start the bundle."@,
{
}

/// A draft's preview is its heading and its note, then the staged prompt, then
/// what was said before.
pub proof fn lemma_draft_preview(session: Session)
    ensures
        ({
            let preview = draft_preview(session);
            let start = "## Draft Session"@ + seq!['\n', '\n'] + draft_note(
                session.prompt@.len() > 0,
                session.parent_session_id is Some,
            );
            &&& session.prompt@.len() == 0 ==> preview == start.push('\n') + preview_transcript(
                session.replay_text,
            )
            &&& session.prompt@.len() > 0 ==> preview == start + seq!['\n', '\n'] + staged_block(
                session.prompt@,
            ) + preview_transcript(session.replay_text)
        }),
        session.replay_text is None ==> preview_transcript(session.replay_text).len() == 0,
        session.replay_text matches Some(text) ==> {
            &&& trimmed(text@).len() == 0 ==> preview_transcript(session.replay_text).len() == 0
            &&& trimmed(text@).len() > 0 ==> preview_transcript(session.replay_text) == seq![
                '\n',
                '\n',
            ] + trimmed(text@)
        },
{
    reveal_strlit("\n\n");
    reveal_strlit("\n");
    assert("\n\n"@ =~= seq!['\n', '\n']);
    let start = "## Draft Session"@ + seq!['\n', '\n'] + draft_note(
        session.prompt@.len() > 0,
        session.parent_session_id is Some,
    );
    assert(start + "\n"@ =~= start.push('\n'));
}

/// A staged prompt is written as transcripts write prompts: whoever reads it
/// finds the prompt again.
pub proof fn lemma_staged_prompt_recalled(prompt: Seq<char>)
    ensures
        prompts_in(split_on(staged_block(prompt), '\n')) == seq![prompt],
{
    let lines = split_on(prompt, '\n');
    lemma_split_on(prompt, '\n');
    let written = written_prompt(lines);
    reveal_strlit(" \u{203a} ");
    reveal_strlit("   ");
    reveal_strlit("\n\n");
    let nothing = Seq::<char>::empty();
    let pieces = written + seq![nothing] + seq![nothing];
    assert forall|i: int| 0 <= i < pieces.len() implies !(#[trigger] pieces[i]).contains('\n') by {
        if i < lines.len() {
            let piece = pieces[i];
            assert(!lines[i].contains('\n'));
            if piece.contains('\n') {
                let k = choose|k: int| 0 <= k < piece.len() && piece[k] == '\n';
                if k >= 3 {
                    assert(lines[i][k - 3] == '\n');
                }
            }
        }
    }
    lemma_joined_comes_apart(pieces, '\n');
    let once = written + seq![nothing];
    assert(pieces.drop_last() =~= once);
    assert(once.drop_last() =~= written);
    assert(joined_with(once, '\n') =~= joined_with(written, '\n').push('\n'));
    assert(joined_with(pieces, '\n') =~= joined_with(written, '\n').push('\n').push('\n'));
    assert(staged_block(prompt) =~= joined_with(pieces, '\n'));
    lemma_written_prompt_recalled(lines, seq![nothing]);
    let tail = seq![nothing];
    assert(!(" \u{203a} "@.is_prefix_of(tail[0])));
    assert(tail.skip(1) =~= Seq::<Seq<char>>::empty());
    reveal_with_fuel(prompts_in, 3);
    assert(prompts_in(tail) =~= Seq::<Seq<char>>::empty());
    assert(prompts_in(pieces) =~= seq![prompt]);
}

/// A changed status changes one row, in its status alone.
pub proof fn lemma_changed_status(
    before: Seq<Session>,
    after: Seq<Session>,
    row: int,
    status: Status,
)
    requires
        status_changed(before, after, row, status),
        0 <= row < before.len(),
    ensures
        after.len() == before.len(),
        after[row].status == status,
        after[row].id == before[row].id,
        after[row].queued_messages == before[row].queued_messages,
        after[row].transcript == before[row].transcript,
        forall|i: int| 0 <= i < before.len() && i != row ==> #[trigger] after[i] == before[i],
{
}

} // verus!
