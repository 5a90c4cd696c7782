use agentty_tui::app_mode::AppMode;
use agentty_tui::review::{
    ReviewCache, ReviewCacheEntry, ReviewStart, SessionHandle, TurnEnd, TurnEvent,
    cancel_in_progress_turn, end_in_progress_turn, finish_cancelled_turn, needs_review_diff,
    open_review_output_mode, session_diff_request, show_diff_for_view_session, view_session_diff,
};
use agentty_tui::session::{Session, SessionMessageState, Status};
use agentty_tui::session_view::ViewContext;

const SESSION_ID: &str = "session-1";

fn session(status: Status) -> Session {
    Session {
        base_branch: "main".to_string(),
        folder: "/tmp/session".to_string(),
        id: SESSION_ID.to_string(),
        is_draft: false,
        parent_session_id: None,
        prompt: String::new(),
        published_upstream_ref: None,
        queued_messages: Vec::new(),
        replay_text: None,
        status,
        title: String::new(),
        transcript: Vec::new(),
        updated_at: 0,
    }
}

fn context(session_index: usize) -> ViewContext {
    ViewContext {
        scroll_offset: Some(0),
        session_id: SESSION_ID.to_string(),
        session_index,
    }
}

fn view_mode() -> AppMode {
    AppMode::View {
        scroll_offset: Some(0),
        session_id: SESSION_ID.to_string(),
    }
}

fn cache_with(entry: ReviewCacheEntry) -> ReviewCache {
    let mut cache = ReviewCache::new();
    cache.insert(SESSION_ID.to_string(), entry);

    cache
}

/// Asks for the review of the viewed session, whose diff is at hand.
fn open_review(cache: &mut ReviewCache, session_index: usize, diff: &str) -> Option<ReviewStart> {
    let sessions = vec![session(Status::Review)];
    let context = context(session_index);
    let needed = needs_review_diff(cache, &sessions, &context);
    let start = open_review_output_mode(cache, &sessions, &context, &diff.to_string(), 77);
    assert_eq!(start.is_some(), needed);

    start
}

#[test]
fn test_open_review_output_mode_uses_ready_cache_entry() {
    // Arrange
    let mut cache = cache_with(ReviewCacheEntry::Ready {
        diff_hash: 123,
        text: "## Review\nCached review from auto-generation.".to_string(),
    });

    // Act
    let start = open_review(&mut cache, 0, "+changed");

    // Assert
    assert!(start.is_none());
    assert!(matches!(
        cache.get(SESSION_ID),
        Some(ReviewCacheEntry::Ready { diff_hash: 123, text }) 
            if text == "## Review\nCached review from auto-generation."
    ));
}

#[test]
fn test_open_review_output_mode_leaves_existing_cache_unchanged() {
    // Arrange
    let mut cache = cache_with(ReviewCacheEntry::Ready {
        diff_hash: 123,
        text: "Cached review".to_string(),
    });
    cache.insert(
        "session-2".to_string(),
        ReviewCacheEntry::Loading { diff_hash: 1 },
    );

    // Act
    let on_changes = open_review(&mut cache, 0, "+changed");
    let on_blank_diff = open_review(&mut cache, 0, "");
    let on_failure = open_review(&mut cache, 0, "Failed to run git diff: gone");

    // Assert
    assert!(on_changes.is_none() && on_blank_diff.is_none() && on_failure.is_none());
    assert_eq!(cache.reviews.len(), 2);
    assert!(matches!(
        cache.get(SESSION_ID),
        Some(ReviewCacheEntry::Ready { diff_hash: 123, text }) if text == "Cached review"
    ));
    assert!(matches!(
        cache.get("session-2"),
        Some(ReviewCacheEntry::Loading { diff_hash: 1 })
    ));
}

#[test]
fn test_open_review_output_mode_shows_loading_for_cache_loading_entry() {
    // Arrange
    let mut cache = cache_with(ReviewCacheEntry::Loading { diff_hash: 456 });

    // Act
    let start = open_review(&mut cache, 0, "+changed");

    // Assert
    assert!(start.is_none());
    assert!(matches!(
        cache.get(SESSION_ID),
        Some(ReviewCacheEntry::Loading { diff_hash: 456 })
    ));
}

#[test]
fn test_open_review_output_mode_starts_loading_when_diff_exists() {
    // Arrange
    let mut cache = ReviewCache::new();

    // Act
    let start = open_review(&mut cache, 0, "diff --git a/README.md b/README.md\n");

    // Assert
    assert!(matches!(
        start,
        Some(ReviewStart::Start { diff, diff_hash: 77, folder })
            if diff == "diff --git a/README.md b/README.md\n" && folder == "/tmp/session"
    ));
    assert!(matches!(
        cache.get(SESSION_ID),
        Some(ReviewCacheEntry::Loading { diff_hash: 77 })
    ));
}

#[test]
fn test_open_review_output_mode_shows_no_diff_message_when_diff_empty() {
    // Arrange
    let mut cache = ReviewCache::new();

    // Act
    let start = open_review(&mut cache, 0, "");

    // Assert
    assert!(matches!(
        start,
        Some(ReviewStart::Post { diff_hash: 77, state: SessionMessageState::Resolved, text })
            if text == "No diff changes found for review."
    ));
    assert!(matches!(
        cache.get(SESSION_ID),
        Some(ReviewCacheEntry::Ready { diff_hash: 77, text })
            if text == "No diff changes found for review."
    ));
}

#[test]
fn test_failed_diff_is_posted_instead_of_a_review() {
    // Arrange
    let mut cache = ReviewCache::new();
    let diff = view_session_diff(Some(Err("not a repository".to_string())));

    // Act
    let start = open_review(&mut cache, 0, &diff);

    // Assert
    assert!(matches!(
        start,
        Some(ReviewStart::Post { diff_hash: 77, state: SessionMessageState::Failed, text })
            if text == "Failed to run git diff: not a repository"
    ));
    assert!(matches!(
        cache.get(SESSION_ID),
        Some(ReviewCacheEntry::Ready { diff_hash: 77, .. })
    ));
}

#[test]
fn test_started_review_is_not_started_again() {
    // Arrange
    let mut cache = ReviewCache::new();

    // Act
    let first = open_review(&mut cache, 0, "+changed");
    let second = open_review(&mut cache, 0, "+changed again");

    // Assert
    assert!(first.is_some());
    assert!(second.is_none());
}

#[test]
fn test_open_review_output_mode_ignores_stale_session_selection() {
    // Arrange
    let mut cache = ReviewCache::new();

    // Act
    let start = open_review(&mut cache, 99, "+changed");

    // Assert
    assert!(start.is_none());
    assert!(cache.get(SESSION_ID).is_none());
}

#[test]
fn test_show_diff_for_view_session_switches_mode_to_diff() {
    // Arrange
    let mut mode = view_mode();

    // Act
    let opened = show_diff_for_view_session(&mut mode, &context(0), "+updated content".to_string());

    // Assert
    assert!(opened);
    assert!(matches!(
        mode,
        AppMode::Diff(diff)
            if diff.session_id == SESSION_ID
                && diff.scroll_offset == 0
                && diff.diff == "+updated content"
    ));
}

#[test]
fn test_show_diff_for_view_session_keeps_view_mode_when_diff_is_empty() {
    // Arrange
    let mut mode = view_mode();

    // Act
    let opened = show_diff_for_view_session(&mut mode, &context(0), String::new());

    // Assert
    assert!(!opened);
    assert!(matches!(
        mode,
        AppMode::View { scroll_offset: Some(0), session_id } if session_id == SESSION_ID
    ));
}

#[test]
fn test_show_diff_for_view_session_uses_error_message_outside_git_repo() {
    // Arrange
    let mut mode = view_mode();
    let diff = view_session_diff(Some(Err("not a git repository".to_string())));

    // Act
    let opened = show_diff_for_view_session(&mut mode, &context(0), diff);

    // Assert
    assert!(opened);
    assert!(matches!(
        mode,
        AppMode::Diff(diff) if diff.diff.contains("Failed to run git diff:")
    ));
}

#[test]
fn test_load_view_session_diff_returns_empty_string_for_stale_session_index() {
    // Arrange
    let sessions = vec![session(Status::Review)];

    // Act
    let request = session_diff_request(&sessions, &context(99));
    let diff = view_session_diff(None);

    // Assert
    assert!(request.is_none());
    assert!(diff.is_empty());
}

#[test]
fn test_diff_is_taken_in_the_folder_of_the_session() {
    // Arrange
    let sessions = vec![session(Status::Review)];

    // Act
    let request = session_diff_request(&sessions, &context(0)).expect("the session is listed");

    // Assert
    assert_eq!(request.folder, "/tmp/session");
    assert_eq!(request.base_branch, "main");
}

/// A running session and the state that it shares with its worker.
struct Turn {
    cache: ReviewCache,
    events: Vec<TurnEvent>,
    handle: Option<SessionHandle>,
    sessions: Vec<Session>,
}

impl Turn {
    fn new(status: Status, queued: &[&str]) -> Self {
        let queue: Vec<String> = queued.iter().map(|text| text.to_string()).collect();
        let shown = Session {
            queued_messages: queue.clone(),
            ..session(status)
        };

        Self {
            cache: ReviewCache::new(),
            events: Vec::new(),
            handle: Some(SessionHandle {
                is_cancelled: false,
                queued_messages: queue.into(),
                status,
            }),
            sessions: vec![shown],
        }
    }

    fn press(&mut self) -> TurnEnd {
        let id = SESSION_ID.to_string();
        let end = end_in_progress_turn(&mut self.handle, &mut self.sessions, &id);
        if matches!(end, TurnEnd::CancelTurn) {
            let status = cancel_in_progress_turn(&mut self.handle);
            assert_eq!(status, Status::Review);
            self.events = finish_cancelled_turn(
                &mut self.handle,
                &mut self.sessions,
                &mut self.cache,
                &id,
                true,
            );
        }

        end
    }

    fn shared(&self) -> &SessionHandle {
        self.handle.as_ref().expect("handle")
    }
}

#[test]
fn test_end_in_progress_turn_transitions_session_to_review() {
    // Arrange
    let mut turn = Turn::new(Status::InProgress, &[]);

    // Act
    turn.press();

    // Assert
    assert_eq!(turn.sessions[0].status, Status::Review);
    assert_eq!(turn.shared().status, Status::Review);
    assert!(matches!(
        turn.cache.get(SESSION_ID),
        Some(ReviewCacheEntry::Suppressed { diff_hash: 0 })
    ));
}

#[test]
fn test_end_in_progress_turn_cancels_token() {
    // Arrange
    let mut turn = Turn::new(Status::InProgress, &[]);

    // Act
    turn.press();

    // Assert
    assert!(turn.shared().is_cancelled);
}

#[test]
fn test_worker_is_told_to_stop_before_the_status_changes() {
    // Arrange
    let mut turn = Turn::new(Status::InProgress, &[]);

    // Act
    let status = cancel_in_progress_turn(&mut turn.handle);

    // Assert
    assert_eq!(status, Status::Review);
    assert!(turn.shared().is_cancelled);
    assert_eq!(turn.shared().status, Status::InProgress);
    assert_eq!(turn.sessions[0].status, Status::InProgress);
    assert!(turn.cache.get(SESSION_ID).is_none());
}

#[test]
fn test_interrupted_turn_is_announced() {
    // Arrange
    let mut turn = Turn::new(Status::InProgress, &[]);

    // Act
    turn.press();

    // Assert
    assert!(matches!(
        turn.events.as_slice(),
        [
            TurnEvent::SessionUpdated { session_id },
            TurnEvent::RefreshSessionsAndProjects,
        ] if session_id == SESSION_ID
    ));
}

#[test]
fn test_end_in_progress_turn_keeps_review_session_review_ready() {
    // Arrange
    let mut turn = Turn::new(Status::Review, &[]);

    // Act
    turn.press();

    // Assert
    assert_eq!(turn.sessions[0].status, Status::Review);
    assert_eq!(turn.shared().status, Status::Review);
}

#[test]
fn test_end_in_progress_turn_first_press_with_queue_pops_last_queued_message() {
    // Arrange
    let mut turn = Turn::new(Status::InProgress, &["first queued", "second queued"]);

    // Act
    let end = turn.press();

    // Assert
    assert!(matches!(
        end,
        TurnEnd::RetractMessage { event: TurnEvent::SessionUpdated { session_id }, message }
            if message == "second queued" && session_id == SESSION_ID
    ));
    assert_eq!(turn.shared().queued_messages, vec!["first queued"]);
    assert_eq!(turn.sessions[0].queued_messages, vec!["first queued"]);
    assert_eq!(turn.sessions[0].status, Status::InProgress);
    assert_eq!(turn.shared().status, Status::InProgress);
    assert!(!turn.shared().is_cancelled);
}

#[test]
fn test_end_in_progress_turn_drains_queue_one_press_at_a_time_then_cancels() {
    // Arrange
    let mut turn = Turn::new(Status::InProgress, &["first queued", "second queued"]);

    // Act
    turn.press();
    turn.press();

    // Assert
    assert!(turn.shared().queued_messages.is_empty());
    assert!(turn.sessions[0].queued_messages.is_empty());
    assert_eq!(turn.sessions[0].status, Status::InProgress);
    assert!(!turn.shared().is_cancelled);

    // Act
    turn.press();

    // Assert
    assert!(turn.shared().is_cancelled);
    assert_eq!(turn.sessions[0].status, Status::Review);
}

#[test]
fn test_end_in_progress_turn_second_press_after_empty_queue_cancels_turn() {
    // Arrange
    let mut turn = Turn::new(Status::InProgress, &[]);

    // Act
    let end = turn.press();

    // Assert
    assert!(matches!(end, TurnEnd::CancelTurn));
    assert!(turn.shared().is_cancelled);
    assert_eq!(turn.sessions[0].status, Status::Review);
    assert_eq!(turn.shared().status, Status::Review);
}

#[test]
fn test_pop_last_queued_chat_message_resyncs_snapshot_after_worker_drain() {
    // Arrange
    let mut turn = Turn::new(Status::InProgress, &["first queued", "second queued"]);
    if let Some(handle) = &mut turn.handle {
        handle.queued_messages.pop_front();
    }

    // Act
    turn.press();

    // Assert
    assert!(turn.shared().queued_messages.is_empty());
    assert!(turn.sessions[0].queued_messages.is_empty());
}

#[test]
fn test_retracted_message_leaves_the_rest_of_the_row() {
    // Arrange
    let mut turn = Turn::new(Status::InProgress, &["first queued", "second queued"]);
    turn.sessions[0].prompt = "Write a test".to_string();
    turn.sessions[0].title = "Tests".to_string();

    // Act
    turn.press();

    // Assert
    assert_eq!(turn.sessions[0].status, Status::InProgress);
    assert_eq!(turn.sessions[0].prompt, "Write a test");
    assert_eq!(turn.sessions[0].title, "Tests");
    assert_eq!(turn.sessions[0].id, SESSION_ID);
    assert!(turn.cache.get(SESSION_ID).is_none());
}

#[test]
fn test_unstored_status_leaves_the_session_running() {
    // Arrange
    let mut turn = Turn::new(Status::InProgress, &[]);

    // Act
    cancel_in_progress_turn(&mut turn.handle);
    let events = finish_cancelled_turn(
        &mut turn.handle,
        &mut turn.sessions,
        &mut turn.cache,
        &SESSION_ID.to_string(),
        false,
    );

    // Assert
    assert!(events.is_empty());
    assert!(turn.shared().is_cancelled);
    assert_eq!(turn.shared().status, Status::InProgress);
    assert_eq!(turn.sessions[0].status, Status::InProgress);
    assert!(turn.cache.get(SESSION_ID).is_none());
}

#[test]
fn test_suppressed_review_can_still_be_asked_for() {
    // Arrange
    let mut cache = cache_with(ReviewCacheEntry::Suppressed { diff_hash: 0 });
    cache.insert(
        "session-2".to_string(),
        ReviewCacheEntry::Loading { diff_hash: 1 },
    );

    // Act
    let start = open_review(&mut cache, 0, "+line");

    // Assert
    assert!(start.is_some());
    assert!(matches!(
        cache.get(SESSION_ID),
        Some(ReviewCacheEntry::Loading { diff_hash: 77 })
    ));
    assert!(matches!(
        cache.get("session-2"),
        Some(ReviewCacheEntry::Loading { diff_hash: 1 })
    ));
}
