use agentty_tui::app_mode::AppMode;
use agentty_tui::prompt_history::prompt_history_entries;
use agentty_tui::session::Status;
use agentty_tui::session_view::{
    ViewMetrics, apply_view_scroll_and_output_mode, is_review_loading_status_message,
    is_view_action_allowed, is_view_diff_allowed, is_view_rebase_allowed, is_view_review_allowed,
    is_view_worktree_open_allowed, review_loading_message, scroll_offset_down,
    scroll_offset_half_page_down, scroll_offset_half_page_up, scroll_offset_up,
};

#[test]
fn test_is_view_worktree_open_allowed_returns_false_for_canceled() {
    // Arrange
    let status = Status::Canceled;

    // Act
    let can_open = is_view_worktree_open_allowed(status);

    // Assert
    assert!(!can_open);
}

#[test]
fn test_is_view_worktree_open_allowed_returns_false_for_in_progress() {
    // Arrange
    let status = Status::InProgress;

    // Act
    let can_open = is_view_worktree_open_allowed(status);

    // Assert
    assert!(!can_open);
}

#[test]
fn test_is_view_worktree_open_allowed_returns_false_for_rebasing() {
    // Arrange
    let status = Status::Rebasing;

    // Act
    let can_open = is_view_worktree_open_allowed(status);

    // Assert
    assert!(!can_open);
}

#[test]
fn test_is_view_worktree_open_allowed_returns_false_for_merge_queue_statuses() {
    // Arrange
    let merge_queue_statuses = [Status::Queued, Status::Merging];

    // Act
    let can_open_for_statuses: Vec<bool> = merge_queue_statuses
        .iter()
        .map(|status| is_view_worktree_open_allowed(*status))
        .collect();

    // Assert
    assert!(can_open_for_statuses.iter().all(|can_open| !can_open));
}

#[test]
fn test_is_view_action_allowed_only_for_non_done_non_in_progress_status() {
    // Arrange
    let canceled_status = Status::Canceled;
    let review_status = Status::Review;
    let in_progress_status = Status::InProgress;
    let done_status = Status::Done;

    // Act
    let canceled_allowed = is_view_action_allowed(canceled_status);
    let review_allowed = is_view_action_allowed(review_status);
    let in_progress_allowed = is_view_action_allowed(in_progress_status);
    let done_allowed = is_view_action_allowed(done_status);

    // Assert
    assert!(!canceled_allowed);
    assert!(review_allowed);
    assert!(!in_progress_allowed);
    assert!(!done_allowed);
}

#[test]
fn test_is_view_diff_allowed_only_for_review_status() {
    // Arrange
    let review_status = Status::Review;
    let new_status = Status::Draft;
    let in_progress_status = Status::InProgress;

    // Act
    let review_allowed = is_view_diff_allowed(review_status);
    let new_allowed = is_view_diff_allowed(new_status);
    let in_progress_allowed = is_view_diff_allowed(in_progress_status);

    // Assert
    assert!(review_allowed);
    assert!(!new_allowed);
    assert!(!in_progress_allowed);
}

#[test]
fn test_is_view_review_allowed_only_for_review_status() {
    // Arrange
    let review_status = Status::Review;
    let agent_review_status = Status::AgentReview;
    let done_status = Status::Done;
    let in_progress_status = Status::InProgress;

    // Act
    let review_allowed = is_view_review_allowed(review_status);
    let agent_review_allowed = is_view_review_allowed(agent_review_status);
    let done_allowed = is_view_review_allowed(done_status);
    let in_progress_allowed = is_view_review_allowed(in_progress_status);

    // Assert
    assert!(review_allowed);
    assert!(agent_review_allowed);
    assert!(!done_allowed);
    assert!(!in_progress_allowed);
}

#[test]
fn test_is_view_rebase_allowed_matches_backend_status_gate() {
    // Arrange
    let draft_status = Status::Draft;
    let review_status = Status::Review;
    let agent_review_status = Status::AgentReview;
    let question_status = Status::Question;
    let in_progress_status = Status::InProgress;

    // Act
    let draft_allowed = is_view_rebase_allowed(draft_status);
    let review_allowed = is_view_rebase_allowed(review_status);
    let agent_review_allowed = is_view_rebase_allowed(agent_review_status);
    let question_allowed = is_view_rebase_allowed(question_status);
    let in_progress_allowed = is_view_rebase_allowed(in_progress_status);

    // Assert
    assert!(!draft_allowed);
    assert!(review_allowed);
    assert!(agent_review_allowed);
    assert!(!question_allowed);
    assert!(in_progress_allowed);
}

#[test]
fn test_prompt_history_entries_extracts_user_prompts() {
    // Arrange
    let output = " › first\n\nassistant\n\n › second\n\n";

    // Act
    let entries = prompt_history_entries(output);

    // Assert
    assert_eq!(entries, vec!["first".to_string(), "second".to_string()]);
}

#[test]
fn test_prompt_history_entries_keeps_multiline_prompts() {
    // Arrange
    let output = " › first line\n   second line\n\nassistant\n\n";

    // Act
    let entries = prompt_history_entries(output);

    // Assert
    assert_eq!(entries, vec!["first line\nsecond line".to_string()]);
}

#[test]
fn test_prompt_history_entries_keeps_multiple_blank_lines_in_prompts() {
    // Arrange
    let output = " › first line\n   \n   \n   after gap\n\nassistant\n\n";

    // Act
    let entries = prompt_history_entries(output);

    // Assert
    assert_eq!(entries, vec!["first line\n\n\nafter gap".to_string()]);
}

#[test]
fn test_prompt_history_entries_ignores_non_prompt_lines() {
    // Arrange
    let output = "assistant line\n\n";

    // Act
    let entries = prompt_history_entries(output);

    // Assert
    assert!(entries.is_empty());
}

#[test]
fn prompt_history_keeps_unindented_continuation_lines() {
    let entries = prompt_history_entries("note\n › one\ntwo\n  three\n › four\r\n\n › five");

    assert_eq!(
        entries,
        vec!["one\ntwo\n  three\n › four".to_string(), "five".to_string()]
    );
}

#[test]
fn test_scroll_offset_down_returns_none_at_end_of_content() {
    // Arrange
    let metrics = ViewMetrics {
        total_lines: 20,
        view_height: 10,
    };

    // Act
    let next_offset = scroll_offset_down(Some(9), metrics, 1);

    // Assert
    assert_eq!(next_offset, None);
}

#[test]
fn test_scroll_offset_up_uses_bottom_when_scroll_is_unset() {
    // Arrange
    let metrics = ViewMetrics {
        total_lines: 30,
        view_height: 10,
    };

    // Act
    let next_offset = scroll_offset_up(None, metrics, 5);

    // Assert
    assert_eq!(next_offset, 15);
}

#[test]
fn half_page_scrolling_goes_up_and_comes_back() {
    let metrics = ViewMetrics {
        total_lines: 60,
        view_height: 10,
    };

    assert_eq!(scroll_offset_half_page_up(Some(20), metrics), 15);
    assert_eq!(scroll_offset_half_page_down(Some(15), metrics), Some(20));
    assert_eq!(scroll_offset_half_page_down(Some(45), metrics), None);
    assert_eq!(scroll_offset_half_page_down(None, metrics), None);
}

#[test]
fn test_apply_view_scroll_and_output_mode_updates_scroll_state() {
    // Arrange
    let mut mode = AppMode::View {
        session_id: "session-1".to_string(),
        scroll_offset: Some(3),
    };

    // Act
    apply_view_scroll_and_output_mode(&mut mode, Some(1));

    // Assert
    assert!(matches!(
        mode,
        AppMode::View {
            ref session_id,
            scroll_offset: Some(1),
        } if session_id == "session-1"
    ));
}

#[test]
fn test_is_review_loading_status_message_matches_model_aware_message() {
    // Arrange
    let status_message = review_loading_message("gpt-5.5");

    // Act
    let is_loading = is_review_loading_status_message(&status_message);

    // Assert
    assert!(is_loading);
}

#[test]
fn test_is_review_loading_status_message_rejects_unrelated_message() {
    // Arrange
    let status_message = "Review complete.";

    // Act
    let is_loading = is_review_loading_status_message(status_message);

    // Assert
    assert!(!is_loading);
}

#[test]
fn test_is_view_worktree_open_allowed_disables_canceled_state() {
    // Arrange
    let status = Status::Canceled;

    // Act
    let result = is_view_worktree_open_allowed(status);

    // Assert
    assert!(!result);
}

#[test]
fn test_is_view_worktree_open_allowed_disables_done_state() {
    // Arrange
    let status = Status::Done;

    // Act
    let result = is_view_worktree_open_allowed(status);

    // Assert
    assert!(!result);
}

#[test]
fn test_is_view_worktree_open_allowed_disables_queued_state() {
    // Arrange
    let status = Status::Queued;

    // Act
    let result = is_view_worktree_open_allowed(status);

    // Assert
    assert!(!result);
}

#[test]
fn test_is_view_worktree_open_allowed_enables_review_state() {
    // Arrange
    let status = Status::Review;

    // Act
    let result = is_view_worktree_open_allowed(status);

    // Assert
    assert!(result);
}
