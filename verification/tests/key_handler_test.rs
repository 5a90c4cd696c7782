use agentty_tui::app_mode::{
    AppMode, Confirmation, ConfirmationIntent, ConfirmationViewMode, DiffComment,
    DiffCommentTarget, DiffFocus, DiffLineComments, DiffMode, DiffPreview, DiffReviewComments,
    DiffSidebarFocus, PublishBranchAction, PublishBranchInput,
};
use agentty_tui::confirmation::{
    ConfirmationDecision, ConfirmedAction, IntegrationApproach, confirmation_cancel_mode,
};
use agentty_tui::geometry::ViewportRect;
use agentty_tui::input::InputState;
use agentty_tui::key::{KeyCode, KeyEvent, KeyModifiers, is_plain_char_key, is_shift_char_key};
use agentty_tui::key_dispatch::{KeyAction, PopupFacts, handle_key_event};
use agentty_tui::key_handler::{KeyRoute, content_area_for_terminal, key_route, sends_reply};
use agentty_tui::launch_configuration_selector::{
    next_launch_configuration_index, previous_launch_configuration_index,
};
use agentty_tui::project_switcher::show_switch_failure;
use agentty_tui::project_switcher_overlay::ProjectListItem;
use agentty_tui::session::{Session, Status};
use agentty_tui::session_creation::{
    CreateSessionMode, SelectedSessionFacts, selected_stack_append_session_id,
    selected_stacked_parent_session_id,
};
use agentty_tui::stack_append::{show_append_failure, stack_append_parent_session_ids};

fn session(id: &str) -> Session {
    Session {
        base_branch: "main".to_string(),
        folder: "/tmp/session".to_string(),
        id: id.to_string(),
        is_draft: false,
        parent_session_id: None,
        prompt: String::new(),
        published_upstream_ref: None,
        queued_messages: Vec::new(),
        replay_text: None,
        status: Status::Review,
        title: String::new(),
        transcript: Vec::new(),
        updated_at: 0,
    }
}

fn project(id: i64, label: &str) -> ProjectListItem {
    ProjectListItem {
        active_session_count: 0,
        id,
        label: label.to_string(),
    }
}

fn view() -> ConfirmationViewMode {
    ConfirmationViewMode {
        scroll_offset: Some(6),
        session_id: "session-1".to_string(),
    }
}

fn is_restored_view(mode: &AppMode) -> bool {
    matches!(
        mode,
        AppMode::View { scroll_offset: Some(6), session_id } if session_id == "session-1"
    )
}

fn popup(intent: ConfirmationIntent) -> Confirmation {
    Confirmation {
        confirmation_intent: intent,
        confirmation_message: "Sure?".to_string(),
        confirmation_title: "Confirm".to_string(),
        restore_view: Some(view()),
        selected_confirmation_index: 0,
        session_id: Some("session-1".to_string()),
    }
}

fn facts() -> PopupFacts {
    PopupFacts {
        active_project_id: 1,
        confirmation_decision: ConfirmationDecision::Continue,
        confirmation_index: 0,
        edited_branch_name: None,
        projects: vec![project(1, "agentty"), project(2, "website")],
        selected_session: SelectedSessionFacts {
            append_source: None,
            stacked_parent: None,
        },
        stack_parents: vec!["parent-1".to_string(), "parent-2".to_string()],
    }
}

fn key(code: KeyCode) -> KeyEvent {
    KeyEvent::new(code, KeyModifiers::none())
}

fn press_with(mode: &mut AppMode, facts: PopupFacts, code: KeyCode) -> KeyAction {
    let sessions = vec![session("session-1")];

    let outcome = handle_key_event(mode, &sessions, true, facts, key(code));
    assert!(outcome.redraws, "every key paints the screen anew");

    outcome.action
}

fn press(mode: &mut AppMode, code: KeyCode) -> KeyAction {
    press_with(mode, facts(), code)
}

fn decide(popup: Confirmation, decision: ConfirmationDecision) -> (KeyAction, AppMode) {
    let mut mode = AppMode::Confirmation(popup);
    let facts = PopupFacts {
        confirmation_decision: decision,
        ..facts()
    };
    let action = press_with(&mut mode, facts, KeyCode::Enter);

    (action, mode)
}

#[test]
fn test_key_that_changes_nothing_paints_the_screen_anew() {
    // Arrange
    let mut mode = AppMode::SessionCreation {
        selected_option_index: 1,
    };

    // Act
    let outcome = handle_key_event(
        &mut mode,
        &Vec::new(),
        true,
        facts(),
        key(KeyCode::Char('x')),
    );

    // Assert
    assert!(outcome.redraws);
    assert!(matches!(outcome.action, KeyAction::Nothing));
    assert!(matches!(
        mode,
        AppMode::SessionCreation {
            selected_option_index: 1
        }
    ));
}

#[test]
fn test_confirmed_quit_ends_the_program() {
    // Arrange, Act
    let (action, mode) = decide(
        popup(ConfirmationIntent::Quit),
        ConfirmationDecision::Confirm,
    );
    let (cancelled, _) = decide(popup(ConfirmationIntent::Quit), ConfirmationDecision::Cancel);

    // Assert
    assert!(action.quits());
    assert!(matches!(mode, AppMode::List));
    assert!(!cancelled.quits());
}

#[test]
fn test_cancelled_popup_brings_back_its_view() {
    // Arrange, Act
    let (action, merge) = decide(
        popup(ConfirmationIntent::MergeSession),
        ConfirmationDecision::Cancel,
    );
    let (_, cancel_session) = decide(
        popup(ConfirmationIntent::CancelSession),
        ConfirmationDecision::Cancel,
    );
    let (_, undecided) = decide(
        popup(ConfirmationIntent::MergeSession),
        ConfirmationDecision::Continue,
    );

    // Assert
    assert!(matches!(
        action,
        KeyAction::Confirmed(ConfirmedAction::Nothing)
    ));
    assert!(is_restored_view(&merge));
    assert!(matches!(cancel_session, AppMode::List));
    assert!(matches!(undecided, AppMode::Confirmation(_)));
    assert!(matches!(
        confirmation_cancel_mode(&AppMode::List),
        AppMode::List
    ));
}

#[test]
fn test_key_moves_the_highlighted_answer() {
    // Arrange
    let mut mode = AppMode::Confirmation(popup(ConfirmationIntent::MergeSession));
    let facts = PopupFacts {
        confirmation_index: 1,
        ..facts()
    };

    // Act
    let action = press_with(&mut mode, facts, KeyCode::Right);

    // Assert
    assert!(matches!(
        action,
        KeyAction::Confirmed(ConfirmedAction::Nothing)
    ));
    assert!(matches!(
        mode,
        AppMode::Confirmation(shown)
            if shown.selected_confirmation_index == 1
                && shown.confirmation_intent == ConfirmationIntent::MergeSession
                && shown.session_id.as_deref() == Some("session-1")
    ));
}

#[test]
fn test_confirmed_merge_goes_back_to_the_view() {
    // Arrange, Act
    let (action, mode) = decide(
        popup(ConfirmationIntent::MergeSession),
        ConfirmationDecision::Confirm,
    );

    // Assert
    assert!(matches!(
        action,
        KeyAction::Confirmed(ConfirmedAction::MergeSession { session_id })
            if session_id == "session-1"
    ));
    assert!(is_restored_view(&mode));
}

#[test]
fn test_confirmations_without_a_session_do_nothing() {
    // Arrange
    let intents = [
        ConfirmationIntent::ContinueSession,
        ConfirmationIntent::ForkSession,
        ConfirmationIntent::DetachManagedSession,
        ConfirmationIntent::ChooseIntegrationApproach,
        ConfirmationIntent::MergeSession,
    ];

    for intent in intents {
        // Act
        let nameless = Confirmation {
            session_id: None,
            ..popup(intent)
        };
        let (action, mode) = decide(nameless, ConfirmationDecision::Confirm);

        // Assert
        assert!(matches!(
            action,
            KeyAction::Confirmed(ConfirmedAction::Nothing)
        ));
        assert!(is_restored_view(&mode));
    }
}

#[test]
fn test_confirmed_work_on_a_session_keeps_the_popup_until_it_is_done() {
    // Arrange, Act
    let (continued, mode) = decide(
        popup(ConfirmationIntent::ContinueSession),
        ConfirmationDecision::Confirm,
    );
    let (forked, _) = decide(
        popup(ConfirmationIntent::ForkSession),
        ConfirmationDecision::Confirm,
    );
    let (detached, _) = decide(
        popup(ConfirmationIntent::DetachManagedSession),
        ConfirmationDecision::Confirm,
    );
    let (cancelled, list) = decide(
        popup(ConfirmationIntent::CancelSession),
        ConfirmationDecision::Confirm,
    );

    // Assert
    assert!(matches!(
        continued,
        KeyAction::Confirmed(ConfirmedAction::ContinueSession { restore_view: Some(_), .. })
    ));
    assert!(matches!(mode, AppMode::Confirmation(_)));
    assert!(matches!(
        forked,
        KeyAction::Confirmed(ConfirmedAction::ForkSession { .. })
    ));
    assert!(matches!(
        detached,
        KeyAction::Confirmed(ConfirmedAction::DetachManagedSession { .. })
    ));
    assert!(matches!(
        cancelled,
        KeyAction::Confirmed(ConfirmedAction::CancelSession { .. })
    ));
    assert!(matches!(list, AppMode::List));
}

#[test]
fn test_integration_is_delivered_by_either_answer() {
    // Arrange, Act
    let (confirmed, _) = decide(
        popup(ConfirmationIntent::ChooseIntegrationApproach),
        ConfirmationDecision::Confirm,
    );
    let (rejected, _) = decide(
        popup(ConfirmationIntent::ChooseIntegrationApproach),
        ConfirmationDecision::Reject,
    );
    let (other, mode) = decide(
        popup(ConfirmationIntent::MergeSession),
        ConfirmationDecision::Reject,
    );

    // Assert
    assert!(matches!(
        confirmed,
        KeyAction::Confirmed(ConfirmedAction::ApproveIntegration {
            approach: IntegrationApproach::LocalMerge,
            ..
        })
    ));
    assert!(matches!(
        rejected,
        KeyAction::Confirmed(ConfirmedAction::ApproveIntegration {
            approach: IntegrationApproach::ReviewRequest,
            ..
        })
    ));
    assert!(matches!(
        other,
        KeyAction::Confirmed(ConfirmedAction::Nothing)
    ));
    assert!(is_restored_view(&mode));
}

#[test]
fn test_regenerated_review_needs_its_session() {
    // Arrange
    let missing = Confirmation {
        restore_view: None,
        session_id: Some("gone".to_string()),
        ..popup(ConfirmationIntent::RegenerateReview)
    };
    let listed = Confirmation {
        restore_view: None,
        ..popup(ConfirmationIntent::RegenerateReview)
    };

    // Act
    let (missing_action, missing_mode) = decide(missing, ConfirmationDecision::Confirm);
    let (listed_action, listed_mode) = decide(listed, ConfirmationDecision::Confirm);

    // Assert
    assert!(matches!(
        missing_action,
        KeyAction::Confirmed(ConfirmedAction::RegenerateReview {
            starts_review: false,
            ..
        })
    ));
    assert!(matches!(missing_mode, AppMode::List));
    assert!(matches!(
        listed_action,
        KeyAction::Confirmed(ConfirmedAction::RegenerateReview {
            starts_review: true,
            ..
        })
    ));
    assert!(matches!(
        listed_mode,
        AppMode::View { scroll_offset: None, session_id } if session_id == "session-1"
    ));
}

#[test]
fn test_managed_worktree_opens_for_the_viewed_session_only() {
    // Arrange
    let other = Confirmation {
        session_id: Some("session-2".to_string()),
        ..popup(ConfirmationIntent::OpenManagedWorktree)
    };

    // Act
    let (viewed, _) = decide(
        popup(ConfirmationIntent::OpenManagedWorktree),
        ConfirmationDecision::Confirm,
    );
    let (not_viewed, mode) = decide(other, ConfirmationDecision::Confirm);

    // Assert
    assert!(matches!(
        viewed,
        KeyAction::Confirmed(ConfirmedAction::OpenManagedWorktree { .. })
    ));
    assert!(matches!(
        not_viewed,
        KeyAction::Confirmed(ConfirmedAction::Nothing)
    ));
    assert!(is_restored_view(&mode));
}

fn creation(selected_option_index: usize) -> AppMode {
    AppMode::SessionCreation {
        selected_option_index,
    }
}

fn creation_facts(append: bool, stack: bool) -> PopupFacts {
    PopupFacts {
        selected_session: SelectedSessionFacts {
            append_source: append.then(|| "session-1".to_string()),
            stacked_parent: stack.then(|| "session-1".to_string()),
        },
        ..facts()
    }
}

#[test]
fn test_session_creation_skips_options_that_cannot_be_chosen() {
    // Arrange
    let mut mode = creation(2);
    let mut last = creation(4);
    let mut blocked = creation(2);

    // Act
    press_with(&mut mode, creation_facts(true, false), KeyCode::Down);
    press_with(&mut last, creation_facts(true, false), KeyCode::Up);
    press_with(&mut blocked, creation_facts(false, false), KeyCode::Down);

    // Assert
    assert!(matches!(
        mode,
        AppMode::SessionCreation {
            selected_option_index: 4
        }
    ));
    assert!(matches!(
        last,
        AppMode::SessionCreation {
            selected_option_index: 2
        }
    ));
    assert!(matches!(
        blocked,
        AppMode::SessionCreation {
            selected_option_index: 2
        }
    ));
}

#[test]
fn test_session_creation_creates_the_highlighted_type() {
    // Arrange
    let enter = |index: usize, facts: PopupFacts| {
        let mut mode = creation(index);
        let action = press_with(&mut mode, facts, KeyCode::Enter);

        (action, mode)
    };

    // Act
    let (regular, _) = enter(0, facts());
    let (draft, _) = enter(1, facts());
    let (orchestrator, _) = enter(2, facts());
    let (stacked, _) = enter(3, creation_facts(false, true));
    let (unavailable, _) = enter(3, facts());
    let (append, append_mode) = enter(4, creation_facts(true, false));

    // Assert
    assert!(matches!(
        regular,
        KeyAction::CreateSession(CreateSessionMode::Regular)
    ));
    assert!(matches!(
        draft,
        KeyAction::CreateSession(CreateSessionMode::Draft)
    ));
    assert!(matches!(
        orchestrator,
        KeyAction::CreateSession(CreateSessionMode::Orchestrator)
    ));
    assert!(matches!(
        stacked,
        KeyAction::CreateSession(CreateSessionMode::Stacked { parent_session_id })
            if parent_session_id == "session-1"
    ));
    assert!(matches!(unavailable, KeyAction::Nothing));
    assert!(matches!(append, KeyAction::Nothing));
    assert!(matches!(
        append_mode,
        AppMode::StackAppendParentSelection { selected_parent_index: 0, session_id }
            if session_id == "session-1"
    ));
}

#[test]
fn test_session_creation_closes_on_either_q() {
    // Arrange
    let mut lower = creation(0);
    let mut upper = creation(0);

    // Act
    press(&mut lower, KeyCode::Char('q'));
    press(&mut upper, KeyCode::Char('Q'));

    // Assert
    assert!(matches!(lower, AppMode::List));
    assert!(matches!(upper, AppMode::List));
}

#[test]
fn test_selected_session_is_offered_where_it_can_take_part() {
    // Arrange
    let selected = session("session-1");

    // Act, Assert
    assert_eq!(
        selected_stacked_parent_session_id(Some(&selected), true).as_deref(),
        Some("session-1")
    );
    assert_eq!(selected_stacked_parent_session_id(Some(&selected), false), None);
    assert_eq!(
        selected_stack_append_session_id(Some(&selected), &vec![false, true]).as_deref(),
        Some("session-1")
    );
    assert_eq!(
        selected_stack_append_session_id(Some(&selected), &vec![false, false]),
        None
    );
    assert_eq!(selected_stack_append_session_id(None, &vec![true]), None);
}

#[test]
fn test_warning_leads_to_the_session_types_or_back() {
    // Arrange
    let mut accepted = AppMode::PreCommitHookWarning;
    let mut closed = AppMode::PreCommitHookWarning;
    let mut kept = AppMode::PreCommitHookWarning;

    // Act
    press(&mut accepted, KeyCode::Enter);
    press(&mut closed, KeyCode::Esc);
    press(&mut kept, KeyCode::Char('x'));

    // Assert
    assert!(matches!(
        accepted,
        AppMode::SessionCreation {
            selected_option_index: 0
        }
    ));
    assert!(matches!(closed, AppMode::List));
    assert!(matches!(kept, AppMode::PreCommitHookWarning));
}

#[test]
fn test_project_switcher_moves_and_switches() {
    // Arrange
    let switcher = |index: usize| AppMode::ProjectSwitcher {
        selected_option_index: index,
    };
    let mut at_end = switcher(1);
    let mut other = switcher(1);
    let mut active = switcher(0);

    // Act
    press(&mut at_end, KeyCode::Down);
    let switched = press(&mut other, KeyCode::Enter);
    let stayed = press(&mut active, KeyCode::Enter);

    // Assert
    assert!(matches!(
        at_end,
        AppMode::ProjectSwitcher {
            selected_option_index: 1
        }
    ));
    assert!(matches!(
        switched,
        KeyAction::SwitchProject(switch) if switch.project_id == 2 && switch.label == "website"
    ));
    assert!(matches!(other, AppMode::List));
    assert!(matches!(stayed, KeyAction::Nothing));
    assert!(matches!(active, AppMode::List));
}

#[test]
fn test_failures_are_shown_in_a_popup() {
    // Arrange
    let mut switch = AppMode::List;
    let mut append = AppMode::List;

    // Act
    show_switch_failure(&mut switch, "website".to_string(), "no folder".to_string());
    show_append_failure(&mut append, "not stackable".to_string());

    // Assert
    assert!(matches!(
        &switch,
        AppMode::SyncBlockedPopup { is_loading: false, message, project_name, title, .. }
            if message == "no folder"
                && project_name.as_deref() == Some("website")
                && title == "Project switch failed"
    ));
    assert!(matches!(
        &append,
        AppMode::SyncBlockedPopup { message, project_name: None, title, .. }
            if message == "not stackable" && title == "Append to stack failed"
    ));
}

fn selector(index: usize) -> AppMode {
    AppMode::LaunchConfigurationSelector {
        commands: vec!["cargo test".to_string(), "npm run dev".to_string()],
        restore_view: view(),
        selected_command_index: index,
    }
}

#[test]
fn test_launch_configuration_selector_goes_around() {
    // Arrange
    let mut forward = selector(1);
    let mut backward = selector(0);

    // Act
    press(&mut forward, KeyCode::Char('j'));
    press(&mut backward, KeyCode::Up);

    // Assert
    assert!(matches!(
        forward,
        AppMode::LaunchConfigurationSelector {
            selected_command_index: 0,
            ..
        }
    ));
    assert!(matches!(
        backward,
        AppMode::LaunchConfigurationSelector {
            selected_command_index: 1,
            ..
        }
    ));
    assert_eq!(next_launch_configuration_index(3, &Vec::new()), 0);
    assert_eq!(previous_launch_configuration_index(3, &Vec::new()), 0);
}

#[test]
fn test_launch_configuration_selector_runs_the_selected_command() {
    // Arrange
    let mut chosen = selector(1);
    let mut out_of_range = selector(7);
    let mut closed = selector(0);

    // Act
    let opening = press(&mut chosen, KeyCode::Enter);
    let bare = press(&mut out_of_range, KeyCode::Enter);
    press(&mut closed, KeyCode::Char('q'));

    // Assert
    assert!(matches!(
        opening,
        KeyAction::OpenWorktree(opening) if opening.command.as_deref() == Some("npm run dev")
    ));
    assert!(is_restored_view(&chosen));
    assert!(matches!(
        bare,
        KeyAction::OpenWorktree(opening) if opening.command.is_none()
    ));
    assert!(is_restored_view(&closed));
}

fn branch_popup(text: &str, locked: Option<&str>) -> AppMode {
    AppMode::PublishBranchInput(PublishBranchInput {
        default_branch_name: "wt/session".to_string(),
        input: InputState::with_text(text),
        locked_upstream_ref: locked.map(str::to_string),
        publish_branch_action: PublishBranchAction::Push,
        restore_view: view(),
    })
}

#[test]
fn test_branch_name_is_published_trimmed() {
    // Arrange
    let published = |mut mode: AppMode| match press(&mut mode, KeyCode::Enter) {
        KeyAction::Publish(publication) => publication,
        _ => panic!("the branch should be published"),
    };

    // Act
    let named = published(branch_popup("  review/custom ", None));
    let blank = published(branch_popup("  ", None));
    let locked = published(branch_popup("review/custom", Some("origin/review/custom")));

    // Assert
    assert_eq!(named.remote_branch_name.as_deref(), Some("review/custom"));
    assert_eq!(named.session_id, "session-1");
    assert_eq!(named.action, PublishBranchAction::Push);
    assert_eq!(blank.remote_branch_name, None);
    assert_eq!(locked.remote_branch_name.as_deref(), Some("review/custom"));
}

#[test]
fn test_branch_name_takes_edits_unless_it_is_locked() {
    // Arrange
    let edit = |mut mode: AppMode| {
        let facts = PopupFacts {
            edited_branch_name: Some(InputState::with_text("branchq")),
            ..facts()
        };
        press_with(&mut mode, facts, KeyCode::Char('q'));

        match mode {
            AppMode::PublishBranchInput(popup) => popup.input.text,
            _ => panic!("the popup should stay open"),
        }
    };
    let mut closed = branch_popup("branch", None);

    // Act
    let free = edit(branch_popup("branch", None));
    let locked = edit(branch_popup("branch", Some("origin/branch")));
    press(&mut closed, KeyCode::Esc);

    // Assert
    assert_eq!(free, "branchq");
    assert_eq!(locked, "branch");
    assert!(is_restored_view(&closed));
}

fn parent_selection(index: usize) -> AppMode {
    AppMode::StackAppendParentSelection {
        selected_parent_index: index,
        session_id: "session-1".to_string(),
    }
}

#[test]
fn test_stack_parent_selection_stops_at_both_ends() {
    // Arrange
    let mut top = parent_selection(0);
    let mut bottom = parent_selection(1);

    // Act
    press(&mut top, KeyCode::Char('k'));
    press(&mut bottom, KeyCode::Down);

    // Assert
    assert!(matches!(
        top,
        AppMode::StackAppendParentSelection {
            selected_parent_index: 0,
            ..
        }
    ));
    assert!(matches!(
        bottom,
        AppMode::StackAppendParentSelection {
            selected_parent_index: 1,
            ..
        }
    ));
}

#[test]
fn test_stack_parent_selection_moves_the_session() {
    // Arrange
    let mut chosen = parent_selection(1);
    let mut stale = parent_selection(5);
    let mut back = parent_selection(0);

    // Act
    let append = press(&mut chosen, KeyCode::Enter);
    let nothing = press(&mut stale, KeyCode::Enter);
    press(&mut back, KeyCode::Esc);

    // Assert
    assert!(matches!(
        append,
        KeyAction::AppendToStack(append)
            if append.parent_session_id == "parent-2" && append.session_id == "session-1"
    ));
    assert!(matches!(chosen, AppMode::List));
    assert!(matches!(nothing, KeyAction::Nothing));
    assert!(matches!(
        back,
        AppMode::SessionCreation {
            selected_option_index: 4
        }
    ));
}

#[test]
fn test_eligible_parents_keep_their_order() {
    // Arrange
    let sessions = vec![session("a"), session("b"), session("c")];

    // Act
    let ids = stack_append_parent_session_ids(&sessions, &vec![true, false, true]);

    // Assert
    assert_eq!(ids, vec!["a", "c"]);
}

#[test]
fn test_info_popup_closes_once_it_is_loaded() {
    // Arrange
    let info = |is_loading: bool| AppMode::ViewInfoPopup {
        is_loading,
        message: "Syncing".to_string(),
        restore_view: view(),
        title: "Sync".to_string(),
    };
    let mut loading = info(true);
    let mut loaded = info(false);

    // Act
    press(&mut loading, KeyCode::Enter);
    press(&mut loaded, KeyCode::Char('Q'));

    // Assert
    assert!(matches!(loading, AppMode::ViewInfoPopup { .. }));
    assert!(is_restored_view(&loaded));
}

#[test]
fn test_loading_diff_is_given_up_by_its_keys() {
    // Arrange
    let mut mode = AppMode::DiffLoading {
        session_id: "session-1".to_string(),
    };

    // Act
    let ignored = press(&mut mode, KeyCode::Char('j'));
    let cancelled = press(&mut mode, KeyCode::Esc);

    // Assert
    assert!(matches!(ignored, KeyAction::Nothing));
    assert!(matches!(cancelled, KeyAction::CancelDiffLoad));
}

#[test]
fn test_pages_handle_their_own_keys() {
    // Arrange
    let mut list = AppMode::List;
    let mut session_view = view().into_view_mode();

    // Act
    let for_list = press(&mut list, KeyCode::Enter);
    let for_view = press(&mut session_view, KeyCode::Enter);

    // Assert
    assert!(matches!(for_list, KeyAction::ForPage(KeyRoute::List)));
    assert!(matches!(for_view, KeyAction::ForPage(KeyRoute::View)));
}

fn commented_diff(sidebar_focus: DiffSidebarFocus) -> AppMode {
    let mut line_comments = DiffLineComments::default();
    line_comments.comments.push(DiffComment {
        input: InputState::with_text("comment"),
        target: DiffCommentTarget::File {
            path: "src/main.rs".to_string(),
        },
    });

    AppMode::Diff(DiffMode {
        diff: String::new(),
        file_explorer_selected_index: 0,
        focus: DiffFocus::Files,
        line_comments,
        preview: DiffPreview::Disabled { request_id: 0 },
        restore: None,
        review_comments: Some(DiffReviewComments { sidebar_focus }),
        scroll_cache: None,
        scroll_offset: 0,
        selected_diff_line_index: 0,
        session_id: "session-1".to_string(),
    })
}

#[test]
fn test_review_comments_get_keys_while_they_have_the_keyboard() {
    // Arrange
    let sessions = vec![session("session-1")];
    let focused = commented_diff(DiffSidebarFocus::Comments);
    let unfocused = commented_diff(DiffSidebarFocus::Files);
    let route = |mode: &AppMode, code: KeyCode| key_route(mode, &sessions, true, key(code));

    // Act, Assert
    assert_eq!(
        route(&focused, KeyCode::Char('j')),
        KeyRoute::ReviewComments
    );
    assert_eq!(
        route(&focused, KeyCode::Char('?')),
        KeyRoute::Diff {
            submits_comments: false
        }
    );
    assert_eq!(
        route(&focused, KeyCode::Char('s')),
        KeyRoute::Diff {
            submits_comments: true
        }
    );
    assert_eq!(
        route(&unfocused, KeyCode::Char('j')),
        KeyRoute::Diff {
            submits_comments: false
        }
    );
}

#[test]
fn test_reply_is_sent_once_the_composer_is_open() {
    // Arrange
    let submits = KeyRoute::Diff {
        submits_comments: true,
    };

    // Act, Assert
    assert!(!sends_reply(
        submits,
        &commented_diff(DiffSidebarFocus::Files)
    ));
    assert!(!sends_reply(KeyRoute::List, &AppMode::List));
}

#[test]
fn test_content_area_lies_between_the_bars() {
    // Arrange, Act
    let area = content_area_for_terminal(80, 24);
    let lowest = content_area_for_terminal(40, 2);

    // Assert
    assert_eq!(
        area,
        ViewportRect {
            height: 22,
            width: 80,
            x: 0,
            y: 1
        }
    );
    assert_eq!(lowest.height, 0);
    assert_eq!(lowest.width, 40);
}

#[test]
fn test_shifted_letters_come_in_either_case() {
    // Arrange
    let shifted = |character: char| {
        KeyEvent::new(KeyCode::Char(character), KeyModifiers::shift())
    };

    // Act, Assert
    assert!(is_shift_char_key(shifted('V'), 'v'));
    assert!(is_shift_char_key(shifted('v'), 'V'));
    assert!(!is_shift_char_key(shifted('c'), 'v'));
    assert!(!is_shift_char_key(key(KeyCode::Char('V')), 'v'));
    assert!(is_plain_char_key(key(KeyCode::Char('s')), 's'));
    assert!(!is_plain_char_key(shifted('s'), 's'));
}
