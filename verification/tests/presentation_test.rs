use std::cell::RefCell;

use agentty_tui::app_mode::AppMode;
use agentty_tui::app_render::{
    AppViewSnapshot, FrameData, FramePages, PaintedFrame, RenderCacheStore, RenderContext,
    SessionReviewSnapshot, TableSelection,
};
use agentty_tui::geometry::ViewportRect;
use agentty_tui::layout_snapshot::{FrameLayout, ListRow, stacked_rows_list};
use agentty_tui::presentation::PresentationState;
use agentty_tui::tab::Tab;
use agentty_tui::viewport::{LayoutSnapshot, ListRegionKind, ScrollRegionKind, ScrollbarDrag};

/// Plain texts in place of what the pages show.
struct Texts;

impl FrameData for Texts {
    type ActivePromptOutputs = String;
    type AgentClis = String;
    type AssignedIssues = String;
    type DiffLayoutCache = String;
    type GitStatus = String;
    type MarkdownRenderCache = String;
    type OutputLayoutCache = String;
    type RequestedReviews = String;
    type ReviewComments = String;
    type SessionBranchNames = String;
    type SessionGitStatuses = String;
    type SessionIndex = String;
    type SessionProgress = String;
    type SessionVersions = String;
    type SessionWorktrees = String;
    type Settings = String;
    type StatsActivity = String;
    type SystemLogs = String;
    type Theme = String;
    type UpdateStatus = String;
}

/// Pages that write down what they are given and record what they are told.
struct Pages {
    painted: RefCell<Vec<String>>,
    records_list: bool,
    session_offset: usize,
}

impl Pages {
    fn new(records_list: bool) -> Self {
        Self {
            painted: RefCell::new(Vec::new()),
            records_list,
            session_offset: 3,
        }
    }
}

impl FramePages for Pages {
    type Data = Texts;

    fn paint(
        &self,
        theme: &String,
        context: RenderContext<'_, Texts>,
        recorder: FrameLayout,
    ) -> PaintedFrame {
        let mut recorder = recorder;
        assert!(recorder.layout.lists.is_empty(), "the recorder is cleared");
        assert!(recorder.layout.diff_file_list.is_none());
        let review = context.session_review.map_or("", |review| review.text.as_str());
        self.painted.borrow_mut().push(format!(
            "{theme} {} {} {} {review} {:?} {:?}",
            context.active_project_id,
            context.settings,
            context.markdown_render_cache,
            context.project_table_state,
            context.table_state,
        ));
        if self.records_list {
            recorder.record_list(stacked_rows_list(
                ListRegionKind::Sessions,
                ViewportRect::new(0, 0, 10, 2),
                &vec![ListRow::item(0)],
            ));
        }

        PaintedFrame {
            assigned_issue_table_state: context.assigned_issue_table_state,
            project_table_state: context.project_table_state,
            recorder,
            requested_review_table_state: context.requested_review_table_state,
            session_table_state: TableSelection {
                offset: self.session_offset,
                ..context.table_state
            },
        }
    }
}

fn caches() -> RenderCacheStore<Texts> {
    RenderCacheStore {
        diff_layout_cache: "diff-cache".to_string(),
        markdown_render_cache: "markdown-cache".to_string(),
        session_output_layout_cache: "output-cache".to_string(),
    }
}

/// Paints a frame of the session list.
fn render(state: &mut PresentationState, pages: &Pages, recorder: &mut FrameLayout) {
    let (mode, projects, sessions) = (AppMode::List, Vec::new(), Vec::new());
    let (session_id, text) = ("session-1".to_string(), "Looks good".to_string());
    let (shown, settings, theme) = (
        "shown".to_string(),
        "settings".to_string(),
        "dark".to_string(),
    );
    let snapshot = AppViewSnapshot {
        active_project_id: 7,
        active_prompt_outputs: &shown,
        assigned_issue_selected_index: None,
        assigned_issues: &shown,
        available_agent_clis: &shown,
        current_tab: Tab::Sessions,
        git_branch: None,
        git_status: &shown,
        git_upstream_ref: None,
        latest_available_version: None,
        mode: &mode,
        project_selected_index: None,
        projects: &projects,
        requested_review_selected_index: None,
        requested_reviews: &shown,
        review_comment_cache: &shown,
        session_branch_names: &shown,
        session_git_statuses: &shown,
        session_index_by_id: &shown,
        session_progress_messages: &shown,
        session_review: Some(SessionReviewSnapshot {
            session_id: &session_id,
            text: &text,
        }),
        session_selected_index: Some(5),
        session_update_versions: &shown,
        session_worktree_availability: &shown,
        sessions: &sessions,
        settings: &settings,
        stats_activity: &shown,
        status_bar_fyi_rotation_index: 0,
        system_log_tail_offset: 0,
        system_logs: &shown,
        theme: &theme,
        update_status: &shown,
        wall_clock_unix_seconds: 30,
        working_dir: &shown,
    };
    state.render(&snapshot, pages, &caches(), recorder);
}

#[test]
fn test_terminal_is_cleared_when_the_page_changes() {
    // Arrange
    let mut state = PresentationState::default();

    // Act
    let before_first_frame = state.terminal_clear_needed(3);
    state.record_rendered_surface(3);
    let same_page = state.terminal_clear_needed(3);
    let other_page = state.terminal_clear_needed(4);

    // Assert
    assert!(!before_first_frame);
    assert!(!same_page);
    assert!(other_page);
}

#[test]
fn test_drag_and_layout_are_kept_between_frames() {
    // Arrange
    let mut state = PresentationState::default();
    let drag = ScrollbarDrag {
        grab_row_within_thumb: 2,
        region: ScrollRegionKind::DiffPanel,
    };

    // Act
    state.set_mouse_drag(Some(drag));
    state.set_layout_snapshot(LayoutSnapshot::default());

    // Assert
    assert_eq!(state.mouse_drag, Some(drag));
    assert!(state.layout_snapshot.lists.is_empty());

    // Act
    state.set_mouse_drag(None);

    // Assert
    assert_eq!(state.mouse_drag, None);
}

#[test]
fn test_frame_brings_the_tables_to_the_selected_rows() {
    // Arrange
    let mut state = PresentationState::default();
    state.session_table_state.offset = 4;
    state.project_table_state.offset = 2;
    let pages = Pages::new(false);

    // Act
    render(&mut state, &pages, &mut FrameLayout::new());

    // Assert
    let selected = TableSelection {
        offset: 4,
        selected: Some(5),
    };
    assert_eq!(
        pages.painted.borrow().as_slice(),
        [format!(
            "dark 7 settings markdown-cache Looks good {:?} {selected:?}",
            TableSelection::default(),
        )]
    );
    assert_eq!(state.project_table_state, TableSelection::default());
}

#[test]
fn test_frame_keeps_the_tables_as_they_were_painted() {
    // Arrange
    let mut state = PresentationState::default();

    // Act
    render(&mut state, &Pages::new(false), &mut FrameLayout::new());

    // Assert
    assert_eq!(
        state.session_table_state,
        TableSelection {
            offset: 3,
            selected: Some(5)
        }
    );
}

#[test]
fn test_frame_keeps_exactly_what_was_recorded_while_it_was_painted() {
    // Arrange
    let mut state = PresentationState::default();
    let mut recorder = FrameLayout::new();
    recorder.record_diff_file_list(ViewportRect::new(0, 0, 5, 5));

    // Act
    render(&mut state, &Pages::new(true), &mut recorder);

    // Assert
    assert_eq!(state.layout_snapshot.lists.len(), 1);
    assert_eq!(state.layout_snapshot.diff_file_list, None);
    assert!(recorder.layout.lists.is_empty());
    assert_eq!(recorder.layout.diff_file_list, None);

    // Act
    render(&mut state, &Pages::new(false), &mut recorder);

    // Assert
    assert!(state.layout_snapshot.lists.is_empty());
}
