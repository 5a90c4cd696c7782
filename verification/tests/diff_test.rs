use agentty_tui::app_mode::{
    AppMode, AtMentionState, ChatFocus, DiffComment, DiffCommentTarget, DiffFocus,
    DiffLineCommentAnchor, DiffLineComments, DiffLineSide, DiffMode, DiffPreview,
    DiffPreviewUnavailableReason, DiffRestoreTarget, DiffReviewComments, DiffScrollCache,
    DiffSidebarFocus, HelpContext, PromptHistoryState, PromptModeSnapshot, QuestionModeSnapshot,
};
use agentty_tui::click_handler::{ClickFacts, ListPages, SettingsLists};
use agentty_tui::diff::{
    DiffEffects, DiffReplyFacts, handle_file_click, handle_key, handle_loading,
    handle_mouse_wheel,
};
use agentty_tui::diff_comments::{CommentEditor, MentionSync, handle_paste};
use agentty_tui::diff_page::{DiffContent, DiffItem, DiffPage, DiffPlace};
use agentty_tui::geometry::ViewportRect;
use agentty_tui::input::InputState;
use agentty_tui::key::{KeyCode, KeyEvent, KeyModifiers, MouseEvent, MouseEventKind};
use agentty_tui::mouse_handler::handle_mouse_event;
use agentty_tui::session::{Session, Status};
use agentty_tui::session_creation::SelectedSessionFacts;
use agentty_tui::tab::Tab;
use agentty_tui::viewport::{LayoutSnapshot, ScrollRegion, WheelDirection};

const AREA: ViewportRect = ViewportRect {
    height: 22,
    width: 80,
    x: 0,
    y: 1,
};

/// A page that paints each changed line in a row of its own.
struct Page {
    line_count: usize,
    max_scroll: u16,
}

impl DiffPage for Page {
    fn changed_line_count(&self, _: &DiffLineComments, _: DiffPlace) -> usize {
        self.line_count
    }

    fn changed_line_at_row(
        &self,
        _: &DiffLineComments,
        _: DiffPlace,
        scroll_offset: u16,
        row: u16,
    ) -> Option<usize> {
        let line = usize::from(scroll_offset) + usize::from(row);
        (line < self.line_count).then_some(line)
    }

    fn changed_line_scroll(
        &self,
        _: &DiffLineComments,
        _: DiffPlace,
        line: usize,
        _: u16,
    ) -> Option<u16> {
        u16::try_from(line).ok()
    }

    fn selection_scroll(
        &self,
        _: &DiffLineComments,
        _: DiffPlace,
        line: usize,
        comment: Option<usize>,
        _: u16,
    ) -> Option<u16> {
        u16::try_from(line + 10 * comment.map_or(0, |comment| comment + 1)).ok()
    }

    fn next_selection(
        &self,
        comments: &DiffLineComments,
        _: DiffPlace,
        line: usize,
        comment: Option<usize>,
    ) -> (usize, Option<usize>) {
        if comment.is_none() && !comments.comments.is_empty() {
            return (line, Some(0));
        }

        ((line + 1).min(self.line_count - 1), None)
    }

    fn previous_selection(
        &self,
        _: &DiffLineComments,
        _: DiffPlace,
        line: usize,
        comment: Option<usize>,
    ) -> (usize, Option<usize>) {
        if comment.is_some() {
            return (line, None);
        }

        (line.saturating_sub(1), None)
    }

    fn max_scroll_offset(&self, _: &DiffLineComments, _: &DiffPreview, _: DiffPlace) -> u16 {
        self.max_scroll
    }

    fn file_list_area(&self, area: ViewportRect, _: bool) -> ViewportRect {
        ViewportRect { width: 20, ..area }
    }
}

/// An editor that types characters and looks files up after an `@`.
struct Editor;

impl CommentEditor for Editor {
    fn start_editing(
        &self,
        mut comments: DiffLineComments,
        target: DiffCommentTarget,
    ) -> (DiffLineComments, usize) {
        let index = comments.comments.len();
        comments.comments.push(DiffComment {
            input: InputState::default(),
            target,
        });
        comments.editing_index = Some(index);
        comments.selection_start = None;

        (comments, index)
    }

    fn finish_editing(&self, mut comments: DiffLineComments) -> DiffLineComments {
        if let Some(index) = comments.editing_index {
            if comments.comments[index].input.text.is_empty() {
                comments.comments.remove(index);
            }
        }
        comments.editing_index = None;

        comments
    }

    fn inserts_newline(&self, key: KeyEvent) -> bool {
        key.code == KeyCode::Enter && key.modifiers.alt
    }

    fn is_enter_key(&self, code: KeyCode) -> bool {
        code == KeyCode::Enter
    }

    fn mention_above(&self, state: AtMentionState) -> AtMentionState {
        AtMentionState {
            selected_index: state.selected_index.saturating_sub(1),
        }
    }

    fn mention_below(&self, _: &InputState, state: AtMentionState) -> AtMentionState {
        AtMentionState {
            selected_index: state.selected_index + 1,
        }
    }

    fn with_mention(&self, input: &InputState, state: AtMentionState) -> Option<InputState> {
        Some(InputState::with_text(&format!(
            "{}file-{}",
            input.text, state.selected_index
        )))
    }

    fn edited(&self, input: &InputState, key: KeyEvent) -> Option<InputState> {
        match key.code {
            KeyCode::Char(character) => {
                Some(InputState::with_text(&format!("{}{character}", input.text)))
            }
            KeyCode::Enter => Some(InputState::with_text(&format!("{}\n", input.text))),
            _ => None,
        }
    }

    fn mention_sync(&self, input: &InputState, state: Option<AtMentionState>) -> MentionSync {
        if !input.text.contains('@') {
            return MentionSync::Dismiss;
        }
        if state.is_some() {
            return MentionSync::KeepOpen;
        }

        MentionSync::Activate
    }
}

fn anchor(line: usize) -> DiffLineCommentAnchor {
    DiffLineCommentAnchor {
        content: format!("line {line}"),
        line,
        path: "src/main.rs".to_string(),
        side: DiffLineSide::New,
    }
}

/// A folder, a source file with five changed lines and a guide.
fn content() -> DiffContent {
    DiffContent {
        items: vec![
            DiffItem {
                changed_lines: Vec::new(),
                is_markdown: false,
                path: None,
            },
            DiffItem {
                changed_lines: (0..5).map(anchor).collect(),
                is_markdown: false,
                path: Some("src/main.rs".to_string()),
            },
            DiffItem {
                changed_lines: Vec::new(),
                is_markdown: true,
                path: Some("src/guide.md".to_string()),
            },
        ],
    }
}

fn session() -> Session {
    Session {
        base_branch: "main".to_string(),
        folder: "/tmp/session".to_string(),
        id: "session-1".to_string(),
        is_draft: false,
        parent_session_id: None,
        prompt: String::new(),
        published_upstream_ref: None,
        queued_messages: Vec::new(),
        replay_text: None,
        status: Status::Review,
        title: String::new(),
        transcript: Vec::new(),
        updated_at: 0,
    }
}

fn diff_mode(focus: DiffFocus, selected: usize, preview: DiffPreview) -> DiffMode {
    DiffMode {
        diff: "diff --git a/src/main.rs b/src/main.rs\n".to_string(),
        file_explorer_selected_index: selected,
        focus,
        line_comments: DiffLineComments::default(),
        preview,
        restore: None,
        review_comments: None,
        scroll_cache: None,
        scroll_offset: 0,
        selected_diff_line_index: 0,
        session_id: "session-1".to_string(),
    }
}

fn preview_off() -> DiffPreview {
    DiffPreview::Disabled { request_id: 0 }
}

fn comment(text: &str) -> DiffComment {
    DiffComment {
        input: InputState::with_text(text),
        target: DiffCommentTarget::File {
            path: "src/main.rs".to_string(),
        },
    }
}

/// A layout whose diff panel and file list occupy distinct columns.
fn diff_layout() -> LayoutSnapshot {
    LayoutSnapshot {
        diff_file_list: Some(ViewportRect {
            height: 12,
            width: 20,
            x: 0,
            y: 0,
        }),
        diff_panel: Some(ScrollRegion {
            area: ViewportRect {
                height: 12,
                width: 60,
                x: 20,
                y: 0,
            },
            scrollbar: None,
            total_lines: 30,
            viewport_height: 10,
        }),
        ..LayoutSnapshot::default()
    }
}

fn wheel(diff: &mut DiffMode, column: u16, row: u16, direction: WheelDirection) -> bool {
    let (changed, request) = handle_mouse_wheel(
        diff,
        &content(),
        &vec![session()],
        &diff_layout(),
        column,
        row,
        direction,
    );
    assert!(request.is_none());

    changed
}

#[test]
fn test_handle_mouse_wheel_over_diff_panel_scrolls_and_clamps() {
    // Arrange
    let mut diff = diff_mode(DiffFocus::Files, 0, preview_off());
    diff.scroll_offset = 18;

    // Act
    let scrolled_down = wheel(&mut diff, 30, 5, WheelDirection::Down);
    let clamped = wheel(&mut diff, 30, 5, WheelDirection::Down);
    let scrolled_up = wheel(&mut diff, 30, 5, WheelDirection::Up);

    // Assert
    assert!(scrolled_down);
    assert!(!clamped);
    assert!(scrolled_up);
    assert_eq!(diff.scroll_offset, 17);
}

#[test]
fn test_handle_mouse_wheel_over_file_list_moves_selection_and_refreshes_preview() {
    // Arrange
    let unsupported = DiffPreview::Unsupported { request_id: 0 };
    let mut diff = diff_mode(DiffFocus::Content, 0, unsupported);
    diff.scroll_offset = 4;

    // Act
    let moved_down = wheel(&mut diff, 5, 5, WheelDirection::Down);
    let index_after_down = diff.file_explorer_selected_index;
    let moved_up = wheel(&mut diff, 5, 5, WheelDirection::Up);

    // Assert
    assert!(moved_down);
    assert_eq!(index_after_down, 1);
    assert!(moved_up);
    assert_eq!(diff.file_explorer_selected_index, 0);
    assert!(matches!(diff.preview, DiffPreview::Unsupported { request_id: 2 }));
    assert_eq!(diff.scroll_offset, 0);
    assert_eq!(diff.selected_diff_line_index, 0);
}

#[test]
fn test_handle_mouse_wheel_over_empty_file_list_keeps_selection() {
    // Arrange
    let mut diff = diff_mode(DiffFocus::Files, 0, preview_off());

    // Act
    let (changed, request) = handle_mouse_wheel(
        &mut diff,
        &DiffContent { items: Vec::new() },
        &vec![session()],
        &diff_layout(),
        5,
        5,
        WheelDirection::Down,
    );

    // Assert
    assert!(!changed);
    assert!(request.is_none());
    assert_eq!(diff.file_explorer_selected_index, 0);
}

#[test]
fn test_handle_mouse_wheel_ignores_non_diff_mode_and_pointer_outside_regions() {
    // Arrange
    let mut mode = AppMode::List;
    let mut pages = ListPages {
        current_tab: Tab::Sessions,
        project_count: 0,
        selected_project: None,
        selected_session: None,
        session_count: 0,
        settings: SettingsLists {
            is_editor_input_active: false,
            is_editor_open: false,
            is_selector_open: false,
            item_count: 10,
            selected_index: 0,
        },
    };
    let facts = ClickFacts {
        parent_count: 0,
        project_count: 0,
        selected: SelectedSessionFacts {
            append_source: None,
            stacked_parent: None,
        },
    };
    let mut in_list_mode = |column: u16| {
        let (outcome, _) = handle_mouse_event(
            &mut mode,
            &mut pages,
            &mut None,
            &diff_layout(),
            &content(),
            &vec![session()],
            &facts,
            MouseEvent {
                column,
                kind: MouseEventKind::ScrollDown,
                row: 5,
            },
        );

        agentty_tui::event::mouse_effect(outcome).redraws
    };
    let mut diff = diff_mode(DiffFocus::Files, 0, preview_off());

    // Act
    let panel_in_list_mode = in_list_mode(30);
    let file_list_in_list_mode = in_list_mode(5);
    let outside_regions = wheel(&mut diff, 30, 20, WheelDirection::Down);

    // Assert
    assert!(!panel_in_list_mode);
    assert!(!file_list_in_list_mode);
    assert!(!outside_regions);
    assert!(matches!(mode, AppMode::List));
}

#[test]
fn test_handle_mouse_wheel_over_file_list_ignores_input_while_editing_comment() {
    // Arrange
    let mut diff = diff_mode(DiffFocus::Content, 0, preview_off());
    diff.line_comments.comments.push(comment(""));
    diff.line_comments.editing_index = Some(0);

    // Act
    let moved = wheel(&mut diff, 5, 5, WheelDirection::Down);

    // Assert
    assert!(!moved);
    assert_eq!(diff.file_explorer_selected_index, 0);
    assert!(diff.line_comments.is_editing());
}

#[test]
fn test_handle_mouse_wheel_over_file_list_ignores_input_while_selecting_rows() {
    // Arrange
    let mut diff = diff_mode(DiffFocus::Content, 0, preview_off());
    diff.selected_diff_line_index = 2;
    diff.line_comments.start_selection(2);

    // Act
    let moved = wheel(&mut diff, 5, 5, WheelDirection::Down);

    // Assert
    assert!(!moved);
    assert_eq!(diff.file_explorer_selected_index, 0);
    assert_eq!(diff.selected_diff_line_index, 2);
    assert!(diff.line_comments.is_selecting());
}

#[test]
fn test_handle_mouse_wheel_over_file_list_ignores_input_while_comments_sidebar_focused() {
    // Arrange
    let mut diff = diff_mode(DiffFocus::Content, 0, preview_off());
    diff.scroll_offset = 3;
    diff.review_comments = Some(DiffReviewComments {
        sidebar_focus: DiffSidebarFocus::Comments,
    });

    // Act
    let moved = wheel(&mut diff, 5, 5, WheelDirection::Down);

    // Assert
    assert!(!moved);
    assert_eq!(diff.file_explorer_selected_index, 0);
    assert_eq!(diff.scroll_offset, 3);
}

#[test]
fn test_handle_file_click_selects_an_existing_file_and_resets_the_view() {
    // Arrange
    let unsupported = DiffPreview::Unsupported { request_id: 0 };
    let mut diff = diff_mode(DiffFocus::Content, 0, unsupported);
    diff.scroll_offset = 4;
    diff.selected_diff_line_index = 3;
    let sessions = vec![session()];

    // Act
    let (changed, _) = handle_file_click(&mut diff, &content(), &sessions, 2);
    let (unchanged, _) = handle_file_click(&mut diff, &content(), &sessions, 2);
    let (out_of_range, _) = handle_file_click(&mut diff, &content(), &sessions, 99);

    // Assert
    assert!(changed);
    assert!(!unchanged);
    assert!(!out_of_range);
    assert_eq!(diff.file_explorer_selected_index, 2);
    assert_eq!(diff.scroll_offset, 0);
    assert_eq!(diff.selected_diff_line_index, 0);
}

#[test]
fn test_handle_file_click_is_ignored_while_editing_a_comment_or_outside_diff_mode() {
    // Arrange
    let mut diff = diff_mode(DiffFocus::Content, 0, preview_off());
    diff.line_comments.comments.push(comment(""));
    diff.line_comments.editing_index = Some(0);

    // Act
    let (while_editing, request) = handle_file_click(&mut diff, &content(), &vec![session()], 1);

    // Assert
    assert!(!while_editing);
    assert!(request.is_none());
    assert_eq!(diff.file_explorer_selected_index, 0);
}

/// A diff page that takes keys.
struct Screen {
    facts: DiffReplyFacts,
    mode: AppMode,
    page: Page,
    sessions: Vec<Session>,
}

impl Screen {
    fn new(diff: DiffMode) -> Self {
        Self {
            facts: DiffReplyFacts {
                allows_prompt: true,
                allows_reply: true,
                comment_blocks: "> line\n\ncomment".to_string(),
            },
            mode: AppMode::Diff(diff),
            page: Page {
                line_count: 5,
                max_scroll: 7,
            },
            sessions: vec![session()],
        }
    }

    fn press(&mut self, code: KeyCode) -> DiffEffects {
        self.press_with(code, KeyModifiers::none())
    }

    fn press_with(&mut self, code: KeyCode, modifiers: KeyModifiers) -> DiffEffects {
        handle_key(
            &mut self.mode,
            &content(),
            &self.sessions,
            &self.facts,
            &self.page,
            &Editor,
            AREA,
            KeyEvent::new(code, modifiers),
        )
    }

    fn diff(&self) -> &DiffMode {
        match &self.mode {
            AppMode::Diff(diff) => diff,
            _ => panic!("the diff page should be shown"),
        }
    }
}

#[test]
fn test_file_keys_wrap_around_and_leave_the_focus() {
    // Arrange
    let mut screen = Screen::new(diff_mode(DiffFocus::Files, 0, preview_off()));

    // Act
    screen.press(KeyCode::Char('k'));
    let last = screen.diff().file_explorer_selected_index;
    screen.press(KeyCode::Char('j'));

    // Assert
    assert_eq!(last, 2);
    assert_eq!(screen.diff().file_explorer_selected_index, 0);
    assert_eq!(screen.diff().focus, DiffFocus::Files);
}

#[test]
fn test_arrows_scroll_the_panel_while_files_keep_the_focus() {
    // Arrange
    let mut diff = diff_mode(DiffFocus::Files, 1, preview_off());
    diff.scroll_offset = 6;
    let mut screen = Screen::new(diff);

    // Act
    screen.press(KeyCode::Down);
    screen.press_with(KeyCode::Char('J'), KeyModifiers::shift());
    let at_end = screen.diff().scroll_offset;
    let cache = screen.diff().scroll_cache;
    screen.press(KeyCode::Up);

    // Assert
    assert_eq!(at_end, 7);
    assert_eq!(
        cache,
        Some(DiffScrollCache {
            content_area: AREA,
            file_explorer_selected_index: 1,
            max_scroll_offset: 7,
        })
    );
    assert_eq!(screen.diff().scroll_offset, 6);
    assert_eq!(screen.diff().focus, DiffFocus::Files);
}

#[test]
fn test_measured_scroll_limit_is_reused() {
    // Arrange
    let mut diff = diff_mode(DiffFocus::Files, 1, preview_off());
    diff.scroll_cache = Some(DiffScrollCache {
        content_area: AREA,
        file_explorer_selected_index: 1,
        max_scroll_offset: 2,
    });
    diff.scroll_offset = 5;
    let mut screen = Screen::new(diff);

    // Act
    screen.press(KeyCode::Down);

    // Assert
    assert_eq!(screen.diff().scroll_offset, 2);
}

#[test]
fn test_enter_moves_into_the_changed_lines_of_a_file() {
    // Arrange
    let mut screen = Screen::new(diff_mode(DiffFocus::Files, 1, preview_off()));
    let mut folder = Screen::new(diff_mode(DiffFocus::Files, 0, preview_off()));

    // Act
    screen.press(KeyCode::Enter);
    folder.press(KeyCode::Enter);

    // Assert
    assert_eq!(screen.diff().focus, DiffFocus::Content);
    assert_eq!(screen.diff().selected_diff_line_index, 1);
    assert_eq!(screen.diff().scroll_offset, 1);
    assert_eq!(folder.diff().focus, DiffFocus::Files);
}

#[test]
fn test_content_keys_walk_through_lines_and_comments() {
    // Arrange
    let mut diff = diff_mode(DiffFocus::Content, 1, preview_off());
    diff.line_comments.comments.push(comment("a comment"));
    let mut screen = Screen::new(diff);

    // Act
    screen.press(KeyCode::Char('j'));
    let on_comment = screen.diff().line_comments.selected_comment;
    let comment_scroll = screen.diff().scroll_offset;
    screen.press(KeyCode::Down);
    let line = screen.diff().selected_diff_line_index;
    screen.press(KeyCode::Char('k'));
    screen.press(KeyCode::Char('h'));

    // Assert
    assert_eq!(on_comment, Some(0));
    assert_eq!(comment_scroll, 10);
    assert_eq!(line, 1);
    assert_eq!(screen.diff().selected_diff_line_index, 0);
    assert_eq!(screen.diff().line_comments.selected_comment, None);
    assert_eq!(screen.diff().focus, DiffFocus::Files);
}

#[test]
fn test_row_selection_becomes_a_comment_on_its_lines() {
    // Arrange
    let mut diff = diff_mode(DiffFocus::Content, 1, preview_off());
    diff.selected_diff_line_index = 3;
    let mut screen = Screen::new(diff);

    // Act
    screen.press_with(KeyCode::Char('V'), KeyModifiers::shift());
    let start = screen.diff().line_comments.selection_start;
    screen.press(KeyCode::Up);
    screen.press(KeyCode::Up);
    screen.press(KeyCode::Enter);

    // Assert
    assert_eq!(start, Some(3));
    let comments = &screen.diff().line_comments;
    assert_eq!(comments.editing_index, Some(0));
    let DiffCommentTarget::Lines(lines) = &comments.comments[0].target else {
        panic!("the comment should be about lines");
    };
    let numbers: Vec<usize> = lines.iter().map(|line| line.line).collect();
    assert_eq!(numbers, vec![1, 2, 3]);
    assert_eq!(screen.diff().scroll_offset, 13);
}

#[test]
fn test_row_selection_stops_at_the_last_line_and_escape_ends_it() {
    // Arrange
    let mut diff = diff_mode(DiffFocus::Content, 1, preview_off());
    diff.selected_diff_line_index = 4;
    diff.line_comments.start_selection(4);
    let mut screen = Screen::new(diff);

    // Act
    screen.press(KeyCode::Down);
    let line = screen.diff().selected_diff_line_index;
    screen.press(KeyCode::Esc);

    // Assert
    assert_eq!(line, 4);
    assert!(!screen.diff().line_comments.is_selecting());
    assert_eq!(screen.diff().focus, DiffFocus::Content);
}

#[test]
fn test_file_comment_opens_from_either_pane() {
    // Arrange
    let mut diff = diff_mode(DiffFocus::Files, 1, preview_off());
    diff.selected_diff_line_index = 3;
    let mut screen = Screen::new(diff);

    // Act
    screen.press_with(KeyCode::Char('C'), KeyModifiers::shift());

    // Assert
    let shown = screen.diff();
    assert_eq!(shown.focus, DiffFocus::Content);
    assert_eq!(shown.line_comments.editing_index, Some(0));
    assert_eq!(shown.selected_diff_line_index, 0);
    assert!(matches!(
        &shown.line_comments.comments[0].target,
        DiffCommentTarget::File { path } if path == "src/main.rs"
    ));
}

#[test]
fn test_comments_need_a_session_that_takes_a_reply() {
    // Arrange
    let mut refused = Screen::new(diff_mode(DiffFocus::Content, 1, preview_off()));
    refused.facts.allows_reply = false;
    let mut missing = Screen::new(diff_mode(DiffFocus::Content, 1, preview_off()));
    missing.sessions.clear();

    // Act
    refused.press(KeyCode::Enter);
    missing.press_with(KeyCode::Char('c'), KeyModifiers::shift());

    // Assert
    assert!(!refused.diff().line_comments.is_editing());
    assert!(!missing.diff().line_comments.is_editing());
}

#[test]
fn test_edited_comment_takes_every_key() {
    // Arrange
    let mut screen = Screen::new(diff_mode(DiffFocus::Content, 1, preview_off()));
    let alt = KeyModifiers {
        alt: true,
        ..KeyModifiers::none()
    };

    // Act
    screen.press(KeyCode::Enter);
    screen.press(KeyCode::Char('q'));
    screen.press_with(KeyCode::Enter, alt);
    screen.press(KeyCode::Char('?'));
    let text = screen.diff().line_comments.comments[0].input.text.clone();
    screen.press(KeyCode::Enter);

    // Assert
    assert_eq!(text, "q\n?");
    assert!(!screen.diff().line_comments.is_editing());
    assert_eq!(screen.diff().line_comments.comments.len(), 1);
}

#[test]
fn test_empty_comment_is_dropped_and_the_page_measured_again() {
    // Arrange
    let mut screen = Screen::new(diff_mode(DiffFocus::Content, 1, preview_off()));
    screen.press(KeyCode::Enter);
    if let AppMode::Diff(diff) = &mut screen.mode {
        diff.scroll_cache = Some(DiffScrollCache {
            content_area: AREA,
            file_explorer_selected_index: 1,
            max_scroll_offset: 2,
        });
    }

    // Act
    screen.press(KeyCode::Esc);

    // Assert
    assert!(screen.diff().line_comments.comments.is_empty());
    assert_eq!(screen.diff().scroll_cache, None);
}

#[test]
fn test_file_lookup_of_a_comment_takes_its_keys_first() {
    // Arrange
    let mut screen = Screen::new(diff_mode(DiffFocus::Content, 1, preview_off()));
    screen.press(KeyCode::Enter);

    // Act
    let opening = screen.press(KeyCode::Char('@'));
    screen.press(KeyCode::Down);
    let highlighted = screen.diff().line_comments.at_mention_state;
    screen.press(KeyCode::Tab);

    // Assert
    assert!(opening.lookup_files);
    assert_eq!(highlighted, Some(AtMentionState { selected_index: 1 }));
    let comments = &screen.diff().line_comments;
    assert_eq!(comments.comments[0].input.text, "@file-1");
    assert_eq!(comments.at_mention_state, None);
    assert!(comments.is_editing());

    // Act
    screen.press(KeyCode::Char('x'));
    screen.press(KeyCode::Esc);
    let after_escape = screen.diff().line_comments.is_editing();

    // Assert
    assert!(after_escape);
    assert_eq!(screen.diff().line_comments.at_mention_state, None);
}

#[test]
fn test_process_event_with_key_handler_pastes_into_inline_diff_comment() {
    // Arrange
    let mut diff = diff_mode(DiffFocus::Content, 1, preview_off());
    diff.line_comments.comments.push(comment(""));
    diff.line_comments.editing_index = Some(0);

    // Act
    let lookup = handle_paste(&mut diff, &Editor, "first line\r\nsecond line");

    // Assert
    assert!(!lookup);
    assert_eq!(
        diff.line_comments.comments[0].input.text,
        "first line\nsecond line"
    );
}

#[test]
fn test_paste_without_an_edited_comment_changes_nothing() {
    // Arrange
    let mut diff = diff_mode(DiffFocus::Content, 1, preview_off());
    diff.line_comments.comments.push(comment("done"));

    // Act
    let lookup = handle_paste(&mut diff, &Editor, "@file");

    // Assert
    assert!(!lookup);
    assert_eq!(diff.line_comments.comments[0].input.text, "done");
}

#[test]
fn test_preview_loads_and_is_switched_off_again() {
    // Arrange
    let mut screen = Screen::new(diff_mode(DiffFocus::Files, 2, preview_off()));

    // Act
    let effects = screen.press(KeyCode::Char('p'));
    let is_loading = matches!(
        &screen.diff().preview,
        DiffPreview::Loading { path, request_id: 1 } if path == "src/guide.md"
    );
    screen.press(KeyCode::Char('p'));

    // Assert
    let request = effects.preview.expect("the file is to be read");
    assert_eq!(request.path, "src/guide.md");
    assert_eq!(request.request_id, 1);
    assert_eq!(request.folder, "/tmp/session");
    assert!(is_loading);
    assert!(matches!(
        screen.diff().preview,
        DiffPreview::Disabled { request_id: 1 }
    ));
}

#[test]
fn test_preview_follows_the_selection() {
    // Arrange
    let unsupported = DiffPreview::Unsupported { request_id: 4 };
    let mut screen = Screen::new(diff_mode(DiffFocus::Files, 1, unsupported));

    // Act
    let effects = screen.press(KeyCode::Char('j'));

    // Assert
    let request = effects.preview.expect("the file is to be read");
    assert_eq!(request.request_id, 5);
    assert!(matches!(
        &screen.diff().preview,
        DiffPreview::Loading { request_id: 5, .. }
    ));
}

#[test]
fn test_preview_is_unavailable_without_the_session() {
    // Arrange
    let mut screen = Screen::new(diff_mode(DiffFocus::Files, 2, preview_off()));
    screen.sessions.clear();

    // Act
    let effects = screen.press(KeyCode::Char('p'));

    // Assert
    assert!(effects.preview.is_none());
    assert!(matches!(
        &screen.diff().preview,
        DiffPreview::Unavailable {
            reason: DiffPreviewUnavailableReason::LoadFailed(reason),
            request_id: 1,
            ..
        } if reason == "Session worktree is unavailable"
    ));
}

#[test]
fn test_visible_preview_scrolls_instead_of_moving_the_cursor() {
    // Arrange
    let ready = DiffPreview::Ready {
        path: "src/guide.md".to_string(),
        request_id: 1,
        text: "# Guide".to_string(),
    };
    let mut screen = Screen::new(diff_mode(DiffFocus::Content, 2, ready));

    // Act
    screen.press(KeyCode::Char('j'));
    screen.press(KeyCode::Enter);

    // Assert
    assert_eq!(screen.diff().scroll_offset, 1);
    assert_eq!(screen.diff().selected_diff_line_index, 0);
    assert!(!screen.diff().line_comments.is_editing());
}

#[test]
fn test_review_comments_take_the_keyboard() {
    // Arrange
    let mut diff = diff_mode(DiffFocus::Files, 1, preview_off());
    diff.scroll_offset = 5;
    diff.review_comments = Some(DiffReviewComments {
        sidebar_focus: DiffSidebarFocus::Files,
    });
    let mut screen = Screen::new(diff);

    // Act
    screen.press(KeyCode::Char('c'));

    // Assert
    assert_eq!(screen.diff().scroll_offset, 0);
    assert_eq!(
        screen.diff().review_comments,
        Some(DiffReviewComments {
            sidebar_focus: DiffSidebarFocus::Comments,
        })
    );
}

#[test]
fn test_submitted_comments_open_the_composer() {
    // Arrange
    let mut diff = diff_mode(DiffFocus::Files, 1, preview_off());
    diff.line_comments.comments.push(comment("comment"));
    let mut screen = Screen::new(diff);

    // Act
    let effects = screen.press(KeyCode::Char('s'));

    // Assert
    let saved = effects.saved.expect("the comments are kept");
    assert_eq!(saved.session_id, "session-1");
    assert_eq!(saved.comments.comments.len(), 1);
    assert_eq!(effects.inserted, Some((0, 15)));
    assert!(matches!(
        &screen.mode,
        AppMode::Prompt { focus: ChatFocus::Input, prompt }
            if prompt.input.text == "> line\n\ncomment" && prompt.input.cursor == 15
    ));
}

fn restored_prompt() -> PromptModeSnapshot {
    PromptModeSnapshot {
        at_mention_state: Some(AtMentionState { selected_index: 2 }),
        history_state: PromptHistoryState {
            entries: vec!["earlier".to_string()],
            position: Some(0),
        },
        input: InputState {
            cursor: 1,
            text: "draft".to_string(),
        },
        scroll_offset: Some(4),
        session_id: "session-1".to_string(),
        slash_selected_index: 3,
    }
}

#[test]
fn test_submitted_comments_follow_the_text_of_the_composer() {
    // Arrange
    let mut diff = diff_mode(DiffFocus::Files, 1, preview_off());
    diff.line_comments.comments.push(comment("comment"));
    diff.restore = Some(DiffRestoreTarget::Prompt(restored_prompt()));
    let mut screen = Screen::new(diff);

    // Act
    let effects = screen.press(KeyCode::Char('s'));

    // Assert
    assert_eq!(effects.inserted, Some((5, 22)));
    let AppMode::Prompt { prompt, .. } = &screen.mode else {
        panic!("the composer should be open");
    };
    assert_eq!(prompt.input.text, "draft\n\n> line\n\ncomment");
    assert_eq!(prompt.input.cursor, 22);
    assert_eq!(prompt.history_state.entries, vec!["earlier"]);
    assert_eq!(prompt.history_state.position, None);
    assert_eq!(prompt.at_mention_state, None);
    assert_eq!(prompt.slash_selected_index, 0);
    assert_eq!(prompt.scroll_offset, Some(4));
}

#[test]
fn test_comments_of_a_question_are_not_submitted() {
    // Arrange
    let mut diff = diff_mode(DiffFocus::Files, 1, preview_off());
    diff.line_comments.comments.push(comment("comment"));
    diff.restore = Some(DiffRestoreTarget::Question(QuestionModeSnapshot {
        current_index: 0,
        input: InputState::default(),
        scroll_offset: None,
        selected_option_index: Some(1),
        session_id: "session-1".to_string(),
    }));
    let mut screen = Screen::new(diff);

    // Act
    let effects = screen.press(KeyCode::Char('s'));

    // Assert
    assert!(effects.saved.is_none());
    assert_eq!(screen.diff().line_comments.comments.len(), 1);

    // Act
    screen.press(KeyCode::Char('q'));

    // Assert
    assert!(matches!(
        &screen.mode,
        AppMode::Question { question, .. } if question.selected_option_index == Some(1)
    ));
}

#[test]
fn test_help_keeps_the_page_but_not_its_scroll_limit() {
    // Arrange
    let mut diff = diff_mode(DiffFocus::Content, 1, preview_off());
    diff.scroll_offset = 3;
    diff.scroll_cache = Some(DiffScrollCache {
        content_area: AREA,
        file_explorer_selected_index: 1,
        max_scroll_offset: 9,
    });
    let mut screen = Screen::new(diff);

    // Act
    screen.press(KeyCode::Char('?'));

    // Assert
    assert!(matches!(
        &screen.mode,
        AppMode::Help { context: HelpContext::Diff { can_comment: true, diff }, scroll_offset: 0 }
            if diff.scroll_offset == 3 && diff.scroll_cache.is_none()
    ));
}

#[test]
fn test_leaving_the_page_keeps_its_comments() {
    // Arrange
    let mut diff = diff_mode(DiffFocus::Files, 1, preview_off());
    diff.line_comments.comments.push(comment("comment"));
    let mut screen = Screen::new(diff);

    // Act
    let effects = screen.press(KeyCode::Esc);

    // Assert
    assert_eq!(effects.saved.map(|saved| saved.comments.comments.len()), Some(1));
    assert!(matches!(
        &screen.mode,
        AppMode::View { scroll_offset: None, session_id } if session_id == "session-1"
    ));
}

#[test]
fn test_escape_leaves_the_content_before_the_page() {
    // Arrange
    let mut screen = Screen::new(diff_mode(DiffFocus::Content, 1, preview_off()));

    // Act
    screen.press(KeyCode::Esc);
    let focus = screen.diff().focus;
    screen.press(KeyCode::Esc);

    // Assert
    assert_eq!(focus, DiffFocus::Files);
    assert!(matches!(screen.mode, AppMode::View { .. }));
}

#[test]
fn test_loading_diff_can_be_given_up() {
    // Arrange
    let plain = KeyModifiers::none();

    // Act, Assert
    assert!(handle_loading(KeyEvent::new(KeyCode::Esc, plain)));
    assert!(handle_loading(KeyEvent::new(KeyCode::Char('q'), plain)));
    assert!(!handle_loading(KeyEvent::new(KeyCode::Char('j'), plain)));
}

#[test]
fn test_other_modes_are_left_alone() {
    // Arrange
    let mut screen = Screen::new(diff_mode(DiffFocus::Files, 1, preview_off()));
    screen.mode = AppMode::List;

    // Act
    let effects = screen.press(KeyCode::Char('q'));

    // Assert
    assert!(effects.saved.is_none());
    assert!(matches!(screen.mode, AppMode::List));
}
