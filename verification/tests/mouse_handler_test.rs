use agentty_tui::app_mode::{
    AppMode, ChatFocus, DiffFocus, DiffLineComments, DiffMode, DiffPreview, HelpContext,
    PromptHistoryState, PromptModeSnapshot, QuestionModeSnapshot,
};
use agentty_tui::click_handler::{ClickFacts, ListPages, MouseOutcome, SettingsLists};
use agentty_tui::diff_page::DiffContent;
use agentty_tui::geometry::ViewportRect;
use agentty_tui::input::InputState;
use agentty_tui::key::{MouseButton, MouseEvent, MouseEventKind};
use agentty_tui::mouse_handler::{handle_mouse_event, press_on_scrollbar};
use agentty_tui::session_creation::SelectedSessionFacts;
use agentty_tui::tab::Tab;
use agentty_tui::viewport::{
    LayoutSnapshot, ListItemHit, ListRegion, ListRegionKind, ScrollRegion, ScrollRegionKind,
    ScrollbarDrag,
};

/// A screen that takes pointer events.
struct Screen {
    drag: Option<ScrollbarDrag>,
    layout: LayoutSnapshot,
    mode: AppMode,
    pages: ListPages,
}

impl Screen {
    fn new(mode: AppMode, layout: LayoutSnapshot) -> Self {
        Self {
            drag: None,
            layout,
            mode,
            pages: ListPages {
                current_tab: Tab::Settings,
                project_count: 0,
                selected_project: None,
                selected_session: None,
                session_count: 0,
                settings: SettingsLists {
                    is_editor_input_active: false,
                    is_editor_open: false,
                    is_selector_open: false,
                    item_count: 10,
                    selected_index: 0,
                },
            },
        }
    }

    fn mouse(&mut self, kind: MouseEventKind, column: u16, row: u16) -> MouseOutcome {
        let facts = ClickFacts {
            parent_count: 0,
            project_count: 0,
            selected: SelectedSessionFacts {
                append_source: None,
                stacked_parent: None,
            },
        };
        let (outcome, _) = handle_mouse_event(
            &mut self.mode,
            &mut self.pages,
            &mut self.drag,
            &self.layout,
            &DiffContent { items: Vec::new() },
            &Vec::new(),
            &facts,
            MouseEvent { column, kind, row },
        );

        outcome
    }

    /// The transcript offset of the shown mode.
    fn chat_offset(&self) -> Option<u16> {
        match &self.mode {
            AppMode::View { scroll_offset, .. } => *scroll_offset,
            AppMode::Prompt { prompt, .. } => prompt.scroll_offset,
            AppMode::Question { question, .. } => question.scroll_offset,
            _ => panic!("the mode shows no transcript"),
        }
    }

    fn diff_offset(&self) -> u16 {
        match &self.mode {
            AppMode::Diff(diff) => diff.scroll_offset,
            _ => panic!("the mode shows no diff"),
        }
    }

    fn help_offset(&self) -> u16 {
        match &self.mode {
            AppMode::Help { scroll_offset, .. } => *scroll_offset,
            _ => panic!("the mode shows no help"),
        }
    }
}

const LEFT_DOWN: MouseEventKind = MouseEventKind::Down(MouseButton::Left);
const LEFT_DRAG: MouseEventKind = MouseEventKind::Drag(MouseButton::Left);
const LEFT_UP: MouseEventKind = MouseEventKind::Up(MouseButton::Left);

fn rect(x: u16, y: u16, width: u16, height: u16) -> ViewportRect {
    ViewportRect {
        height,
        width,
        x,
        y,
    }
}

fn chat_region() -> ScrollRegion {
    ScrollRegion {
        area: rect(1, 3, 78, 12),
        scrollbar: Some(rect(78, 4, 1, 10)),
        total_lines: 100,
        viewport_height: 10,
    }
}

fn chat_layout() -> LayoutSnapshot {
    LayoutSnapshot {
        chat_output: Some(chat_region()),
        ..LayoutSnapshot::default()
    }
}

fn diff_region() -> ScrollRegion {
    ScrollRegion {
        area: rect(20, 1, 60, 12),
        scrollbar: Some(rect(78, 2, 1, 10)),
        total_lines: 100,
        viewport_height: 10,
    }
}

fn diff_layout() -> LayoutSnapshot {
    LayoutSnapshot {
        diff_panel: Some(diff_region()),
        ..LayoutSnapshot::default()
    }
}

fn help_layout(area: ViewportRect, total_lines: u16, viewport_height: u16) -> LayoutSnapshot {
    LayoutSnapshot {
        help_overlay: Some(ScrollRegion {
            area,
            scrollbar: None,
            total_lines,
            viewport_height,
        }),
        ..LayoutSnapshot::default()
    }
}

fn view_mode(scroll_offset: Option<u16>) -> AppMode {
    AppMode::View {
        scroll_offset,
        session_id: "session-1".to_string(),
    }
}

fn prompt_mode(scroll_offset: Option<u16>, text: &str) -> AppMode {
    AppMode::Prompt {
        focus: ChatFocus::Input,
        prompt: PromptModeSnapshot {
            at_mention_state: None,
            history_state: PromptHistoryState::new(Vec::new()),
            input: InputState::with_text(text),
            scroll_offset,
            session_id: "session-1".to_string(),
            slash_selected_index: 0,
        },
    }
}

fn help_mode(scroll_offset: u16) -> AppMode {
    AppMode::Help {
        context: HelpContext::List,
        scroll_offset,
    }
}

fn diff_mode(scroll_offset: u16) -> AppMode {
    AppMode::Diff(DiffMode {
        diff: String::new(),
        file_explorer_selected_index: 0,
        focus: DiffFocus::Files,
        line_comments: DiffLineComments::default(),
        preview: DiffPreview::Disabled { request_id: 0 },
        restore: None,
        review_comments: None,
        scroll_cache: None,
        scroll_offset,
        selected_diff_line_index: 0,
        session_id: "session-1".to_string(),
    })
}

#[test]
fn test_wheel_up_over_chat_pins_view_above_tail() {
    // Arrange
    let mut screen = Screen::new(view_mode(None), chat_layout());

    // Act
    let changed = screen.mouse(MouseEventKind::ScrollUp, 10, 8);

    // Assert
    assert_eq!(changed, MouseOutcome::Redraw);
    assert_eq!(screen.chat_offset(), Some(87));
}

#[test]
fn test_wheel_down_over_chat_returns_to_follow_tail_at_bottom() {
    // Arrange
    let mut screen = Screen::new(view_mode(Some(88)), chat_layout());

    // Act
    let changed = screen.mouse(MouseEventKind::ScrollDown, 10, 8);

    // Assert
    assert_eq!(changed, MouseOutcome::Redraw);
    assert_eq!(screen.chat_offset(), None);
}

#[test]
fn test_wheel_outside_chat_region_is_ignored() {
    // Arrange
    let mut screen = Screen::new(view_mode(None), chat_layout());

    // Act
    let changed = screen.mouse(MouseEventKind::ScrollUp, 10, 20);

    // Assert
    assert_eq!(changed, MouseOutcome::Ignored);
    assert_eq!(screen.chat_offset(), None);
}

#[test]
fn test_wheel_in_prompt_mode_scrolls_transcript_and_keeps_composer() {
    // Arrange
    let mut screen = Screen::new(prompt_mode(None, "draft text"), chat_layout());

    // Act
    let changed = screen.mouse(MouseEventKind::ScrollUp, 10, 8);

    // Assert
    assert_eq!(changed, MouseOutcome::Redraw);
    assert_eq!(screen.chat_offset(), Some(87));
    assert!(matches!(
        &screen.mode,
        AppMode::Prompt { prompt, .. } if prompt.input.text == "draft text"
    ));
}

#[test]
fn test_wheel_in_question_mode_keeps_answer_focus() {
    // Arrange
    let question = AppMode::Question {
        focus: ChatFocus::Input,
        question: QuestionModeSnapshot {
            current_index: 0,
            input: InputState::default(),
            scroll_offset: None,
            selected_option_index: Some(0),
            session_id: "session-1".to_string(),
        },
    };
    let mut screen = Screen::new(question, chat_layout());

    // Act
    let changed = screen.mouse(MouseEventKind::ScrollUp, 10, 8);

    // Assert
    assert_eq!(changed, MouseOutcome::Redraw);
    assert_eq!(screen.chat_offset(), Some(87));
    assert!(matches!(
        &screen.mode,
        AppMode::Question {
            focus: ChatFocus::Input,
            ..
        }
    ));
}

#[test]
fn test_press_on_chat_thumb_starts_drag_and_drag_follows_pointer() {
    // Arrange
    let mut screen = Screen::new(view_mode(Some(0)), chat_layout());

    // Act
    let press_changed = screen.mouse(LEFT_DOWN, 78, 4);
    let drag_changed = screen.mouse(LEFT_DRAG, 78, 8);
    let drag_state = screen.drag;
    screen.mouse(LEFT_UP, 78, 8);

    // Assert
    assert_eq!(press_changed, MouseOutcome::Ignored);
    assert_eq!(drag_changed, MouseOutcome::Redraw);
    assert_eq!(
        drag_state,
        Some(ScrollbarDrag {
            grab_row_within_thumb: 0,
            region: ScrollRegionKind::ChatOutput,
        })
    );
    assert_eq!(screen.chat_offset(), Some(40));
    assert_eq!(screen.drag, None);
}

#[test]
fn test_drag_to_track_bottom_returns_chat_to_follow_tail() {
    // Arrange
    let mut screen = Screen::new(view_mode(Some(0)), chat_layout());
    screen.mouse(LEFT_DOWN, 78, 4);

    // Act
    let changed = screen.mouse(LEFT_DRAG, 78, 13);

    // Assert
    assert_eq!(changed, MouseOutcome::Redraw);
    assert_eq!(screen.chat_offset(), None);
}

#[test]
fn test_press_on_track_outside_thumb_jumps_scroll_position() {
    // Arrange
    let mut screen = Screen::new(view_mode(Some(0)), chat_layout());

    // Act
    let changed = screen.mouse(LEFT_DOWN, 78, 8);

    // Assert
    assert_eq!(changed, MouseOutcome::Redraw);
    assert_eq!(screen.chat_offset(), Some(40));
}

#[test]
fn test_drag_without_press_is_ignored() {
    // Arrange
    let mut screen = Screen::new(view_mode(Some(5)), chat_layout());

    // Act
    let changed = screen.mouse(LEFT_DRAG, 78, 8);

    // Assert
    assert_eq!(changed, MouseOutcome::Ignored);
    assert_eq!(screen.chat_offset(), Some(5));
}

#[test]
fn test_wheel_over_diff_panel_scrolls_and_clamps() {
    // Arrange
    let layout = LayoutSnapshot {
        diff_panel: Some(ScrollRegion {
            area: rect(20, 1, 60, 12),
            scrollbar: None,
            total_lines: 30,
            viewport_height: 10,
        }),
        ..LayoutSnapshot::default()
    };
    let mut screen = Screen::new(diff_mode(18), layout);

    // Act
    let changed = screen.mouse(MouseEventKind::ScrollDown, 30, 5);

    // Assert
    assert_eq!(changed, MouseOutcome::Redraw);
    assert_eq!(screen.diff_offset(), 20);
}

#[test]
fn test_wheel_over_help_overlay_clamps_to_content() {
    // Arrange
    let mut screen = Screen::new(help_mode(4), help_layout(rect(10, 5, 40, 10), 13, 8));

    // Act
    let changed = screen.mouse(MouseEventKind::ScrollDown, 15, 7);

    // Assert
    assert_eq!(changed, MouseOutcome::Redraw);
    assert_eq!(screen.help_offset(), 5);
}

#[test]
fn test_mouse_move_and_other_buttons_are_ignored() {
    // Arrange
    let mut screen = Screen::new(view_mode(None), chat_layout());

    // Act
    let moved = screen.mouse(MouseEventKind::Moved, 10, 8);
    let right_pressed = screen.mouse(MouseEventKind::Down(MouseButton::Right), 78, 4);

    // Assert
    assert_eq!(moved, MouseOutcome::Ignored);
    assert_eq!(right_pressed, MouseOutcome::Ignored);
    assert_eq!(screen.drag, None);
}

#[test]
fn test_wheel_in_chat_mode_without_recorded_region_is_ignored() {
    // Arrange
    let mut screen = Screen::new(view_mode(Some(5)), LayoutSnapshot::default());

    // Act
    let changed = screen.mouse(MouseEventKind::ScrollUp, 10, 8);

    // Assert
    assert_eq!(changed, MouseOutcome::Ignored);
    assert_eq!(screen.chat_offset(), Some(5));
}

#[test]
fn test_wheel_in_list_mode_is_ignored() {
    // Arrange
    let mut screen = Screen::new(AppMode::List, chat_layout());

    // Act
    let changed = screen.mouse(MouseEventKind::ScrollDown, 10, 8);

    // Assert
    assert_eq!(changed, MouseOutcome::Ignored);
    assert!(matches!(screen.mode, AppMode::List));
}

#[test]
fn test_wheel_over_help_overlay_scrolls_up_and_ignores_pointer_outside() {
    // Arrange
    let mut screen = Screen::new(help_mode(5), help_layout(rect(16, 5, 48, 14), 40, 12));

    // Act
    let outside_changed = screen.mouse(MouseEventKind::ScrollUp, 2, 2);
    let inside_changed = screen.mouse(MouseEventKind::ScrollUp, 20, 8);

    // Assert
    assert_eq!(outside_changed, MouseOutcome::Ignored);
    assert_eq!(inside_changed, MouseOutcome::Redraw);
    assert_eq!(screen.help_offset(), 2);
}

#[test]
fn test_wheel_over_help_mode_without_recorded_region_is_ignored() {
    // Arrange
    let mut screen = Screen::new(help_mode(5), LayoutSnapshot::default());

    // Act
    let changed = screen.mouse(MouseEventKind::ScrollUp, 20, 8);

    // Assert
    assert_eq!(changed, MouseOutcome::Ignored);
}

#[test]
fn test_press_on_diff_thumb_starts_drag_and_drag_follows_pointer() {
    // Arrange
    let mut screen = Screen::new(diff_mode(0), diff_layout());

    // Act
    let press_changed = screen.mouse(LEFT_DOWN, 78, 2);
    let drag_state = screen.drag;
    let drag_changed = screen.mouse(LEFT_DRAG, 78, 6);

    // Assert
    assert_eq!(press_changed, MouseOutcome::Ignored);
    assert_eq!(
        drag_state,
        Some(ScrollbarDrag {
            grab_row_within_thumb: 0,
            region: ScrollRegionKind::DiffPanel,
        })
    );
    assert_eq!(drag_changed, MouseOutcome::Redraw);
    assert_eq!(screen.diff_offset(), 40);
}

#[test]
fn test_press_on_diff_track_outside_thumb_jumps_scroll_position() {
    // Arrange
    let mut screen = Screen::new(diff_mode(0), diff_layout());

    // Act
    let changed = screen.mouse(LEFT_DOWN, 78, 11);

    // Assert
    assert_eq!(changed, MouseOutcome::Redraw);
    assert_eq!(screen.diff_offset(), 90);
}

#[test]
fn test_diff_drag_is_ignored_without_region_or_diff_mode() {
    // Arrange
    let mut screen = Screen::new(diff_mode(0), diff_layout());
    screen.mouse(LEFT_DOWN, 78, 2);

    // Act
    screen.layout = LayoutSnapshot::default();
    let without_region_changed = screen.mouse(LEFT_DRAG, 78, 6);
    screen.layout = diff_layout();
    screen.mode = AppMode::List;
    let without_diff_mode_changed = screen.mouse(LEFT_DRAG, 78, 6);

    // Assert
    assert_eq!(without_region_changed, MouseOutcome::Ignored);
    assert_eq!(without_diff_mode_changed, MouseOutcome::Ignored);
}

#[test]
fn test_chat_drag_is_ignored_without_region_or_chat_mode() {
    // Arrange
    let mut screen = Screen::new(view_mode(Some(0)), chat_layout());
    screen.mouse(LEFT_DOWN, 78, 4);

    // Act
    screen.layout = LayoutSnapshot::default();
    let without_region_changed = screen.mouse(LEFT_DRAG, 78, 8);
    screen.layout = chat_layout();
    screen.mode = AppMode::List;
    let without_chat_mode_changed = screen.mouse(LEFT_DRAG, 78, 8);

    // Assert
    assert_eq!(without_region_changed, MouseOutcome::Ignored);
    assert_eq!(without_chat_mode_changed, MouseOutcome::Ignored);
}

#[test]
fn test_press_outside_any_scrollbar_clears_drag_and_changes_nothing() {
    // Arrange
    let mut screen = Screen::new(view_mode(Some(3)), chat_layout());
    screen.drag = Some(ScrollbarDrag {
        grab_row_within_thumb: 0,
        region: ScrollRegionKind::ChatOutput,
    });

    // Act
    let changed = screen.mouse(LEFT_DOWN, 10, 8);

    // Assert
    assert_eq!(changed, MouseOutcome::Ignored);
    assert_eq!(screen.drag, None);
    assert_eq!(screen.chat_offset(), Some(3));
}

#[test]
fn test_press_routes_list_items_after_scrollbars() {
    // Arrange
    let layout = LayoutSnapshot {
        lists: vec![ListRegion {
            items: vec![ListItemHit {
                area: rect(0, 6, 40, 1),
                index: 2,
            }],
            kind: ListRegionKind::Settings,
        }],
        ..LayoutSnapshot::default()
    };
    let mut screen = Screen::new(AppMode::List, layout);

    // Act
    let selected = screen.mouse(LEFT_DOWN, 5, 6);
    let activated = screen.mouse(LEFT_DOWN, 5, 6);
    let missed = screen.mouse(LEFT_DOWN, 5, 7);

    // Assert
    assert_eq!(selected, MouseOutcome::Redraw);
    assert_eq!(screen.pages.settings.selected_index, 2);
    assert_eq!(activated, MouseOutcome::Activate);
    assert_eq!(missed, MouseOutcome::Ignored);
}

#[test]
fn test_press_on_scrollbar_does_not_fall_through_to_lists() {
    // Arrange
    let mut screen = Screen::new(view_mode(Some(0)), chat_layout());
    screen.layout.lists.push(ListRegion {
        items: vec![ListItemHit {
            area: rect(0, 0, 80, 20),
            index: 0,
        }],
        kind: ListRegionKind::Sessions,
    });

    // Act
    let pressed = screen.mouse(LEFT_DOWN, 78, 4);

    // Assert
    assert_eq!(pressed, MouseOutcome::Ignored);
    assert!(screen.drag.is_some());
}

#[test]
fn test_press_on_the_track_grabs_the_thumb_in_its_middle() {
    // Arrange
    let region = ScrollRegion {
        area: rect(0, 0, 10, 20),
        scrollbar: Some(rect(9, 0, 1, 20)),
        total_lines: 40,
        viewport_height: 20,
    };

    // Act
    let (grab, jump) = press_on_scrollbar(region, 0, 19);
    let (grab_on_thumb, no_jump) = press_on_scrollbar(region, 0, 3);

    // Assert
    assert_eq!(grab, 5);
    assert_eq!(jump, Some(20));
    assert_eq!(grab_on_thumb, 3);
    assert_eq!(no_jump, None);
}

#[test]
fn test_drag_never_leaves_the_content() {
    // Arrange
    let mut screen = Screen::new(diff_mode(0), diff_layout());
    screen.mouse(LEFT_DOWN, 78, 2);

    for row in 0..40 {
        // Act
        screen.mouse(LEFT_DRAG, 78, row);

        // Assert
        assert!(screen.diff_offset() <= 90);
    }
}
