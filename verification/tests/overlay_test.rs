use agentty_tui::geometry::ViewportRect;
use agentty_tui::input::InputState;
use agentty_tui::launch_configuration_list_editor::{
    LaunchConfigurationListEditor, LaunchConfigurationListEditorMode,
    LaunchConfigurationListEditorSnapshot, command_window_start, format_input_with_cursor,
    visible_command_count,
};
use agentty_tui::launch_configuration_overlay::LaunchConfigurationOverlay;
use agentty_tui::overlay::{centered_popup_area, compute_window_start, overlay_required_height};
use agentty_tui::popup::{Popup, PopupBlock};
use agentty_tui::project_switcher_overlay::{ProjectListItem, ProjectSwitcherOverlay};
use agentty_tui::rich_text::{Alignment, Color, Line};
use agentty_tui::session::{Session, Status};
use agentty_tui::session_creation_overlay::SessionCreationOverlay;
use agentty_tui::stack_append_parent_overlay::StackAppendParentOverlay;
use agentty_tui::viewport::ListRegionKind;
use ratatui::buffer::Buffer;
use ratatui::layout::Rect;
use ratatui::style::Style;

/// A border with one blank cell inside it.
struct PaddedBlock;

impl PopupBlock for PaddedBlock {
    fn content_width(&self, popup_width: u16) -> usize {
        usize::from(popup_width.saturating_sub(4))
    }

    fn inner(&self, area: ViewportRect) -> ViewportRect {
        ViewportRect::new(
            area.x + 2,
            area.y + 2,
            area.width.saturating_sub(4),
            area.height.saturating_sub(4),
        )
    }
}

/// Cuts a label off at a width.
fn cut(label: &String, width: usize) -> String {
    label.chars().take(width).collect()
}

fn frame(width: u16, height: u16) -> ViewportRect {
    ViewportRect::new(0, 0, width, height)
}

fn line_text(line: &Line) -> String {
    line.spans.iter().map(|span| span.content.as_str()).collect()
}

/// Paints a popup into an empty terminal.
fn paint(popup: &Popup, frame: ViewportRect) -> Buffer {
    let mut buffer = Buffer::empty(Rect::new(0, 0, frame.width, frame.height));
    let inner = PaddedBlock.inner(popup.area);
    buffer.set_string(
        popup.area.x + 1,
        popup.area.y,
        &popup.title,
        Style::default(),
    );
    for (row, line) in popup.lines.iter().enumerate() {
        if row >= usize::from(inner.height) {
            break;
        }
        let text = line_text(line);
        let text_width = u16::try_from(text.chars().count()).expect("text should be short");
        let indent = if line.alignment == Some(Alignment::Center) {
            inner.width.saturating_sub(text_width) / 2
        } else {
            0
        };
        buffer.set_stringn(
            inner.x + indent,
            inner.y + u16::try_from(row).expect("row should fit"),
            &text,
            usize::from(inner.width - indent),
            Style::default(),
        );
    }

    buffer
}

fn buffer_text(buffer: &Buffer) -> String {
    buffer
        .content()
        .iter()
        .map(ratatui::buffer::Cell::symbol)
        .collect()
}

/// Returns the screen row and column where `needle` is painted.
fn text_position(buffer: &Buffer, needle: &str) -> Option<(u16, u16)> {
    let needle_symbols = needle
        .chars()
        .map(|character| character.to_string())
        .collect::<Vec<_>>();
    let width = usize::from(buffer.area.width);
    for (row_index, row) in buffer.content().chunks(width).enumerate() {
        for (column_index, window) in row.windows(needle_symbols.len()).enumerate() {
            if window
                .iter()
                .zip(&needle_symbols)
                .all(|(cell, symbol)| cell.symbol() == symbol)
            {
                return Some((
                    u16::try_from(column_index).ok()?,
                    u16::try_from(row_index).ok()?,
                ));
            }
        }
    }

    None
}

fn painted_row(buffer: &Buffer, needle: &str) -> u16 {
    text_position(buffer, needle)
        .expect("needle must be painted")
        .1
}

/// Returns the recorded row for `index` in the list of `kind`.
fn recorded_row(popup: &Popup, kind: ListRegionKind, index: usize) -> u16 {
    popup
        .list
        .iter()
        .filter(|list| list.kind == kind)
        .flat_map(|list| list.items.iter())
        .find(|item| item.index == index)
        .expect("item must be recorded")
        .area
        .y
}

fn has_background(line: &Line, color: Color) -> bool {
    line.spans.iter().any(|span| span.style.bg == Some(color))
}

fn titled_session_fixture(title: &str, status: Status) -> Session {
    Session {
        base_branch: "main".to_string(),
        folder: String::new(),
        id: title.to_string(),
        is_draft: false,
        parent_session_id: None,
        prompt: String::new(),
        published_upstream_ref: None,
        queued_messages: Vec::new(),
        replay_text: None,
        status,
        title: title.to_string(),
        transcript: Vec::new(),
        updated_at: 0,
    }
}

fn project_list_item_fixture(id: i64, name: &str, active_session_count: u32) -> ProjectListItem {
    ProjectListItem {
        active_session_count,
        id,
        label: name.to_string(),
    }
}

// Launch configuration list editor.

fn browsing_editor() -> LaunchConfigurationListEditorSnapshot {
    LaunchConfigurationListEditorSnapshot {
        commands: vec!["cargo test".to_string(), "npm run dev".to_string()],
        input: None,
        mode: LaunchConfigurationListEditorMode::Browse,
        selected_index: 1,
    }
}

#[test]
fn test_launch_configuration_list_editor_renders_browse_help() {
    // Arrange
    let editor = browsing_editor();
    let component = LaunchConfigurationListEditor::new(&editor);

    // Act
    let popup = component.render(frame(100, 30), &PaddedBlock, &cut);

    // Assert
    let text = buffer_text(&paint(&popup, frame(100, 30)));
    assert!(text.contains("Launch Configurations"));
    assert!(text.contains("cargo test"));
    assert!(text.contains("npm run dev"));
    assert!(text.contains("a: add"));
    assert!(text.contains("J/K: reorder"));
}

#[test]
fn test_launch_configuration_list_editor_selected_row_uses_background_without_marker() {
    // Arrange
    let editor = browsing_editor();
    let component = LaunchConfigurationListEditor::new(&editor);

    // Act
    let lines = component.lines(24, 12, &cut);
    let selected_line = &lines[1];

    // Assert
    assert!(!line_text(selected_line).contains('>'));
    assert!(
        selected_line
            .spans
            .iter()
            .all(|span| span.style.bg == Some(Color::Accent))
    );
}

#[test]
fn test_launch_configuration_list_editor_input_lines_show_cursor() {
    // Arrange
    let editor = LaunchConfigurationListEditorSnapshot {
        commands: Vec::new(),
        input: Some(InputState::with_text("cargo test")),
        mode: LaunchConfigurationListEditorMode::Add,
        selected_index: 0,
    };
    let component = LaunchConfigurationListEditor::new(&editor);

    // Act
    let lines = component.lines(24, 12, &cut);

    // Assert
    assert!(line_text(&lines[0]).contains("Add command"));
    assert!(line_text(&lines[2]).contains("cargo test|"));
    assert!(line_text(&lines[4]).contains("Enter: save"));
}

#[test]
fn test_command_window_start_keeps_tail_selection_visible() {
    // Arrange
    let command_count = 10;
    let selected_index = 9;
    let visible_count = 4;

    // Act
    let window_start = command_window_start(command_count, selected_index, visible_count);

    // Assert
    assert_eq!(window_start, 6);
}

#[test]
fn test_format_input_with_cursor_clamps_to_end() {
    // Arrange
    let mut input = InputState::with_text("abc");
    input.cursor = 99;

    // Act
    let rendered = format_input_with_cursor(&input);

    // Assert
    assert_eq!(rendered, "abc|");
}

#[test]
fn test_render_records_no_command_list_while_editing_input() {
    // Arrange
    let editor = LaunchConfigurationListEditorSnapshot {
        commands: vec!["cargo test".to_string()],
        input: Some(InputState::with_text("cargo test")),
        mode: LaunchConfigurationListEditorMode::Edit,
        selected_index: 0,
    };

    // Act
    let popup =
        LaunchConfigurationListEditor::new(&editor).render(frame(100, 30), &PaddedBlock, &cut);

    // Assert
    assert!(popup.list.is_none());
}

#[test]
fn test_format_input_with_cursor_marks_the_middle() {
    // Arrange
    let mut input = InputState::with_text("añc");
    input.cursor = 2;

    // Act
    let rendered = format_input_with_cursor(&input);

    // Assert
    assert_eq!(rendered, "añ|c");
}

#[test]
fn test_list_editor_shows_a_note_without_commands() {
    // Arrange
    let editor = LaunchConfigurationListEditorSnapshot {
        commands: Vec::new(),
        input: None,
        mode: LaunchConfigurationListEditorMode::Browse,
        selected_index: 3,
    };

    // Act
    let lines = LaunchConfigurationListEditor::new(&editor).lines(24, 12, &cut);

    // Assert
    assert_eq!(lines.len(), 4);
    assert_eq!(line_text(&lines[0]), "(no commands configured)");
    assert_eq!(line_text(&lines[1]), "");
}

#[test]
fn test_visible_command_count_keeps_one_row() {
    assert_eq!(visible_command_count(0, 5), 1);
    assert_eq!(visible_command_count(12, 9), 5);
    assert_eq!(visible_command_count(12, 2), 2);
    assert_eq!(visible_command_count(12, 0), 0);
}

#[test]
fn test_list_editor_records_the_window_around_its_selection() {
    // Arrange
    let editor = LaunchConfigurationListEditorSnapshot {
        commands: (0..20).map(|index| format!("command-{index}")).collect(),
        input: None,
        mode: LaunchConfigurationListEditorMode::Browse,
        selected_index: 12,
    };
    let component = LaunchConfigurationListEditor::new(&editor);

    // Act
    let popup = component.render(frame(100, 30), &PaddedBlock, &cut);

    // Assert
    let buffer = paint(&popup, frame(100, 30));
    assert_eq!(
        recorded_row(&popup, ListRegionKind::LaunchConfigurationEditor, 12),
        painted_row(&buffer, "command-12")
    );
    assert!(
        popup
            .list
            .as_ref()
            .expect("browsing records a list")
            .items
            .iter()
            .all(|item| item.index > 0)
    );
}

// Launch configuration selector.

#[test]
fn test_launch_configuration_overlay_new_stores_default_selection() {
    // Arrange
    let commands = vec!["cargo test".to_string(), "npm run dev".to_string()];

    // Act
    let overlay = LaunchConfigurationOverlay::new(&commands);

    // Assert
    assert_eq!(overlay.commands, commands.as_slice());
    assert_eq!(overlay.selected_command_index, 0);
}

#[test]
fn test_launch_configuration_overlay_popup_area_is_centered() {
    // Arrange
    let area = frame(120, 40);

    // Act
    let popup_area = LaunchConfigurationOverlay::popup_area(area);

    // Assert
    assert_eq!(popup_area.width, 74);
    assert_eq!(popup_area.height, 15);
    assert_eq!(popup_area.x, 23);
    assert_eq!(popup_area.y, 12);
}

#[test]
fn test_launch_configuration_overlay_render_contains_hint_text() {
    // Arrange
    let commands = vec!["cargo test".to_string(), "npm run dev".to_string()];
    let overlay = LaunchConfigurationOverlay::new(&commands).selected_command_index(1);

    // Act
    let popup = overlay.render(frame(120, 40), &PaddedBlock, &cut);

    // Assert
    let text = buffer_text(&paint(&popup, frame(120, 40)));
    assert!(text.contains("Select launch configuration"));
    assert!(text.contains("j/k: move | Enter: open | Esc: cancel"));
}

#[test]
fn test_launch_configuration_overlay_lines_selected_row_uses_background_without_marker() {
    // Arrange
    let commands = vec!["cargo test".to_string(), "npm run dev".to_string()];
    let overlay = LaunchConfigurationOverlay::new(&commands).selected_command_index(1);

    // Act
    let lines = overlay.lines(24, &cut);
    let selected_line = &lines[3];

    // Assert
    assert!(!line_text(selected_line).contains('>'));
    assert!(
        selected_line
            .spans
            .iter()
            .all(|span| span.style.bg == Some(Color::Accent))
    );
}

#[test]
fn test_launch_configuration_overlay_lines_center_bottom_help_text() {
    // Arrange
    let commands = vec!["cargo test".to_string()];
    let overlay = LaunchConfigurationOverlay::new(&commands);

    // Act
    let lines = overlay.lines(24, &cut);
    let help_line = lines
        .last()
        .expect("overlay should include a bottom help line");

    // Assert
    assert_eq!(help_line.alignment, Some(Alignment::Center));
}

#[test]
fn test_launch_configuration_overlay_lines_center_header_text() {
    // Arrange
    let commands = vec!["cargo test".to_string()];
    let overlay = LaunchConfigurationOverlay::new(&commands);

    // Act
    let lines = overlay.lines(24, &cut);
    let header_line = lines.first().expect("overlay should include a header line");

    // Assert
    assert_eq!(header_line.alignment, Some(Alignment::Center));
}

#[test]
fn test_launch_configuration_overlay_records_its_command_rows() {
    // Arrange
    let commands = vec!["cargo test".to_string(), "npm run dev".to_string()];
    let overlay = LaunchConfigurationOverlay::new(&commands).selected_command_index(1);

    // Act
    let popup = overlay.render(frame(120, 40), &PaddedBlock, &cut);

    // Assert
    let buffer = paint(&popup, frame(120, 40));
    assert_eq!(
        recorded_row(&popup, ListRegionKind::LaunchConfigurationSelector, 0),
        painted_row(&buffer, "cargo test")
    );
    assert_eq!(
        recorded_row(&popup, ListRegionKind::LaunchConfigurationSelector, 1),
        painted_row(&buffer, "npm run dev")
    );
}

#[test]
fn test_launch_configuration_overlay_pads_the_selected_row() {
    // Arrange
    let commands = vec!["ab".to_string()];

    // Act
    let lines = LaunchConfigurationOverlay::new(&commands).lines(5, &cut);

    // Assert
    assert_eq!(line_text(&lines[2]), " ab   ");
}

// Session creation popup.

#[test]
fn test_session_creation_overlay_new_stores_selected_option() {
    // Arrange
    let selected_option_index = 1;

    // Act
    let overlay = SessionCreationOverlay::new(selected_option_index, true, true);

    // Assert
    assert_eq!(overlay.selected_option_index, selected_option_index);
    assert!(overlay.can_create_stacked_session);
    assert!(overlay.can_append_to_stack);
}

#[test]
fn test_session_creation_overlay_popup_area_uses_compact_minimum() {
    // Arrange
    let area = frame(80, 20);

    // Act
    let popup_area = SessionCreationOverlay::popup_area(area);

    // Assert
    assert_eq!(popup_area.width, 53);
    assert_eq!(popup_area.height, 13);
    assert_eq!(popup_area.x, 13);
    assert_eq!(popup_area.y, 3);
}

#[test]
fn test_session_creation_overlay_popup_area_scales_modestly_on_wide_terminals() {
    // Arrange
    let area = frame(240, 60);

    // Act
    let popup_area = SessionCreationOverlay::popup_area(area);

    // Assert
    assert_eq!(popup_area.width, 72);
    assert_eq!(popup_area.height, 13);
    assert_eq!(popup_area.x, 84);
    assert_eq!(popup_area.y, 23);
}

#[test]
fn test_session_creation_overlay_render_shows_session_options() {
    // Arrange
    let overlay = SessionCreationOverlay::new(0, true, true);

    // Act
    let popup = overlay.render(frame(80, 20), &PaddedBlock);

    // Assert
    let text = buffer_text(&paint(&popup, frame(80, 20)));
    assert!(text.contains("Regular"));
    assert!(text.contains("Draft"));
    assert!(text.contains("[Preview] Plan workers"));
    assert!(text.contains("Stacked"));
    assert!(text.contains("Stack on selected"));
    assert!(text.contains("Append to stack"));
    assert!(text.contains("[Preview] Move under parent"));
    assert!(!text.contains("[Preview] Stack on selected"));
    assert!(text.contains("j/k: move | Enter: select | q: close"));
}

#[test]
fn test_session_creation_overlay_aligns_option_text_left() {
    // Arrange
    let overlay = SessionCreationOverlay::new(1, false, false);

    // Act
    let popup = overlay.render(frame(80, 20), &PaddedBlock);

    // Assert
    let buffer = paint(&popup, frame(80, 20));
    let regular_position = text_position(&buffer, "Regular").expect("regular option should render");
    let draft_position = text_position(&buffer, "Draft").expect("draft option should render");
    assert_eq!(regular_position.0, draft_position.0);
}

#[test]
fn test_session_creation_overlay_lines_center_header_and_help_text() {
    // Arrange
    let overlay = SessionCreationOverlay::new(0, false, false);

    // Act
    let lines = overlay.lines();
    let header_line = lines.first().expect("overlay should include a header line");
    let help_line = lines.last().expect("overlay should include a help line");

    // Assert
    assert_eq!(header_line.alignment, Some(Alignment::Center));
    assert_eq!(help_line.alignment, Some(Alignment::Center));
}

#[test]
fn test_session_creation_overlay_lines_disable_stacked_option() {
    // Arrange
    let overlay = SessionCreationOverlay::new(2, false, false);

    // Act
    let lines = overlay.lines();
    let stacked_line = &lines[5];

    // Assert
    assert!(!has_background(stacked_line, Color::Accent));
    assert!(
        stacked_line
            .spans
            .iter()
            .any(|span| span.content.contains("Select parent first"))
    );
}

#[test]
fn test_session_creation_overlay_lines_enable_stacked_option() {
    // Arrange
    let overlay = SessionCreationOverlay::new(3, true, false);

    // Act
    let lines = overlay.lines();
    let stacked_line = &lines[5];

    // Assert
    assert!(has_background(stacked_line, Color::Accent));
    assert!(
        stacked_line
            .spans
            .iter()
            .any(|span| span.content.contains("Stack on selected"))
    );
}

#[test]
fn test_session_creation_overlay_lines_gate_append_to_stack_option() {
    // Arrange
    let disabled_overlay = SessionCreationOverlay::new(2, true, false);
    let enabled_overlay = SessionCreationOverlay::new(4, true, true);

    // Act
    let disabled_lines = disabled_overlay.lines();
    let enabled_lines = enabled_overlay.lines();
    let disabled_line = &disabled_lines[6];
    let enabled_line = &enabled_lines[6];

    // Assert
    assert!(disabled_line.spans.iter().any(|span| {
        span.content.contains("[Preview] Review only") && span.style.bg != Some(Color::Accent)
    }));
    assert!(enabled_line.spans.iter().any(|span| {
        span.content.contains("[Preview] Move under parent")
            && span.style.bg == Some(Color::Accent)
    }));
}

#[test]
fn test_session_creation_overlay_records_its_option_rows() {
    // Arrange
    let overlay = SessionCreationOverlay::new(0, true, true);

    // Act
    let popup = overlay.render(frame(80, 20), &PaddedBlock);

    // Assert
    let buffer = paint(&popup, frame(80, 20));
    assert_eq!(
        recorded_row(&popup, ListRegionKind::SessionCreation, 0),
        painted_row(&buffer, "Regular")
    );
    assert_eq!(
        recorded_row(&popup, ListRegionKind::SessionCreation, 4),
        painted_row(&buffer, "Append to stack")
    );
}

#[test]
fn test_session_creation_overlay_never_highlights_a_disabled_option() {
    // Arrange
    let overlay = SessionCreationOverlay::new(4, true, false);

    // Act
    let lines = overlay.lines();

    // Assert
    assert!(!has_background(&lines[6], Color::Accent));
}

// Stack parent popup.

#[test]
fn test_stack_append_parent_overlay_renders_candidates_and_hint() {
    // Arrange
    let first_session = titled_session_fixture("first-session", Status::Review);
    let mut second_session = titled_session_fixture("second-session", Status::AgentReview);
    second_session.title = "Second parent".to_string();
    let parent_sessions = vec![&first_session, &second_session];
    let overlay = StackAppendParentOverlay::new(&parent_sessions, 1);

    // Act
    let popup = overlay.render(frame(80, 24), &PaddedBlock, &cut);

    // Assert
    let text = buffer_text(&paint(&popup, frame(80, 24)));
    assert!(text.contains("Append to stack"));
    assert!(text.contains("Choose parent session"));
    assert!(text.contains("Second parent"));
    assert!(text.contains("Enter: append"));
    let selected_line = &overlay.lines(30, 10, &cut)[3];
    assert!(has_background(selected_line, Color::Accent));
}

#[test]
fn test_stack_append_parent_overlay_height_grows_with_candidates() {
    // Arrange
    let first_session = titled_session_fixture("first-session", Status::Review);
    let second_session = titled_session_fixture("second-session", Status::Review);
    let parent_sessions = vec![&first_session, &second_session];
    let overlay = StackAppendParentOverlay::new(&parent_sessions, 0);

    // Act
    let popup_area = overlay.popup_area(frame(80, 24));

    // Assert
    assert_eq!(popup_area.width, 52);
    assert_eq!(popup_area.height, 10);
}

/// Builds ten titled parents.
fn ten_parents() -> Vec<Session> {
    (0..10)
        .map(|index| {
            let mut session =
                titled_session_fixture(&format!("parent-{index}"), Status::Review);
            session.title = format!("Parent {index}");

            session
        })
        .collect()
}

#[test]
fn test_stack_append_parent_overlay_windows_over_height_candidates_around_selection() {
    // Arrange
    let sessions = ten_parents();
    let parent_sessions = sessions.iter().collect::<Vec<_>>();
    let overlay = StackAppendParentOverlay::new(&parent_sessions, 8);

    // Act
    let popup = overlay.render(frame(80, 12), &PaddedBlock, &cut);
    let text = buffer_text(&paint(&popup, frame(80, 12)));

    // Assert
    assert!(text.contains("Parent 8"));
    assert!(!text.contains("Parent 0"));
    assert!(text.contains("Enter: append"));
}

#[test]
fn test_stack_append_parent_overlay_records_the_visible_window() {
    // Arrange
    let sessions = ten_parents();
    let parent_sessions = sessions.iter().collect::<Vec<_>>();
    let overlay = StackAppendParentOverlay::new(&parent_sessions, 8);

    // Act
    let popup = overlay.render(frame(80, 12), &PaddedBlock, &cut);

    // Assert
    let buffer = paint(&popup, frame(80, 12));
    assert_eq!(
        recorded_row(&popup, ListRegionKind::StackAppendParent, 8),
        painted_row(&buffer, "Parent 8")
    );
    let recorded_indices: Vec<usize> = popup
        .list
        .iter()
        .filter(|list| list.kind == ListRegionKind::StackAppendParent)
        .flat_map(|list| list.items.iter().map(|item| item.index))
        .collect();
    assert!(
        !recorded_indices.contains(&0),
        "rows outside the window are not recorded"
    );
}

// Project switcher popup.

#[test]
fn test_project_switcher_overlay_popup_area_grows_with_project_count() {
    // Arrange
    let first_project = project_list_item_fixture(1, "agentty", 3);
    let second_project = project_list_item_fixture(2, "service", 1);
    let project_items = vec![&first_project, &second_project];
    let overlay = ProjectSwitcherOverlay::new(&project_items, 1, 0);

    // Act
    let popup_area = overlay.popup_area(frame(80, 24));

    // Assert
    assert_eq!(popup_area.width, 42);
    assert_eq!(popup_area.height, 10);
    assert_eq!(popup_area.x, 19);
    assert_eq!(popup_area.y, 7);
}

#[test]
fn test_project_switcher_overlay_render_shows_projects_and_hints() {
    // Arrange
    let first_project = project_list_item_fixture(1, "agentty", 3);
    let second_project = project_list_item_fixture(2, "service", 1);
    let project_items = vec![&first_project, &second_project];
    let overlay = ProjectSwitcherOverlay::new(&project_items, 1, 0);

    // Act
    let popup = overlay.render(frame(80, 24), &PaddedBlock, &cut);

    // Assert
    let text = buffer_text(&paint(&popup, frame(80, 24)));
    assert!(text.contains("Switch project"));
    assert!(text.contains("* agentty"));
    assert!(text.contains("service"));
    assert!(text.contains("▶ 3"));
    assert!(text.contains("▶ 1"));
    assert!(text.contains("j/k: move | Enter: switch | q: close"));
}

#[test]
fn test_project_switcher_overlay_render_aligns_project_labels() {
    // Arrange
    let first_project = project_list_item_fixture(1, "agentty", 3);
    let second_project = project_list_item_fixture(2, "service", 1);
    let project_items = vec![&first_project, &second_project];
    let overlay = ProjectSwitcherOverlay::new(&project_items, 1, 0);

    // Act
    let popup = overlay.render(frame(80, 24), &PaddedBlock, &cut);

    // Assert
    let buffer = paint(&popup, frame(80, 24));
    let active_label_column = text_position(&buffer, "agentty")
        .expect("active project label should render")
        .0;
    let inactive_label_column = text_position(&buffer, "service")
        .expect("inactive project label should render")
        .0;
    assert_eq!(active_label_column, inactive_label_column);
}

#[test]
fn test_project_switcher_overlay_lines_highlight_selected_row() {
    // Arrange
    let first_project = project_list_item_fixture(1, "agentty", 3);
    let second_project = project_list_item_fixture(2, "service", 1);
    let project_items = vec![&first_project, &second_project];
    let overlay = ProjectSwitcherOverlay::new(&project_items, 1, 1);

    // Act
    let lines = overlay.lines(20, &cut);
    let selected_line = &lines[3];
    let unselected_line = &lines[2];

    // Assert
    assert!(
        selected_line
            .spans
            .iter()
            .all(|span| span.style.bg == Some(Color::Accent))
    );
    assert!(
        unselected_line
            .spans
            .iter()
            .all(|span| span.style.bg != Some(Color::Accent))
    );
}

#[test]
fn test_project_switcher_overlay_lines_show_only_running_session_counts() {
    // Arrange
    let busy_project = project_list_item_fixture(1, "agentty", 2);
    let idle_project = project_list_item_fixture(2, "service", 0);
    let project_items = vec![&busy_project, &idle_project];
    let overlay = ProjectSwitcherOverlay::new(&project_items, 1, 0);

    // Act
    let lines = overlay.lines(20, &cut);
    let busy_row_text = line_text(&lines[2]);
    let idle_row_text = line_text(&lines[3]);

    // Assert
    assert!(busy_row_text.contains("▶ 2"));
    assert_eq!(idle_row_text.trim(), "service");
}

#[test]
fn test_project_switcher_overlay_lines_mark_active_project() {
    // Arrange
    let first_project = project_list_item_fixture(1, "agentty", 3);
    let second_project = project_list_item_fixture(2, "service", 1);
    let project_items = vec![&first_project, &second_project];
    let overlay = ProjectSwitcherOverlay::new(&project_items, 2, 0);

    // Act
    let lines = overlay.lines(20, &cut);
    let active_row_text = line_text(&lines[3]);
    let inactive_row_text = line_text(&lines[2]);

    // Assert
    assert!(active_row_text.contains("* service"));
    assert!(!inactive_row_text.contains('*'));
}

#[test]
fn test_project_switcher_overlay_lines_center_header_and_help_text() {
    // Arrange
    let first_project = project_list_item_fixture(1, "agentty", 0);
    let project_items = vec![&first_project];
    let overlay = ProjectSwitcherOverlay::new(&project_items, 1, 0);

    // Act
    let lines = overlay.lines(20, &cut);
    let header_line = lines.first().expect("overlay should include a header line");
    let help_line = lines.last().expect("overlay should include a help line");

    // Assert
    assert_eq!(header_line.alignment, Some(Alignment::Center));
    assert_eq!(help_line.alignment, Some(Alignment::Center));
}

#[test]
fn test_project_switcher_overlay_records_its_project_rows() {
    // Arrange
    let project_items = [
        project_list_item_fixture(1, "alpha-project", 0),
        project_list_item_fixture(2, "beta-project", 0),
    ];
    let project_refs = project_items.iter().collect::<Vec<_>>();
    let overlay = ProjectSwitcherOverlay::new(&project_refs, 1, 0);

    // Act
    let popup = overlay.render(frame(80, 24), &PaddedBlock, &cut);

    // Assert
    let buffer = paint(&popup, frame(80, 24));
    assert_eq!(
        recorded_row(&popup, ListRegionKind::ProjectSwitcher, 0),
        painted_row(&buffer, "alpha-project")
    );
    assert_eq!(
        recorded_row(&popup, ListRegionKind::ProjectSwitcher, 1),
        painted_row(&buffer, "beta-project")
    );
}

// Shared geometry.

#[test]
fn test_popup_never_leaves_a_small_frame() {
    // Arrange
    let area = ViewportRect::new(3, 4, 10, 5);

    // Act
    let popup_area = centered_popup_area(area, 62, 38, 50, 9);

    // Assert
    assert_eq!(popup_area, area);
}

#[test]
fn test_overlay_required_height_adds_the_chrome() {
    assert_eq!(overlay_required_height(0), 4);
    assert_eq!(overlay_required_height(6), 10);
    assert_eq!(overlay_required_height(100_000), u16::MAX);
}

#[test]
fn test_window_shows_its_selection() {
    for selected in 0..10 {
        let start = compute_window_start(10, selected, 4);
        assert!(start <= selected && selected < start + 4 && start + 4 <= 10);
    }
    assert_eq!(compute_window_start(10, 5, 4), 3);
    assert_eq!(compute_window_start(3, 2, 4), 0);
}
