use agentty_tui::app_mode::{
    AppMode, ConfirmationViewMode, DiffFocus, DiffLineComments, DiffMode, DiffPreview,
};
use agentty_tui::click_handler::{
    ClickFacts, ListPages, MouseOutcome, SettingsLists, handle_list_click,
};
use agentty_tui::diff_page::{DiffContent, DiffItem};
use agentty_tui::session_creation::SelectedSessionFacts;
use agentty_tui::tab::Tab;
use agentty_tui::viewport::ListRegionKind;

/// A screen that takes clicks.
struct Screen {
    content: DiffContent,
    facts: ClickFacts,
    mode: AppMode,
    pages: ListPages,
}

impl Screen {
    fn click(&mut self, kind: ListRegionKind, index: usize) -> MouseOutcome {
        let (outcome, preview) = handle_list_click(
            &mut self.mode,
            &mut self.pages,
            &self.content,
            &Vec::new(),
            &self.facts,
            kind,
            index,
        );
        assert!(preview.is_none());

        outcome
    }
}

/// Creates a list page on `tab` with two project rows.
fn list_app_on(tab: Tab) -> Screen {
    Screen {
        content: DiffContent { items: Vec::new() },
        facts: ClickFacts {
            parent_count: 0,
            project_count: 2,
            selected: SelectedSessionFacts {
                append_source: None,
                stacked_parent: None,
            },
        },
        mode: AppMode::List,
        pages: ListPages {
            current_tab: tab,
            project_count: 2,
            selected_project: Some(0),
            selected_session: None,
            session_count: 0,
            settings: SettingsLists {
                is_editor_input_active: false,
                is_editor_open: false,
                is_selector_open: false,
                item_count: 10,
                selected_index: 0,
            },
        },
    }
}

/// Creates a list page on the Sessions tab with two sessions.
fn sessions_app() -> Screen {
    let mut screen = list_app_on(Tab::Sessions);
    screen.pages.session_count = 2;
    screen.pages.selected_session = Some(0);

    screen
}

#[test]
fn test_tab_click_switches_to_another_tab_and_ignores_the_current_one() {
    // Arrange
    let mut screen = list_app_on(Tab::Projects);

    // Act
    let switched = screen.click(ListRegionKind::Tabs, 2);
    let same = screen.click(ListRegionKind::Tabs, 0);
    let out_of_range = screen.click(ListRegionKind::Tabs, 9);

    // Assert
    assert_eq!(switched, MouseOutcome::SwitchTab(Tab::Settings));
    assert_eq!(same, MouseOutcome::Ignored);
    assert_eq!(out_of_range, MouseOutcome::Ignored);
}

#[test]
fn test_tab_click_is_ignored_under_an_overlay_or_open_settings_dropdown() {
    // Arrange
    let mut screen = list_app_on(Tab::Settings);
    screen.pages.settings.is_selector_open = true;

    // Act
    let under_dropdown = screen.click(ListRegionKind::Tabs, 0);
    screen.pages.settings.is_selector_open = false;
    screen.mode = AppMode::SessionCreation {
        selected_option_index: 0,
    };
    let under_overlay = screen.click(ListRegionKind::Tabs, 0);

    // Assert
    assert_eq!(under_dropdown, MouseOutcome::Ignored);
    assert_eq!(under_overlay, MouseOutcome::Ignored);
}

#[test]
fn test_project_row_click_selects_then_activates() {
    // Arrange
    let mut screen = list_app_on(Tab::Projects);

    // Act
    let selected = screen.click(ListRegionKind::Projects, 1);
    let selected_index = screen.pages.selected_project;
    let activated = screen.click(ListRegionKind::Projects, 1);
    let out_of_range = screen.click(ListRegionKind::Projects, 5);

    // Assert
    assert_eq!(selected, MouseOutcome::Redraw);
    assert_eq!(selected_index, Some(1));
    assert_eq!(activated, MouseOutcome::Activate);
    assert_eq!(out_of_range, MouseOutcome::Ignored);
}

#[test]
fn test_project_row_click_is_ignored_on_another_tab() {
    // Arrange
    let mut screen = list_app_on(Tab::Sessions);

    // Act
    let outcome = screen.click(ListRegionKind::Projects, 1);

    // Assert
    assert_eq!(outcome, MouseOutcome::Ignored);
}

#[test]
fn test_session_row_click_selects_then_activates() {
    // Arrange
    let mut screen = sessions_app();

    // Act
    let selected = screen.click(ListRegionKind::Sessions, 1);
    let selected_index = screen.pages.selected_session;
    let activated = screen.click(ListRegionKind::Sessions, 1);
    let out_of_range = screen.click(ListRegionKind::Sessions, 2);

    // Assert
    assert_eq!(selected, MouseOutcome::Redraw);
    assert_eq!(selected_index, Some(1));
    assert_eq!(activated, MouseOutcome::Activate);
    assert_eq!(out_of_range, MouseOutcome::Ignored);
}

#[test]
fn test_session_row_click_is_ignored_on_another_tab() {
    // Arrange
    let mut screen = sessions_app();
    screen.pages.current_tab = Tab::Projects;

    // Act
    let outcome = screen.click(ListRegionKind::Sessions, 1);

    // Assert
    assert_eq!(outcome, MouseOutcome::Ignored);
}

#[test]
fn test_settings_row_click_selects_then_activates() {
    // Arrange
    let mut screen = list_app_on(Tab::Settings);

    // Act
    let selected = screen.click(ListRegionKind::Settings, 3);
    let selected_index = screen.pages.settings.selected_index;
    let activated = screen.click(ListRegionKind::Settings, 3);
    let out_of_range = screen.click(ListRegionKind::Settings, 99);

    // Assert
    assert_eq!(selected, MouseOutcome::Redraw);
    assert_eq!(selected_index, 3);
    assert_eq!(activated, MouseOutcome::Activate);
    assert_eq!(out_of_range, MouseOutcome::Ignored);
}

#[test]
fn test_settings_row_click_is_ignored_off_the_settings_tab_and_under_a_dropdown() {
    // Arrange
    let mut screen = list_app_on(Tab::Projects);
    let off_tab = screen.click(ListRegionKind::Settings, 1);
    screen.pages.current_tab = Tab::Settings;
    screen.pages.settings.is_selector_open = true;

    // Act
    let under_dropdown = screen.click(ListRegionKind::Settings, 1);

    // Assert
    assert_eq!(off_tab, MouseOutcome::Ignored);
    assert_eq!(under_dropdown, MouseOutcome::Ignored);
    assert_eq!(screen.pages.settings.selected_index, 0);
}

#[test]
fn test_settings_selector_click_selects_an_option_then_activates() {
    // Arrange
    let mut screen = list_app_on(Tab::Settings);
    let closed = screen.click(ListRegionKind::SettingsSelector, 1);
    screen.pages.settings.is_selector_open = true;

    // Act
    let selected = screen.click(ListRegionKind::SettingsSelector, 1);
    let selected_index = screen.pages.settings.selected_index;
    let activated = screen.click(ListRegionKind::SettingsSelector, 1);
    let out_of_range = screen.click(ListRegionKind::SettingsSelector, 99);

    // Assert
    assert_eq!(closed, MouseOutcome::Ignored);
    assert_eq!(selected, MouseOutcome::Redraw);
    assert_eq!(selected_index, 1);
    assert_eq!(activated, MouseOutcome::Activate);
    assert_eq!(out_of_range, MouseOutcome::Ignored);
    assert!(screen.pages.settings.is_selector_open);
}

#[test]
fn test_launch_configuration_editor_click_selects_a_command_then_activates() {
    // Arrange
    let mut screen = list_app_on(Tab::Settings);
    let closed = screen.click(ListRegionKind::LaunchConfigurationEditor, 1);
    screen.pages.settings.is_editor_open = true;
    screen.pages.settings.item_count = 2;

    // Act
    let selected = screen.click(ListRegionKind::LaunchConfigurationEditor, 1);
    let selected_index = screen.pages.settings.selected_index;
    let activated = screen.click(ListRegionKind::LaunchConfigurationEditor, 1);
    screen.pages.settings.is_editor_input_active = true;
    let while_typing = screen.click(ListRegionKind::LaunchConfigurationEditor, 0);

    // Assert
    assert_eq!(closed, MouseOutcome::Ignored);
    assert_eq!(selected, MouseOutcome::Redraw);
    assert_eq!(selected_index, 1);
    assert_eq!(activated, MouseOutcome::Activate);
    assert_eq!(while_typing, MouseOutcome::Ignored);
}

#[test]
fn test_session_creation_click_selects_enabled_options_only() {
    // Arrange
    let mut screen = list_app_on(Tab::Sessions);
    let outside = screen.click(ListRegionKind::SessionCreation, 1);
    screen.mode = AppMode::SessionCreation {
        selected_option_index: 0,
    };

    // Act
    let selected = screen.click(ListRegionKind::SessionCreation, 1);
    let selected_option_after_click = matches!(
        screen.mode,
        AppMode::SessionCreation {
            selected_option_index: 1
        }
    );
    let activated = screen.click(ListRegionKind::SessionCreation, 1);
    let disabled = screen.click(ListRegionKind::SessionCreation, 3);

    // Assert
    assert_eq!(outside, MouseOutcome::Ignored);
    assert_eq!(selected, MouseOutcome::Redraw);
    assert!(selected_option_after_click);
    assert_eq!(activated, MouseOutcome::Activate);
    assert_eq!(disabled, MouseOutcome::Ignored, "Stacked needs a parent");
}

#[test]
fn test_project_switcher_click_selects_then_activates_within_the_mru_list() {
    // Arrange
    let mut screen = list_app_on(Tab::Sessions);
    let outside = screen.click(ListRegionKind::ProjectSwitcher, 1);
    screen.mode = AppMode::ProjectSwitcher {
        selected_option_index: 0,
    };

    // Act
    let selected = screen.click(ListRegionKind::ProjectSwitcher, 1);
    let selected_option_after_click = matches!(
        screen.mode,
        AppMode::ProjectSwitcher {
            selected_option_index: 1
        }
    );
    let activated = screen.click(ListRegionKind::ProjectSwitcher, 1);
    let out_of_range = screen.click(ListRegionKind::ProjectSwitcher, 7);

    // Assert
    assert_eq!(outside, MouseOutcome::Ignored);
    assert_eq!(selected, MouseOutcome::Redraw);
    assert!(selected_option_after_click);
    assert_eq!(activated, MouseOutcome::Activate);
    assert_eq!(out_of_range, MouseOutcome::Ignored);
}

#[test]
fn test_stack_append_parent_click_selects_then_activates_an_eligible_parent() {
    // Arrange
    let mut screen = sessions_app();
    screen.facts.parent_count = 1;
    let outside = screen.click(ListRegionKind::StackAppendParent, 0);
    screen.mode = AppMode::StackAppendParentSelection {
        selected_parent_index: 5,
        session_id: "session-2".to_string(),
    };

    // Act
    let selected = screen.click(ListRegionKind::StackAppendParent, 0);
    let selected_parent_after_click = matches!(
        screen.mode,
        AppMode::StackAppendParentSelection {
            selected_parent_index: 0,
            ..
        }
    );
    let activated = screen.click(ListRegionKind::StackAppendParent, 0);
    let out_of_range = screen.click(ListRegionKind::StackAppendParent, 1);

    // Assert
    assert_eq!(outside, MouseOutcome::Ignored);
    assert_eq!(selected, MouseOutcome::Redraw);
    assert!(selected_parent_after_click);
    assert_eq!(activated, MouseOutcome::Activate);
    assert_eq!(
        out_of_range,
        MouseOutcome::Ignored,
        "only one other session can parent"
    );
}

#[test]
fn test_launch_configuration_selector_click_selects_then_activates() {
    // Arrange
    let mut screen = list_app_on(Tab::Sessions);
    let outside = screen.click(ListRegionKind::LaunchConfigurationSelector, 1);
    screen.mode = AppMode::LaunchConfigurationSelector {
        commands: vec!["cargo test".to_string(), "npm run dev".to_string()],
        restore_view: ConfirmationViewMode {
            scroll_offset: None,
            session_id: "session-1".to_string(),
        },
        selected_command_index: 0,
    };

    // Act
    let selected = screen.click(ListRegionKind::LaunchConfigurationSelector, 1);
    let selected_command_after_click = matches!(
        screen.mode,
        AppMode::LaunchConfigurationSelector {
            selected_command_index: 1,
            ..
        }
    );
    let activated = screen.click(ListRegionKind::LaunchConfigurationSelector, 1);
    let out_of_range = screen.click(ListRegionKind::LaunchConfigurationSelector, 2);

    // Assert
    assert_eq!(outside, MouseOutcome::Ignored);
    assert_eq!(selected, MouseOutcome::Redraw);
    assert!(selected_command_after_click);
    assert_eq!(activated, MouseOutcome::Activate);
    assert_eq!(out_of_range, MouseOutcome::Ignored);
}

fn source_file(path: &str) -> DiffItem {
    DiffItem {
        changed_lines: Vec::new(),
        is_markdown: false,
        path: Some(path.to_string()),
    }
}

#[test]
fn test_diff_file_click_selects_without_activating() {
    // Arrange
    let mut screen = list_app_on(Tab::Sessions);
    screen.content = DiffContent {
        items: vec![source_file("a.rs"), source_file("b.rs")],
    };
    let outside = screen.click(ListRegionKind::DiffFiles, 1);
    screen.mode = AppMode::Diff(DiffMode {
        diff: "diff --git a/a.rs b/a.rs\n@@ -0,0 +1 @@\n+one\ndiff --git a/b.rs b/b.rs\n@@ -0,0 \
               +1 @@\n+two"
            .to_string(),
        file_explorer_selected_index: 0,
        focus: DiffFocus::Files,
        line_comments: DiffLineComments::default(),
        preview: DiffPreview::Disabled { request_id: 0 },
        restore: None,
        review_comments: None,
        scroll_cache: None,
        scroll_offset: 0,
        selected_diff_line_index: 0,
        session_id: "session-1".to_string(),
    });

    // Act
    let selected = screen.click(ListRegionKind::DiffFiles, 1);
    let repeated = screen.click(ListRegionKind::DiffFiles, 1);

    // Assert
    assert_eq!(outside, MouseOutcome::Ignored);
    assert_eq!(selected, MouseOutcome::Redraw);
    assert!(matches!(
        screen.mode,
        AppMode::Diff(DiffMode {
            file_explorer_selected_index: 1,
            ..
        })
    ));
    assert_eq!(
        repeated,
        MouseOutcome::Ignored,
        "files select but never activate"
    );
}

#[test]
fn test_page_clicks_are_ignored_under_a_popup() {
    // Arrange
    let mut screen = sessions_app();
    screen.mode = AppMode::ProjectSwitcher {
        selected_option_index: 0,
    };

    // Act
    let session = screen.click(ListRegionKind::Sessions, 1);
    let tab = screen.click(ListRegionKind::Tabs, 0);

    // Assert
    assert_eq!(session, MouseOutcome::Ignored);
    assert_eq!(tab, MouseOutcome::Ignored);
    assert_eq!(screen.pages.selected_session, Some(0));
}
