//! Pointer clicks on lists and menus.
//!
//! A click on an item selects it, and a click on the selected item activates
//! it. Files of the diff page are only selected, and header tabs switch at
//! once. Every list first makes sure that it is the one on top.

use vstd::prelude::*;

use crate::app_mode::AppMode;
use crate::diff::{handle_file_click, pointer_selected};
use crate::diff_navigation::FileSelectionTarget;
use crate::diff_page::DiffContent;
use crate::diff_preview::PreviewRequest;
use crate::project_switcher::update_project_switcher_selection;
use crate::session::Session;
use crate::session_creation::{
    SelectedSessionFacts, lemma_highlighted_option_enabled, option_enabled,
    session_creation_option_is_enabled, update_session_creation_selection,
};
use crate::tab::Tab;
use crate::viewport::ListRegionKind;

verus! {

/// What follows from a mouse event.
#[derive(Clone, Copy, Debug, PartialEq, Eq, Structural)]
pub enum MouseOutcome {
    /// The selected item was clicked; its `Enter` action is to be run.
    Activate,
    /// Nothing changed.
    Ignored,
    /// Something visible changed.
    Redraw,
    /// A header tab was clicked.
    SwitchTab(Tab),
}

impl MouseOutcome {
    /// The outcome of something that may have changed.
    pub open spec fn changed_spec(changed: bool) -> MouseOutcome {
        if changed {
            MouseOutcome::Redraw
        } else {
            MouseOutcome::Ignored
        }
    }

    /// The outcome of a click on an item that may have been selected before.
    pub open spec fn selection_spec(was_selected: bool, changed: bool) -> MouseOutcome {
        if was_selected {
            MouseOutcome::Activate
        } else {
            MouseOutcome::changed_spec(changed)
        }
    }

    /// Builds the outcome of something that may have changed.
    pub fn from_changed(changed: bool) -> (outcome: MouseOutcome)
        ensures
            outcome == MouseOutcome::changed_spec(changed),
    {
        if changed {
            MouseOutcome::Redraw
        } else {
            MouseOutcome::Ignored
        }
    }

    /// Builds the outcome of a click on an item that may have been selected
    /// before.
    pub fn from_selection(was_selected: bool, changed: bool) -> (outcome: MouseOutcome)
        ensures
            outcome == MouseOutcome::selection_spec(was_selected, changed),
    {
        if was_selected {
            MouseOutcome::Activate
        } else {
            MouseOutcome::from_changed(changed)
        }
    }
}

/// The settings page and the lists that open on top of it.
#[derive(Clone, Copy, Debug, PartialEq, Eq, Structural)]
pub struct SettingsLists {
    pub is_editor_input_active: bool,
    pub is_editor_open: bool,
    pub is_selector_open: bool,
    /// Items of the list on top.
    pub item_count: usize,
    /// The selected item of the list on top.
    pub selected_index: usize,
}

/// The pages behind the header tabs.
#[derive(Clone, Copy, Debug, PartialEq, Eq, Structural)]
pub struct ListPages {
    pub current_tab: Tab,
    pub project_count: usize,
    pub selected_project: Option<usize>,
    pub selected_session: Option<usize>,
    pub session_count: usize,
    pub settings: SettingsLists,
}

/// Whether clicks reach the list page and not a settings list on top of it.
pub open spec fn page_open_to_clicks(mode: AppMode, pages: ListPages) -> bool {
    mode is List && !pages.settings.is_selector_open && !pages.settings.is_editor_open
}

/// Reports whether clicks reach the list page.
pub fn list_page_accepts_clicks(mode: &AppMode, pages: &ListPages) -> (result: bool)
    ensures
        result == page_open_to_clicks(*mode, *pages),
{
    matches!(mode, AppMode::List) && !pages.settings.is_selector_open
        && !pages.settings.is_editor_open
}

/// The outcome of a click on a header tab.
pub open spec fn tab_click(mode: AppMode, pages: ListPages, index: usize) -> MouseOutcome {
    if !page_open_to_clicks(mode, pages) {
        MouseOutcome::Ignored
    } else {
        match Tab::at_position(index) {
            Some(tab) if tab != pages.current_tab => MouseOutcome::SwitchTab(tab),
            _ => MouseOutcome::Ignored,
        }
    }
}

/// Finds the tab that a click switches to.
pub fn click_tab(mode: &AppMode, pages: &ListPages, index: usize) -> (outcome: MouseOutcome)
    ensures
        outcome == tab_click(*mode, *pages, index),
{
    if !list_page_accepts_clicks(mode, pages) {
        return MouseOutcome::Ignored;
    }
    match Tab::at(index) {
        Some(tab) => if tab != pages.current_tab {
            MouseOutcome::SwitchTab(tab)
        } else {
            MouseOutcome::Ignored
        },
        None => MouseOutcome::Ignored,
    }
}

/// The pages and outcome after a click on a project.
pub open spec fn project_click(mode: AppMode, pages: ListPages, index: usize) -> (
    ListPages,
    MouseOutcome,
) {
    if !page_open_to_clicks(mode, pages) || pages.current_tab != Tab::Projects {
        (pages, MouseOutcome::Ignored)
    } else {
        (
            if index < pages.project_count {
                ListPages { selected_project: Some(index), ..pages }
            } else {
                pages
            },
            MouseOutcome::selection_spec(
                pages.selected_project == Some(index),
                index < pages.project_count,
            ),
        )
    }
}

/// Selects or activates a project.
pub fn click_project_row(mode: &AppMode, pages: &mut ListPages, index: usize) -> (outcome:
    MouseOutcome)
    ensures
        (*final(pages), outcome) == project_click(*mode, *old(pages), index),
{
    if !list_page_accepts_clicks(mode, pages) || pages.current_tab != Tab::Projects {
        return MouseOutcome::Ignored;
    }
    let was_selected: bool = match pages.selected_project {
        Some(selected) => selected == index,
        None => false,
    };
    let exists_item: bool = index < pages.project_count;
    if exists_item {
        pages.selected_project = Some(index);
    }
    MouseOutcome::from_selection(was_selected, exists_item)
}

/// The pages and outcome after a click on a session.
pub open spec fn session_click(mode: AppMode, pages: ListPages, index: usize) -> (
    ListPages,
    MouseOutcome,
) {
    if !page_open_to_clicks(mode, pages) || pages.current_tab != Tab::Sessions || index
        >= pages.session_count {
        (pages, MouseOutcome::Ignored)
    } else {
        (
            ListPages { selected_session: Some(index), ..pages },
            MouseOutcome::selection_spec(pages.selected_session == Some(index), true),
        )
    }
}

/// Selects or activates a session.
pub fn click_session_row(mode: &AppMode, pages: &mut ListPages, index: usize) -> (outcome:
    MouseOutcome)
    ensures
        (*final(pages), outcome) == session_click(*mode, *old(pages), index),
{
    if !list_page_accepts_clicks(mode, pages) || pages.current_tab != Tab::Sessions || index
        >= pages.session_count {
        return MouseOutcome::Ignored;
    }
    let was_selected: bool = match pages.selected_session {
        Some(selected) => selected == index,
        None => false,
    };
    pages.selected_session = Some(index);
    MouseOutcome::from_selection(was_selected, true)
}

/// The pages and outcome after a click on a settings list, if `is_active`
/// says that it is the one on top.
pub open spec fn settings_click(mode: AppMode, pages: ListPages, index: usize, is_active: bool) -> (
    ListPages,
    MouseOutcome,
) {
    let settings = pages.settings;
    if !is_active || mode !is List || pages.current_tab != Tab::Settings {
        (pages, MouseOutcome::Ignored)
    } else {
        let selected = if index < settings.item_count {
            index
        } else {
            settings.selected_index
        };
        (
            ListPages {
                settings: SettingsLists { selected_index: selected, ..settings },
                ..pages
            },
            MouseOutcome::selection_spec(settings.selected_index == index, selected == index),
        )
    }
}

/// Selects or activates an item of the settings list on top.
pub fn click_settings_list(mode: &AppMode, pages: &mut ListPages, index: usize, is_active: bool) -> (
    outcome: MouseOutcome)
    ensures
        (*final(pages), outcome) == settings_click(*mode, *old(pages), index, is_active),
{
    if !is_active || !matches!(mode, AppMode::List) || pages.current_tab != Tab::Settings {
        return MouseOutcome::Ignored;
    }
    let was_selected: bool = pages.settings.selected_index == index;
    if index < pages.settings.item_count {
        pages.settings.selected_index = index;
    }
    MouseOutcome::from_selection(was_selected, pages.settings.selected_index == index)
}

/// The mode and outcome after a click on an option of the session creation
/// popup.
pub open spec fn creation_click(mode: AppMode, facts: SelectedSessionFacts, index: usize) -> (
    AppMode,
    MouseOutcome,
) {
    match mode {
        AppMode::SessionCreation { selected_option_index } => {
            if !option_enabled(facts, index as int) {
                (mode, MouseOutcome::Ignored)
            } else if selected_option_index == index {
                (mode, MouseOutcome::Activate)
            } else {
                (
                    AppMode::SessionCreation { selected_option_index: index },
                    MouseOutcome::Redraw,
                )
            }
        },
        _ => (mode, MouseOutcome::Ignored),
    }
}

/// Selects or activates an option of the session creation popup.
pub fn click_session_creation_option(
    mode: &mut AppMode,
    facts: &SelectedSessionFacts,
    index: usize,
) -> (outcome: MouseOutcome)
    ensures
        (*final(mode), outcome) == creation_click(*old(mode), *facts, index),
{
    let selected: usize = match &*mode {
        AppMode::SessionCreation { selected_option_index } => *selected_option_index,
        _ => {
            return MouseOutcome::Ignored;
        },
    };
    if !session_creation_option_is_enabled(facts, index) {
        return MouseOutcome::Ignored;
    }
    if selected == index {
        return MouseOutcome::Activate;
    }
    proof {
        lemma_highlighted_option_enabled(*facts, index);
    }
    update_session_creation_selection(mode, facts, index);
    MouseOutcome::Redraw
}

/// The mode and outcome after a click on a project of the switcher popup.
pub open spec fn switcher_click(mode: AppMode, project_count: usize, index: usize) -> (
    AppMode,
    MouseOutcome,
) {
    match mode {
        AppMode::ProjectSwitcher { selected_option_index } => {
            if index >= project_count {
                (mode, MouseOutcome::Ignored)
            } else if selected_option_index == index {
                (mode, MouseOutcome::Activate)
            } else {
                (
                    AppMode::ProjectSwitcher { selected_option_index: index },
                    MouseOutcome::Redraw,
                )
            }
        },
        _ => (mode, MouseOutcome::Ignored),
    }
}

/// Selects or activates a project of the switcher popup.
pub fn click_project_switcher(mode: &mut AppMode, project_count: usize, index: usize) -> (outcome:
    MouseOutcome)
    ensures
        (*final(mode), outcome) == switcher_click(*old(mode), project_count, index),
{
    let selected: usize = match &*mode {
        AppMode::ProjectSwitcher { selected_option_index } => *selected_option_index,
        _ => {
            return MouseOutcome::Ignored;
        },
    };
    if index >= project_count {
        return MouseOutcome::Ignored;
    }
    if selected == index {
        return MouseOutcome::Activate;
    }
    update_project_switcher_selection(mode, project_count, index);
    MouseOutcome::Redraw
}

/// The mode and outcome after a click on a parent of the append popup.
pub open spec fn parent_click(mode: AppMode, parent_count: usize, index: usize) -> (
    AppMode,
    MouseOutcome,
) {
    match mode {
        AppMode::StackAppendParentSelection { selected_parent_index, session_id } => {
            if index >= parent_count {
                (mode, MouseOutcome::Ignored)
            } else if selected_parent_index == index {
                (mode, MouseOutcome::Activate)
            } else {
                (
                    AppMode::StackAppendParentSelection {
                        selected_parent_index: index,
                        session_id,
                    },
                    MouseOutcome::Redraw,
                )
            }
        },
        _ => (mode, MouseOutcome::Ignored),
    }
}

/// Selects or activates a parent of the append popup.
pub fn click_stack_append_parent(mode: &mut AppMode, parent_count: usize, index: usize) -> (outcome:
    MouseOutcome)
    ensures
        (*final(mode), outcome) == parent_click(*old(mode), parent_count, index),
{
    if let AppMode::StackAppendParentSelection { selected_parent_index, .. } = mode {
        if index >= parent_count {
            return MouseOutcome::Ignored;
        }
        if *selected_parent_index == index {
            return MouseOutcome::Activate;
        }
        *selected_parent_index = index;
        return MouseOutcome::Redraw;
    }
    MouseOutcome::Ignored
}

/// The mode and outcome after a click on a command of the selector popup.
pub open spec fn command_click(mode: AppMode, index: usize) -> (AppMode, MouseOutcome) {
    match mode {
        AppMode::LaunchConfigurationSelector {
            commands,
            restore_view,
            selected_command_index,
        } => {
            if index >= commands@.len() {
                (mode, MouseOutcome::Ignored)
            } else if selected_command_index == index {
                (mode, MouseOutcome::Activate)
            } else {
                (
                    AppMode::LaunchConfigurationSelector {
                        commands,
                        restore_view,
                        selected_command_index: index,
                    },
                    MouseOutcome::Redraw,
                )
            }
        },
        _ => (mode, MouseOutcome::Ignored),
    }
}

/// Selects or activates a command of the selector popup.
pub fn click_launch_configuration_selector(mode: &mut AppMode, index: usize) -> (outcome:
    MouseOutcome)
    ensures
        (*final(mode), outcome) == command_click(*old(mode), index),
{
    if let AppMode::LaunchConfigurationSelector { commands, selected_command_index, .. } = mode {
        if index >= commands.len() {
            return MouseOutcome::Ignored;
        }
        if *selected_command_index == index {
            return MouseOutcome::Activate;
        }
        *selected_command_index = index;
        return MouseOutcome::Redraw;
    }
    MouseOutcome::Ignored
}

/// What the lists on the screen offer.
#[derive(Debug)]
pub struct ClickFacts {
    pub parent_count: usize,
    /// Projects of the switcher popup.
    pub project_count: usize,
    pub selected: SelectedSessionFacts,
}

/// Whether the settings list of a region is the one on top.
pub open spec fn settings_list_active(kind: ListRegionKind, settings: SettingsLists) -> bool {
    match kind {
        ListRegionKind::LaunchConfigurationEditor => settings.is_editor_open
            && !settings.is_editor_input_active,
        ListRegionKind::Settings => !settings.is_selector_open && !settings.is_editor_open,
        ListRegionKind::SettingsSelector => settings.is_selector_open,
        _ => false,
    }
}

/// Whether a click on an item of a list was applied.
pub open spec fn click_applied(
    kind: ListRegionKind,
    index: usize,
    content: DiffContent,
    sessions: Seq<Session>,
    facts: ClickFacts,
    mode_before: AppMode,
    mode_after: AppMode,
    pages_before: ListPages,
    pages_after: ListPages,
    outcome: MouseOutcome,
    preview: Option<PreviewRequest>,
) -> bool {
    match kind {
        ListRegionKind::DiffFiles => {
            &&& pages_after == pages_before
            &&& match mode_before {
                AppMode::Diff(before) => {
                    &&& mode_after matches AppMode::Diff(after)
                    &&& exists|changed: bool| #[trigger]
                        pointer_selected(
                            content,
                            sessions,
                            FileSelectionTarget::Index(index),
                            before,
                            after,
                            changed,
                            preview,
                        ) && outcome == MouseOutcome::changed_spec(changed)
                },
                _ => mode_after == mode_before && outcome == MouseOutcome::Ignored
                    && preview is None,
            }
        },
        _ => {
            &&& preview is None
            &&& match kind {
                ListRegionKind::LaunchConfigurationSelector => pages_after == pages_before && (
                    mode_after,
                    outcome,
                ) == command_click(mode_before, index),
                ListRegionKind::ProjectSwitcher => pages_after == pages_before && (
                    mode_after,
                    outcome,
                ) == switcher_click(mode_before, facts.project_count, index),
                ListRegionKind::SessionCreation => pages_after == pages_before && (
                    mode_after,
                    outcome,
                ) == creation_click(mode_before, facts.selected, index),
                ListRegionKind::StackAppendParent => pages_after == pages_before && (
                    mode_after,
                    outcome,
                ) == parent_click(mode_before, facts.parent_count, index),
                ListRegionKind::Tabs => pages_after == pages_before && mode_after == mode_before
                    && outcome == tab_click(mode_before, pages_before, index),
                ListRegionKind::Projects => mode_after == mode_before && (pages_after, outcome)
                    == project_click(mode_before, pages_before, index),
                ListRegionKind::Sessions => mode_after == mode_before && (pages_after, outcome)
                    == session_click(mode_before, pages_before, index),
                _ => mode_after == mode_before && (pages_after, outcome) == settings_click(
                    mode_before,
                    pages_before,
                    index,
                    settings_list_active(kind, pages_before.settings),
                ),
            }
        },
    }
}

/// Applies a click on an item of a list.
///
/// Returns what follows from it, and the file to be read for a preview.
pub fn handle_list_click(
    mode: &mut AppMode,
    pages: &mut ListPages,
    content: &DiffContent,
    sessions: &Vec<Session>,
    facts: &ClickFacts,
    kind: ListRegionKind,
    index: usize,
) -> (result: (MouseOutcome, Option<PreviewRequest>))
    ensures
        click_applied(
            kind,
            index,
            *content,
            sessions@,
            *facts,
            *old(mode),
            *final(mode),
            *old(pages),
            *final(pages),
            result.0,
            result.1,
        ),
{
    let settings: SettingsLists = pages.settings;
    match kind {
        ListRegionKind::DiffFiles => {
            if let AppMode::Diff(diff) = mode {
                let (changed, preview) = handle_file_click(diff, content, sessions, index);
                return (MouseOutcome::from_changed(changed), preview);
            }
            (MouseOutcome::Ignored, None)
        },
        ListRegionKind::LaunchConfigurationEditor => (
            click_settings_list(
                mode,
                pages,
                index,
                settings.is_editor_open && !settings.is_editor_input_active,
            ),
            None,
        ),
        ListRegionKind::LaunchConfigurationSelector => (
            click_launch_configuration_selector(mode, index),
            None,
        ),
        ListRegionKind::Projects => (click_project_row(mode, pages, index), None),
        ListRegionKind::ProjectSwitcher => (
            click_project_switcher(mode, facts.project_count, index),
            None,
        ),
        ListRegionKind::SessionCreation => (
            click_session_creation_option(mode, &facts.selected, index),
            None,
        ),
        ListRegionKind::Sessions => (click_session_row(mode, pages, index), None),
        ListRegionKind::Settings => (
            click_settings_list(
                mode,
                pages,
                index,
                !settings.is_selector_open && !settings.is_editor_open,
            ),
            None,
        ),
        ListRegionKind::SettingsSelector => (
            click_settings_list(mode, pages, index, settings.is_selector_open),
            None,
        ),
        ListRegionKind::StackAppendParent => (
            click_stack_append_parent(mode, facts.parent_count, index),
            None,
        ),
        ListRegionKind::Tabs => (click_tab(mode, pages, index), None),
    }
}

/// A click that activates an item, or is ignored, changes no popup and no
/// page.
pub proof fn lemma_quiet_clicks_change_nothing(
    kind: ListRegionKind,
    index: usize,
    content: DiffContent,
    sessions: Seq<Session>,
    facts: ClickFacts,
    mode_before: AppMode,
    mode_after: AppMode,
    pages_before: ListPages,
    pages_after: ListPages,
    outcome: MouseOutcome,
    preview: Option<PreviewRequest>,
)
    requires
        click_applied(
            kind,
            index,
            content,
            sessions,
            facts,
            mode_before,
            mode_after,
            pages_before,
            pages_after,
            outcome,
            preview,
        ),
        outcome == MouseOutcome::Activate || outcome == MouseOutcome::Ignored,
    ensures
        mode_after == mode_before,
        pages_after == pages_before,
{
}

/// A click under a popup leaves the pages behind it alone.
pub proof fn lemma_popups_cover_pages(
    kind: ListRegionKind,
    index: usize,
    content: DiffContent,
    sessions: Seq<Session>,
    facts: ClickFacts,
    mode_before: AppMode,
    mode_after: AppMode,
    pages_before: ListPages,
    pages_after: ListPages,
    outcome: MouseOutcome,
    preview: Option<PreviewRequest>,
)
    requires
        click_applied(
            kind,
            index,
            content,
            sessions,
            facts,
            mode_before,
            mode_after,
            pages_before,
            pages_after,
            outcome,
            preview,
        ),
        mode_before !is List,
    ensures
        pages_after == pages_before,
        outcome !is SwitchTab,
{
}

} // verus!
