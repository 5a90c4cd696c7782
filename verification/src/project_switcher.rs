//! Keys of the popup that switches the active project.

use vstd::prelude::*;

use crate::app_mode::AppMode;
use crate::key::{KeyCode, KeyEvent, is_quit_letter, quit_letter};
use crate::project_switcher_overlay::ProjectListItem;
use crate::viewport::{least, minus};

verus! {

/// A project that is to become the active one.
#[derive(Debug)]
pub struct ProjectSwitch {
    pub label: String,
    pub project_id: i64,
}

/// The highlighted row.
pub open spec fn current_row(mode: AppMode) -> usize {
    match mode {
        AppMode::ProjectSwitcher { selected_option_index } => selected_option_index,
        _ => 0,
    }
}

/// Looks up the highlighted row.
pub fn current_project_switcher_selection(mode: &AppMode) -> (row: usize)
    ensures
        row == current_row(*mode),
{
    match mode {
        AppMode::ProjectSwitcher { selected_option_index } => *selected_option_index,
        _ => 0,
    }
}

/// The popup with another row highlighted, held inside the list.
pub open spec fn with_row(mode: AppMode, row: int, count: int) -> AppMode {
    match mode {
        AppMode::ProjectSwitcher { .. } => AppMode::ProjectSwitcher {
            selected_option_index: least(row, minus(count, 1)) as usize,
        },
        other => other,
    }
}

/// Highlights a row, or the last one where the list is shorter.
pub fn update_project_switcher_selection(
    mode: &mut AppMode,
    project_count: usize,
    selected_option_index: usize,
)
    ensures
        *final(mode) == with_row(*old(mode), selected_option_index as int, project_count as int),
{
    let last: usize = project_count.saturating_sub(1);
    if let AppMode::ProjectSwitcher { selected_option_index: current } = mode {
        *current = if selected_option_index < last {
            selected_option_index
        } else {
            last
        };
    }
}

/// The switch that the highlighted row asks for; the active project needs
/// none.
pub open spec fn chosen_project(
    mode: AppMode,
    projects: Seq<ProjectListItem>,
    active_project_id: i64,
) -> Option<ProjectSwitch> {
    let row = current_row(mode);
    if row < projects.len() && projects[row as int].id != active_project_id {
        Some(
            ProjectSwitch {
                label: projects[row as int].label,
                project_id: projects[row as int].id,
            },
        )
    } else {
        None
    }
}

/// Closes the popup and returns the switch that it asks for.
pub fn switch_to_selected_switcher_project(
    mode: &mut AppMode,
    projects: &Vec<ProjectListItem>,
    active_project_id: i64,
) -> (switch: Option<ProjectSwitch>)
    ensures
        switch == chosen_project(*old(mode), projects@, active_project_id),
        *final(mode) == AppMode::List,
{
    let row: usize = current_project_switcher_selection(mode);
    *mode = AppMode::List;
    if row >= projects.len() {
        return None;
    }
    let project: &ProjectListItem = &projects[row];
    if project.id == active_project_id {
        return None;
    }
    Some(ProjectSwitch { label: project.label.clone(), project_id: project.id })
}

/// The switch that a key asks for, and the mode that follows it.
pub open spec fn switcher_key_result(
    mode: AppMode,
    projects: Seq<ProjectListItem>,
    active_project_id: i64,
    key: KeyEvent,
) -> (Option<ProjectSwitch>, AppMode) {
    let count = projects.len() as int;
    if key.code == KeyCode::Esc || quit_letter(key.code) {
        (None, AppMode::List)
    } else if key.code == KeyCode::Up || key.code == KeyCode::Char('k') {
        (None, with_row(mode, minus(current_row(mode) as int, 1), count))
    } else if key.code == KeyCode::Down || key.code == KeyCode::Char('j') {
        (None, with_row(mode, current_row(mode) + 1, count))
    } else if key.code == KeyCode::Enter {
        (chosen_project(mode, projects, active_project_id), AppMode::List)
    } else {
        (None, mode)
    }
}

/// Applies a key of the popup and returns the switch that it asks for.
pub fn handle_project_switcher_key(
    mode: &mut AppMode,
    projects: &Vec<ProjectListItem>,
    active_project_id: i64,
    key: KeyEvent,
) -> (switch: Option<ProjectSwitch>)
    ensures
        (switch, *final(mode)) == switcher_key_result(
            *old(mode),
            projects@,
            active_project_id,
            key,
        ),
{
    let row: usize = current_project_switcher_selection(mode);
    if key.code == KeyCode::Esc || is_quit_letter(key.code) {
        *mode = AppMode::List;
        return None;
    }
    if key.code == KeyCode::Up || key.code == KeyCode::Char('k') {
        update_project_switcher_selection(mode, projects.len(), row.saturating_sub(1));
        return None;
    }
    if key.code == KeyCode::Down || key.code == KeyCode::Char('j') {
        update_project_switcher_selection(mode, projects.len(), row.saturating_add(1));
        return None;
    }
    if key.code == KeyCode::Enter {
        return switch_to_selected_switcher_project(mode, projects, active_project_id);
    }
    None
}

/// Shows why a project could not become the active one.
pub fn show_switch_failure(mode: &mut AppMode, label: String, error: String)
    ensures
        *final(mode) matches AppMode::SyncBlockedPopup {
            default_branch,
            is_loading,
            message,
            project_name,
            title,
        } && default_branch is None && !is_loading && message == error && project_name == Some(
            label,
        ) && title@ == "Project switch failed"@,
{
    *mode = AppMode::SyncBlockedPopup {
        default_branch: None,
        is_loading: false,
        message: error,
        project_name: Some(label),
        title: "Project switch failed".to_owned(),
    };
}

/// Every key keeps the highlighted row of a list that is not empty inside it.
pub proof fn lemma_switcher_row_stays_inside(
    mode: AppMode,
    projects: Seq<ProjectListItem>,
    active_project_id: i64,
    key: KeyEvent,
)
    requires
        0 < projects.len() <= usize::MAX,
        current_row(mode) < projects.len(),
    ensures
        current_row(switcher_key_result(mode, projects, active_project_id, key).1)
            < projects.len(),
{
}

} // verus!
