//! Keys of the popup that selects one launch configuration.

use vstd::prelude::*;

use crate::app_mode::{AppMode, ConfirmationViewMode};
use crate::key::{KeyCode, KeyEvent};

verus! {

/// The command after `index`, going around at the end.
pub open spec fn next_command(index: int, count: int) -> int {
    if count <= 0 {
        0
    } else {
        (index + 1) % count
    }
}

/// The command before `index`, going around at the start.
pub open spec fn previous_command(index: int, count: int) -> int {
    if count <= 0 {
        0
    } else if index == 0 {
        count - 1
    } else {
        index - 1
    }
}

/// Computes the next command.
pub fn next_launch_configuration_index(current_index: usize, commands: &Vec<String>) -> (index:
    usize)
    requires
        commands@.len() > 0 ==> current_index < usize::MAX,
    ensures
        index == next_command(current_index as int, commands@.len() as int),
{
    if commands.len() == 0 {
        return 0;
    }
    (current_index + 1) % commands.len()
}

/// Computes the previous command.
pub fn previous_launch_configuration_index(current_index: usize, commands: &Vec<String>) -> (index:
    usize)
    ensures
        index == previous_command(current_index as int, commands@.len() as int),
{
    if commands.len() == 0 {
        return 0;
    }
    if current_index == 0 {
        commands.len() - 1
    } else {
        current_index - 1
    }
}

/// Moving on and back again stays on the same command.
pub proof fn lemma_next_then_previous_command(index: int, count: int)
    requires
        0 <= index < count,
    ensures
        0 <= next_command(index, count) < count,
        0 <= previous_command(index, count) < count,
        previous_command(next_command(index, count), count) == index,
        next_command(previous_command(index, count), count) == index,
{
    if index + 1 == count {
        assert((index + 1) % count == 0);
    } else {
        assert((index + 1) % count == index + 1) by (nonlinear_arith)
            requires
                0 <= index + 1 < count,
        ;
    }
    if index == 0 {
        assert(count % count == 0);
    } else {
        assert(index % count == index) by (nonlinear_arith)
            requires
                0 <= index < count,
        ;
    }
}

/// A worktree that is to be opened.
#[derive(Debug)]
pub struct WorktreeOpening {
    /// The command to be run in it, if there is one.
    pub command: Option<String>,
}

/// The command of a row, where it exists.
pub open spec fn command_at(commands: Seq<String>, index: usize) -> Option<String> {
    if index < commands.len() {
        Some(commands[index as int])
    } else {
        None
    }
}

/// Whether there is a number for the row below the selected one, where a key
/// asks for it.
pub open spec fn selection_can_move(mode: AppMode, key: KeyEvent) -> bool {
    mode matches AppMode::LaunchConfigurationSelector { commands, selected_command_index, .. } ==> (
    commands@.len() > 0 && (key.code == KeyCode::Char('j') || key.code == KeyCode::Down)
        ==> selected_command_index < usize::MAX)
}

/// The opening that a key asks for, and the mode that follows it.
pub open spec fn selector_key_result(
    commands: Vec<String>,
    restore_view: ConfirmationViewMode,
    index: usize,
    key: KeyEvent,
) -> (Option<WorktreeOpening>, AppMode) {
    let count = commands@.len() as int;
    if key.code == KeyCode::Esc || key.code == KeyCode::Char('q') {
        (None, restore_view.view_mode())
    } else if key.code == KeyCode::Char('j') || key.code == KeyCode::Down {
        (
            None,
            AppMode::LaunchConfigurationSelector {
                commands,
                restore_view,
                selected_command_index: next_command(index as int, count) as usize,
            },
        )
    } else if key.code == KeyCode::Char('k') || key.code == KeyCode::Up {
        (
            None,
            AppMode::LaunchConfigurationSelector {
                commands,
                restore_view,
                selected_command_index: previous_command(index as int, count) as usize,
            },
        )
    } else if key.code == KeyCode::Enter {
        (
            Some(WorktreeOpening { command: command_at(commands@, index) }),
            restore_view.view_mode(),
        )
    } else {
        (
            None,
            AppMode::LaunchConfigurationSelector {
                commands,
                restore_view,
                selected_command_index: index,
            },
        )
    }
}

/// Applies a key of the popup and returns the worktree opening that it asks
/// for.
pub fn handle_launch_configuration_selector_key(mode: &mut AppMode, key: KeyEvent) -> (opening:
    Option<WorktreeOpening>)
    requires
        selection_can_move(*old(mode), key),
    ensures
        match *old(mode) {
            AppMode::LaunchConfigurationSelector {
                commands,
                restore_view,
                selected_command_index,
            } => (opening, *final(mode)) == selector_key_result(
                commands,
                restore_view,
                selected_command_index,
                key,
            ),
            other => opening is None && *final(mode) == other,
        },
{
    let mut current: AppMode = AppMode::List;
    std::mem::swap(mode, &mut current);
    match current {
        AppMode::LaunchConfigurationSelector {
            commands,
            restore_view,
            selected_command_index,
        } => {
            if key.code == KeyCode::Esc || key.code == KeyCode::Char('q') {
                *mode = restore_view.into_view_mode();
                return None;
            }
            if key.code == KeyCode::Char('j') || key.code == KeyCode::Down {
                let next: usize = next_launch_configuration_index(
                    selected_command_index,
                    &commands,
                );
                *mode = AppMode::LaunchConfigurationSelector {
                    commands,
                    restore_view,
                    selected_command_index: next,
                };
                return None;
            }
            if key.code == KeyCode::Char('k') || key.code == KeyCode::Up {
                let previous: usize = previous_launch_configuration_index(
                    selected_command_index,
                    &commands,
                );
                *mode = AppMode::LaunchConfigurationSelector {
                    commands,
                    restore_view,
                    selected_command_index: previous,
                };
                return None;
            }
            if key.code == KeyCode::Enter {
                let command: Option<String> = if selected_command_index < commands.len() {
                    Some(commands[selected_command_index].clone())
                } else {
                    None
                };
                *mode = restore_view.into_view_mode();
                return Some(WorktreeOpening { command });
            }
            *mode = AppMode::LaunchConfigurationSelector {
                commands,
                restore_view,
                selected_command_index,
            };
            None
        },
        other => {
            *mode = other;
            None
        },
    }
}

} // verus!
