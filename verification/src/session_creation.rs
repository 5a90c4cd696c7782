//! Keys of the popup that selects the type of a new session.

use vstd::prelude::*;

use crate::app_mode::AppMode;
use crate::key::{KeyCode, KeyEvent, is_quit_letter, quit_letter};
use crate::session::{Session, SessionId};

verus! {

/// Position of the option that stacks a new session on the selected one.
pub const STACKED_OPTION: usize = 3;

/// Position of the option that moves the selected session under a parent.
pub const APPEND_OPTION: usize = 4;

/// Type of a new session.
#[derive(Debug)]
pub enum CreateSessionMode {
    Draft,
    Orchestrator,
    Regular,
    Stacked { parent_session_id: SessionId },
}

/// What the session that is selected in the list can be used for.
#[derive(Debug)]
pub struct SelectedSessionFacts {
    /// The selected session, if it can move under a parent.
    pub append_source: Option<SessionId>,
    /// The selected session, if it can carry a stacked one.
    pub stacked_parent: Option<SessionId>,
}

/// The selected session, where it can carry a stacked one.
pub fn selected_stacked_parent_session_id(selected: Option<&Session>, can_parent: bool) -> (id:
    Option<SessionId>)
    ensures
        id == (match selected {
            Some(session) if can_parent => Some(session.id),
            _ => None,
        }),
{
    match selected {
        Some(session) => if can_parent {
            Some(session.id.clone())
        } else {
            None
        },
        None => None,
    }
}

/// The selected session, where some row of the list can become its parent.
pub fn selected_stack_append_session_id(
    selected: Option<&Session>,
    eligible_parents: &Vec<bool>,
) -> (id: Option<SessionId>)
    ensures
        id == (match selected {
            Some(session) if eligible_parents@.contains(true) => Some(session.id),
            _ => None,
        }),
{
    let session: &Session = match selected {
        Some(session) => session,
        None => {
            return None;
        },
    };
    let mut row: usize = 0;
    while row < eligible_parents.len()
        invariant
            selected == Some(session),
            row <= eligible_parents@.len(),
            forall|i: int| 0 <= i < row ==> !(#[trigger] eligible_parents@[i]),
        decreases eligible_parents@.len() - row,
    {
        if eligible_parents[row] {
            assert(eligible_parents@[row as int] == true);
            assert(eligible_parents@.contains(true));
            return Some(session.id.clone());
        }
        row = row + 1;
    }
    None
}

/// Whether an option can be chosen.
pub open spec fn option_enabled(facts: SelectedSessionFacts, index: int) -> bool {
    if 0 <= index <= 2 {
        true
    } else if index == STACKED_OPTION {
        facts.stacked_parent is Some
    } else if index == APPEND_OPTION {
        facts.append_source is Some
    } else {
        false
    }
}

/// Reports whether an option can be chosen.
pub fn session_creation_option_is_enabled(facts: &SelectedSessionFacts, option_index: usize) -> (
    result: bool)
    ensures
        result == option_enabled(*facts, option_index as int),
{
    match option_index {
        0 | 1 | 2 => true,
        3 => facts.stacked_parent.is_some(),
        4 => facts.append_source.is_some(),
        _ => false,
    }
}

/// The last option up to `index` that can be chosen.
pub open spec fn enabled_up_to(facts: SelectedSessionFacts, index: int) -> int
    decreases index,
{
    if index <= 0 {
        0
    } else if option_enabled(facts, index) {
        index
    } else {
        enabled_up_to(facts, index - 1)
    }
}

/// The option that is highlighted when `index` is asked for.
pub open spec fn highlighted_option(facts: SelectedSessionFacts, index: usize) -> usize {
    enabled_up_to(
        facts,
        if index < APPEND_OPTION {
            index as int
        } else {
            APPEND_OPTION as int
        },
    ) as usize
}

/// The popup with another option highlighted; other modes stay as they are.
pub open spec fn with_option(mode: AppMode, index: usize) -> AppMode {
    match mode {
        AppMode::SessionCreation { .. } => AppMode::SessionCreation {
            selected_option_index: index,
        },
        other => other,
    }
}

/// Highlights an option, or the last one above it that can be chosen.
pub fn update_session_creation_selection(
    mode: &mut AppMode,
    facts: &SelectedSessionFacts,
    selected_option_index: usize,
)
    ensures
        *final(mode) == with_option(
            *old(mode),
            highlighted_option(*facts, selected_option_index),
        ),
{
    let mut index: usize = if selected_option_index < APPEND_OPTION {
        selected_option_index
    } else {
        APPEND_OPTION
    };
    proof {
        lemma_enabled_up_to(*facts, index as int);
    }
    while index > 0 && !session_creation_option_is_enabled(facts, index)
        invariant
            index <= APPEND_OPTION,
            enabled_up_to(*facts, index as int) == highlighted_option(
                *facts,
                selected_option_index,
            ),
        decreases index,
    {
        index = index - 1;
    }
    if let AppMode::SessionCreation { selected_option_index: current } = mode {
        *current = index;
    }
}

/// The highlighted option.
pub open spec fn current_option(mode: AppMode) -> usize {
    match mode {
        AppMode::SessionCreation { selected_option_index } => selected_option_index,
        _ => 0,
    }
}

/// Looks up the highlighted option.
pub fn current_session_creation_selection(mode: &AppMode) -> (index: usize)
    ensures
        index == current_option(*mode),
{
    match mode {
        AppMode::SessionCreation { selected_option_index } => *selected_option_index,
        _ => 0,
    }
}

/// The nearest option above `index` that can be chosen, or `index` itself.
pub open spec fn option_above(facts: SelectedSessionFacts, index: usize, from: int) -> usize
    decreases from,
{
    if from <= 0 {
        index
    } else if option_enabled(facts, from - 1) {
        (from - 1) as usize
    } else {
        option_above(facts, index, from - 1)
    }
}

/// The nearest option below `index` that can be chosen, or `index` itself.
pub open spec fn option_below(facts: SelectedSessionFacts, index: usize, from: int) -> usize
    decreases APPEND_OPTION + 1 - from,
{
    if from > APPEND_OPTION {
        index
    } else if option_enabled(facts, from) {
        from as usize
    } else {
        option_below(facts, index, from + 1)
    }
}

/// Highlights the previous option that can be chosen.
pub fn select_previous_session_creation_option(mode: &mut AppMode, facts: &SelectedSessionFacts)
    ensures
        ({
            let current = current_option(*old(mode));
            *final(mode) == with_option(
                *old(mode),
                highlighted_option(*facts, option_above(*facts, current, current as int)),
            )
        }),
{
    let current: usize = current_session_creation_selection(mode);
    let mut from: usize = current;
    while from > 0 && !session_creation_option_is_enabled(facts, from - 1)
        invariant
            option_above(*facts, current, from as int) == option_above(
                *facts,
                current,
                current as int,
            ),
        decreases from,
    {
        from = from - 1;
    }
    let previous: usize = if from > 0 {
        from - 1
    } else {
        current
    };
    update_session_creation_selection(mode, facts, previous);
}

/// Highlights the next option that can be chosen.
pub fn select_next_session_creation_option(mode: &mut AppMode, facts: &SelectedSessionFacts)
    ensures
        ({
            let current = current_option(*old(mode));
            *final(mode) == with_option(
                *old(mode),
                highlighted_option(*facts, option_below(*facts, current, current + 1)),
            )
        }),
{
    let current: usize = current_session_creation_selection(mode);
    let mut next: usize = current;
    if current < APPEND_OPTION {
        let mut from: usize = current + 1;
        while from <= APPEND_OPTION && !session_creation_option_is_enabled(facts, from)
            invariant
                from <= APPEND_OPTION + 1,
                option_below(*facts, current, from as int) == option_below(
                    *facts,
                    current,
                    current + 1,
                ),
            decreases APPEND_OPTION + 1 - from,
        {
            from = from + 1;
        }
        if from <= APPEND_OPTION {
            next = from;
        }
    }
    update_session_creation_selection(mode, facts, next);
}

/// Whatever option is asked for, the highlighted one can be chosen.
pub proof fn lemma_highlighted_option_enabled(facts: SelectedSessionFacts, index: usize)
    ensures
        option_enabled(facts, highlighted_option(facts, index) as int),
        highlighted_option(facts, index) <= index,
        option_enabled(facts, index as int) ==> highlighted_option(facts, index) == index,
{
    let start = if index < APPEND_OPTION {
        index as int
    } else {
        APPEND_OPTION as int
    };
    lemma_enabled_up_to(facts, start);
}

proof fn lemma_enabled_up_to(facts: SelectedSessionFacts, index: int)
    requires
        0 <= index <= APPEND_OPTION,
    ensures
        option_enabled(facts, enabled_up_to(facts, index)),
        0 <= enabled_up_to(facts, index) <= index,
        option_enabled(facts, index) ==> enabled_up_to(facts, index) == index,
    decreases index,
{
    if index > 0 && !option_enabled(facts, index) {
        lemma_enabled_up_to(facts, index - 1);
    }
}

/// The session to be created, and the mode that follows the choice.
///
/// Moving the selected session first asks for its parent, and an option that
/// cannot be chosen changes nothing.
pub open spec fn chosen_option(mode: AppMode, facts: SelectedSessionFacts) -> (
    Option<CreateSessionMode>,
    AppMode,
) {
    let index = current_option(mode);
    if index == 0 {
        (Some(CreateSessionMode::Regular), mode)
    } else if index == 1 {
        (Some(CreateSessionMode::Draft), mode)
    } else if index == 2 {
        (Some(CreateSessionMode::Orchestrator), mode)
    } else if index == STACKED_OPTION {
        match facts.stacked_parent {
            Some(parent_session_id) => (
                Some(CreateSessionMode::Stacked { parent_session_id }),
                mode,
            ),
            None => (None, mode),
        }
    } else if index == APPEND_OPTION {
        match facts.append_source {
            Some(session_id) => (
                None,
                AppMode::StackAppendParentSelection { selected_parent_index: 0, session_id },
            ),
            None => (None, mode),
        }
    } else {
        (None, mode)
    }
}

/// Chooses the highlighted option and returns the session to be created.
pub fn create_selected_session(mode: &mut AppMode, facts: &SelectedSessionFacts) -> (created:
    Option<CreateSessionMode>)
    ensures
        (created, *final(mode)) == chosen_option(*old(mode), *facts),
{
    match current_session_creation_selection(mode) {
        0 => Some(CreateSessionMode::Regular),
        1 => Some(CreateSessionMode::Draft),
        2 => Some(CreateSessionMode::Orchestrator),
        3 => match &facts.stacked_parent {
            Some(id) => Some(CreateSessionMode::Stacked { parent_session_id: id.clone() }),
            None => None,
        },
        4 => {
            if let Some(id) = &facts.append_source {
                *mode = AppMode::StackAppendParentSelection {
                    selected_parent_index: 0,
                    session_id: id.clone(),
                };
            }
            None
        },
        _ => None,
    }
}

/// The session to be created, and the mode that follows a key.
pub open spec fn creation_key_result(
    mode: AppMode,
    facts: SelectedSessionFacts,
    key: KeyEvent,
) -> (Option<CreateSessionMode>, AppMode) {
    let current = current_option(mode);
    if key.code == KeyCode::Esc || quit_letter(key.code) {
        (None, AppMode::List)
    } else if key.code == KeyCode::Up || key.code == KeyCode::Char('k') {
        let above = option_above(facts, current, current as int);
        (None, with_option(mode, highlighted_option(facts, above)))
    } else if key.code == KeyCode::Down || key.code == KeyCode::Char('j') {
        let below = option_below(facts, current, current + 1);
        (None, with_option(mode, highlighted_option(facts, below)))
    } else if key.code == KeyCode::Enter {
        chosen_option(mode, facts)
    } else {
        (None, mode)
    }
}

/// Applies a key of the popup and returns the session to be created.
pub fn handle_session_creation_key(
    mode: &mut AppMode,
    facts: &SelectedSessionFacts,
    key: KeyEvent,
) -> (created: Option<CreateSessionMode>)
    ensures
        (created, *final(mode)) == creation_key_result(*old(mode), *facts, key),
{
    if key.code == KeyCode::Esc || is_quit_letter(key.code) {
        *mode = AppMode::List;
        return None;
    }
    if key.code == KeyCode::Up || key.code == KeyCode::Char('k') {
        select_previous_session_creation_option(mode, facts);
        return None;
    }
    if key.code == KeyCode::Down || key.code == KeyCode::Char('j') {
        select_next_session_creation_option(mode, facts);
        return None;
    }
    if key.code == KeyCode::Enter {
        return create_selected_session(mode, facts);
    }
    None
}

/// The mode that follows a key of the warning shown before the popup.
pub open spec fn warning_key_result(mode: AppMode, key: KeyEvent) -> AppMode {
    if key.code == KeyCode::Enter {
        AppMode::SessionCreation { selected_option_index: 0 }
    } else if key.code == KeyCode::Esc || quit_letter(key.code) {
        AppMode::List
    } else {
        mode
    }
}

/// Applies a key of the warning shown before the popup.
pub fn handle_pre_commit_hook_warning_key(mode: &mut AppMode, key: KeyEvent)
    ensures
        *final(mode) == warning_key_result(*old(mode), key),
{
    if key.code == KeyCode::Enter {
        *mode = AppMode::SessionCreation { selected_option_index: 0 };
    } else if key.code == KeyCode::Esc || is_quit_letter(key.code) {
        *mode = AppMode::List;
    }
}

/// Moving through the options always lands on one that can be chosen.
pub proof fn lemma_moves_land_on_enabled_options(
    mode: AppMode,
    facts: SelectedSessionFacts,
    key: KeyEvent,
)
    requires
        mode is SessionCreation,
        option_enabled(facts, current_option(mode) as int),
    ensures
        creation_key_result(mode, facts, key).1 matches AppMode::SessionCreation {
            selected_option_index,
        } ==> option_enabled(facts, selected_option_index as int),
{
    let current = current_option(mode);
    lemma_highlighted_option_enabled(facts, option_above(facts, current, current as int));
    lemma_highlighted_option_enabled(facts, option_below(facts, current, current + 1));
}

} // verus!
