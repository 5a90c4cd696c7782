//! Which handler a key goes to.

use vstd::prelude::*;

use crate::app_mode::AppMode;
use crate::diff::{reply_available, should_submit_line_comments, submits_comments};
use crate::geometry::ViewportRect;
use crate::key::{KeyCode, KeyEvent, is_quit_letter, quit_letter};
use crate::session::{Session, session_row};

verus! {

/// The handler of a key.
#[derive(Clone, Copy, Debug, PartialEq, Eq, Structural)]
pub enum KeyRoute {
    Confirmation,
    /// The diff page; a key that turns comments into a reply also sends it.
    Diff { submits_comments: bool },
    DiffLoading,
    Help,
    LaunchConfigurationSelector,
    List,
    PreCommitHookWarning,
    ProjectSwitcher,
    Prompt,
    PublishBranchInput,
    Question,
    ReviewComments,
    SessionCreation,
    StackAppendParentSelection,
    SyncBlockedPopup,
    View,
    ViewInfoPopup,
}

/// Whether a key sends the comments of the shown diff.
pub open spec fn key_submits(
    mode: AppMode,
    sessions: Seq<Session>,
    allows_reply: bool,
    key: KeyEvent,
) -> bool {
    mode matches AppMode::Diff(diff) && submits_comments(
        diff,
        key,
        reply_available(diff, sessions, allows_reply),
    )
}

/// The handler that a key goes to.
///
/// On the diff page the review comments get the keys while they have the
/// keyboard, except those for the help, the way out and the reply.
pub open spec fn route_of(
    mode: AppMode,
    sessions: Seq<Session>,
    allows_reply: bool,
    key: KeyEvent,
) -> KeyRoute {
    match mode {
        AppMode::Confirmation(_) => KeyRoute::Confirmation,
        AppMode::Diff(diff) => {
            let submits = key_submits(mode, sessions, allows_reply, key);
            if diff.review_comments_focused() && !submits && key.code != KeyCode::Char('?')
                && key.code != KeyCode::Char('q') {
                KeyRoute::ReviewComments
            } else {
                KeyRoute::Diff { submits_comments: submits }
            }
        },
        AppMode::DiffLoading { .. } => KeyRoute::DiffLoading,
        AppMode::Help { .. } => KeyRoute::Help,
        AppMode::LaunchConfigurationSelector { .. } => KeyRoute::LaunchConfigurationSelector,
        AppMode::List => KeyRoute::List,
        AppMode::PreCommitHookWarning => KeyRoute::PreCommitHookWarning,
        AppMode::ProjectSwitcher { .. } => KeyRoute::ProjectSwitcher,
        AppMode::Prompt { .. } => KeyRoute::Prompt,
        AppMode::PublishBranchInput(_) => KeyRoute::PublishBranchInput,
        AppMode::Question { .. } => KeyRoute::Question,
        AppMode::SessionCreation { .. } => KeyRoute::SessionCreation,
        AppMode::StackAppendParentSelection { .. } => KeyRoute::StackAppendParentSelection,
        AppMode::SyncBlockedPopup { .. } => KeyRoute::SyncBlockedPopup,
        AppMode::View { .. } => KeyRoute::View,
        AppMode::ViewInfoPopup { .. } => KeyRoute::ViewInfoPopup,
    }
}

/// Finds the handler that a key goes to.
pub fn key_route(mode: &AppMode, sessions: &Vec<Session>, allows_reply: bool, key: KeyEvent) -> (
    route: KeyRoute)
    ensures
        route == route_of(*mode, sessions@, allows_reply, key),
{
    match mode {
        AppMode::Confirmation(_) => KeyRoute::Confirmation,
        AppMode::Diff(diff) => {
            let can_comment: bool = allows_reply && session_row(
                sessions,
                diff.session_id.as_str(),
            ).is_some();
            let submits: bool = should_submit_line_comments(diff, key, can_comment);
            if diff.are_review_comments_focused() && !submits && key.code != KeyCode::Char('?')
                && key.code != KeyCode::Char('q') {
                KeyRoute::ReviewComments
            } else {
                KeyRoute::Diff { submits_comments: submits }
            }
        },
        AppMode::DiffLoading { .. } => KeyRoute::DiffLoading,
        AppMode::Help { .. } => KeyRoute::Help,
        AppMode::LaunchConfigurationSelector { .. } => KeyRoute::LaunchConfigurationSelector,
        AppMode::List => KeyRoute::List,
        AppMode::PreCommitHookWarning => KeyRoute::PreCommitHookWarning,
        AppMode::ProjectSwitcher { .. } => KeyRoute::ProjectSwitcher,
        AppMode::Prompt { .. } => KeyRoute::Prompt,
        AppMode::PublishBranchInput(_) => KeyRoute::PublishBranchInput,
        AppMode::Question { .. } => KeyRoute::Question,
        AppMode::SessionCreation { .. } => KeyRoute::SessionCreation,
        AppMode::StackAppendParentSelection { .. } => KeyRoute::StackAppendParentSelection,
        AppMode::SyncBlockedPopup { .. } => KeyRoute::SyncBlockedPopup,
        AppMode::View { .. } => KeyRoute::View,
        AppMode::ViewInfoPopup { .. } => KeyRoute::ViewInfoPopup,
    }
}

/// Reports whether the reply that a diff key wrote is to be sent at once.
pub fn sends_reply(route: KeyRoute, mode: &AppMode) -> (result: bool)
    ensures
        result == (route == (KeyRoute::Diff { submits_comments: true }) && *mode is Prompt),
{
    match route {
        KeyRoute::Diff { submits_comments } => submits_comments && matches!(
            mode,
            AppMode::Prompt { .. }
        ),
        _ => false,
    }
}

/// The mode after a key of an informational popup; one that is still loading
/// stays.
pub open spec fn info_popup_result(mode: AppMode, key: KeyEvent) -> AppMode {
    match mode {
        AppMode::ViewInfoPopup { is_loading, restore_view, .. } => {
            if !is_loading && (key.code == KeyCode::Enter || key.code == KeyCode::Esc
                || quit_letter(key.code)) {
                restore_view.view_mode()
            } else {
                mode
            }
        },
        _ => mode,
    }
}

/// Applies a key of an informational popup.
pub fn handle_view_info_popup_key(mode: &mut AppMode, key: KeyEvent)
    ensures
        *final(mode) == info_popup_result(*old(mode), key),
{
    if let AppMode::ViewInfoPopup { is_loading, restore_view, .. } = &*mode {
        if !*is_loading && (key.code == KeyCode::Enter || key.code == KeyCode::Esc
            || is_quit_letter(key.code)) {
            let next: AppMode = restore_view.clone().into_view_mode();
            *mode = next;
        }
    }
}

/// Rows of the status bar and of the footer.
pub const BAR_HEIGHT: u16 = 1;

/// `ratatui::layout::Layout::split` of a terminal into a top bar, a content
/// area that takes what is left, and a bottom bar; the result is the content
/// area.
///
/// The content area always spans the whole width, and where the terminal has
/// room for both bars it lies between them. Which of the three areas gets the
/// rows of a terminal that is too low for its bars is left to the layout
/// solver, and nothing is claimed of it.
#[verifier::external_body]
fn split_between_bars(width: u16, height: u16, bar_height: u16) -> (area: ViewportRect)
    ensures
        area.x == 0,
        area.width == width,
        height >= 2 * bar_height ==> area.y == bar_height && area.height == height - 2
            * bar_height,
{
    let bar = ratatui::layout::Constraint::Length(bar_height);
    let rest = ratatui::layout::Constraint::Min(0);
    let areas = ratatui::layout::Layout::default()
        .constraints([bar, rest, bar])
        .split(ratatui::layout::Rect::new(0, 0, width, height));
    ViewportRect {
        height: areas[1].height,
        width: areas[1].width,
        x: areas[1].x,
        y: areas[1].y,
    }
}

/// Computes the content area of a terminal between its status bar and its
/// footer.
pub fn content_area_for_terminal(width: u16, height: u16) -> (area: ViewportRect)
    ensures
        area.x == 0,
        area.width == width,
        height >= 2 ==> area.y == 1 && area.height == height - 2,
{
    split_between_bars(width, height, BAR_HEIGHT)
}

} // verus!
