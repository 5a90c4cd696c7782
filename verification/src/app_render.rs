//! What a frame shows of the application.

use vstd::prelude::*;

use crate::app_mode::AppMode;
use crate::layout_snapshot::{FrameLayout, nothing_recorded};
use crate::project_switcher_overlay::ProjectListItem;
use crate::session::{Session, SessionId};
use crate::tab::Tab;
use crate::viewport::LayoutSnapshot;

verus! {

/// Scroll position and selected row of a table.
#[derive(Clone, Copy, Debug, PartialEq, Eq, Structural)]
pub struct TableSelection {
    /// First painted row.
    pub offset: usize,
    pub selected: Option<usize>,
}

impl Default for TableSelection {
    fn default() -> (table: TableSelection)
        ensures
            table == (TableSelection { offset: 0, selected: None }),
    {
        TableSelection { offset: 0, selected: None }
    }
}

impl TableSelection {
    /// The table with another selected row; without one it starts at its top.
    pub open spec fn with_selected(self, index: Option<usize>) -> TableSelection {
        TableSelection {
            offset: if index is None {
                0
            } else {
                self.offset
            },
            selected: index,
        }
    }

    /// Selects a row, or none.
    pub fn select(&mut self, index: Option<usize>)
        ensures
            *final(self) == old(self).with_selected(index),
    {
        self.selected = index;
        if index.is_none() {
            self.offset = 0;
        }
    }
}

/// The review of a session.
#[derive(Clone, Copy, Debug)]
pub struct SessionReviewSnapshot<'a> {
    pub session_id: &'a SessionId,
    pub text: &'a String,
}

/// What a frame shows but nothing here looks into.
pub trait FrameData {
    type ActivePromptOutputs;

    type AgentClis;

    type AssignedIssues;

    type DiffLayoutCache;

    type GitStatus;

    type MarkdownRenderCache;

    type OutputLayoutCache;

    type RequestedReviews;

    type ReviewComments;

    type SessionBranchNames;

    type SessionGitStatuses;

    type SessionIndex;

    type SessionProgress;

    type SessionVersions;

    type SessionWorktrees;

    type Settings;

    type StatsActivity;

    type SystemLogs;

    type Theme;

    type UpdateStatus;
}

/// What the application shows at one moment.
pub struct AppViewSnapshot<'a, D: FrameData> {
    pub active_project_id: i64,
    pub active_prompt_outputs: &'a D::ActivePromptOutputs,
    pub assigned_issue_selected_index: Option<usize>,
    pub assigned_issues: &'a D::AssignedIssues,
    pub available_agent_clis: &'a D::AgentClis,
    pub current_tab: Tab,
    pub git_branch: Option<&'a String>,
    pub git_status: &'a D::GitStatus,
    pub git_upstream_ref: Option<&'a String>,
    pub latest_available_version: Option<&'a String>,
    pub mode: &'a AppMode,
    pub project_selected_index: Option<usize>,
    pub projects: &'a Vec<ProjectListItem>,
    pub requested_review_selected_index: Option<usize>,
    pub requested_reviews: &'a D::RequestedReviews,
    pub review_comment_cache: &'a D::ReviewComments,
    pub session_branch_names: &'a D::SessionBranchNames,
    pub session_git_statuses: &'a D::SessionGitStatuses,
    pub session_index_by_id: &'a D::SessionIndex,
    pub session_progress_messages: &'a D::SessionProgress,
    pub session_review: Option<SessionReviewSnapshot<'a>>,
    pub session_selected_index: Option<usize>,
    pub session_update_versions: &'a D::SessionVersions,
    pub session_worktree_availability: &'a D::SessionWorktrees,
    pub sessions: &'a Vec<Session>,
    pub settings: &'a D::Settings,
    pub stats_activity: &'a D::StatsActivity,
    pub status_bar_fyi_rotation_index: u64,
    pub system_log_tail_offset: usize,
    pub system_logs: &'a D::SystemLogs,
    /// The theme of the settings.
    pub theme: &'a D::Theme,
    pub update_status: &'a D::UpdateStatus,
    pub wall_clock_unix_seconds: i64,
    pub working_dir: &'a String,
}

/// What painting keeps from frame to frame.
pub struct RenderCacheStore<D: FrameData> {
    pub diff_layout_cache: D::DiffLayoutCache,
    pub markdown_render_cache: D::MarkdownRenderCache,
    pub session_output_layout_cache: D::OutputLayoutCache,
}

/// What a frame is painted from.
pub struct RenderContext<'a, D: FrameData> {
    pub active_project_id: i64,
    pub active_prompt_outputs: &'a D::ActivePromptOutputs,
    pub assigned_issue_selected_index: Option<usize>,
    pub assigned_issue_table_state: TableSelection,
    pub assigned_issues: &'a D::AssignedIssues,
    pub available_agent_clis: &'a D::AgentClis,
    pub current_tab: Tab,
    pub diff_layout_cache: &'a D::DiffLayoutCache,
    pub git_branch: Option<&'a String>,
    pub git_status: &'a D::GitStatus,
    pub git_upstream_ref: Option<&'a String>,
    pub latest_available_version: Option<&'a String>,
    pub markdown_render_cache: &'a D::MarkdownRenderCache,
    pub mode: &'a AppMode,
    pub output_layout_cache: &'a D::OutputLayoutCache,
    pub project_table_state: TableSelection,
    pub projects: &'a Vec<ProjectListItem>,
    pub requested_review_selected_index: Option<usize>,
    pub requested_review_table_state: TableSelection,
    pub requested_reviews: &'a D::RequestedReviews,
    pub review_comment_cache: &'a D::ReviewComments,
    pub session_branch_names: &'a D::SessionBranchNames,
    pub session_git_statuses: &'a D::SessionGitStatuses,
    pub session_index_by_id: &'a D::SessionIndex,
    pub session_progress_messages: &'a D::SessionProgress,
    pub session_review: Option<SessionReviewSnapshot<'a>>,
    pub session_update_versions: &'a D::SessionVersions,
    pub session_worktree_availability: &'a D::SessionWorktrees,
    pub sessions: &'a Vec<Session>,
    pub settings: &'a D::Settings,
    pub stats_activity: &'a D::StatsActivity,
    pub status_bar_fyi_rotation_index: u64,
    pub system_log_tail_offset: usize,
    pub system_logs: &'a D::SystemLogs,
    /// The table of sessions.
    pub table_state: TableSelection,
    pub update_status: &'a D::UpdateStatus,
    pub wall_clock_unix_seconds: i64,
    pub working_dir: &'a String,
}

/// What painting a frame leaves behind.
#[derive(Debug)]
pub struct PaintedFrame {
    pub assigned_issue_table_state: TableSelection,
    pub project_table_state: TableSelection,
    /// What was recorded of the painted panels and lists.
    pub recorder: FrameLayout,
    pub requested_review_table_state: TableSelection,
    pub session_table_state: TableSelection,
}

/// The pages of the application, which paint a frame.
pub trait FramePages {
    type Data: FrameData;

    /// Paints a frame under a theme. The pages record the panels and lists
    /// that they paint, and scroll the tables to their selected rows.
    fn paint(
        &self,
        theme: &<Self::Data as FrameData>::Theme,
        context: RenderContext<'_, Self::Data>,
        recorder: FrameLayout,
    ) -> PaintedFrame;
}

/// The scroll positions and selected rows of all tables.
#[derive(Clone, Copy, Debug, PartialEq, Eq, Structural)]
pub struct FrameTables {
    pub assigned_issue: TableSelection,
    pub project: TableSelection,
    pub requested_review: TableSelection,
    pub session: TableSelection,
}

/// What a frame of the application is painted from.
pub open spec fn frame_of<'a, D: FrameData>(
    snapshot: AppViewSnapshot<'a, D>,
    caches: &'a RenderCacheStore<D>,
    tables: FrameTables,
) -> RenderContext<'a, D> {
    RenderContext {
        active_project_id: snapshot.active_project_id,
        active_prompt_outputs: snapshot.active_prompt_outputs,
        assigned_issue_selected_index: snapshot.assigned_issue_selected_index,
        assigned_issue_table_state: tables.assigned_issue,
        assigned_issues: snapshot.assigned_issues,
        available_agent_clis: snapshot.available_agent_clis,
        current_tab: snapshot.current_tab,
        diff_layout_cache: &caches.diff_layout_cache,
        git_branch: snapshot.git_branch,
        git_status: snapshot.git_status,
        git_upstream_ref: snapshot.git_upstream_ref,
        latest_available_version: snapshot.latest_available_version,
        markdown_render_cache: &caches.markdown_render_cache,
        mode: snapshot.mode,
        output_layout_cache: &caches.session_output_layout_cache,
        project_table_state: tables.project.with_selected(snapshot.project_selected_index),
        projects: snapshot.projects,
        requested_review_selected_index: snapshot.requested_review_selected_index,
        requested_review_table_state: tables.requested_review,
        requested_reviews: snapshot.requested_reviews,
        review_comment_cache: snapshot.review_comment_cache,
        session_branch_names: snapshot.session_branch_names,
        session_git_statuses: snapshot.session_git_statuses,
        session_index_by_id: snapshot.session_index_by_id,
        session_progress_messages: snapshot.session_progress_messages,
        session_review: snapshot.session_review,
        session_update_versions: snapshot.session_update_versions,
        session_worktree_availability: snapshot.session_worktree_availability,
        sessions: snapshot.sessions,
        settings: snapshot.settings,
        stats_activity: snapshot.stats_activity,
        status_bar_fyi_rotation_index: snapshot.status_bar_fyi_rotation_index,
        system_log_tail_offset: snapshot.system_log_tail_offset,
        system_logs: snapshot.system_logs,
        table_state: tables.session.with_selected(snapshot.session_selected_index),
        update_status: snapshot.update_status,
        wall_clock_unix_seconds: snapshot.wall_clock_unix_seconds,
        working_dir: snapshot.working_dir,
    }
}

/// Whether a frame was painted: under the theme of the settings, from what
/// the application shows, into a recorder that held nothing before.
pub open spec fn frame_painted<P: FramePages>(
    pages: &P,
    theme: &<P::Data as FrameData>::Theme,
    context: RenderContext<'_, P::Data>,
    painted: PaintedFrame,
) -> bool {
    exists|empty: FrameLayout|
        nothing_recorded(empty.layout) && #[trigger] call_ensures(
            P::paint,
            (pages, theme, context, empty),
            painted,
        )
}

/// Paints a frame of the application: brings the tables to the selected rows,
/// clears the recorder, and hands out what the pages recorded.
pub fn render_app<P: FramePages>(
    snapshot: &AppViewSnapshot<'_, P::Data>,
    pages: &P,
    assigned_issue_table_state: &mut TableSelection,
    project_table_state: &mut TableSelection,
    render_cache_store: &RenderCacheStore<P::Data>,
    recorder: &mut FrameLayout,
    requested_review_table_state: &mut TableSelection,
    session_table_state: &mut TableSelection,
) -> (layout: LayoutSnapshot)
    ensures
        frame_rendered(
            pages,
            *snapshot,
            render_cache_store,
            (FrameTables {
                assigned_issue: *old(assigned_issue_table_state),
                project: *old(project_table_state),
                requested_review: *old(requested_review_table_state),
                session: *old(session_table_state),
            }),
            (FrameTables {
                assigned_issue: *final(assigned_issue_table_state),
                project: *final(project_table_state),
                requested_review: *final(requested_review_table_state),
                session: *final(session_table_state),
            }),
            layout,
        ),
        nothing_recorded(final(recorder).layout),
{
    let ghost before = FrameTables {
        assigned_issue: *assigned_issue_table_state,
        project: *project_table_state,
        requested_review: *requested_review_table_state,
        session: *session_table_state,
    };
    project_table_state.select(snapshot.project_selected_index);
    session_table_state.select(snapshot.session_selected_index);
    recorder.begin_frame();
    let mut frame: FrameLayout = FrameLayout::new();
    std::mem::swap(recorder, &mut frame);
    let context: RenderContext<'_, P::Data> = RenderContext {
        active_project_id: snapshot.active_project_id,
        active_prompt_outputs: snapshot.active_prompt_outputs,
        assigned_issue_selected_index: snapshot.assigned_issue_selected_index,
        assigned_issue_table_state: *assigned_issue_table_state,
        assigned_issues: snapshot.assigned_issues,
        available_agent_clis: snapshot.available_agent_clis,
        current_tab: snapshot.current_tab,
        diff_layout_cache: &render_cache_store.diff_layout_cache,
        git_branch: snapshot.git_branch,
        git_status: snapshot.git_status,
        git_upstream_ref: snapshot.git_upstream_ref,
        latest_available_version: snapshot.latest_available_version,
        markdown_render_cache: &render_cache_store.markdown_render_cache,
        mode: snapshot.mode,
        output_layout_cache: &render_cache_store.session_output_layout_cache,
        project_table_state: *project_table_state,
        projects: snapshot.projects,
        requested_review_selected_index: snapshot.requested_review_selected_index,
        requested_review_table_state: *requested_review_table_state,
        requested_reviews: snapshot.requested_reviews,
        review_comment_cache: snapshot.review_comment_cache,
        session_branch_names: snapshot.session_branch_names,
        session_git_statuses: snapshot.session_git_statuses,
        session_index_by_id: snapshot.session_index_by_id,
        session_progress_messages: snapshot.session_progress_messages,
        session_review: snapshot.session_review,
        session_update_versions: snapshot.session_update_versions,
        session_worktree_availability: snapshot.session_worktree_availability,
        sessions: snapshot.sessions,
        settings: snapshot.settings,
        stats_activity: snapshot.stats_activity,
        status_bar_fyi_rotation_index: snapshot.status_bar_fyi_rotation_index,
        system_log_tail_offset: snapshot.system_log_tail_offset,
        system_logs: snapshot.system_logs,
        table_state: *session_table_state,
        update_status: snapshot.update_status,
        wall_clock_unix_seconds: snapshot.wall_clock_unix_seconds,
        working_dir: snapshot.working_dir,
    };
    let ghost given = context;
    let ghost empty = frame;
    assert(given == frame_of(*snapshot, render_cache_store, before));
    let mut painted: PaintedFrame = pages.paint(snapshot.theme, context, frame);
    let ghost result = painted;
    assert(call_ensures(P::paint, (pages, snapshot.theme, given, empty), result));
    assert(frame_painted(pages, snapshot.theme, given, result));
    let layout: LayoutSnapshot = painted.recorder.take_frame();
    *assigned_issue_table_state = painted.assigned_issue_table_state;
    *project_table_state = painted.project_table_state;
    *requested_review_table_state = painted.requested_review_table_state;
    *session_table_state = painted.session_table_state;
    *recorder = painted.recorder;
    layout
}

/// Whether a frame was painted from what the application shows, `layout` is
/// exactly what its pages recorded, and the tables are as they left them.
pub open spec fn frame_rendered<P: FramePages>(
    pages: &P,
    snapshot: AppViewSnapshot<'_, P::Data>,
    caches: &RenderCacheStore<P::Data>,
    before: FrameTables,
    after: FrameTables,
    layout: LayoutSnapshot,
) -> bool {
    exists|painted: PaintedFrame|
        {
            &&& #[trigger] frame_painted(
                pages,
                snapshot.theme,
                frame_of(snapshot, caches, before),
                painted,
            )
            &&& layout == painted.recorder.layout
            &&& after == (FrameTables {
                assigned_issue: painted.assigned_issue_table_state,
                project: painted.project_table_state,
                requested_review: painted.requested_review_table_state,
                session: painted.session_table_state,
            })
        }
}

/// Selecting the shown rows of a moment twice changes nothing more: the tables
/// keep their place.
pub proof fn lemma_frame_repeats<'a, D: FrameData>(
    snapshot: AppViewSnapshot<'a, D>,
    caches: &'a RenderCacheStore<D>,
    tables: FrameTables,
)
    ensures
        ({
            let first = frame_of(snapshot, caches, tables);
            frame_of(
                snapshot,
                caches,
                FrameTables {
                    assigned_issue: first.assigned_issue_table_state,
                    project: first.project_table_state,
                    requested_review: first.requested_review_table_state,
                    session: first.table_state,
                },
            ) == first
        }),
{
}

} // verus!
