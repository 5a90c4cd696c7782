//! Keys of the page that shows one session.

use vstd::prelude::*;

use crate::app_mode::AppMode;
use crate::key::KeyEvent;
use crate::output_cache::SessionOutputLayoutCache;
use crate::output_lines::OutputRenderer;
use crate::session::{Session, row_of};
use crate::session_output::{
    SessionOutputLineContext, cache_well_formed, rendered_output_line_count_with_cache,
    row_line_count,
};
use crate::session_view::{
    VIEW_CHROME_HEIGHT, VIEW_CHROME_WIDTH, ViewContext, ViewMetrics, ViewPendingUpdate,
    ViewSessionFacts, ViewSessionSnapshot, apply_view_scroll_and_output_mode, snapshot_of,
    view_context, view_metrics, view_output_width, view_session_snapshot,
};
use crate::view_keys::{
    ViewAction, ViewKeyFacts, ViewKeyOutcome, applies_scroll, command_applied, command_of,
    handle_view_key,
};
use crate::viewport::minus;

verus! {

/// The mode after the scroll offset that a key left was written back.
pub open spec fn scroll_written(mode: AppMode, writes: bool, offset: Option<u16>) -> AppMode {
    match mode {
        AppMode::View { session_id, .. } if writes => AppMode::View {
            scroll_offset: offset,
            session_id,
        },
        other => other,
    }
}

/// Whether a key of the shown session was applied.
pub open spec fn shown_key_applied(
    sessions: Seq<Session>,
    context: ViewContext,
    metrics: ViewMetrics,
    snapshot: ViewSessionSnapshot,
    key_facts: ViewKeyFacts,
    key: KeyEvent,
    before: AppMode,
    after: AppMode,
    action: ViewAction,
) -> bool {
    let command = command_of(key, snapshot, key_facts);
    exists|middle: AppMode, offset: Option<u16>| #[trigger]
        command_applied(
            command,
            context,
            metrics,
            snapshot,
            sessions[context.session_index as int],
            key_facts,
            before,
            middle,
            context.scroll_offset,
            offset,
            action,
        ) && after == scroll_written(middle, applies_scroll(command), offset)
}

/// Whether a key of the session page was applied: the session is found, its
/// output is measured, and the key's command is carried out.
pub open spec fn page_key_applied<R: OutputRenderer>(
    renderer: &R,
    sessions: Seq<Session>,
    facts: ViewSessionFacts,
    key_facts: ViewKeyFacts,
    line_context: SessionOutputLineContext<'_>,
    terminal: (u16, u16),
    key: KeyEvent,
    before: AppMode,
    after: AppMode,
    cache_before: Option<SessionOutputLayoutCache>,
    cache_after: Option<SessionOutputLayoutCache>,
    action: ViewAction,
) -> bool {
    match before {
        AppMode::View { scroll_offset, session_id } => match row_of(sessions, session_id@) {
            Some(session_index) => exists|total_lines: u16| #[trigger]
                row_line_count(
                    renderer,
                    sessions,
                    session_index,
                    minus(terminal.0 as int, VIEW_CHROME_WIDTH as int) as u16,
                    line_context,
                    cache_before,
                    cache_after,
                    total_lines,
                ) && shown_key_applied(
                    sessions,
                    (ViewContext { scroll_offset, session_id, session_index }),
                    (ViewMetrics {
                        total_lines,
                        view_height: minus(terminal.1 as int, VIEW_CHROME_HEIGHT as int) as u16,
                    }),
                    snapshot_of(sessions[session_index as int].status, session_id@, facts),
                    key_facts,
                    key,
                    before,
                    after,
                    action,
                ),
            None => after == AppMode::List && action is Nothing && cache_after == cache_before,
        },
        _ => after == before && action is Nothing && cache_after == cache_before,
    }
}

/// Applies a key of the session page. Without its session the page gives way
/// to the list.
pub fn handle_session_page_key<R: OutputRenderer>(
    mode: &mut AppMode,
    sessions: &Vec<Session>,
    facts: &ViewSessionFacts,
    key_facts: &ViewKeyFacts,
    line_context: SessionOutputLineContext<'_>,
    renderer: &R,
    cache: &mut Option<SessionOutputLayoutCache>,
    terminal: (u16, u16),
    key: KeyEvent,
) -> (action: ViewAction)
    requires
        cache_well_formed(*old(cache)),
    ensures
        page_key_applied(
            renderer,
            sessions@,
            *facts,
            *key_facts,
            line_context,
            terminal,
            key,
            *old(mode),
            *final(mode),
            *old(cache),
            *final(cache),
            action,
        ),
{
    let ghost before = *mode;
    let context: ViewContext = match view_context(mode, sessions) {
        Some(context) => context,
        None => {
            return ViewAction::Nothing;
        },
    };
    proof {
        assert(sessions@.len() == sessions.len());
        crate::session::lemma_row_of(sessions@, context.session_id@);
    }
    let total_lines: u16 = rendered_output_line_count_with_cache(
        sessions,
        context.session_index,
        view_output_width(terminal.0),
        line_context,
        renderer,
        cache,
    );
    let metrics: ViewMetrics = view_metrics(terminal.1, total_lines);
    let snapshot: ViewSessionSnapshot = match view_session_snapshot(sessions, &context, facts) {
        Some(snapshot) => snapshot,
        None => {
            return ViewAction::Nothing;
        },
    };
    let mut pending: ViewPendingUpdate = ViewPendingUpdate::from_context(&context);
    let outcome: ViewKeyOutcome = handle_view_key(
        mode,
        key,
        &context,
        metrics,
        &snapshot,
        &sessions[context.session_index],
        key_facts,
        &mut pending,
    );
    let ghost middle = *mode;
    if outcome.applies_scroll {
        apply_view_scroll_and_output_mode(mode, pending.scroll_offset);
    }
    proof {
        assert(command_applied(
            command_of(key, snapshot, *key_facts),
            context,
            metrics,
            snapshot,
            sessions@[context.session_index as int],
            *key_facts,
            before,
            middle,
            context.scroll_offset,
            pending.scroll_offset,
            outcome.action,
        ));
        assert(shown_key_applied(
            sessions@,
            context,
            metrics,
            snapshot,
            *key_facts,
            key,
            before,
            *mode,
            outcome.action,
        ));
        assert(row_line_count(
            renderer,
            sessions@,
            context.session_index,
            minus(terminal.0 as int, VIEW_CHROME_WIDTH as int) as u16,
            line_context,
            *old(cache),
            *cache,
            total_lines,
        ));
    }
    outcome.action
}

} // verus!
