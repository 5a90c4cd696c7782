//! What the terminal shows, between two frames.

use vstd::prelude::*;

use crate::app_render::{
    AppViewSnapshot, FramePages, FrameTables, RenderCacheStore, TableSelection, frame_rendered,
    render_app,
};
use crate::layout_snapshot::{FrameLayout, nothing_recorded};
use crate::viewport::{LayoutSnapshot, ScrollbarDrag};

verus! {

/// What is kept of the last frame.
#[derive(Debug)]
pub struct PresentationState {
    pub assigned_issue_table_state: TableSelection,
    /// Places of the panels and lists that were painted.
    pub layout_snapshot: LayoutSnapshot,
    /// The scrollbar that is being dragged.
    pub mouse_drag: Option<ScrollbarDrag>,
    pub project_table_state: TableSelection,
    /// Number of the page that was painted.
    pub rendered_surface: Option<u64>,
    pub requested_review_table_state: TableSelection,
    pub session_table_state: TableSelection,
}

impl Default for PresentationState {
    fn default() -> (state: PresentationState)
        ensures
            nothing_recorded(state.layout_snapshot),
            state.mouse_drag is None,
            state.rendered_surface is None,
            state.tables() == (FrameTables {
                assigned_issue: TableSelection { offset: 0, selected: None },
                project: TableSelection { offset: 0, selected: None },
                requested_review: TableSelection { offset: 0, selected: None },
                session: TableSelection { offset: 0, selected: None },
            }),
    {
        PresentationState {
            assigned_issue_table_state: TableSelection::default(),
            layout_snapshot: LayoutSnapshot::default(),
            mouse_drag: None,
            project_table_state: TableSelection::default(),
            rendered_surface: None,
            requested_review_table_state: TableSelection::default(),
            session_table_state: TableSelection::default(),
        }
    }
}

impl PresentationState {
    /// The scroll positions and selected rows of the tables.
    pub open spec fn tables(self) -> FrameTables {
        FrameTables {
            assigned_issue: self.assigned_issue_table_state,
            project: self.project_table_state,
            requested_review: self.requested_review_table_state,
            session: self.session_table_state,
        }
    }

    /// Whether another page was painted than the one to come.
    pub open spec fn shows_other_page(self, surface: u64) -> bool {
        self.rendered_surface matches Some(rendered) && rendered != surface
    }

    /// Reports whether the terminal is to be cleared before a page is painted.
    pub fn terminal_clear_needed(&self, surface: u64) -> (result: bool)
        ensures
            result == self.shows_other_page(surface),
    {
        match self.rendered_surface {
            Some(rendered) => rendered != surface,
            None => false,
        }
    }

    /// Records the page that was painted.
    pub fn record_rendered_surface(&mut self, surface: u64)
        ensures
            *final(self) == (PresentationState { rendered_surface: Some(surface), ..*old(self) }),
    {
        self.rendered_surface = Some(surface);
    }

    /// Paints a frame of the application and keeps the places of what was
    /// painted.
    pub fn render<P: FramePages>(
        &mut self,
        snapshot: &AppViewSnapshot<'_, P::Data>,
        pages: &P,
        render_cache_store: &RenderCacheStore<P::Data>,
        recorder: &mut FrameLayout,
    )
        ensures
            frame_rendered(
                pages,
                *snapshot,
                render_cache_store,
                old(self).tables(),
                final(self).tables(),
                final(self).layout_snapshot,
            ),
            final(self).mouse_drag == old(self).mouse_drag,
            final(self).rendered_surface == old(self).rendered_surface,
            nothing_recorded(final(recorder).layout),
    {
        let layout_snapshot: LayoutSnapshot = render_app(
            snapshot,
            pages,
            &mut self.assigned_issue_table_state,
            &mut self.project_table_state,
            render_cache_store,
            recorder,
            &mut self.requested_review_table_state,
            &mut self.session_table_state,
        );
        self.set_layout_snapshot(layout_snapshot);
    }

    /// Keeps the places of what was painted.
    pub fn set_layout_snapshot(&mut self, layout_snapshot: LayoutSnapshot)
        ensures
            *final(self) == (PresentationState { layout_snapshot, ..*old(self) }),
    {
        self.layout_snapshot = layout_snapshot;
    }

    /// Starts or ends the dragging of a scrollbar.
    pub fn set_mouse_drag(&mut self, mouse_drag: Option<ScrollbarDrag>)
        ensures
            *final(self) == (PresentationState { mouse_drag, ..*old(self) }),
    {
        self.mouse_drag = mouse_drag;
    }
}

/// The terminal is cleared exactly when the page changes: once a page was
/// recorded it can be painted again as it is, and no other page can.
pub proof fn lemma_clear_on_page_change(state: PresentationState, painted: u64, next: u64)
    ensures
        (PresentationState { rendered_surface: Some(painted), ..state }).shows_other_page(next)
            == (painted != next),
{
}

} // verus!
