//! Popups as they are painted: their place, lines and clickable rows.

use vstd::prelude::*;

use crate::fit::fits_anything;
use crate::geometry::ViewportRect;
use crate::launch_configuration_list_editor::LaunchConfigurationListEditor;
use crate::launch_configuration_list_editor::LaunchConfigurationListEditorMode;
use crate::launch_configuration_overlay::LaunchConfigurationOverlay;
use crate::layout_snapshot::{consecutive_rows, stacked_items};
use crate::overlay::{option_rows, popup_at_center, required_height};
use crate::project_switcher_overlay::{ACTIVE_COUNT_WIDTH, ProjectSwitcherOverlay};
use crate::rich_text::{Line, line_views};
use crate::session_creation_overlay::{SESSION_CREATION_OPTION_COUNT, SessionCreationOverlay};
use crate::stack_append_parent_overlay::StackAppendParentOverlay;
use crate::viewport::{ListItemHit, ListRegion, ListRegionKind, minus};

verus! {

/// The block around a popup.
pub trait PopupBlock {
    /// Columns for the content of a popup of this width.
    fn content_width(&self, popup_width: u16) -> usize;

    /// The area for the content of a popup.
    fn inner(&self, area: ViewportRect) -> ViewportRect;
}

/// A popup to be painted.
#[derive(Debug)]
pub struct Popup {
    pub area: ViewportRect,
    pub lines: Vec<Line>,
    /// Its clickable rows, where it has any.
    pub list: Option<ListRegion>,
    pub title: String,
}

/// The columns that are left of a width, at least one.
pub open spec fn label_columns(width: usize, taken: int) -> usize {
    if minus(width as int, taken) < 1 {
        1
    } else {
        minus(width as int, taken) as usize
    }
}

/// Computes the columns that are left of a width, at least one.
fn columns_left(width: usize, taken: usize) -> (columns: usize)
    ensures
        columns == label_columns(width, taken as int),
{
    let room: usize = width.saturating_sub(taken);
    if room < 1 {
        1
    } else {
        room
    }
}

/// Whether `columns` are those of the labels in a popup.
pub open spec fn labels_take<B: PopupBlock>(
    block: &B,
    popup_width: u16,
    taken: int,
    columns: usize,
) -> bool {
    exists|width: usize| #[trigger]
        call_ensures(B::content_width, (block, popup_width), width) && columns == label_columns(
            width,
            taken,
        )
}

/// Measures the columns of the labels in a popup.
fn measure_labels<B: PopupBlock>(block: &B, popup_width: u16, taken: usize) -> (columns: usize)
    ensures
        labels_take(block, popup_width, taken as int, columns),
{
    let width: usize = block.content_width(popup_width);
    assert(call_ensures(B::content_width, (block, popup_width), width));
    columns_left(width, taken)
}

/// Whether `items` are the clickable options of a popup from `first` on.
pub open spec fn options_listed<B: PopupBlock>(
    block: &B,
    area: ViewportRect,
    first: int,
    count: int,
    items: Seq<ListItemHit>,
) -> bool {
    exists|inner: ViewportRect| #[trigger]
        call_ensures(B::inner, (block, area), inner) && items == stacked_items(
            consecutive_rows(first as usize, count as usize),
            option_rows(inner),
            option_rows(inner).y as int,
        )
}

/// Computes the content area of a popup.
fn content_of<B: PopupBlock>(block: &B, area: ViewportRect) -> (inner: ViewportRect)
    ensures
        call_ensures(B::inner, (block, area), inner),
{
    block.inner(area)
}

impl SessionCreationOverlay {
    /// Prepares the popup for a frame.
    pub fn render<B: PopupBlock>(&self, frame: ViewportRect, block: &B) -> (popup: Popup)
        ensures
            popup.title@ == "New Session"@,
            popup.area == popup_at_center(
                frame,
                crate::session_creation_overlay::OVERLAY_WIDTH_PERCENT as int,
                crate::session_creation_overlay::OVERLAY_HEIGHT_PERCENT as int,
                crate::session_creation_overlay::MIN_OVERLAY_WIDTH as int,
                crate::session_creation_overlay::MIN_OVERLAY_HEIGHT as int,
            ),
            line_views(popup.lines@) == self.all_rows(),
            popup.list matches Some(list) && list.kind == ListRegionKind::SessionCreation
                && options_listed(
                block,
                popup.area,
                0,
                SESSION_CREATION_OPTION_COUNT as int,
                list.items@,
            ),
    {
        let area: ViewportRect = SessionCreationOverlay::popup_area(frame);
        let inner: ViewportRect = content_of(block, area);
        Popup {
            area,
            lines: self.lines(),
            list: Some(SessionCreationOverlay::option_list(inner)),
            title: "New Session".to_owned(),
        }
    }
}

impl<'a> LaunchConfigurationOverlay<'a> {
    /// Prepares the popup for a frame.
    pub fn render<B: PopupBlock, F: Fn(&String, usize) -> String>(
        &self,
        frame: ViewportRect,
        block: &B,
        fit: &F,
    ) -> (popup: Popup)
        requires
            fits_anything(fit),
        ensures
            popup.title@ == "Launch Configuration"@,
            popup.area == popup_at_center(
                frame,
                crate::launch_configuration_overlay::OVERLAY_WIDTH_PERCENT as int,
                crate::launch_configuration_overlay::OVERLAY_HEIGHT_PERCENT as int,
                crate::launch_configuration_overlay::MIN_OVERLAY_WIDTH as int,
                crate::launch_configuration_overlay::MIN_OVERLAY_HEIGHT as int,
            ),
            exists|columns: usize| #[trigger]
                labels_take(block, popup.area.width, 1, columns) && self.painted(
                    fit,
                    columns,
                    popup.lines@,
                ),
            popup.list matches Some(list) && list.kind
                == ListRegionKind::LaunchConfigurationSelector && options_listed(
                block,
                popup.area,
                0,
                self.commands@.len() as int,
                list.items@,
            ),
    {
        let area: ViewportRect = LaunchConfigurationOverlay::popup_area(frame);
        let columns: usize = measure_labels(block, area.width, 1);
        let inner: ViewportRect = content_of(block, area);
        let lines: Vec<Line> = self.lines(columns, fit);
        let popup: Popup = Popup {
            area,
            lines,
            list: Some(self.command_list(inner)),
            title: "Launch Configuration".to_owned(),
        };
        assert(labels_take(block, popup.area.width, 1, columns));
        assert(self.painted(fit, columns, popup.lines@));
        popup
    }
}

impl<'a> ProjectSwitcherOverlay<'a> {
    /// Prepares the popup for a frame.
    pub fn render<B: PopupBlock, F: Fn(&String, usize) -> String>(
        &self,
        frame: ViewportRect,
        block: &B,
        fit: &F,
    ) -> (popup: Popup)
        requires
            fits_anything(fit),
        ensures
            popup.title@ == "Projects"@,
            popup.area == popup_at_center(
                frame,
                crate::project_switcher_overlay::OVERLAY_WIDTH_PERCENT as int,
                0,
                crate::project_switcher_overlay::MIN_OVERLAY_WIDTH as int,
                required_height(
                    self.project_items@.len()
                        + crate::project_switcher_overlay::OVERLAY_CHROME_LINE_COUNT,
                ),
            ),
            exists|columns: usize| #[trigger]
                labels_take(block, popup.area.width, ACTIVE_COUNT_WIDTH + 3, columns)
                    && self.painted(fit, columns, popup.lines@),
            popup.list matches Some(list) && list.kind == ListRegionKind::ProjectSwitcher
                && options_listed(
                block,
                popup.area,
                0,
                self.project_items@.len() as int,
                list.items@,
            ),
    {
        let area: ViewportRect = self.popup_area(frame);
        let columns: usize = measure_labels(block, area.width, ACTIVE_COUNT_WIDTH + 3);
        let inner: ViewportRect = content_of(block, area);
        let lines: Vec<Line> = self.lines(columns, fit);
        let popup: Popup = Popup {
            area,
            lines,
            list: Some(self.project_list(inner)),
            title: "Projects".to_owned(),
        };
        assert(labels_take(block, popup.area.width, ACTIVE_COUNT_WIDTH + 3, columns));
        assert(self.painted(fit, columns, popup.lines@));
        popup
    }
}

impl<'a> StackAppendParentOverlay<'a> {
    /// Prepares the popup for a frame.
    pub fn render<B: PopupBlock, F: Fn(&String, usize) -> String>(
        &self,
        frame: ViewportRect,
        block: &B,
        fit: &F,
    ) -> (popup: Popup)
        requires
            fits_anything(fit),
        ensures
            popup.title@ == "Append to stack"@,
            popup.area == popup_at_center(
                frame,
                crate::stack_append_parent_overlay::OVERLAY_WIDTH_PERCENT as int,
                0,
                crate::stack_append_parent_overlay::MIN_OVERLAY_WIDTH as int,
                required_height(
                    self.parent_sessions@.len()
                        + crate::stack_append_parent_overlay::OVERLAY_CHROME_LINE_COUNT,
                ),
            ),
            exists|columns: usize| #[trigger]
                labels_take(block, popup.area.width, 2, columns) && self.painted(
                    fit,
                    columns,
                    popup.area.height as int,
                    popup.lines@,
                ),
            popup.list matches Some(list) && list.kind == ListRegionKind::StackAppendParent
                && options_listed(
                block,
                popup.area,
                self.visible(popup.area.height as int).0,
                self.visible(popup.area.height as int).1,
                list.items@,
            ),
    {
        let area: ViewportRect = self.popup_area(frame);
        let columns: usize = measure_labels(block, area.width, 2);
        let inner: ViewportRect = content_of(block, area);
        let lines: Vec<Line> = self.lines(columns, area.height, fit);
        let popup: Popup = Popup {
            area,
            lines,
            list: Some(self.parent_list(area.height, inner)),
            title: "Append to stack".to_owned(),
        };
        assert(labels_take(block, popup.area.width, 2, columns));
        assert(self.painted(fit, columns, popup.area.height as int, popup.lines@));
        popup
    }
}

impl<'a> LaunchConfigurationListEditor<'a> {
    /// Prepares the popup for a frame.
    pub fn render<B: PopupBlock, F: Fn(&String, usize) -> String>(
        &self,
        frame: ViewportRect,
        block: &B,
        fit: &F,
    ) -> (popup: Popup)
        requires
            fits_anything(fit),
        ensures
            popup.title@ == "Launch Configurations"@,
            popup.area == popup_at_center(
                frame,
                crate::launch_configuration_list_editor::OVERLAY_WIDTH_PERCENT as int,
                crate::launch_configuration_list_editor::OVERLAY_HEIGHT_PERCENT as int,
                crate::launch_configuration_list_editor::MIN_OVERLAY_WIDTH as int,
                crate::launch_configuration_list_editor::MIN_OVERLAY_HEIGHT as int,
            ),
            exists|columns: usize| #[trigger]
                labels_take(block, popup.area.width, 1, columns) && self.painted(
                    fit,
                    columns,
                    popup.area.height as int,
                    popup.lines@,
                ),
            match popup.list {
                Some(list) => {
                    let (start, end) = self.window(popup.area.height as int);
                    &&& self.editor.mode == LaunchConfigurationListEditorMode::Browse
                    &&& list.kind == ListRegionKind::LaunchConfigurationEditor
                    &&& exists|inner: ViewportRect| #[trigger]
                        call_ensures(B::inner, (block, popup.area), inner) && list.items@
                            == stacked_items(
                            consecutive_rows(start as usize, (end - start) as usize),
                            inner,
                            inner.y as int,
                        )
                },
                None => self.editor.mode != LaunchConfigurationListEditorMode::Browse,
            },
    {
        let area: ViewportRect = LaunchConfigurationListEditor::popup_area(frame);
        let columns: usize = measure_labels(block, area.width, 1);
        let inner: ViewportRect = content_of(block, area);
        let lines: Vec<Line> = self.lines(columns, area.height, fit);
        let popup: Popup = Popup {
            area,
            lines,
            list: self.command_list(area.height, inner),
            title: "Launch Configurations".to_owned(),
        };
        assert(labels_take(block, popup.area.width, 1, columns));
        assert(self.painted(fit, columns, popup.area.height as int, popup.lines@));
        popup
    }
}

} // verus!
