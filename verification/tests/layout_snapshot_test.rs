use agentty_tui::geometry::ViewportRect;
use agentty_tui::layout_snapshot::{
    FrameLayout, ListRow, consecutive_rows_list, scroll_region, stacked_rows_list,
};
use agentty_tui::viewport::{LayoutSnapshot, ListItemHit, ListRegionKind, ScrollRegion};

fn hit(index: usize, x: u16, y: u16, width: u16, height: u16) -> ListItemHit {
    ListItemHit {
        area: ViewportRect {
            height,
            width,
            x,
            y,
        },
        index,
    }
}

fn is_empty(snapshot: &LayoutSnapshot) -> bool {
    snapshot.chat_output.is_none()
        && snapshot.diff_file_list.is_none()
        && snapshot.diff_panel.is_none()
        && snapshot.help_overlay.is_none()
        && snapshot.lists.is_empty()
}

#[test]
fn test_take_frame_returns_recorded_regions_and_resets() {
    // Arrange
    let mut frame = FrameLayout::new();
    frame.begin_frame();
    let region = scroll_region(ViewportRect::new(1, 2, 30, 12), None, 40, 10);

    // Act
    frame.record_chat_output(region);
    frame.record_diff_file_list(ViewportRect::new(0, 0, 10, 5));
    let snapshot = frame.take_frame();
    let emptied = frame.take_frame();

    // Assert
    assert_eq!(snapshot.chat_output, Some(region));
    assert_eq!(
        snapshot.diff_file_list,
        Some(ViewportRect {
            height: 5,
            width: 10,
            x: 0,
            y: 0
        })
    );
    assert!(is_empty(&emptied));
}

#[test]
fn test_begin_frame_clears_previous_regions() {
    // Arrange
    let mut frame = FrameLayout::new();
    frame.record_help_overlay(scroll_region(ViewportRect::new(0, 0, 5, 5), None, 3, 3));

    // Act
    frame.begin_frame();
    let snapshot = frame.take_frame();

    // Assert
    assert_eq!(snapshot.help_overlay, None);
}

#[test]
fn test_record_list_keeps_paint_order() {
    // Arrange
    let mut frame = FrameLayout::new();
    frame.begin_frame();
    let page_list =
        consecutive_rows_list(ListRegionKind::Sessions, ViewportRect::new(0, 0, 10, 3), 0, 3);
    let overlay_list = consecutive_rows_list(
        ListRegionKind::SessionCreation,
        ViewportRect::new(0, 0, 10, 2),
        0,
        2,
    );
    let page_items = page_list.items.clone();
    let overlay_items = overlay_list.items.clone();

    // Act
    frame.record_list(page_list);
    frame.record_list(overlay_list);
    let snapshot = frame.take_frame();

    // Assert
    assert_eq!(snapshot.lists.len(), 2);
    assert_eq!(snapshot.lists[0].kind, ListRegionKind::Sessions);
    assert_eq!(snapshot.lists[0].items, page_items);
    assert_eq!(snapshot.lists[1].kind, ListRegionKind::SessionCreation);
    assert_eq!(snapshot.lists[1].items, overlay_items);
}

#[test]
fn test_stacked_rows_list_skips_labels_and_margins_and_clips_to_body() {
    // Arrange
    let body = ViewportRect::new(2, 5, 20, 4);
    let rows = vec![
        ListRow {
            bottom_margin: 0,
            height: 1,
            index: None,
        },
        ListRow {
            bottom_margin: 1,
            height: 1,
            index: Some(0),
        },
        ListRow::item(1),
        ListRow::item(2),
    ];

    // Act
    let region = stacked_rows_list(ListRegionKind::Sessions, body, &rows);

    // Assert
    assert_eq!(region.kind, ListRegionKind::Sessions);
    assert_eq!(
        region.items,
        vec![hit(0, 2, 6, 20, 1), hit(1, 2, 8, 20, 1)],
        "the label row, the margin row, and the row below the body are not items"
    );
}

#[test]
fn test_stacked_rows_list_clips_a_tall_row_at_the_body_bottom() {
    // Arrange
    let body = ViewportRect::new(0, 0, 8, 3);
    let rows = vec![
        ListRow::item(4),
        ListRow {
            bottom_margin: 0,
            height: 5,
            index: Some(5),
        },
    ];

    // Act
    let region = stacked_rows_list(ListRegionKind::Projects, body, &rows);

    // Assert
    assert_eq!(region.items, vec![hit(4, 0, 0, 8, 1), hit(5, 0, 1, 8, 2)]);
}

#[test]
fn test_consecutive_rows_list_starts_at_the_window_offset() {
    // Arrange
    let body = ViewportRect::new(3, 3, 10, 10);

    // Act
    let region = consecutive_rows_list(ListRegionKind::SettingsSelector, body, 4, 2);

    // Assert
    assert_eq!(region.items, vec![hit(4, 3, 3, 10, 1), hit(5, 3, 4, 10, 1)]);
}

#[test]
fn test_consecutive_rows_list_with_no_items_is_empty() {
    // Act
    let region =
        consecutive_rows_list(ListRegionKind::DiffFiles, ViewportRect::new(0, 0, 5, 5), 0, 0);

    // Assert
    assert_eq!(region.items, Vec::new());
}

#[test]
fn test_consecutive_rows_stop_at_the_body_bottom() {
    // Act
    let region =
        consecutive_rows_list(ListRegionKind::Sessions, ViewportRect::new(1, 2, 5, 2), 7, 9);

    // Assert
    assert_eq!(region.items, vec![hit(7, 1, 2, 5, 1), hit(8, 1, 3, 5, 1)]);
}

#[test]
fn test_scroll_region_caps_its_line_count() {
    // Act
    let region = scroll_region(ViewportRect::new(0, 0, 5, 5), None, 70_000, 5);

    // Assert
    assert_eq!(
        region,
        ScrollRegion {
            area: ViewportRect::new(0, 0, 5, 5),
            scrollbar: None,
            total_lines: u16::MAX,
            viewport_height: 5,
        }
    );
}

#[test]
fn test_later_lists_shadow_earlier_ones() {
    // Arrange
    let mut frame = FrameLayout::new();
    let area = ViewportRect::new(0, 0, 10, 3);
    frame.record_list(consecutive_rows_list(ListRegionKind::Sessions, area, 0, 3));
    frame.record_list(consecutive_rows_list(ListRegionKind::SessionCreation, area, 5, 1));

    // Act
    let snapshot = frame.take_frame();

    // Assert
    assert_eq!(
        snapshot.list_item_at(4, 0),
        Some((ListRegionKind::SessionCreation, 5))
    );
    assert_eq!(snapshot.list_item_at(4, 1), Some((ListRegionKind::Sessions, 1)));
    assert_eq!(snapshot.list_item_at(4, 3), None);
    assert_eq!(snapshot.list_item_at(10, 1), None);
}
