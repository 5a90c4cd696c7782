use agentty_tui::geometry::ViewportRect;
use agentty_tui::project_switcher_overlay::ProjectListItem;
use agentty_tui::rich_text::{Color, Span};
use agentty_tui::tab::{Tab, tab_list_region, tab_segments};
use agentty_tui::viewport::{ListItemHit, ListRegionKind};

/// Creates a `ProjectListItem` for tab-label tests.
fn project_list_item(id: i64, label: &str) -> ProjectListItem {
    ProjectListItem {
        active_session_count: 0,
        id,
        label: label.to_string(),
    }
}

/// Returns the header spans without their tab positions.
fn header_spans(current_tab: Tab, project_id: i64, projects: &[ProjectListItem]) -> Vec<Span> {
    tab_segments(current_tab, project_id, projects)
        .into_iter()
        .map(|segment| segment.span)
        .collect::<Vec<_>>()
}

/// Joins the contents of spans.
fn rendered(spans: &[Span]) -> String {
    spans
        .iter()
        .map(|span| span.content.as_str())
        .collect::<Vec<_>>()
        .join("")
}

#[test]
fn test_tab_segments_use_equal_spacing_between_labels() {
    // Arrange
    let current_tab = Tab::Projects;

    // Act
    let spans = header_spans(current_tab, 0, &[]);
    let rendered_tabs = rendered(&spans);

    // Assert
    assert_eq!(
        rendered_tabs,
        " Projects | Project: None | Sessions | Settings "
    );
}

#[test]
fn test_tab_segments_highlight_the_active_tab() {
    // Arrange
    let current_tab = Tab::Settings;

    // Act
    let spans = header_spans(current_tab, 0, &[]);

    // Assert
    assert_eq!(spans[0].style.fg, Some(Color::TextMuted));
    assert_eq!(spans[2].style.fg, Some(Color::TextSubtle));
    assert_eq!(spans[4].style.fg, Some(Color::TextMuted));
    assert_eq!(spans[6].style.fg, Some(Color::Warning));
    assert_eq!(spans[6].style.bg, Some(Color::Surface));
    assert!(spans[6].style.bold);
}

#[test]
fn test_tab_segments_include_selected_project_name_in_project_scope_label() {
    // Arrange
    let current_tab = Tab::Sessions;
    let projects = vec![
        project_list_item(7, "Primary"),
        project_list_item(8, "Secondary"),
    ];

    // Act
    let spans = header_spans(current_tab, 7, &projects);
    let rendered_tabs = rendered(&spans);

    // Assert
    assert_eq!(
        rendered_tabs,
        " Projects | Project: Primary | Sessions | Settings "
    );
    assert_eq!(spans[2].style.fg, Some(Color::AccentSoft));
    assert!(spans[2].style.bold);
    assert_eq!(spans[4].style.fg, Some(Color::Warning));
    assert_eq!(spans[4].style.bg, Some(Color::Surface));
}

#[test]
fn test_tab_segments_render_divider_spans_with_border_color() {
    // Arrange
    let current_tab = Tab::Projects;

    // Act
    let spans = header_spans(current_tab, 0, &[]);

    // Assert
    assert_eq!(spans[1].content.as_str(), "|");
    assert_eq!(spans[3].content.as_str(), "|");
    assert_eq!(spans[5].content.as_str(), "|");
    assert_eq!(spans[1].style.fg, Some(Color::Border));
    assert_eq!(spans[3].style.fg, Some(Color::Border));
    assert_eq!(spans[5].style.fg, Some(Color::Border));
}

#[test]
fn test_tab_segments_dim_project_scope_when_no_project_is_selected() {
    // Arrange
    let current_tab = Tab::Settings;

    // Act
    let spans = header_spans(current_tab, 0, &[]);

    // Assert
    assert_eq!(spans[2].content.as_str(), " Project: None ");
    assert_eq!(spans[2].style.fg, Some(Color::TextSubtle));
}

#[test]
fn test_tab_list_region_maps_each_label_to_its_cells_in_tab_all_order() {
    // Arrange
    let segments = tab_segments(Tab::Projects, 0, &[]);
    let inner = ViewportRect {
        height: 1,
        width: 60,
        x: 2,
        y: 1,
    };

    // Act
    let region = tab_list_region(&segments, inner);

    // Assert
    // " Projects " = 10 cells, "|" = 1, " Project: None " = 15, "|", " Sessions
    // " = 10, "|", " Settings ".
    assert_eq!(region.kind, ListRegionKind::Tabs);
    assert_eq!(
        region.items,
        vec![
            ListItemHit {
                area: ViewportRect {
                    height: 1,
                    width: 10,
                    x: 2,
                    y: 1
                },
                index: 0,
            },
            ListItemHit {
                area: ViewportRect {
                    height: 1,
                    width: 10,
                    x: 29,
                    y: 1
                },
                index: 1,
            },
            ListItemHit {
                area: ViewportRect {
                    height: 1,
                    width: 10,
                    x: 40,
                    y: 1
                },
                index: 2,
            },
        ]
    );
}

#[test]
fn tab_cells_count_wide_characters_twice() {
    let projects = vec![project_list_item(1, "東京")];
    let segments = tab_segments(Tab::Projects, 1, &projects);

    let region = tab_list_region(
        &segments,
        ViewportRect {
            height: 1,
            width: 60,
            x: 0,
            y: 0,
        },
    );

    assert_eq!(region.items[1].area.x, 27);
}

#[test]
fn test_tab_list_region_clips_labels_to_the_visible_width() {
    // Arrange
    let segments = tab_segments(Tab::Projects, 0, &[]);
    let inner = ViewportRect {
        height: 1,
        width: 33,
        x: 0,
        y: 0,
    };

    // Act
    let region = tab_list_region(&segments, inner);

    // Assert
    assert_eq!(region.items.len(), 2);
    assert_eq!(region.items[1].area.x, 27);
    assert_eq!(region.items[1].area.width, 6);
}

#[test]
fn test_tab_list_region_is_empty_without_an_inner_line() {
    // Arrange
    let segments = tab_segments(Tab::Projects, 0, &[]);

    // Act
    let region = tab_list_region(
        &segments,
        ViewportRect {
            height: 0,
            width: 40,
            x: 0,
            y: 0,
        },
    );

    // Assert
    assert_eq!(region.items, Vec::new());
}

#[test]
fn tabs_stand_at_their_positions() {
    assert_eq!(Tab::at(0), Some(Tab::Projects));
    assert_eq!(Tab::at(1), Some(Tab::Sessions));
    assert_eq!(Tab::at(2), Some(Tab::Settings));
    assert_eq!(Tab::at(3), None);
}
