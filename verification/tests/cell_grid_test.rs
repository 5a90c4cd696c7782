use agentty_tui::cell_grid::{CellGrid, rendered_text_start_cell, rendered_text_start_cells};
use ratatui::buffer::Buffer;
use ratatui::layout::Rect;
use ratatui::style::{Color, Style};

/// Reads the cells of a buffer.
fn grid_of(buffer: &Buffer) -> CellGrid {
    CellGrid {
        symbols: buffer
            .content()
            .iter()
            .map(|cell| cell.symbol().to_string())
            .collect(),
        width: buffer.area.width,
    }
}

#[test]
fn rendered_text_start_cell_returns_first_match() {
    // Arrange
    let mut buffer = Buffer::empty(Rect::new(0, 0, 12, 2));
    buffer.set_string(1, 0, "one", Style::default().fg(Color::Green));
    buffer.set_string(1, 1, "one", Style::default().fg(Color::Yellow));

    // Act
    let cell = rendered_text_start_cell(&grid_of(&buffer), "one").expect("text should render");

    // Assert
    assert_eq!(buffer.content()[cell].fg, Color::Green);
}

#[test]
fn rendered_text_start_cells_returns_all_matches() {
    // Arrange
    let mut buffer = Buffer::empty(Rect::new(0, 0, 12, 2));
    buffer.set_string(1, 0, "same", Style::default().fg(Color::Green));
    buffer.set_string(1, 1, "same", Style::default().fg(Color::Yellow));

    // Act
    let cells = rendered_text_start_cells(&grid_of(&buffer), "same");
    let colors = cells
        .iter()
        .map(|cell| buffer.content()[*cell].fg)
        .collect::<Vec<_>>();

    // Assert
    assert_eq!(colors, vec![Color::Green, Color::Yellow]);
}

#[test]
fn rendered_text_start_cell_returns_none_for_missing_text() {
    // Arrange
    let mut buffer = Buffer::empty(Rect::new(0, 0, 12, 1));
    buffer.set_string(1, 0, "present", Style::default());

    // Act
    let cell = rendered_text_start_cell(&grid_of(&buffer), "missing");

    // Assert
    assert!(cell.is_none());
}

#[test]
fn rendered_text_does_not_continue_in_the_next_row() {
    // Arrange
    let grid = CellGrid {
        symbols: "xxabcdabcd".chars().map(String::from).collect(),
        width: 4,
    };

    // Act
    let cells = rendered_text_start_cells(&grid, "abcd");

    // Assert
    assert_eq!(cells, Vec::new());
    assert_eq!(rendered_text_start_cells(&grid, "ab"), vec![2, 6]);
}
