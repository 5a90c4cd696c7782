use agentty_tui::file_explorer::{
    DiffHeaderPaths, DiffLine, DiffLineKind, FileExplorer, build_tree,
};
use agentty_tui::file_rows::FileTreeItem;
use agentty_tui::geometry::ViewportRect;
use agentty_tui::rich_text::{Color, Line, Span, Style};
use agentty_tui::viewport::ListRegionKind;

const DIFF_NONSTANDARD_HEADER: &str = "diff --git old/path new/path";
const EXPECTED_SRC_FOLDER_LINE: &str = "src/";
const EXPECTED_MAIN_FILE_LINE: &str = "└ main.rs";
const EXPECTED_NEW_FILE_LINE: &str = "└ new.rs";
const EXPECTED_RENAME_LINE: &str = " <- src/old.rs";
const EXPECTED_NONSTANDARD_LINE: &str = "old/path new/path";
const EXPECTED_NESTED_TREE_LINES: [&str; 5] = [
    "src/",
    "├ ui/component/",
    "│ └ file_explorer.rs",
    "└ main.rs",
    "README.md",
];

/// A file header that names both paths.
fn header(old_path: &str, new_path: &str) -> DiffLine {
    DiffLine {
        content: format!("diff --git a/{old_path} b/{new_path}"),
        header_paths: Some(DiffHeaderPaths {
            new_path: new_path.to_string(),
            old_path: old_path.to_string(),
        }),
        kind: DiffLineKind::FileHeader,
    }
}

fn same_path_header() -> DiffLine {
    header("src/main.rs", "src/main.rs")
}

fn rename_header() -> DiffLine {
    header("src/old.rs", "src/new.rs")
}

fn readme_header() -> DiffLine {
    header("README.md", "README.md")
}

fn nested_header() -> DiffLine {
    header(
        "src/ui/component/file_explorer.rs",
        "src/ui/component/file_explorer.rs",
    )
}

fn sibling_folder_header() -> DiffLine {
    header("src/domain/session.rs", "src/domain/session.rs")
}

fn line_text(line: &Line) -> String {
    line.spans.iter().map(|span| span.content.as_str()).collect()
}

fn line_texts(lines: &[Line]) -> Vec<String> {
    lines.iter().map(line_text).collect()
}

/// Writes an entry as its kind and path.
fn described(items: &[FileTreeItem]) -> Vec<(&'static str, String)> {
    items
        .iter()
        .map(|item| match item {
            FileTreeItem::File(path) => ("file", path.clone()),
            FileTreeItem::Folder(path) => ("folder", path.clone()),
        })
        .collect()
}

fn raw(content: &str) -> Span {
    Span {
        content: content.to_string(),
        style: Style::plain(),
    }
}

/// Cuts spans off at a width and marks the cut.
fn truncated(spans: Vec<Span>, width: usize) -> Vec<Span> {
    let text: String = spans.iter().map(|span| span.content.as_str()).collect();
    let kept: String = text.chars().take(width.saturating_sub(3)).collect();

    vec![raw(&format!("{kept}..."))]
}

#[test]
fn loading_renders_explicit_placeholder_without_empty_state() {
    // Act
    let explorer = FileExplorer::loading();

    // Assert
    let text = line_texts(&explorer.file_list_lines).join("");
    assert!(text.contains("Loading..."));
    assert!(!text.contains("No files"));
    assert!(!explorer.is_focused);
}

#[test]
fn test_render_right_aligns_preserved_suffix_and_truncates_long_labels() {
    // Arrange
    let line = |label: &str| Line {
        alignment: None,
        spans: vec![raw(label), raw(" "), raw("+12"), raw("/"), raw("-3")],
        style: Style::plain(),
    };
    let lines = vec![line("└ main.rs"), line("└ path/to/longer/main.rs")];
    let explorer = FileExplorer::from_cached_lines(lines, 4);

    // Act
    let painted = explorer.painted_lines(ViewportRect::new(0, 0, 20, 5), &truncated);

    // Assert
    assert_eq!(line_text(&painted[0]), "└ main.rs   +12/-3");
    assert_eq!(line_text(&painted[1]), "└ path/t... +12/-3");
}

#[test]
fn test_selected_visual_row_matches_fresh_list_state_scrolling() {
    // Arrange
    let tall_area = ViewportRect::new(0, 0, 20, 12);
    let short_area = ViewportRect::new(0, 0, 20, 5);
    let flat_area = ViewportRect::new(0, 0, 20, 2);

    // Act
    let visible_row = FileExplorer::selected_visual_row(7, 10, tall_area);
    let scrolled_row = FileExplorer::selected_visual_row(7, 10, short_area);
    let clamped_row = FileExplorer::selected_visual_row(usize::MAX, 2, tall_area);
    let empty_row = FileExplorer::selected_visual_row(0, 0, tall_area);
    let flat_row = FileExplorer::selected_visual_row(0, 1, flat_area);

    // Assert
    assert_eq!(visible_row, Some(7));
    assert_eq!(scrolled_row, Some(2));
    assert_eq!(clamped_row, Some(1));
    assert_eq!(empty_row, None);
    assert_eq!(flat_row, None);
}

#[test]
fn test_file_list_lines_with_same_path() {
    // Arrange
    let parsed_lines = vec![same_path_header()];

    // Act
    let lines = build_tree(&parsed_lines).0;

    // Assert
    assert_eq!(lines.len(), 2);
    assert_eq!(lines[0].spans[0].content, EXPECTED_SRC_FOLDER_LINE);
    assert_eq!(lines[1].spans[0].content, EXPECTED_MAIN_FILE_LINE);
}

#[test]
fn test_next_selected_index_wraps_from_last_to_first() {
    // Arrange
    let current_index = 1;
    let item_count = 2;

    // Act
    let next_index = FileExplorer::next_selected_index(current_index, item_count);

    // Assert
    assert_eq!(next_index, 0);
}

#[test]
fn test_previous_selected_index_wraps_from_first_to_last() {
    // Arrange
    let current_index = 0;
    let item_count = 2;

    // Act
    let previous_index = FileExplorer::previous_selected_index(current_index, item_count);

    // Assert
    assert_eq!(previous_index, 1);
}

#[test]
fn test_file_list_lines_with_rename() {
    // Arrange
    let parsed_lines = vec![rename_header()];

    // Act
    let lines = build_tree(&parsed_lines).0;

    // Assert
    assert_eq!(lines.len(), 2);
    assert_eq!(lines[0].spans[0].content, EXPECTED_SRC_FOLDER_LINE);
    assert_eq!(lines[1].spans[0].content, EXPECTED_NEW_FILE_LINE);
    assert_eq!(lines[1].spans[1].content, EXPECTED_RENAME_LINE);
}

#[test]
fn test_file_list_lines_with_nonstandard_header() {
    // Arrange
    let parsed_lines = vec![DiffLine {
        content: DIFF_NONSTANDARD_HEADER.to_string(),
        header_paths: None,
        kind: DiffLineKind::FileHeader,
    }];

    // Act
    let lines = build_tree(&parsed_lines).0;

    // Assert
    assert_eq!(lines.len(), 1);
    assert_eq!(lines[0].spans[0].content, EXPECTED_NONSTANDARD_LINE);
}

#[test]
fn test_file_list_lines_with_nested_structure() {
    // Arrange
    let parsed_lines = vec![same_path_header(), nested_header(), readme_header()];

    // Act
    let lines = build_tree(&parsed_lines).0;

    // Assert
    assert_eq!(line_texts(&lines), EXPECTED_NESTED_TREE_LINES);
}

#[test]
fn test_file_list_lines_compact_single_child_folder_chain() {
    // Arrange
    let parsed_lines = vec![nested_header()];

    // Act
    let (lines, items) = build_tree(&parsed_lines);

    // Assert
    assert_eq!(
        line_texts(&lines),
        ["src/ui/component/", "└ file_explorer.rs"]
    );
    assert_eq!(
        described(&items),
        [
            ("folder", "src/ui/component/".to_string()),
            ("file", "src/ui/component/file_explorer.rs".to_string()),
        ]
    );
}

#[test]
fn test_file_list_lines_render_last_sibling_folder_branch() {
    // Arrange
    let parsed_lines = vec![sibling_folder_header(), nested_header()];

    // Act
    let lines = build_tree(&parsed_lines).0;

    // Assert
    assert_eq!(
        line_texts(&lines),
        [
            "src/",
            "├ domain/",
            "│ └ session.rs",
            "└ ui/component/",
            "  └ file_explorer.rs",
        ]
    );
}

#[test]
fn test_file_list_lines_with_no_files() {
    // Arrange
    let parsed_lines = vec![DiffLine {
        content: " unchanged".to_string(),
        header_paths: None,
        kind: DiffLineKind::Context,
    }];

    // Act
    let lines = build_tree(&parsed_lines).0;

    // Assert
    assert_eq!(lines.len(), 1);
    assert_eq!(lines[0].spans[0].content, "No files");
}

#[test]
fn test_file_tree_items_returns_folders_and_files() {
    // Arrange
    let parsed_lines = vec![same_path_header()];

    // Act
    let items = FileExplorer::file_tree_items(&parsed_lines);

    // Assert
    assert_eq!(
        described(&items),
        [
            ("folder", "src/".to_string()),
            ("file", "src/main.rs".to_string())
        ]
    );
}

#[test]
fn test_file_tree_items_nested_structure() {
    // Arrange
    let parsed_lines = vec![same_path_header(), nested_header(), readme_header()];

    // Act
    let items = FileExplorer::file_tree_items(&parsed_lines);

    // Assert
    assert_eq!(
        described(&items),
        vec![
            ("folder", "src/".to_string()),
            ("folder", "src/ui/component/".to_string()),
            ("file", "src/ui/component/file_explorer.rs".to_string()),
            ("file", "src/main.rs".to_string()),
            ("file", "README.md".to_string()),
        ]
    );
}

#[test]
fn test_file_tree_items_with_rename() {
    // Arrange
    let parsed_lines = vec![rename_header()];

    // Act
    let items = FileExplorer::file_tree_items(&parsed_lines);

    // Assert
    assert_eq!(
        described(&items),
        [
            ("folder", "src/".to_string()),
            ("file", "src/new.rs".to_string())
        ]
    );
}

#[test]
fn test_file_tree_items_decode_git_quoted_paths() {
    // Arrange
    let parsed_lines = vec![DiffLine {
        content: concat_header(),
        header_paths: Some(DiffHeaderPaths {
            new_path: "docs/日本.md".to_string(),
            old_path: "docs/日本.md".to_string(),
        }),
        kind: DiffLineKind::FileHeader,
    }];

    // Act
    let items = FileExplorer::file_tree_items(&parsed_lines);

    // Assert
    assert_eq!(
        described(&items),
        vec![
            ("folder", "docs/".to_string()),
            ("file", "docs/日本.md".to_string()),
        ]
    );
}

/// A file header with quoted paths.
fn concat_header() -> String {
    [
        "diff --git \"a/docs/\\346\\227\\245\\346\\234\\254.md\" ",
        "\"b/docs/\\346\\227\\245\\346\\234\\254.md\"",
    ]
    .concat()
}

#[test]
fn test_file_tree_items_ignore_empty_new_path() {
    // Arrange
    let parsed_lines = vec![header("old.md", "")];

    // Act
    let items = FileExplorer::file_tree_items(&parsed_lines);

    // Assert
    assert!(items.is_empty());
}

#[test]
fn test_file_explorer_records_its_entries_from_the_render_offset() {
    // Arrange
    let parsed_lines = vec![same_path_header(), rename_header()];
    let explorer = FileExplorer::new(&parsed_lines)
        .focused(true)
        .selected_index(1);
    let area = ViewportRect::new(0, 0, 40, 10);

    // Act
    let list = explorer.list_region(area, 0);
    let painted = explorer.painted_lines(area, &truncated);

    // Assert
    assert_eq!(list.kind, ListRegionKind::DiffFiles);
    for (index, needle) in ["src", "main.rs", "new.rs"].iter().enumerate() {
        let painted_row = painted
            .iter()
            .position(|line| line_text(line).contains(needle))
            .expect("needle must be painted");
        let recorded = list
            .items
            .iter()
            .find(|item| item.index == index)
            .expect("item must be recorded");
        assert_eq!(usize::from(recorded.area.y), painted_row + 1);
        assert_eq!(recorded.area.x, 1);
        assert_eq!(recorded.area.width, 38);
    }
}

#[test]
fn test_list_region_starts_at_the_first_painted_entry() {
    // Arrange
    let parsed_lines = vec![same_path_header(), rename_header()];
    let explorer = FileExplorer::new(&parsed_lines);

    // Act
    let list = explorer.list_region(ViewportRect::new(5, 6, 10, 8), 2);

    // Assert
    assert_eq!(list.items.len(), 1);
    assert_eq!(list.items[0].index, 2);
    assert_eq!(list.items[0].area, ViewportRect::new(6, 7, 8, 1));
}

#[test]
fn test_selection_stays_put_without_items() {
    assert_eq!(FileExplorer::next_selected_index(5, 0), 5);
    assert_eq!(FileExplorer::previous_selected_index(5, 0), 5);
    assert_eq!(FileExplorer::next_selected_index(9, 3), 0);
    assert_eq!(FileExplorer::previous_selected_index(9, 3), 1);
}

#[test]
fn test_count_items_counts_files_and_folders() {
    // Arrange
    let hunk = DiffLine {
        content: "@@ -1 +1 @@".to_string(),
        header_paths: None,
        kind: DiffLineKind::HunkHeader,
    };

    // Act, Assert
    assert_eq!(FileExplorer::count_items(&Vec::new()), 0);
    assert_eq!(FileExplorer::count_items(&vec![hunk]), 0);
    assert_eq!(FileExplorer::count_items(&vec![same_path_header()]), 2);
}

#[test]
fn test_entries_do_not_depend_on_the_order_of_the_headers() {
    // Arrange
    let paths = ["src/b.rs", "README.md", "src/ui/a.rs", "docs/x/y.md", "src/a.rs"];
    let forward: Vec<DiffLine> = paths.iter().map(|path| header(path, path)).collect();
    let mut backward: Vec<DiffLine> = paths.iter().rev().map(|path| header(path, path)).collect();
    backward.insert(
        2,
        DiffLine {
            content: "+added".to_string(),
            header_paths: None,
            kind: DiffLineKind::Addition,
        },
    );

    // Act
    let items = FileExplorer::file_tree_items(&forward);
    let other_items = FileExplorer::file_tree_items(&backward);

    // Assert
    assert_eq!(items.len(), 8);
    assert_eq!(described(&items), described(&other_items));
}

#[test]
fn test_folders_and_files_have_their_colors() {
    // Arrange
    let parsed_lines = vec![rename_header()];

    // Act
    let (lines, _) = FileExplorer::file_tree(&parsed_lines);

    // Assert
    assert_eq!(lines[0].spans[0].style.fg, Some(Color::Warning));
    assert_eq!(lines[1].spans[0].style.fg, Some(Color::Accent));
    assert_eq!(lines[1].spans[1].style.fg, Some(Color::TextSubtle));
}

#[test]
fn test_lines_without_a_preserved_suffix_stay_whole() {
    // Arrange
    let parsed_lines = vec![header("a/very/long/path/name.rs", "a/very/long/path/name.rs")];
    let explorer = FileExplorer::new(&parsed_lines);

    // Act
    let painted = explorer.painted_lines(ViewportRect::new(0, 0, 6, 5), &truncated);

    // Assert
    assert_eq!(line_text(&painted[1]), "└ name.rs");
}
