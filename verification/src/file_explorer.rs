//! The changed-file list of the diff page.

use vstd::prelude::*;

use crate::file_rows::{
    FileTreeItem, ItemView, RowView, append_tree_lines, item_views, row_items, row_lines,
    tree_rows,
};
use crate::file_tree::{
    FileTreeNode, TreeView, empty_tree, optional_text, ordered, sorted_tree, with_file,
};
use crate::geometry::ViewportRect;
use crate::layout_snapshot::{consecutive_rows, consecutive_rows_list, stacked_items};
use crate::rich_text::{
    Color, Line, LineView, Span, SpanView, Style, copy_spans, line_of, line_views, line_with_span,
    measure_spans, span_views, spans_width, styled,
};
use crate::text::{has_prefix, same_text, spaces, string_between, to_chars};
use crate::text_lines::{split_on, split_text, texts};
use crate::viewport::{ListRegion, ListRegionKind, least, minus};

verus! {

/// What a line of a diff is.
#[derive(Clone, Copy, Debug, PartialEq, Eq, Structural)]
pub enum DiffLineKind {
    Addition,
    Context,
    Deletion,
    FileHeader,
    HunkHeader,
}

/// The two paths that a file header names.
#[derive(Debug)]
pub struct DiffHeaderPaths {
    pub new_path: String,
    pub old_path: String,
}

/// One parsed line of a diff.
#[derive(Debug)]
pub struct DiffLine {
    pub content: String,
    /// The decoded paths of a file header of the usual form.
    pub header_paths: Option<DiffHeaderPaths>,
    pub kind: DiffLineKind,
}

/// A file path as the tree takes it in.
#[derive(Debug)]
pub struct ParsedPath {
    pub path_segments: Vec<String>,
    pub rename_from: Option<String>,
}

/// What a parsed path stands for.
pub struct PathView {
    pub rename_from: Option<Seq<char>>,
    pub segments: Seq<Seq<char>>,
}

impl View for ParsedPath {
    type V = PathView;

    open spec fn view(&self) -> PathView {
        PathView {
            rename_from: optional_text(self.rename_from),
            segments: texts(self.path_segments@),
        }
    }
}

/// The names between the slashes of a path.
pub open spec fn path_names(path: Seq<char>) -> Seq<Seq<char>> {
    split_on(path, '/').filter(|name: Seq<char>| name.len() > 0)
}

/// `text` without any occurrence of `pattern`, looked for from left to right.
pub open spec fn without_pattern(text: Seq<char>, pattern: Seq<char>) -> Seq<char>
    decreases text.len(),
{
    if text.len() == 0 || pattern.len() == 0 {
        text
    } else if pattern.is_prefix_of(text) {
        without_pattern(text.skip(pattern.len() as int), pattern)
    } else {
        seq![text[0]] + without_pattern(text.drop_first(), pattern)
    }
}

/// The path that a file header stands for: the new path where it can be read,
/// else the header text itself.
pub open spec fn header_path(line: DiffLine) -> Option<PathView> {
    match line.header_paths {
        Some(paths) => {
            let names = path_names(paths.new_path@);
            if names.len() == 0 {
                None
            } else {
                Some(
                    PathView {
                        rename_from: if paths.old_path@ == paths.new_path@ {
                            None
                        } else {
                            Some(paths.old_path@)
                        },
                        segments: names,
                    },
                )
            }
        },
        None => Some(
            PathView {
                rename_from: None,
                segments: seq![without_pattern(line.content@, "diff --git "@)],
            },
        ),
    }
}

/// The path that a diff line adds to the tree.
pub open spec fn added_path(line: DiffLine) -> Option<PathView> {
    if line.kind == DiffLineKind::FileHeader && ("diff --git"@).is_prefix_of(line.content@) {
        header_path(line)
    } else {
        None
    }
}

/// The tree of the files that a diff names, in the order of the diff.
pub open spec fn named_files(lines: Seq<DiffLine>) -> TreeView
    decreases lines.len(),
{
    if lines.len() == 0 {
        empty_tree()
    } else {
        let tree = named_files(lines.drop_last());
        match added_path(lines.last()) {
            Some(path) => with_file(tree, path.segments, path.rename_from),
            None => tree,
        }
    }
}

/// The rows of the explorer for a diff.
pub open spec fn explorer_rows(lines: Seq<DiffLine>) -> Seq<RowView> {
    tree_rows(sorted_tree(named_files(lines)), ""@, ""@)
}

/// The placeholder in a list without files.
pub open spec fn placeholder(label: Seq<char>) -> LineView {
    line_of(seq![SpanView { content: label, style: Style::colored_spec(Color::TextSubtle) }])
}

/// The lines of the explorer for a diff.
pub open spec fn explorer_lines(lines: Seq<DiffLine>) -> Seq<LineView> {
    let rows = row_lines(explorer_rows(lines));
    if rows.len() == 0 {
        seq![placeholder("No files"@)]
    } else {
        rows
    }
}

/// Splits a repository path into its folder and file names.
pub fn split_path_segments(path: &str) -> (names: Vec<String>)
    ensures
        texts(names@) == path_names(path@),
{
    let pieces: Vec<String> = split_text(path, '/');
    let ghost split = split_on(path@, '/');
    let ghost kept = |name: Seq<char>| name.len() > 0;
    let mut names: Vec<String> = Vec::new();
    let mut index: usize = 0;
    proof {
        reveal(Seq::filter);
        assert(split.take(0).filter(kept) =~= Seq::<Seq<char>>::empty());
        assert(texts(names@) =~= Seq::<Seq<char>>::empty());
    }
    while index < pieces.len()
        invariant
            index <= pieces@.len(),
            texts(pieces@) == split,
            kept == (|name: Seq<char>| name.len() > 0),
            texts(names@) == split.take(index as int).filter(kept),
        decreases pieces@.len() - index,
    {
        proof {
            reveal(Seq::filter);
            assert(split.take(index as int + 1).drop_last() =~= split.take(index as int));
            assert(split[index as int] == pieces@[index as int]@);
        }
        if !pieces[index].as_str().is_empty() {
            let ghost before = texts(names@);
            let name: String = pieces[index].clone();
            names.push(name);
            assert(texts(names@) =~= before.push(name@));
        }
        index = index + 1;
    }
    assert(split.take(index as int) =~= split);
    names
}

/// Removes every occurrence of `pattern` from `text`.
pub fn remove_pattern(text: &str, pattern: &str) -> (result: String)
    ensures
        result@ == without_pattern(text@, pattern@),
{
    let chars: Vec<char> = to_chars(text);
    let length: usize = pattern.unicode_len();
    if length == 0 {
        return text.to_owned();
    }
    let mut result: String = String::new();
    let mut index: usize = 0;
    assert(text@.skip(0) =~= text@);
    while index < chars.len()
        invariant
            index <= chars@.len(),
            chars@ == text@,
            length == pattern@.len(),
            length > 0,
            result@ + without_pattern(text@.skip(index as int), pattern@) == without_pattern(
                text@,
                pattern@,
            ),
        decreases chars@.len() - index,
    {
        let ghost rest = text@.skip(index as int);
        let remaining: String = string_between(&chars, index, chars.len());
        assert(remaining@ =~= rest);
        if has_prefix(remaining.as_str(), pattern) {
            assert(rest.skip(length as int) =~= text@.skip(index as int + length as int));
            index = index + length;
        } else {
            let ghost before = result@;
            result.push(chars[index]);
            proof {
                assert(rest.drop_first() =~= text@.skip(index as int + 1));
                assert(rest[0] == chars@[index as int]);
                let tail = without_pattern(rest.drop_first(), pattern@);
                assert(before + (seq![rest[0]] + tail) =~= before.push(rest[0]) + tail);
            }
            index = index + 1;
        }
    }
    assert(text@.skip(index as int) =~= Seq::<char>::empty());
    assert(result@ + Seq::<char>::empty() =~= result@);
    result
}

/// Reads the path that a file header stands for.
pub fn parse_path(line: &DiffLine) -> (path: Option<ParsedPath>)
    ensures
        path is Some == header_path(*line) is Some,
        path matches Some(parsed) ==> parsed@ == header_path(*line)->0,
{
    match &line.header_paths {
        Some(paths) => {
            let path_segments: Vec<String> = split_path_segments(paths.new_path.as_str());
            assert(texts(path_segments@).len() == path_segments@.len());
            if path_segments.len() == 0 {
                return None;
            }
            let rename_from: Option<String> = if same_text(
                paths.old_path.as_str(),
                paths.new_path.as_str(),
            ) {
                None
            } else {
                Some(paths.old_path.clone())
            };
            Some(ParsedPath { path_segments, rename_from })
        },
        None => {
            let label: String = remove_pattern(line.content.as_str(), "diff --git ");
            let mut path_segments: Vec<String> = Vec::new();
            path_segments.push(label);
            assert(texts(path_segments@) =~= seq![label@]);
            Some(ParsedPath { path_segments, rename_from: None })
        },
    }
}

/// Builds the lines of the explorer and the entries that they select.
pub fn build_tree(parsed_lines: &Vec<DiffLine>) -> (tree: (Vec<Line>, Vec<FileTreeItem>))
    ensures
        line_views(tree.0@) == explorer_lines(parsed_lines@),
        item_views(tree.1@) == row_items(explorer_rows(parsed_lines@)),
{
    let mut file_tree: FileTreeNode = FileTreeNode::new();
    let mut index: usize = 0;
    assert(parsed_lines@.take(0) =~= Seq::<DiffLine>::empty());
    while index < parsed_lines.len()
        invariant
            index <= parsed_lines@.len(),
            file_tree.tree() == named_files(parsed_lines@.take(index as int)),
            ordered(file_tree.tree()),
        decreases parsed_lines@.len() - index,
    {
        assert(parsed_lines@.take(index as int + 1).drop_last() =~= parsed_lines@.take(
            index as int,
        ));
        let line: &DiffLine = &parsed_lines[index];
        if matches!(line.kind, DiffLineKind::FileHeader) && has_prefix(
            line.content.as_str(),
            "diff --git",
        ) {
            match parse_path(line) {
                Some(parsed) => {
                    assert(texts(parsed.path_segments@).skip(0) =~= texts(parsed.path_segments@));
                    file_tree.insert(&parsed.path_segments, 0, parsed.rename_from);
                },
                None => {},
            }
        }
        index = index + 1;
    }
    assert(parsed_lines@.take(index as int) =~= parsed_lines@);
    let mut lines: Vec<Line> = Vec::new();
    let mut items: Vec<FileTreeItem> = Vec::new();
    file_tree.sort_recursive();
    append_tree_lines(&file_tree, "", "", &mut lines, &mut items);
    proof {
        let rows = explorer_rows(parsed_lines@);
        assert(line_views(Seq::<Line>::empty()) =~= Seq::<LineView>::empty());
        assert(item_views(Seq::<FileTreeItem>::empty()) =~= Seq::<ItemView>::empty());
        assert(Seq::<LineView>::empty() + row_lines(rows) =~= row_lines(rows));
        assert(Seq::<ItemView>::empty() + row_items(rows) =~= row_items(rows));
    }
    if lines.len() == 0 {
        assert(line_views(lines@).len() == 0);
        let line: Line = line_with_span("No files", Style::colored(Color::TextSubtle));
        lines.push(line);
        assert(line_views(lines@) =~= seq![placeholder("No files"@)]);
    } else {
        assert(line_views(lines@).len() > 0);
    }
    (lines, items)
}

/// A list position that is certain to lie inside a list of `item_count` items.
pub open spec fn inside(index: usize, item_count: usize) -> int {
    if index < item_count {
        index as int
    } else if item_count == 0 {
        0
    } else {
        item_count - 1
    }
}

/// The position after `index`, going around at the end.
pub open spec fn next_position(index: usize, item_count: usize) -> int {
    if item_count == 0 {
        index as int
    } else if inside(index, item_count) == item_count - 1 {
        0
    } else {
        inside(index, item_count) + 1
    }
}

/// The position before `index`, going around at the start.
pub open spec fn previous_position(index: usize, item_count: usize) -> int {
    if item_count == 0 {
        index as int
    } else if inside(index, item_count) == 0 {
        item_count - 1
    } else {
        inside(index, item_count) - 1
    }
}

/// Moving on and back again stays where it was.
pub proof fn lemma_next_then_previous(index: usize, item_count: usize)
    requires
        index < item_count,
    ensures
        previous_position(next_position(index, item_count) as usize, item_count) == index,
        next_position(previous_position(index, item_count) as usize, item_count) == index,
{
}

/// Every move lands inside the list.
pub proof fn lemma_moves_land_inside(index: usize, item_count: usize)
    requires
        item_count > 0,
    ensures
        0 <= next_position(index, item_count) < item_count,
        0 <= previous_position(index, item_count) < item_count,
{
}

/// The inside of a border around an area.
pub open spec fn inside_border(area: ViewportRect) -> ViewportRect {
    ViewportRect {
        height: minus(area.height as int, 2) as u16,
        width: minus(area.width as int, 2) as u16,
        x: least(least(area.x + 1, area.x + area.width), u16::MAX as int) as u16,
        y: least(least(area.y + 1, area.y + area.height), u16::MAX as int) as u16,
    }
}

/// `ratatui::widgets::Block::inner` of a block with all borders: the area
/// without one cell at each side. Where there is no room the inside is empty
/// and stays within the area.
#[verifier::external_body]
fn inner_of_border(area: ViewportRect) -> (inner: ViewportRect)
    ensures
        inner == inside_border(area),
{
    let outer = ratatui::layout::Rect {
        x: area.x,
        y: area.y,
        width: area.width,
        height: area.height,
    };
    let inner = ratatui::widgets::Block::default()
        .borders(ratatui::widgets::Borders::ALL)
        .inner(outer);
    ViewportRect { height: inner.height, width: inner.width, x: inner.x, y: inner.y }
}

/// The row of the selected entry inside a bordered list that scrolls just far
/// enough to show it.
pub open spec fn visual_row(selected_index: usize, item_count: usize, area: ViewportRect) -> Option<
    u16,
> {
    if item_count == 0 || area.height <= 2 {
        None
    } else {
        let last_row = area.height - 3;
        let selected = inside(selected_index, item_count);
        Some(
            if selected < last_row {
                selected as u16
            } else {
                last_row as u16
            },
        )
    }
}

/// The changed-file list of the diff page.
#[derive(Debug)]
pub struct FileExplorer {
    pub file_list_lines: Vec<Line>,
    pub is_focused: bool,
    /// How many spans at the end of each line stay whole in a narrow list.
    pub preserved_suffix_span_count: usize,
    pub selected_index: usize,
}

/// The spans of a row with its suffix moved to the right edge.
pub open spec fn aligned_spans(
    kept: Seq<SpanView>,
    available: int,
    suffix: Seq<SpanView>,
) -> Seq<SpanView> {
    let width = spans_width(kept);
    let gap = if width < available {
        available - width
    } else {
        0
    };
    kept.push(
        SpanView { content: Seq::new(gap as nat, |i: int| ' '), style: Style::plain_spec() },
    ) + suffix
}

/// The columns that a suffix leaves for the label in front of it.
pub open spec fn label_room(max_width: usize, suffix: Seq<SpanView>) -> usize {
    if spans_width(suffix) < max_width {
        (max_width - spans_width(suffix)) as usize
    } else {
        0
    }
}

/// Whether a line was fitted into a width: the preserved spans at its end
/// move to the right edge, and where both do not fit the label in front is
/// truncated.
pub open spec fn line_fitted<F: Fn(Vec<Span>, usize) -> Vec<Span>>(
    count: usize,
    line: Line,
    max_width: usize,
    truncate: F,
    result: LineView,
) -> bool {
    let total = line.spans@.len();
    if count == 0 || total <= count {
        result == line@
    } else {
        let label = line.spans@.take(total - count);
        let suffix = span_views(line.spans@.skip(total - count));
        let available = label_room(max_width, suffix);
        if spans_width(span_views(label)) > available {
            exists|input: Vec<Span>, output: Vec<Span>|
                input@ == label && #[trigger] truncate.ensures((input, available), output)
                    && result == line_of(
                    aligned_spans(span_views(output@), available as int, suffix),
                )
        } else {
            result == line_of(aligned_spans(span_views(label), available as int, suffix))
        }
    }
}

/// Columns of the border at both sides.
pub const FILE_EXPLORER_HORIZONTAL_BORDER_WIDTH: u16 = 2;

impl FileExplorer {
    /// Builds the lines of the explorer and the entries that they select.
    pub fn file_tree(parsed_lines: &Vec<DiffLine>) -> (tree: (Vec<Line>, Vec<FileTreeItem>))
        ensures
            line_views(tree.0@) == explorer_lines(parsed_lines@),
            item_views(tree.1@) == row_items(explorer_rows(parsed_lines@)),
    {
        build_tree(parsed_lines)
    }

    /// Fits the lines of the explorer into an area.
    pub fn painted_lines<F: Fn(Vec<Span>, usize) -> Vec<Span>>(
        &self,
        area: ViewportRect,
        truncate: &F,
    ) -> (lines: Vec<Line>)
        requires
            forall|spans: Vec<Span>, width: usize| #[trigger] truncate.requires((spans, width)),
        ensures
            lines@.len() == self.file_list_lines@.len(),
            forall|i: int|
                0 <= i < lines@.len() ==> line_fitted(
                    self.preserved_suffix_span_count,
                    self.file_list_lines@[i],
                    minus(area.width as int, FILE_EXPLORER_HORIZONTAL_BORDER_WIDTH as int) as usize,
                    *truncate,
                    (#[trigger] lines@[i])@,
                ),
    {
        let width: usize = area.width.saturating_sub(
            FILE_EXPLORER_HORIZONTAL_BORDER_WIDTH,
        ) as usize;
        let mut lines: Vec<Line> = Vec::new();
        let mut index: usize = 0;
        while index < self.file_list_lines.len()
            invariant
                index <= self.file_list_lines@.len(),
                lines@.len() == index,
                forall|spans: Vec<Span>, width: usize| #[trigger]
                    truncate.requires((spans, width)),
                forall|i: int|
                    0 <= i < index ==> line_fitted(
                        self.preserved_suffix_span_count,
                        self.file_list_lines@[i],
                        width,
                        *truncate,
                        (#[trigger] lines@[i])@,
                    ),
            decreases self.file_list_lines@.len() - index,
        {
            lines.push(self.line_for_width(&self.file_list_lines[index], width, truncate));
            index = index + 1;
        }
        lines
    }

    /// Builds the clickable list of the explorer in an area, where it was
    /// painted from the row `offset` on.
    pub fn list_region(&self, area: ViewportRect, offset: usize) -> (list: ListRegion)
        ensures
            list.kind == ListRegionKind::DiffFiles,
            list.items@ == stacked_items(
                consecutive_rows(
                    offset,
                    minus(self.file_list_lines@.len() as int, offset as int) as usize,
                ),
                inside_border(area),
                inside_border(area).y as int,
            ),
    {
        consecutive_rows_list(
            ListRegionKind::DiffFiles,
            inner_of_border(area),
            offset,
            self.file_list_lines.len().saturating_sub(offset),
        )
    }

    /// Builds the explorer of a parsed diff.
    pub fn new(parsed_lines: &Vec<DiffLine>) -> (explorer: FileExplorer)
        ensures
            line_views(explorer.file_list_lines@) == explorer_lines(parsed_lines@),
            explorer.is_focused,
            explorer.preserved_suffix_span_count == 0,
            explorer.selected_index == 0,
    {
        let (file_list_lines, _items) = build_tree(parsed_lines);
        FileExplorer {
            file_list_lines,
            is_focused: true,
            preserved_suffix_span_count: 0,
            selected_index: 0,
        }
    }

    /// Builds the placeholder shown while a diff loads.
    pub fn loading() -> (explorer: FileExplorer)
        ensures
            line_views(explorer.file_list_lines@) == seq![placeholder("Loading..."@)],
            !explorer.is_focused,
            explorer.preserved_suffix_span_count == 0,
            explorer.selected_index == 0,
    {
        let line: Line = line_with_span("Loading...", Style::colored(Color::TextSubtle));
        let mut file_list_lines: Vec<Line> = Vec::new();
        file_list_lines.push(line);
        assert(line_views(file_list_lines@) =~= seq![placeholder("Loading..."@)]);
        FileExplorer {
            file_list_lines,
            is_focused: false,
            preserved_suffix_span_count: 0,
            selected_index: 0,
        }
    }

    /// Builds an explorer from rendered lines whose last spans stay whole.
    pub fn from_cached_lines(
        file_list_lines: Vec<Line>,
        preserved_suffix_span_count: usize,
    ) -> (explorer: FileExplorer)
        ensures
            explorer == (FileExplorer {
                file_list_lines,
                is_focused: true,
                preserved_suffix_span_count,
                selected_index: 0,
            }),
    {
        FileExplorer {
            file_list_lines,
            is_focused: true,
            preserved_suffix_span_count,
            selected_index: 0,
        }
    }

    /// Sets the selected entry.
    #[must_use]
    pub fn selected_index(self, index: usize) -> (explorer: FileExplorer)
        ensures
            explorer == (FileExplorer { selected_index: index, ..self }),
    {
        FileExplorer { selected_index: index, ..self }
    }

    /// Sets whether the selected entry is highlighted.
    #[must_use]
    pub fn focused(self, is_focused: bool) -> (explorer: FileExplorer)
        ensures
            explorer == (FileExplorer { is_focused, ..self }),
    {
        FileExplorer { is_focused, ..self }
    }

    /// Clamps a position to a list of `item_count` items.
    pub fn normalize_selected_index(current_index: usize, item_count: usize) -> (index: usize)
        ensures
            index == inside(current_index, item_count),
    {
        let last: usize = item_count.saturating_sub(1);
        if current_index < last {
            current_index
        } else {
            last
        }
    }

    /// Returns the position after `current_index`; an empty list changes
    /// nothing.
    pub fn next_selected_index(current_index: usize, item_count: usize) -> (index: usize)
        ensures
            index == next_position(current_index, item_count),
    {
        if item_count == 0 {
            return current_index;
        }
        let normalized_index: usize = Self::normalize_selected_index(current_index, item_count);
        if normalized_index + 1 == item_count {
            0
        } else {
            normalized_index + 1
        }
    }

    /// Returns the position before `current_index`; an empty list changes
    /// nothing.
    pub fn previous_selected_index(current_index: usize, item_count: usize) -> (index: usize)
        ensures
            index == previous_position(current_index, item_count),
    {
        if item_count == 0 {
            return current_index;
        }
        let normalized_index: usize = Self::normalize_selected_index(current_index, item_count);
        if normalized_index == 0 {
            item_count - 1
        } else {
            normalized_index - 1
        }
    }

    /// Returns the row of the selected entry inside the bordered list.
    pub fn selected_visual_row(
        selected_index: usize,
        item_count: usize,
        area: ViewportRect,
    ) -> (row: Option<u16>)
        ensures
            row == visual_row(selected_index, item_count, area),
    {
        if item_count == 0 {
            return None;
        }
        let viewport_height: u16 = inner_of_border(area).height;
        if viewport_height == 0 {
            return None;
        }
        let selected: usize = Self::normalize_selected_index(selected_index, item_count);
        let last_visual_row: u16 = viewport_height - 1;
        if selected < last_visual_row as usize {
            Some(selected as u16)
        } else {
            Some(last_visual_row)
        }
    }

    /// Counts the entries of the explorer: the files and folders of a diff.
    pub fn count_items(parsed_lines: &Vec<DiffLine>) -> (count: usize)
        ensures
            count == row_items(explorer_rows(parsed_lines@)).len(),
    {
        let items: Vec<FileTreeItem> = Self::file_tree_items(parsed_lines);
        assert(item_views(items@).len() == items@.len());
        items.len()
    }

    /// Returns the entries of the explorer, one for each line of the tree.
    pub fn file_tree_items(parsed_lines: &Vec<DiffLine>) -> (items: Vec<FileTreeItem>)
        ensures
            item_views(items@) == row_items(explorer_rows(parsed_lines@)),
    {
        let (_lines, items) = build_tree(parsed_lines);
        items
    }

    /// Moves the preserved suffix of a line to the right edge; where both do
    /// not fit, `truncate` shortens the label.
    pub fn line_for_width<F: Fn(Vec<Span>, usize) -> Vec<Span>>(
        &self,
        line: &Line,
        max_width: usize,
        truncate: &F,
    ) -> (result: Line)
        requires
            forall|spans: Vec<Span>, width: usize| #[trigger] truncate.requires((spans, width)),
        ensures
            line_fitted(
                self.preserved_suffix_span_count,
                *line,
                max_width,
                *truncate,
                result@,
            ),
    {
        let suffix_start: usize = line.spans.len().saturating_sub(self.preserved_suffix_span_count);
        if self.preserved_suffix_span_count == 0 || suffix_start == 0 {
            return line.clone();
        }
        let mut suffix_spans: Vec<Span> = copy_spans(&line.spans, suffix_start, line.spans.len());
        let ghost suffix = span_views(suffix_spans@);
        let suffix_width: usize = measure_spans(&suffix_spans);
        let available: usize = max_width.saturating_sub(suffix_width);
        let prefix_spans: Vec<Span> = copy_spans(&line.spans, 0, suffix_start);
        let prefix_width: usize = measure_spans(&prefix_spans);
        let ghost label = prefix_spans;
        proof {
            assert(suffix_spans@ =~= line.spans@.skip(suffix_start as int));
            assert(prefix_spans@ =~= line.spans@.take(suffix_start as int));
        }
        let mut spans: Vec<Span> = if prefix_width > available {
            truncate(prefix_spans, available)
        } else {
            prefix_spans
        };
        let ghost kept = span_views(spans@);
        let ghost shortened = spans;
        let rendered_width: usize = measure_spans(&spans);
        let padding_width: usize = available.saturating_sub(rendered_width);
        let padding: Span = styled(spaces(padding_width).as_str(), Style::plain());
        spans.push(padding);
        assert(span_views(spans@) =~= kept.push(padding@));
        let ghost padded = span_views(spans@);
        spans.append(&mut suffix_spans);
        assert(span_views(spans@) =~= padded + suffix);
        let result: Line = Line { alignment: None, spans, style: Style::plain() };
        assert(result@ == line_of(aligned_spans(kept, available as int, suffix)));
        assert(prefix_width > available ==> truncate.ensures((label, available), shortened));
        result
    }
}

} // verus!
