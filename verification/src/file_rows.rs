//! Rendered rows of the file tree.

use vstd::prelude::*;

use crate::file_tree::{FileTreeNode, LeafView, TreeView};
use crate::rich_text::{
    Color, Line, LineView, Span, SpanView, Style, lemma_line_views_push, line_of, line_views,
    line_with_span, styled,
};
use crate::text::joined;

verus! {

/// An entry of the file explorer.
#[derive(Debug, PartialEq, Eq)]
pub enum FileTreeItem {
    File(String),
    Folder(String),
}

/// What an entry stands for: the path of a file or of a folder.
pub enum ItemView {
    File(Seq<char>),
    Folder(Seq<char>),
}

impl View for FileTreeItem {
    type V = ItemView;

    open spec fn view(&self) -> ItemView {
        match self {
            FileTreeItem::File(path) => ItemView::File(path@),
            FileTreeItem::Folder(path) => ItemView::Folder(path@),
        }
    }
}

/// The views of a sequence of entries.
pub open spec fn item_views(items: Seq<FileTreeItem>) -> Seq<ItemView> {
    items.map_values(|item: FileTreeItem| item@)
}

/// One rendered row and the entry it selects.
pub struct RowView {
    pub item: ItemView,
    pub line: LineView,
}

/// The lines of a sequence of rows.
pub open spec fn row_lines(rows: Seq<RowView>) -> Seq<LineView> {
    rows.map_values(|row: RowView| row.line)
}

/// The entries of a sequence of rows.
pub open spec fn row_items(rows: Seq<RowView>) -> Seq<ItemView> {
    rows.map_values(|row: RowView| row.item)
}

/// A chain of folders that is shown as one entry.
pub struct ChainView {
    pub label: Seq<char>,
    pub node: TreeView,
    pub path: Seq<char>,
}

/// Follows a folder for as long as it holds nothing but one folder.
pub open spec fn folder_chain(name: Seq<char>, node: TreeView, path_prefix: Seq<char>) -> ChainView
    decreases node,
{
    let path = path_prefix + name + "/"@;
    if node.files.len() > 0 || node.folders.len() != 1 {
        ChainView { label: name, node, path }
    } else {
        let rest = folder_chain(node.folders[0].name, node.folders[0].node, path);
        ChainView { label: name + "/"@ + rest.label, node: rest.node, path: rest.path }
    }
}

/// A chain ends in its first folder or below it.
pub proof fn lemma_chain_descends(name: Seq<char>, node: TreeView, path_prefix: Seq<char>)
    ensures
        folder_chain(name, node, path_prefix).node == node || decreases_to!(
            node => folder_chain(name, node, path_prefix).node
        ),
    decreases node,
{
    if node.files.len() == 0 && node.folders.len() == 1 {
        let child = node.folders[0];
        lemma_chain_descends(child.name, child.node, path_prefix + name + "/"@);
        assert(decreases_to!(node => node.folders[0].node));
    }
}

/// The connector in front of a row; rows at the root have none.
pub open spec fn branch(is_root: bool, is_last: bool) -> Seq<char> {
    if is_root {
        ""@
    } else if is_last {
        "└ "@
    } else {
        "├ "@
    }
}

/// The indentation that the children of a folder start with.
pub open spec fn child_prefix(prefix: Seq<char>, is_root: bool, is_last: bool) -> Seq<char> {
    if is_root {
        ""@
    } else if is_last {
        prefix + "  "@
    } else {
        prefix + "│ "@
    }
}

/// The row of one folder chain.
pub open spec fn folder_row(chain: ChainView, prefix: Seq<char>, is_root: bool, is_last: bool) -> RowView {
    RowView {
        item: ItemView::Folder(chain.path),
        line: line_of(
            seq![
                SpanView {
                    content: prefix + branch(is_root, is_last) + chain.label + "/"@,
                    style: Style::colored_spec(Color::Warning),
                },
            ],
        ),
    }
}

/// The row of one file.
pub open spec fn file_row(
    leaf: LeafView,
    prefix: Seq<char>,
    path_prefix: Seq<char>,
    is_last: bool,
) -> RowView {
    let name = SpanView {
        content: prefix + branch(path_prefix.len() == 0, is_last) + leaf.name,
        style: Style::colored_spec(Color::Accent),
    };
    RowView {
        item: ItemView::File(path_prefix + leaf.name),
        line: line_of(
            match leaf.rename_from {
                Some(origin) => seq![
                    name,
                    SpanView {
                        content: " <- "@ + origin,
                        style: Style::colored_spec(Color::TextSubtle),
                    },
                ],
                None => seq![name],
            },
        ),
    }
}

/// The rows of the files of a node.
pub open spec fn file_rows(tree: TreeView, prefix: Seq<char>, path_prefix: Seq<char>) -> Seq<
    RowView,
> {
    Seq::new(
        tree.files.len(),
        |i: int| file_row(tree.files[i], prefix, path_prefix, i + 1 == tree.files.len()),
    )
}

/// The rows of the first `count` folders of a node, each followed by the rows
/// below it.
pub open spec fn folder_rows(
    tree: TreeView,
    count: nat,
    prefix: Seq<char>,
    path_prefix: Seq<char>,
) -> Seq<RowView>
    decreases tree, count,
{
    if count == 0 || count > tree.folders.len() {
        Seq::empty()
    } else {
        let folder = tree.folders[count - 1];
        let is_root = path_prefix.len() == 0;
        let is_last = count == tree.folders.len() && tree.files.len() == 0;
        let chain = folder_chain(folder.name, folder.node, path_prefix);
        proof {
            lemma_chain_descends(folder.name, folder.node, path_prefix);
            assert(decreases_to!(tree => tree.folders[count - 1].node));
        }
        folder_rows(tree, (count - 1) as nat, prefix, path_prefix).push(
            folder_row(chain, prefix, is_root, is_last),
        ) + tree_rows(chain.node, child_prefix(prefix, is_root, is_last), chain.path)
    }
}

/// The rows of a node: its folders with everything below them, then its files.
pub open spec fn tree_rows(tree: TreeView, prefix: Seq<char>, path_prefix: Seq<char>) -> Seq<
    RowView,
>
    decreases tree, tree.folders.len() + 1,
{
    folder_rows(tree, tree.folders.len(), prefix, path_prefix) + file_rows(
        tree,
        prefix,
        path_prefix,
    )
}

/// Returns the connector in front of a row.
pub fn tree_branch_prefix(is_root: bool, is_last: bool) -> (text: &'static str)
    ensures
        text@ == branch(is_root, is_last),
{
    if is_root {
        return "";
    }
    if is_last {
        return "└ ";
    }
    "├ "
}

/// Returns the indentation that the children of a folder start with.
pub fn child_tree_prefix(prefix: &str, is_root: bool, is_last: bool) -> (text: String)
    ensures
        text@ == child_prefix(prefix@, is_root, is_last),
{
    if is_root {
        return "".to_owned();
    }
    if is_last {
        return joined(prefix, "  ");
    }
    joined(prefix, "│ ")
}

/// Collapses a folder that holds nothing but one folder, and so on downwards,
/// into one label.
pub fn compact_folder_chain<'node>(
    name: &String,
    node: &'node FileTreeNode,
    path_prefix: &str,
) -> (chain: (String, String, &'node FileTreeNode))
    ensures
        ({
            let expected = folder_chain(name@, node.tree(), path_prefix@);
            &&& chain.0@ == expected.label
            &&& chain.1@ == expected.path
            &&& chain.2.tree() == expected.node
        }),
        *chain.2 == *node || decreases_to!(*node => *chain.2),
    decreases *node,
{
    let path: String = joined(joined(path_prefix, name.as_str()).as_str(), "/");
    assert(node.tree().files.len() == node.files@.len());
    assert(node.tree().folders.len() == node.folders@.len());
    if node.files.len() > 0 || node.folders.len() != 1 {
        return (name.clone(), path, node);
    }
    assert(node.tree().folders[0].node == node.folders@[0].node.tree());
    assert(decreases_to!(*node => node.folders@[0].node));
    let (rest_label, rest_path, rest_node) = compact_folder_chain(
        &node.folders[0].name,
        &node.folders[0].node,
        path.as_str(),
    );
    let start: String = joined(name.as_str(), "/");
    (joined(start.as_str(), rest_label.as_str()), rest_path, rest_node)
}

proof fn lemma_row_pushed(
    first_lines: Seq<LineView>,
    first_items: Seq<ItemView>,
    rows: Seq<RowView>,
    row: RowView,
    lines: Seq<Line>,
    items: Seq<FileTreeItem>,
    line: Line,
    item: FileTreeItem,
)
    requires
        line_views(lines) == first_lines + row_lines(rows),
        item_views(items) == first_items + row_items(rows),
        line@ == row.line,
        item@ == row.item,
    ensures
        line_views(lines.push(line)) == first_lines + row_lines(rows.push(row)),
        item_views(items.push(item)) == first_items + row_items(rows.push(row)),
{
    lemma_line_views_push(lines, line);
    assert(item_views(items.push(item)) =~= item_views(items).push(item@));
    assert(row_lines(rows.push(row)) =~= row_lines(rows).push(row.line));
    assert(row_items(rows.push(row)) =~= row_items(rows).push(row.item));
    assert(first_lines + row_lines(rows).push(row.line) =~= (first_lines + row_lines(rows)).push(
        row.line,
    ));
    assert(first_items + row_items(rows).push(row.item) =~= (first_items + row_items(rows)).push(
        row.item,
    ));
}

/// Appends the rows of a node to `lines` and `items`.
pub fn append_tree_lines(
    node: &FileTreeNode,
    prefix: &str,
    path_prefix: &str,
    lines: &mut Vec<Line>,
    items: &mut Vec<FileTreeItem>,
)
    ensures
        line_views(final(lines)@) == line_views(old(lines)@) + row_lines(
            tree_rows(node.tree(), prefix@, path_prefix@),
        ),
        item_views(final(items)@) == item_views(old(items)@) + row_items(
            tree_rows(node.tree(), prefix@, path_prefix@),
        ),
    decreases *node,
{
    let ghost tree = node.tree();
    let ghost first_lines = line_views(lines@);
    let ghost first_items = item_views(items@);
    let is_root: bool = path_prefix.is_empty();
    let mut index: usize = 0;
    assert(tree.files.len() == node.files@.len());
    assert(tree.folders.len() == node.folders@.len());
    assert(row_lines(Seq::<RowView>::empty()) =~= Seq::<LineView>::empty());
    assert(row_items(Seq::<RowView>::empty()) =~= Seq::<ItemView>::empty());
    while index < node.folders.len()
        invariant
            index <= node.folders@.len(),
            tree == node.tree(),
            tree.files.len() == node.files@.len(),
            tree.folders.len() == node.folders@.len(),
            is_root == (path_prefix@.len() == 0),
            line_views(lines@) == first_lines + row_lines(
                folder_rows(tree, index as nat, prefix@, path_prefix@),
            ),
            item_views(items@) == first_items + row_items(
                folder_rows(tree, index as nat, prefix@, path_prefix@),
            ),
        decreases node.folders@.len() - index,
    {
        let ghost rows = folder_rows(tree, index as nat, prefix@, path_prefix@);
        let is_last: bool = index + 1 == node.folders.len() && node.files.len() == 0;
        assert(tree.folders[index as int].name == node.folders@[index as int].name@);
        assert(tree.folders[index as int].node == node.folders@[index as int].node.tree());
        assert(decreases_to!(*node => node.folders@[index as int].node));
        let (label, path, compacted) = compact_folder_chain(
            &node.folders[index].name,
            &node.folders[index].node,
            path_prefix,
        );
        let ghost chain = folder_chain(
            tree.folders[index as int].name,
            tree.folders[index as int].node,
            path_prefix@,
        );
        let start: String = joined(prefix, tree_branch_prefix(is_root, is_last));
        let labelled: String = joined(start.as_str(), label.as_str());
        let text: String = joined(labelled.as_str(), "/");
        let line: Line = line_with_span(text.as_str(), Style::colored(Color::Warning));
        let item: FileTreeItem = FileTreeItem::Folder(path.clone());
        let ghost row = folder_row(chain, prefix@, is_root, is_last);
        assert(line@ == row.line);
        assert(item@ == row.item);
        proof {
            lemma_row_pushed(first_lines, first_items, rows, row, lines@, items@, line, item);
        }
        lines.push(line);
        items.push(item);
        let below: String = child_tree_prefix(prefix, is_root, is_last);
        append_tree_lines(compacted, below.as_str(), path.as_str(), lines, items);
        proof {
            let deeper = tree_rows(chain.node, below@, chain.path);
            let grown = folder_rows(tree, (index + 1) as nat, prefix@, path_prefix@);
            assert(grown == rows.push(row) + deeper);
            assert(row_lines(grown) =~= row_lines(rows.push(row)) + row_lines(deeper));
            assert(row_items(grown) =~= row_items(rows.push(row)) + row_items(deeper));
            assert(line_views(lines@) =~= first_lines + row_lines(grown));
            assert(item_views(items@) =~= first_items + row_items(grown));
        }
        index = index + 1;
    }
    let ghost above = folder_rows(tree, tree.folders.len(), prefix@, path_prefix@);
    let ghost below = file_rows(tree, prefix@, path_prefix@);
    let mut position: usize = 0;
    assert(above + below.take(0) =~= above);
    while position < node.files.len()
        invariant
            position <= node.files@.len(),
            tree == node.tree(),
            tree.files.len() == node.files@.len(),
            is_root == (path_prefix@.len() == 0),
            below == file_rows(tree, prefix@, path_prefix@),
            line_views(lines@) == first_lines + row_lines(above + below.take(position as int)),
            item_views(items@) == first_items + row_items(above + below.take(position as int)),
        decreases node.files@.len() - position,
    {
        let ghost rows = above + below.take(position as int);
        let ghost row = below[position as int];
        let ghost leaf = tree.files[position as int];
        assert(leaf == node.files@[position as int]@);
        let is_last: bool = position + 1 == node.files.len();
        let start: String = joined(prefix, tree_branch_prefix(is_root, is_last));
        let text: String = joined(start.as_str(), node.files[position].name.as_str());
        let mut line: Line = line_with_span(text.as_str(), Style::colored(Color::Accent));
        match &node.files[position].rename_from {
            Some(origin) => {
                let ghost name = line@.spans;
                let span: Span = styled(
                    joined(" <- ", origin.as_str()).as_str(),
                    Style::colored(Color::TextSubtle),
                );
                line.spans.push(span);
                assert(line@.spans =~= name.push(span@));
                assert(line@.spans =~= row.line.spans);
            },
            None => {},
        }
        assert(line@ == row.line);
        let item: FileTreeItem = FileTreeItem::File(
            joined(path_prefix, node.files[position].name.as_str()),
        );
        assert(item@ == row.item);
        proof {
            lemma_row_pushed(first_lines, first_items, rows, row, lines@, items@, line, item);
            assert(above + below.take(position as int + 1) =~= rows.push(row));
        }
        lines.push(line);
        items.push(item);
        position = position + 1;
    }
    assert(below.take(position as int) =~= below);
}

} // verus!
