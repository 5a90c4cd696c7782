//! What the file explorer shows does not depend on the order of a diff.

use vstd::prelude::*;

use crate::file_explorer::{DiffLine, DiffLineKind, added_path, explorer_rows, named_files};
use crate::file_laws::lemma_leaves_bound;
use crate::file_rows::{
    RowView, child_prefix, file_rows, folder_chain, folder_row, folder_rows, lemma_chain_descends,
    row_items, tree_rows,
};
use crate::file_tree::{
    FolderView, LeafView, TreeView, empty_tree, folders_before, in_name_order, lemma_in_name_order,
    lemma_insert_ordered, leaves_up_to, names_rise, ordered, sorted_tree, with_file,
};
use crate::text_lines::{lemma_text_less_total, lemma_text_less_transitive, text_less};

verus! {

/// Whether one of the folders has this name.
pub open spec fn holds_folder(folders: Seq<FolderView>, name: Seq<char>) -> bool {
    exists|i: int| 0 <= i < folders.len() && (#[trigger] folders[i]).name == name
}

/// The folder of this name; a missing one is empty.
pub open spec fn child(tree: TreeView, name: Seq<char>) -> TreeView {
    if holds_folder(tree.folders, name) {
        let i = choose|i: int|
            0 <= i < tree.folders.len() && (#[trigger] tree.folders[i]).name == name;
        tree.folders[i].node
    } else {
        empty_tree()
    }
}

/// How many leaves have this name.
pub open spec fn leaves_named(leaves: Seq<LeafView>, name: Seq<char>) -> nat
    decreases leaves.len(),
{
    if leaves.len() == 0 {
        0
    } else {
        leaves_named(leaves.drop_last(), name) + if leaves.last().name == name {
            1nat
        } else {
            0nat
        }
    }
}

/// How often a tree holds a file of this path.
pub open spec fn held(tree: TreeView, path: Seq<Seq<char>>) -> nat
    decreases path.len(),
{
    if path.len() == 0 {
        0
    } else if path.len() == 1 {
        leaves_named(tree.files, path[0])
    } else {
        held(child(tree, path[0]), path.drop_first())
    }
}

/// Whether a tree holds any file.
pub open spec fn holds_file(tree: TreeView) -> bool {
    exists|path: Seq<Seq<char>>| #[trigger] held(tree, path) > 0
}

/// Whether no folder is without a file.
pub open spec fn full(tree: TreeView) -> bool
    decreases tree,
{
    forall|i: int|
        0 <= i < tree.folders.len() ==> holds_file((#[trigger] tree.folders[i]).node) && full(
            tree.folders[i].node,
        )
}

/// How often a diff names this path.
pub open spec fn times_named(lines: Seq<DiffLine>, path: Seq<Seq<char>>) -> nat
    decreases lines.len(),
{
    if lines.len() == 0 {
        0
    } else {
        times_named(lines.drop_last(), path) + names_path(lines.last(), path)
    }
}

/// How often a line names this path.
pub open spec fn names_path(line: DiffLine, path: Seq<Seq<char>>) -> nat {
    match added_path(line) {
        Some(added) if added.segments == path => 1,
        _ => 0,
    }
}

/// The file headers of a diff.
pub open spec fn file_headers(lines: Seq<DiffLine>) -> Seq<DiffLine> {
    lines.filter(|line: DiffLine| line.kind == DiffLineKind::FileHeader)
}

proof fn lemma_child(tree: TreeView, index: int)
    requires
        ordered(tree),
        0 <= index < tree.folders.len(),
    ensures
        holds_folder(tree.folders, tree.folders[index].name),
        child(tree, tree.folders[index].name) == tree.folders[index].node,
{
    let name = tree.folders[index].name;
    let i = choose|i: int| 0 <= i < tree.folders.len() && (#[trigger] tree.folders[i]).name == name;
    lemma_text_less_total(name, name);
}

proof fn lemma_folder_position(folders: Seq<FolderView>, name: Seq<char>)
    requires
        forall|i: int, j: int|
            0 <= i < j < folders.len() ==> text_less(
                (#[trigger] folders[i]).name,
                (#[trigger] folders[j]).name,
            ),
    ensures
        folders_before(folders, name) <= folders.len(),
        forall|i: int|
            0 <= i < folders_before(folders, name) ==> text_less(
                (#[trigger] folders[i]).name,
                name,
            ),
        forall|i: int|
            folders_before(folders, name) <= i < folders.len() ==> !text_less(
                (#[trigger] folders[i]).name,
                name,
            ),
    decreases folders.len(),
{
    if folders.len() > 0 {
        let rest = folders.drop_last();
        assert forall|i: int, j: int| 0 <= i < j < rest.len() implies text_less(
            (#[trigger] rest[i]).name,
            (#[trigger] rest[j]).name,
        ) by {
            assert(rest[i] == folders[i] && rest[j] == folders[j]);
        }
        lemma_folder_position(rest, name);
        let count = folders_before(rest, name) as int;
        assert forall|i: int| 0 <= i < rest.len() implies folders[i] == rest[i] by {}
        if text_less(folders.last().name, name) && count < rest.len() {
            assert(text_less(folders[count].name, folders.last().name));
            lemma_text_less_transitive(folders[count].name, folders.last().name, name);
            assert(!text_less(rest[count].name, name));
        }
    }
}

/// Where a folder stands or would stand, and that it is known exactly when
/// the folder there has its name.
proof fn lemma_known_folder(tree: TreeView, name: Seq<char>)
    requires
        ordered(tree),
    ensures
        ({
            let position = folders_before(tree.folders, name) as int;
            let known = position < tree.folders.len() && tree.folders[position].name == name;
            &&& position <= tree.folders.len()
            &&& known == holds_folder(tree.folders, name)
            &&& child(tree, name) == (if known {
                tree.folders[position].node
            } else {
                empty_tree()
            })
            &&& forall|i: int|
                0 <= i < position ==> text_less((#[trigger] tree.folders[i]).name, name)
            &&& !known ==> forall|i: int|
                position <= i < tree.folders.len() ==> text_less(
                    name,
                    (#[trigger] tree.folders[i]).name,
                )
        }),
{
    let folders = tree.folders;
    let position = folders_before(folders, name) as int;
    lemma_folder_position(folders, name);
    let known = position < folders.len() && folders[position].name == name;
    lemma_text_less_total(name, name);
    if known {
        lemma_child(tree, position);
    } else {
        assert forall|i: int| position <= i < folders.len() implies text_less(
            name,
            (#[trigger] folders[i]).name,
        ) by {
            lemma_text_less_total(name, folders[position].name);
            if i > position {
                lemma_text_less_transitive(name, folders[position].name, folders[i].name);
            }
        }
    }
}

proof fn lemma_updated_folder(tree: TreeView, position: int, folder: FolderView)
    requires
        ordered(tree),
        ordered(folder.node),
        0 <= position < tree.folders.len(),
        tree.folders[position].name == folder.name,
    ensures
        ordered(TreeView { folders: tree.folders.update(position, folder), ..tree }),
{
    let updated = tree.folders.update(position, folder);
    assert forall|i: int, j: int| 0 <= i < j < updated.len() implies text_less(
        (#[trigger] updated[i]).name,
        (#[trigger] updated[j]).name,
    ) by {
        assert(updated[i].name == tree.folders[i].name);
        assert(updated[j].name == tree.folders[j].name);
    }
    assert forall|i: int| 0 <= i < updated.len() implies ordered((#[trigger] updated[i]).node) by {
        if i != position {
            assert(updated[i] == tree.folders[i]);
        }
    }
}

proof fn lemma_with_file_ordered(
    tree: TreeView,
    segments: Seq<Seq<char>>,
    rename_from: Option<Seq<char>>,
)
    requires
        ordered(tree),
    ensures
        ordered(with_file(tree, segments, rename_from)),
    decreases segments.len(),
{
    if segments.len() == 1 {
        let grown = with_file(tree, segments, rename_from);
        assert(grown.folders == tree.folders);
    } else if segments.len() > 1 {
        let name = segments[0];
        let position = folders_before(tree.folders, name) as int;
        lemma_known_folder(tree, name);
        let node = with_file(child(tree, name), segments.drop_first(), rename_from);
        let folder = FolderView { name, node };
        if holds_folder(tree.folders, name) {
            lemma_with_file_ordered(
                tree.folders[position].node,
                segments.drop_first(),
                rename_from,
            );
            lemma_updated_folder(tree, position, folder);
        } else {
            lemma_with_file_ordered(empty_tree(), segments.drop_first(), rename_from);
            lemma_insert_ordered(tree, position, folder);
        }
    }
}

/// A file below a folder changes that folder and no other.
proof fn lemma_with_file_child(
    tree: TreeView,
    segments: Seq<Seq<char>>,
    rename_from: Option<Seq<char>>,
    name: Seq<char>,
)
    requires
        ordered(tree),
        segments.len() > 1,
    ensures
        child(with_file(tree, segments, rename_from), name) == (if name == segments[0] {
            with_file(child(tree, name), segments.drop_first(), rename_from)
        } else {
            child(tree, name)
        }),
{
    let grown = with_file(tree, segments, rename_from);
    let first = segments[0];
    let position = folders_before(tree.folders, first) as int;
    lemma_with_file_ordered(tree, segments, rename_from);
    lemma_known_folder(tree, first);
    let known = holds_folder(tree.folders, first);
    if name == first {
        assert(grown.folders[position].name == first);
        lemma_child(grown, position);
    } else if holds_folder(tree.folders, name) {
        let i = choose|i: int|
            0 <= i < tree.folders.len() && (#[trigger] tree.folders[i]).name == name;
        let j = if known || i < position {
            i
        } else {
            i + 1
        };
        assert(grown.folders[j] == tree.folders[i]);
        lemma_child(grown, j);
        lemma_child(tree, i);
    } else if holds_folder(grown.folders, name) {
        let j = choose|j: int|
            0 <= j < grown.folders.len() && (#[trigger] grown.folders[j]).name == name;
        let i = if known || j < position {
            j
        } else {
            j - 1
        };
        assert(j != position);
        assert(grown.folders[j] == tree.folders[i]);
    }
}

proof fn lemma_empty_tree_holds_nothing(path: Seq<Seq<char>>)
    ensures
        held(empty_tree(), path) == 0,
    decreases path.len(),
{
    if path.len() > 1 {
        lemma_empty_tree_holds_nothing(path.drop_first());
    }
}

proof fn lemma_held_with_file(
    tree: TreeView,
    segments: Seq<Seq<char>>,
    rename_from: Option<Seq<char>>,
    path: Seq<Seq<char>>,
)
    requires
        ordered(tree),
        segments.len() > 0,
    ensures
        held(with_file(tree, segments, rename_from), path) == held(tree, path) + (if path
            == segments {
            1nat
        } else {
            0nat
        }),
    decreases segments.len(),
{
    let grown = with_file(tree, segments, rename_from);
    if segments.len() == 1 {
        let leaf = LeafView { name: segments[0], rename_from };
        assert(grown.files.drop_last() =~= tree.files);
        if path.len() == 1 {
            assert((path == segments) == (path[0] == segments[0])) by {
                if path[0] == segments[0] {
                    assert(path =~= segments);
                }
            }
        } else if path.len() > 1 {
            assert(grown.folders == tree.folders);
            assert(child(grown, path[0]) == child(tree, path[0]));
        }
    } else if path.len() > 1 {
        lemma_with_file_child(tree, segments, rename_from, path[0]);
        if path[0] == segments[0] {
            lemma_known_folder(tree, path[0]);
            lemma_held_with_file(
                child(tree, path[0]),
                segments.drop_first(),
                rename_from,
                path.drop_first(),
            );
            assert((path == segments) == (path.drop_first() == segments.drop_first())) by {
                if path.drop_first() == segments.drop_first() {
                    assert(path =~= seq![path[0]] + path.drop_first());
                    assert(segments =~= seq![segments[0]] + segments.drop_first());
                }
            }
        }
    }
}

proof fn lemma_with_file_full(
    tree: TreeView,
    segments: Seq<Seq<char>>,
    rename_from: Option<Seq<char>>,
)
    requires
        ordered(tree),
        full(tree),
        segments.len() > 0,
    ensures
        full(with_file(tree, segments, rename_from)),
    decreases segments.len(),
{
    let grown = with_file(tree, segments, rename_from);
    if segments.len() == 1 {
        assert(grown.folders == tree.folders);
    } else {
        let name = segments[0];
        let rest = segments.drop_first();
        let position = folders_before(tree.folders, name) as int;
        lemma_known_folder(tree, name);
        let known = holds_folder(tree.folders, name);
        let below = child(tree, name);
        lemma_with_file_full(below, rest, rename_from);
        lemma_held_with_file(below, rest, rename_from, rest);
        let node = with_file(below, rest, rename_from);
        assert(held(node, rest) > 0);
        assert forall|i: int| 0 <= i < grown.folders.len() implies holds_file(
            (#[trigger] grown.folders[i]).node,
        ) && full(grown.folders[i].node) by {
            if i == position {
                assert(grown.folders[i].node == node);
            } else {
                let j = if known || i < position {
                    i
                } else {
                    i - 1
                };
                assert(grown.folders[i] == tree.folders[j]);
            }
        }
    }
}

proof fn lemma_named_files_hold(lines: Seq<DiffLine>)
    ensures
        ordered(named_files(lines)),
        full(named_files(lines)),
        forall|path: Seq<Seq<char>>|
            path.len() > 0 ==> #[trigger] held(named_files(lines), path) == times_named(
                lines,
                path,
            ),
    decreases lines.len(),
{
    if lines.len() == 0 {
        assert forall|path: Seq<Seq<char>>| path.len() > 0 implies #[trigger] held(
            named_files(lines),
            path,
        ) == times_named(lines, path) by {
            lemma_empty_tree_holds_nothing(path);
        }
    } else {
        let rest = lines.drop_last();
        let tree = named_files(rest);
        lemma_named_files_hold(rest);
        if let Some(added) = added_path(lines.last()) {
            lemma_with_file_ordered(tree, added.segments, added.rename_from);
            if added.segments.len() > 0 {
                lemma_with_file_full(tree, added.segments, added.rename_from);
            }
            assert forall|path: Seq<Seq<char>>| path.len() > 0 implies #[trigger] held(
                named_files(lines),
                path,
            ) == times_named(lines, path) by {
                assert(held(tree, path) == times_named(rest, path));
                if added.segments.len() > 0 {
                    lemma_held_with_file(tree, added.segments, added.rename_from, path);
                }
            }
        } else {
            assert forall|path: Seq<Seq<char>>| path.len() > 0 implies #[trigger] held(
                named_files(lines),
                path,
            ) == times_named(lines, path) by {
                assert(held(tree, path) == times_named(rest, path));
            }
        }
    }
}

/// The folders of a diff's tree rise strictly by name, at every depth.
pub proof fn lemma_named_folders_rise(lines: Seq<DiffLine>)
    ensures
        ordered(named_files(lines)),
{
    lemma_named_files_hold(lines);
}

proof fn lemma_leaves_named(leaves: Seq<LeafView>, name: Seq<char>)
    ensures
        (leaves_named(leaves, name) > 0) == (exists|i: int|
            0 <= i < leaves.len() && (#[trigger] leaves[i]).name == name),
    decreases leaves.len(),
{
    if leaves.len() > 0 {
        let rest = leaves.drop_last();
        lemma_leaves_named(rest, name);
        if leaves_named(rest, name) > 0 {
            let i = choose|i: int| 0 <= i < rest.len() && (#[trigger] rest[i]).name == name;
            assert(leaves[i] == rest[i]);
        }
        if exists|i: int| 0 <= i < leaves.len() && (#[trigger] leaves[i]).name == name {
            let i = choose|i: int| 0 <= i < leaves.len() && (#[trigger] leaves[i]).name == name;
            if i < rest.len() {
                assert(rest[i] == leaves[i]);
            }
        }
    }
}

proof fn lemma_leaves_named_inserted(
    leaves: Seq<LeafView>,
    position: int,
    leaf: LeafView,
    name: Seq<char>,
)
    requires
        0 <= position <= leaves.len(),
    ensures
        leaves_named(leaves.insert(position, leaf), name) == leaves_named(leaves, name) + (
        if leaf.name == name {
            1nat
        } else {
            0nat
        }),
    decreases leaves.len(),
{
    let grown = leaves.insert(position, leaf);
    if position == leaves.len() {
        assert(grown.drop_last() =~= leaves);
    } else {
        lemma_leaves_named_inserted(leaves.drop_last(), position, leaf, name);
        assert(grown.drop_last() =~= leaves.drop_last().insert(position, leaf));
        assert(grown.last() == leaves.last());
    }
}

proof fn lemma_sorting_keeps_names(leaves: Seq<LeafView>, name: Seq<char>)
    ensures
        leaves_named(in_name_order(leaves), name) == leaves_named(leaves, name),
    decreases leaves.len(),
{
    if leaves.len() > 0 {
        let rest = leaves.drop_last();
        let sorted = in_name_order(rest);
        lemma_sorting_keeps_names(rest, name);
        lemma_leaves_bound(sorted, leaves.last().name);
        lemma_leaves_named_inserted(
            sorted,
            leaves_up_to(sorted, leaves.last().name) as int,
            leaves.last(),
            name,
        );
    }
}

/// The last of rising names is none before any other.
proof fn lemma_last_name(left: Seq<LeafView>, right: Seq<LeafView>)
    requires
        names_rise(left),
        left.len() > 0,
        right.len() > 0,
        leaves_named(left, right.last().name) > 0,
    ensures
        !text_less(left.last().name, right.last().name),
{
    lemma_leaves_named(left, right.last().name);
    let i = choose|i: int|
        0 <= i < left.len() && (#[trigger] left[i]).name == right.last().name;
    lemma_text_less_total(left.last().name, left.last().name);
    if i < left.len() - 1 {
        assert(!text_less(left[left.len() - 1].name, left[i].name));
    }
}

/// Rising names that occur equally often are the same.
proof fn lemma_same_leaf_names(left: Seq<LeafView>, right: Seq<LeafView>)
    requires
        names_rise(left),
        names_rise(right),
        forall|name: Seq<char>| #[trigger] leaves_named(left, name) == leaves_named(right, name),
    ensures
        left.len() == right.len(),
        forall|i: int| 0 <= i < left.len() ==> (#[trigger] left[i]).name == right[i].name,
    decreases left.len(),
{
    if left.len() == 0 {
        if right.len() > 0 {
            assert(leaves_named(left, right.last().name) == leaves_named(right, right.last().name));
        }
    } else {
        let name = left.last().name;
        assert(leaves_named(left, name) == leaves_named(right, name));
        if right.len() > 0 {
            assert(leaves_named(left, right.last().name) == leaves_named(right, right.last().name));
            lemma_last_name(left, right);
            lemma_last_name(right, left);
            lemma_text_less_total(name, right.last().name);
            let before = left.drop_last();
            let other = right.drop_last();
            assert forall|n: Seq<char>| #[trigger] leaves_named(before, n) == leaves_named(
                other,
                n,
            ) by {
                assert(leaves_named(left, n) == leaves_named(right, n));
            }
            assert(names_rise(before)) by {
                assert forall|i: int, j: int| 0 <= i < j < before.len() implies !text_less(
                    (#[trigger] before[j]).name,
                    (#[trigger] before[i]).name,
                ) by {
                    assert(before[i] == left[i] && before[j] == left[j]);
                }
            }
            assert(names_rise(other)) by {
                assert forall|i: int, j: int| 0 <= i < j < other.len() implies !text_less(
                    (#[trigger] other[j]).name,
                    (#[trigger] other[i]).name,
                ) by {
                    assert(other[i] == right[i] && other[j] == right[j]);
                }
            }
            lemma_same_leaf_names(before, other);
            assert forall|i: int| 0 <= i < left.len() implies (#[trigger] left[i]).name
                == right[i].name by {
                if i < before.len() {
                    assert(before[i] == left[i] && other[i] == right[i]);
                }
            }
        }
    }
}

/// Strictly rising names of one set are the same.
proof fn lemma_same_folder_names(left: Seq<FolderView>, right: Seq<FolderView>)
    requires
        forall|i: int, j: int|
            0 <= i < j < left.len() ==> text_less(
                (#[trigger] left[i]).name,
                (#[trigger] left[j]).name,
            ),
        forall|i: int, j: int|
            0 <= i < j < right.len() ==> text_less(
                (#[trigger] right[i]).name,
                (#[trigger] right[j]).name,
            ),
        forall|name: Seq<char>| #[trigger] holds_folder(left, name) == holds_folder(right, name),
    ensures
        left.len() == right.len(),
        forall|i: int| 0 <= i < left.len() ==> (#[trigger] left[i]).name == right[i].name,
    decreases left.len(),
{
    if left.len() == 0 {
        if right.len() > 0 {
            assert(holds_folder(right, right[0].name));
            assert(holds_folder(left, right[0].name));
        }
    } else {
        let name = left.last().name;
        assert(left[left.len() - 1].name == name);
        assert(holds_folder(left, name));
        assert(holds_folder(right, name));
        let other_name = right.last().name;
        assert(right[right.len() - 1].name == other_name);
        assert(holds_folder(right, other_name));
        assert(holds_folder(left, other_name));
        let i = choose|i: int| 0 <= i < right.len() && (#[trigger] right[i]).name == name;
        let j = choose|j: int| 0 <= j < left.len() && (#[trigger] left[j]).name == other_name;
        lemma_text_less_total(name, other_name);
        assert(name == other_name) by {
            if i < right.len() - 1 && j < left.len() - 1 {
                assert(text_less(right[i].name, right[right.len() - 1].name));
                assert(text_less(left[j].name, left[left.len() - 1].name));
            }
        }
        let before = left.drop_last();
        let other = right.drop_last();
        lemma_text_less_total(name, name);
        assert forall|n: Seq<char>| #[trigger] holds_folder(before, n) == holds_folder(other, n) by {
            lemma_without_last(left, n);
            lemma_without_last(right, n);
            assert(holds_folder(left, n) == holds_folder(right, n));
        }
        assert forall|i: int, j: int| 0 <= i < j < before.len() implies text_less(
            (#[trigger] before[i]).name,
            (#[trigger] before[j]).name,
        ) by {
            assert(before[i] == left[i] && before[j] == left[j]);
        }
        assert forall|i: int, j: int| 0 <= i < j < other.len() implies text_less(
            (#[trigger] other[i]).name,
            (#[trigger] other[j]).name,
        ) by {
            assert(other[i] == right[i] && other[j] == right[j]);
        }
        lemma_same_folder_names(before, other);
        assert forall|i: int| 0 <= i < left.len() implies (#[trigger] left[i]).name
            == right[i].name by {
            if i < before.len() {
                assert(before[i] == left[i] && other[i] == right[i]);
            }
        }
    }
}

proof fn lemma_without_last(folders: Seq<FolderView>, name: Seq<char>)
    requires
        folders.len() > 0,
        forall|i: int, j: int|
            0 <= i < j < folders.len() ==> text_less(
                (#[trigger] folders[i]).name,
                (#[trigger] folders[j]).name,
            ),
    ensures
        holds_folder(folders.drop_last(), name) == (holds_folder(folders, name)
            && folders.last().name != name),
{
    let rest = folders.drop_last();
    lemma_text_less_total(name, name);
    if holds_folder(rest, name) {
        let i = choose|i: int| 0 <= i < rest.len() && (#[trigger] rest[i]).name == name;
        assert(folders[i].name == name);
        assert(text_less(folders[i].name, folders[folders.len() - 1].name));
    }
    if holds_folder(folders, name) && folders.last().name != name {
        let i = choose|i: int| 0 <= i < folders.len() && (#[trigger] folders[i]).name == name;
        assert(rest[i].name == name);
    }
}

/// Whether two trees show the same entries: the same names in the same order.
pub open spec fn alike(left: TreeView, right: TreeView) -> bool
    decreases left,
{
    &&& left.files.len() == right.files.len()
    &&& forall|i: int|
        0 <= i < left.files.len() ==> (#[trigger] left.files[i]).name == right.files[i].name
    &&& left.folders.len() == right.folders.len()
    &&& forall|i: int|
        0 <= i < left.folders.len() ==> (#[trigger] left.folders[i]).name == right.folders[i].name
            && alike(left.folders[i].node, right.folders[i].node)
}

proof fn lemma_held_folder(left: TreeView, right: TreeView, name: Seq<char>)
    requires
        ordered(left),
        full(left),
        forall|path: Seq<Seq<char>>| #[trigger] held(left, path) == held(right, path),
        holds_folder(left.folders, name),
    ensures
        holds_folder(right.folders, name),
{
    let i = choose|i: int| 0 <= i < left.folders.len() && (#[trigger] left.folders[i]).name == name;
    lemma_child(left, i);
    let node = left.folders[i].node;
    let below = choose|path: Seq<Seq<char>>| #[trigger] held(node, path) > 0;
    assert(below.len() > 0);
    let path = seq![name] + below;
    assert(path.drop_first() =~= below);
    assert(held(left, path) == held(node, below));
    assert(held(right, path) == held(left, path));
    if !holds_folder(right.folders, name) {
        lemma_empty_tree_holds_nothing(below);
    }
}

/// Trees that hold the same files are alike once they are sorted.
proof fn lemma_same_files_alike(left: TreeView, right: TreeView)
    requires
        ordered(left),
        ordered(right),
        full(left),
        full(right),
        forall|path: Seq<Seq<char>>| #[trigger] held(left, path) == held(right, path),
    ensures
        alike(sorted_tree(left), sorted_tree(right)),
    decreases left,
{
    assert forall|name: Seq<char>| #[trigger] leaves_named(in_name_order(left.files), name)
        == leaves_named(in_name_order(right.files), name) by {
        lemma_sorting_keeps_names(left.files, name);
        lemma_sorting_keeps_names(right.files, name);
        assert(held(left, seq![name]) == held(right, seq![name]));
    }
    lemma_in_name_order(left.files);
    lemma_in_name_order(right.files);
    lemma_same_leaf_names(in_name_order(left.files), in_name_order(right.files));
    assert forall|name: Seq<char>| #[trigger] holds_folder(left.folders, name) == holds_folder(
        right.folders,
        name,
    ) by {
        if holds_folder(left.folders, name) {
            lemma_held_folder(left, right, name);
        }
        if holds_folder(right.folders, name) {
            lemma_held_folder(right, left, name);
        }
    }
    lemma_same_folder_names(left.folders, right.folders);
    let a = sorted_tree(left);
    let b = sorted_tree(right);
    assert forall|i: int| 0 <= i < a.folders.len() implies (#[trigger] a.folders[i]).name
        == b.folders[i].name && alike(a.folders[i].node, b.folders[i].node) by {
        let name = left.folders[i].name;
        assert(right.folders[i].name == name);
        let below = left.folders[i].node;
        let other = right.folders[i].node;
        lemma_child(left, i);
        lemma_child(right, i);
        assert forall|path: Seq<Seq<char>>| #[trigger] held(below, path) == held(other, path) by {
            if path.len() > 0 {
                let whole = seq![name] + path;
                assert(whole.drop_first() =~= path);
                assert(held(left, whole) == held(right, whole));
            }
        }
        assert(decreases_to!(left => left.folders[i].node));
        lemma_same_files_alike(below, other);
    }
}

proof fn lemma_alike_chain(
    left: TreeView,
    right: TreeView,
    name: Seq<char>,
    path_prefix: Seq<char>,
)
    requires
        alike(left, right),
    ensures
        folder_chain(name, left, path_prefix).path == folder_chain(name, right, path_prefix).path,
        alike(
            folder_chain(name, left, path_prefix).node,
            folder_chain(name, right, path_prefix).node,
        ),
    decreases left,
{
    if left.files.len() == 0 && left.folders.len() == 1 {
        let child = left.folders[0];
        assert(child.name == right.folders[0].name);
        assert(decreases_to!(left => left.folders[0].node));
        lemma_alike_chain(
            child.node,
            right.folders[0].node,
            child.name,
            path_prefix + name + "/"@,
        );
    }
}

proof fn lemma_items_joined(left: Seq<RowView>, right: Seq<RowView>)
    ensures
        row_items(left + right) == row_items(left) + row_items(right),
{
    assert(row_items(left + right) =~= row_items(left) + row_items(right));
}

proof fn lemma_alike_folder_rows(
    left: TreeView,
    right: TreeView,
    count: nat,
    left_prefix: Seq<char>,
    right_prefix: Seq<char>,
    path_prefix: Seq<char>,
)
    requires
        alike(left, right),
        count <= left.folders.len(),
    ensures
        row_items(folder_rows(left, count, left_prefix, path_prefix)) == row_items(
            folder_rows(right, count, right_prefix, path_prefix),
        ),
    decreases left, count,
{
    if count > 0 {
        let folder = left.folders[count - 1];
        let other = right.folders[count - 1];
        let is_root = path_prefix.len() == 0;
        let left_last = count == left.folders.len() && left.files.len() == 0;
        let right_last = count == right.folders.len() && right.files.len() == 0;
        let chain = folder_chain(folder.name, folder.node, path_prefix);
        let other_chain = folder_chain(other.name, other.node, path_prefix);
        let above = folder_rows(left, (count - 1) as nat, left_prefix, path_prefix);
        let other_above = folder_rows(right, (count - 1) as nat, right_prefix, path_prefix);
        let row = folder_row(chain, left_prefix, is_root, left_last);
        let other_row = folder_row(other_chain, right_prefix, is_root, right_last);
        let deeper = child_prefix(left_prefix, is_root, left_last);
        let other_deeper = child_prefix(right_prefix, is_root, right_last);
        lemma_alike_folder_rows(
            left,
            right,
            (count - 1) as nat,
            left_prefix,
            right_prefix,
            path_prefix,
        );
        lemma_alike_chain(folder.node, other.node, folder.name, path_prefix);
        lemma_chain_descends(folder.name, folder.node, path_prefix);
        assert(decreases_to!(left => left.folders[count - 1].node));
        lemma_alike_rows(chain.node, other_chain.node, deeper, other_deeper, chain.path);
        assert(row_items(above.push(row)) =~= row_items(above).push(row.item));
        assert(row_items(other_above.push(other_row)) =~= row_items(other_above).push(
            other_row.item,
        ));
        lemma_items_joined(above.push(row), tree_rows(chain.node, deeper, chain.path));
        lemma_items_joined(
            other_above.push(other_row),
            tree_rows(other_chain.node, other_deeper, other_chain.path),
        );
    }
}

/// Trees that are alike show the same entries.
proof fn lemma_alike_rows(
    left: TreeView,
    right: TreeView,
    left_prefix: Seq<char>,
    right_prefix: Seq<char>,
    path_prefix: Seq<char>,
)
    requires
        alike(left, right),
    ensures
        row_items(tree_rows(left, left_prefix, path_prefix)) == row_items(
            tree_rows(right, right_prefix, path_prefix),
        ),
    decreases left, left.folders.len() + 1,
{
    let count = left.folders.len();
    lemma_alike_folder_rows(left, right, count, left_prefix, right_prefix, path_prefix);
    lemma_items_joined(
        folder_rows(left, count, left_prefix, path_prefix),
        file_rows(left, left_prefix, path_prefix),
    );
    lemma_items_joined(
        folder_rows(right, count, right_prefix, path_prefix),
        file_rows(right, right_prefix, path_prefix),
    );
    assert(row_items(file_rows(left, left_prefix, path_prefix)) =~= row_items(
        file_rows(right, right_prefix, path_prefix),
    ));
}

/// Diffs that name the same files show the same entries, in whatever order
/// they name them.
pub proof fn lemma_entries_follow_named_files(left: Seq<DiffLine>, right: Seq<DiffLine>)
    requires
        forall|path: Seq<Seq<char>>| #[trigger] times_named(left, path) == times_named(right, path),
    ensures
        row_items(explorer_rows(left)) == row_items(explorer_rows(right)),
{
    let a = named_files(left);
    let b = named_files(right);
    lemma_named_files_hold(left);
    lemma_named_files_hold(right);
    assert forall|path: Seq<Seq<char>>| #[trigger] held(a, path) == held(b, path) by {
        if path.len() > 0 {
            assert(times_named(left, path) == times_named(right, path));
            assert(held(b, path) == times_named(right, path));
        }
    }
    lemma_same_files_alike(a, b);
    lemma_alike_rows(sorted_tree(a), sorted_tree(b), ""@, ""@, ""@);
}

proof fn lemma_only_headers_name(lines: Seq<DiffLine>, path: Seq<Seq<char>>)
    ensures
        times_named(file_headers(lines), path) == times_named(lines, path),
    decreases lines.len(),
{
    reveal(Seq::filter);
    if lines.len() > 0 {
        let rest = lines.drop_last();
        lemma_only_headers_name(rest, path);
        if lines.last().kind == DiffLineKind::FileHeader {
            assert(file_headers(lines) == file_headers(rest).push(lines.last()));
            assert(file_headers(lines).drop_last() =~= file_headers(rest));
        } else {
            assert(file_headers(lines) == file_headers(rest));
        }
    }
}

proof fn lemma_times_named_without(lines: Seq<DiffLine>, index: int, path: Seq<Seq<char>>)
    requires
        0 <= index < lines.len(),
    ensures
        times_named(lines, path) == times_named(lines.remove(index), path) + names_path(
            lines[index],
            path,
        ),
    decreases lines.len(),
{
    if index == lines.len() - 1 {
        assert(lines.remove(index) =~= lines.drop_last());
    } else {
        lemma_times_named_without(lines.drop_last(), index, path);
        assert(lines.remove(index).drop_last() =~= lines.drop_last().remove(index));
        assert(lines.remove(index).last() == lines.last());
    }
}

proof fn lemma_permuted_lines_name(
    left: Seq<DiffLine>,
    right: Seq<DiffLine>,
    path: Seq<Seq<char>>,
)
    requires
        left.to_multiset() == right.to_multiset(),
    ensures
        times_named(left, path) == times_named(right, path),
    decreases left.len(),
{
    broadcast use vstd::seq_lib::group_to_multiset_ensures;

    assert(left.to_multiset().len() == left.len());
    assert(right.to_multiset().len() == right.len());
    if left.len() > 0 {
        let line = left.last();
        assert(left.contains(line)) by {
            assert(left[left.len() - 1] == line);
        }
        assert(right.to_multiset().count(line) > 0);
        assert(right.contains(line));
        let index = choose|i: int| 0 <= i < right.len() && right[i] == line;
        assert(left.drop_last() =~= left.remove(left.len() - 1));
        vstd::seq_lib::to_multiset_remove(left, left.len() - 1);
        vstd::seq_lib::to_multiset_remove(right, index);
        lemma_permuted_lines_name(left.drop_last(), right.remove(index), path);
        lemma_times_named_without(right, index, path);
    }
}

/// The entries of the explorer do not depend on the order of the file headers
/// of a diff, nor on its other lines.
pub proof fn lemma_permuted_headers_show_same_entries(left: Seq<DiffLine>, right: Seq<DiffLine>)
    requires
        file_headers(left).to_multiset() == file_headers(right).to_multiset(),
    ensures
        row_items(explorer_rows(left)) == row_items(explorer_rows(right)),
{
    assert forall|path: Seq<Seq<char>>| #[trigger] times_named(left, path) == times_named(
        right,
        path,
    ) by {
        lemma_only_headers_name(left, path);
        lemma_only_headers_name(right, path);
        lemma_permuted_lines_name(file_headers(left), file_headers(right), path);
    }
    lemma_entries_follow_named_files(left, right);
}

} // verus!
