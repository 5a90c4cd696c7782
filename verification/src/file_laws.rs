//! What the file explorer promises of every diff.

use vstd::multiset::Multiset;
use vstd::prelude::*;

use crate::file_explorer::{DiffLine, added_path, explorer_lines, explorer_rows, named_files};
use crate::file_rows::{
    ItemView, RowView, child_prefix, file_rows, folder_chain, folder_row, folder_rows,
    lemma_chain_descends, row_items, tree_rows,
};
use crate::file_tree::{
    FolderView, LeafView, TreeView, empty_tree, folders_before, in_name_order, leaves_up_to,
    sorted_tree, with_file,
};

verus! {

/// The path that the given names make up.
pub open spec fn path_text(names: Seq<Seq<char>>) -> Seq<char>
    decreases names.len(),
{
    if names.len() == 0 {
        Seq::empty()
    } else if names.len() == 1 {
        names[0]
    } else {
        names[0] + "/"@ + path_text(names.drop_first())
    }
}

/// The paths of the leaves under `prefix`.
pub open spec fn leaf_paths(leaves: Seq<LeafView>, prefix: Seq<char>) -> Seq<Seq<char>> {
    leaves.map_values(|leaf: LeafView| prefix + leaf.name)
}

/// The paths of all files in a tree under `prefix`.
pub open spec fn files_below(tree: TreeView, prefix: Seq<char>) -> Multiset<Seq<char>>
    decreases tree,
{
    leaf_paths(tree.files, prefix).to_multiset().add(folders_below(tree.folders, prefix))
}

/// The paths of all files in folders under `prefix`.
pub open spec fn folders_below(folders: Seq<FolderView>, prefix: Seq<char>) -> Multiset<Seq<char>>
    decreases folders,
{
    if folders.len() == 0 {
        Multiset::empty()
    } else {
        folders_below(folders.drop_last(), prefix).add(
            files_below(folders.last().node, prefix + folders.last().name + "/"@),
        )
    }
}

/// The paths of the files that a diff names.
pub open spec fn named_paths(lines: Seq<DiffLine>) -> Multiset<Seq<char>>
    decreases lines.len(),
{
    if lines.len() == 0 {
        Multiset::empty()
    } else {
        let paths = named_paths(lines.drop_last());
        match added_path(lines.last()) {
            Some(path) => paths.insert(path_text(path.segments)),
            None => paths,
        }
    }
}

/// The paths of the files among the given rows.
pub open spec fn row_files(rows: Seq<RowView>) -> Multiset<Seq<char>>
    decreases rows.len(),
{
    if rows.len() == 0 {
        Multiset::empty()
    } else {
        match rows.last().item {
            ItemView::File(path) => row_files(rows.drop_last()).insert(path),
            ItemView::Folder(_) => row_files(rows.drop_last()),
        }
    }
}

proof fn lemma_folder_updated(
    folders: Seq<FolderView>,
    position: int,
    folder: FolderView,
    prefix: Seq<char>,
    path: Seq<char>,
)
    requires
        0 <= position < folders.len(),
        folder.name == folders[position].name,
        files_below(folder.node, prefix + folder.name + "/"@) == files_below(
            folders[position].node,
            prefix + folder.name + "/"@,
        ).insert(path),
    ensures
        folders_below(folders.update(position, folder), prefix) == folders_below(
            folders,
            prefix,
        ).insert(path),
    decreases folders.len(),
{
    broadcast use vstd::multiset::group_multiset_axioms;

    let updated = folders.update(position, folder);
    let rest = folders.drop_last();
    if position == folders.len() - 1 {
        assert(updated.drop_last() =~= rest);
    } else {
        lemma_folder_updated(rest, position, folder, prefix, path);
        assert(updated.drop_last() =~= rest.update(position, folder));
    }
    assert(folders_below(updated, prefix) =~= folders_below(folders, prefix).insert(path));
}

proof fn lemma_folder_inserted(
    folders: Seq<FolderView>,
    position: int,
    folder: FolderView,
    prefix: Seq<char>,
)
    requires
        0 <= position <= folders.len(),
    ensures
        folders_below(folders.insert(position, folder), prefix) == folders_below(
            folders,
            prefix,
        ).add(files_below(folder.node, prefix + folder.name + "/"@)),
    decreases folders.len(),
{
    broadcast use vstd::multiset::group_multiset_axioms;

    let grown = folders.insert(position, folder);
    if position == folders.len() {
        assert(grown.drop_last() =~= folders);
    } else {
        let rest = folders.drop_last();
        lemma_folder_inserted(rest, position, folder, prefix);
        assert(grown.drop_last() =~= rest.insert(position, folder));
        assert(grown.last() == folders.last());
    }
    assert(folders_below(grown, prefix) =~= folders_below(folders, prefix).add(
        files_below(folder.node, prefix + folder.name + "/"@),
    ));
}

proof fn lemma_folders_before_bound(folders: Seq<FolderView>, name: Seq<char>)
    ensures
        folders_before(folders, name) <= folders.len(),
    decreases folders.len(),
{
    if folders.len() > 0 {
        lemma_folders_before_bound(folders.drop_last(), name);
    }
}

/// Taking in a file adds its path and nothing else.
pub proof fn lemma_with_file_adds_path(
    tree: TreeView,
    segments: Seq<Seq<char>>,
    rename_from: Option<Seq<char>>,
    prefix: Seq<char>,
)
    requires
        segments.len() > 0,
    ensures
        files_below(with_file(tree, segments, rename_from), prefix) == files_below(
            tree,
            prefix,
        ).insert(prefix + path_text(segments)),
    decreases segments.len(),
{
    broadcast use {
        vstd::multiset::group_multiset_axioms,
        vstd::seq_lib::group_to_multiset_ensures,
    };

    let grown = with_file(tree, segments, rename_from);
    if segments.len() == 1 {
        let leaf = LeafView { name: segments[0], rename_from };
        assert(leaf_paths(grown.files, prefix) =~= leaf_paths(tree.files, prefix).push(
            prefix + segments[0],
        ));
        assert(files_below(grown, prefix) =~= files_below(tree, prefix).insert(
            prefix + path_text(segments),
        ));
    } else {
        let name = segments[0];
        let rest = segments.drop_first();
        let position = folders_before(tree.folders, name) as int;
        lemma_folders_before_bound(tree.folders, name);
        let known = position < tree.folders.len() && tree.folders[position].name == name;
        let below = prefix + name + "/"@;
        let path = prefix + path_text(segments);
        assert(below + path_text(rest) =~= path);
        if known {
            let child = tree.folders[position].node;
            lemma_with_file_adds_path(child, rest, rename_from, below);
            lemma_folder_updated(
                tree.folders,
                position,
                FolderView { name, node: with_file(child, rest, rename_from) },
                prefix,
                path,
            );
        } else {
            lemma_with_file_adds_path(empty_tree(), rest, rename_from, below);
            let folder = FolderView { name, node: with_file(empty_tree(), rest, rename_from) };
            lemma_folder_inserted(tree.folders, position, folder, prefix);
            assert(leaf_paths(empty_tree().files, below) =~= Seq::<Seq<char>>::empty());
            assert(files_below(empty_tree(), below) =~= Multiset::<Seq<char>>::empty());
        }
        assert(files_below(grown, prefix) =~= files_below(tree, prefix).insert(path));
    }
}

proof fn lemma_name_order_keeps_paths(leaves: Seq<LeafView>, prefix: Seq<char>)
    ensures
        leaf_paths(in_name_order(leaves), prefix).to_multiset() == leaf_paths(
            leaves,
            prefix,
        ).to_multiset(),
    decreases leaves.len(),
{
    broadcast use vstd::seq_lib::group_to_multiset_ensures;

    if leaves.len() > 0 {
        let rest = leaves.drop_last();
        let leaf = leaves.last();
        let sorted = in_name_order(rest);
        let position = leaves_up_to(sorted, leaf.name) as int;
        lemma_name_order_keeps_paths(rest, prefix);
        lemma_leaves_bound(sorted, leaf.name);
        let path = prefix + leaf.name;
        assert(leaf_paths(sorted.insert(position, leaf), prefix) =~= leaf_paths(
            sorted,
            prefix,
        ).insert(position, path));
        vstd::seq_lib::to_multiset_insert(leaf_paths(sorted, prefix), position, path);
        assert(leaf_paths(leaves, prefix) =~= leaf_paths(rest, prefix).push(path));
    }
}

/// No more leaves come before a name than there are.
pub(crate) proof fn lemma_leaves_bound(leaves: Seq<LeafView>, name: Seq<char>)
    ensures
        leaves_up_to(leaves, name) <= leaves.len(),
    decreases leaves.len(),
{
    if leaves.len() > 0 {
        lemma_leaves_bound(leaves.drop_last(), name);
    }
}

/// Sorting a tree keeps the paths of its files.
pub proof fn lemma_sorting_keeps_files(tree: TreeView, prefix: Seq<char>)
    ensures
        files_below(sorted_tree(tree), prefix) == files_below(tree, prefix),
    decreases tree, tree.folders.len() + 1,
{
    lemma_name_order_keeps_paths(tree.files, prefix);
    lemma_sorting_keeps_folders(tree, tree.folders.len(), prefix);
    assert(tree.folders.take(tree.folders.len() as int) =~= tree.folders);
    assert(sorted_tree(tree).folders.take(tree.folders.len() as int)
        =~= sorted_tree(tree).folders);
}

proof fn lemma_sorting_keeps_folders(tree: TreeView, count: nat, prefix: Seq<char>)
    requires
        count <= tree.folders.len(),
    ensures
        folders_below(sorted_tree(tree).folders.take(count as int), prefix) == folders_below(
            tree.folders.take(count as int),
            prefix,
        ),
    decreases tree, count,
{
    let sorted = sorted_tree(tree).folders;
    if count > 0 {
        let folder = tree.folders[count - 1];
        lemma_sorting_keeps_folders(tree, (count - 1) as nat, prefix);
        assert(decreases_to!(tree => tree.folders[count - 1].node));
        lemma_sorting_keeps_files(folder.node, prefix + folder.name + "/"@);
        assert(sorted.take(count as int).drop_last() =~= sorted.take(count - 1));
        assert(tree.folders.take(count as int).drop_last() =~= tree.folders.take(count - 1));
    } else {
        assert(sorted.take(0) =~= Seq::<FolderView>::empty());
        assert(tree.folders.take(0) =~= Seq::<FolderView>::empty());
    }
}

proof fn lemma_row_files_joined(left: Seq<RowView>, right: Seq<RowView>)
    ensures
        row_files(left + right) == row_files(left).add(row_files(right)),
    decreases right.len(),
{
    broadcast use vstd::multiset::group_multiset_axioms;

    if right.len() == 0 {
        assert(left + right =~= left);
    } else {
        lemma_row_files_joined(left, right.drop_last());
        assert((left + right).drop_last() =~= left + right.drop_last());
    }
    assert(row_files(left + right) =~= row_files(left).add(row_files(right)));
}

/// A chain of folders holds the files of the folder it starts with.
pub proof fn lemma_chain_keeps_files(name: Seq<char>, node: TreeView, prefix: Seq<char>)
    ensures
        ({
            let chain = folder_chain(name, node, prefix);
            files_below(chain.node, chain.path) == files_below(node, prefix + name + "/"@)
        }),
    decreases node,
{
    broadcast use vstd::multiset::group_multiset_axioms;

    if node.files.len() == 0 && node.folders.len() == 1 {
        let child = node.folders[0];
        let path = prefix + name + "/"@;
        lemma_chain_keeps_files(child.name, child.node, path);
        assert(node.folders.drop_last() =~= Seq::<FolderView>::empty());
        assert(leaf_paths(node.files, path) =~= Seq::<Seq<char>>::empty());
        assert(Seq::<Seq<char>>::empty().to_multiset() =~= Multiset::<Seq<char>>::empty()) by {
            broadcast use vstd::seq_lib::group_to_multiset_ensures;

        }
        assert(folders_below(Seq::<FolderView>::empty(), path) == Multiset::<Seq<char>>::empty());
        assert(folders_below(node.folders, path) =~= files_below(
            child.node,
            path + child.name + "/"@,
        ));
        assert(files_below(node, path) =~= files_below(child.node, path + child.name + "/"@));
    }
}

proof fn lemma_file_rows_files(tree: TreeView, count: nat, prefix: Seq<char>, path_prefix: Seq<char>)
    requires
        count <= tree.files.len(),
    ensures
        row_files(file_rows(tree, prefix, path_prefix).take(count as int)) == leaf_paths(
            tree.files,
            path_prefix,
        ).take(count as int).to_multiset(),
    decreases count,
{
    broadcast use vstd::seq_lib::group_to_multiset_ensures;

    let rows = file_rows(tree, prefix, path_prefix);
    let paths = leaf_paths(tree.files, path_prefix);
    if count > 0 {
        lemma_file_rows_files(tree, (count - 1) as nat, prefix, path_prefix);
        assert(rows.take(count as int).drop_last() =~= rows.take(count - 1));
        assert(paths.take(count as int) =~= paths.take(count - 1).push(paths[count - 1]));
    } else {
        assert(paths.take(0) =~= Seq::<Seq<char>>::empty());
        assert(rows.take(0) =~= Seq::<RowView>::empty());
        assert(row_files(rows.take(0)) =~= paths.take(0).to_multiset());
    }
}

proof fn lemma_folder_rows_files(
    tree: TreeView,
    count: nat,
    prefix: Seq<char>,
    path_prefix: Seq<char>,
)
    requires
        count <= tree.folders.len(),
    ensures
        row_files(folder_rows(tree, count, prefix, path_prefix)) == folders_below(
            tree.folders.take(count as int),
            path_prefix,
        ),
    decreases tree, count,
{
    broadcast use vstd::multiset::group_multiset_axioms;

    if count > 0 {
        let folder = tree.folders[count - 1];
        let is_root = path_prefix.len() == 0;
        let is_last = count == tree.folders.len() && tree.files.len() == 0;
        let chain = folder_chain(folder.name, folder.node, path_prefix);
        let above = folder_rows(tree, (count - 1) as nat, prefix, path_prefix);
        let row = folder_row(chain, prefix, is_root, is_last);
        let deeper = child_prefix(prefix, is_root, is_last);
        lemma_folder_rows_files(tree, (count - 1) as nat, prefix, path_prefix);
        lemma_chain_descends(folder.name, folder.node, path_prefix);
        assert(decreases_to!(tree => tree.folders[count - 1].node));
        lemma_tree_rows_files(chain.node, deeper, chain.path);
        lemma_chain_keeps_files(folder.name, folder.node, path_prefix);
        assert(above.push(row).drop_last() =~= above);
        lemma_row_files_joined(above.push(row), tree_rows(chain.node, deeper, chain.path));
        assert(tree.folders.take(count as int).drop_last() =~= tree.folders.take(count - 1));
    } else {
        assert(tree.folders.take(0) =~= Seq::<FolderView>::empty());
    }
}

/// The rows of a tree show each of its files once, under its path.
pub proof fn lemma_tree_rows_files(tree: TreeView, prefix: Seq<char>, path_prefix: Seq<char>)
    ensures
        row_files(tree_rows(tree, prefix, path_prefix)) == files_below(tree, path_prefix),
    decreases tree, tree.folders.len() + 1,
{
    broadcast use vstd::multiset::group_multiset_axioms;

    let above = folder_rows(tree, tree.folders.len(), prefix, path_prefix);
    let below = file_rows(tree, prefix, path_prefix);
    lemma_folder_rows_files(tree, tree.folders.len(), prefix, path_prefix);
    lemma_file_rows_files(tree, tree.files.len(), prefix, path_prefix);
    lemma_row_files_joined(above, below);
    assert(tree.folders.take(tree.folders.len() as int) =~= tree.folders);
    assert(below.take(tree.files.len() as int) =~= below);
    assert(leaf_paths(tree.files, path_prefix).take(tree.files.len() as int) =~= leaf_paths(
        tree.files,
        path_prefix,
    ));
    assert(row_files(tree_rows(tree, prefix, path_prefix)) =~= files_below(tree, path_prefix));
}

/// The explorer lists exactly the files that the diff names, each as often as
/// the diff names it.
pub proof fn lemma_explorer_lists_named_files(lines: Seq<DiffLine>)
    ensures
        row_files(explorer_rows(lines)) == named_paths(lines),
{
    lemma_named_files(lines);
    let tree = named_files(lines);
    reveal_strlit("");
    assert(""@ =~= Seq::<char>::empty());
    lemma_sorting_keeps_files(tree, ""@);
    lemma_tree_rows_files(sorted_tree(tree), ""@, ""@);
}

proof fn lemma_named_files(lines: Seq<DiffLine>)
    ensures
        files_below(named_files(lines), ""@) == named_paths(lines),
    decreases lines.len(),
{
    reveal_strlit("");
    assert(""@ =~= Seq::<char>::empty());
    if lines.len() == 0 {
        broadcast use {
            vstd::multiset::group_multiset_axioms,
            vstd::seq_lib::group_to_multiset_ensures,
        };

        assert(leaf_paths(empty_tree().files, ""@) =~= Seq::<Seq<char>>::empty());
        assert(files_below(empty_tree(), ""@) =~= Multiset::<Seq<char>>::empty());
    } else {
        lemma_named_files(lines.drop_last());
        match added_path(lines.last()) {
            Some(path) => {
                lemma_with_file_adds_path(
                    named_files(lines.drop_last()),
                    path.segments,
                    path.rename_from,
                    ""@,
                );
                assert(""@ + path_text(path.segments) =~= path_text(path.segments));
            },
            None => {},
        }
    }
}

/// Every line of a tree with files selects the entry at its own position.
pub proof fn lemma_lines_match_items(lines: Seq<DiffLine>)
    ensures
        explorer_lines(lines).len() >= 1,
        row_items(explorer_rows(lines)).len() > 0 ==> explorer_lines(lines).len() == row_items(
            explorer_rows(lines),
        ).len(),
{
}

} // verus!
