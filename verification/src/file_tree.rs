//! The tree of changed files behind the file explorer.

use vstd::prelude::*;

use crate::text_lines::{
    is_text_less, lemma_text_less_total, lemma_text_less_transitive, text_less, texts,
};
use crate::text::same_text;

verus! {

/// A file and the path it was renamed from.
#[derive(Debug)]
pub struct FileLeaf {
    pub name: String,
    pub rename_from: Option<String>,
}

/// A folder and what it holds.
#[derive(Debug)]
pub struct TreeFolder {
    pub name: String,
    pub node: FileTreeNode,
}

/// Nested folders and files of a diff.
#[derive(Debug)]
pub struct FileTreeNode {
    pub files: Vec<FileLeaf>,
    /// Folders in dictionary order of their names, each name once.
    pub folders: Vec<TreeFolder>,
}

/// What a file leaf stands for.
pub struct LeafView {
    pub name: Seq<char>,
    pub rename_from: Option<Seq<char>>,
}

/// What a folder stands for.
pub struct FolderView {
    pub name: Seq<char>,
    pub node: TreeView,
}

/// What a tree node stands for.
#[verifier::ext_equal]
pub struct TreeView {
    pub files: Seq<LeafView>,
    pub folders: Seq<FolderView>,
}

/// The text of an optional string.
pub open spec fn optional_text(text: Option<String>) -> Option<Seq<char>> {
    match text {
        Some(string) => Some(string@),
        None => None,
    }
}

impl View for FileLeaf {
    type V = LeafView;

    open spec fn view(&self) -> LeafView {
        LeafView { name: self.name@, rename_from: optional_text(self.rename_from) }
    }
}

/// The views of a sequence of leaves.
pub open spec fn leaf_views(leaves: Seq<FileLeaf>) -> Seq<LeafView> {
    leaves.map_values(|leaf: FileLeaf| leaf@)
}

/// The views of a sequence of folders.
pub open spec fn folder_views(folders: Seq<TreeFolder>) -> Seq<FolderView>
    decreases folders,
{
    Seq::new(
        folders.len(),
        |i: int|
            if 0 <= i < folders.len() {
                FolderView { name: folders[i].name@, node: folders[i].node.tree() }
            } else {
                arbitrary()
            },
    )
}

impl FileTreeNode {
    /// The tree that this node stands for.
    pub open spec fn tree(self) -> TreeView
        decreases self,
    {
        TreeView { files: leaf_views(self.files@), folders: folder_views(self.folders@) }
    }
}

/// The tree without any file.
pub open spec fn empty_tree() -> TreeView {
    TreeView { files: Seq::empty(), folders: Seq::empty() }
}

/// How many folders come before `name`.
pub open spec fn folders_before(folders: Seq<FolderView>, name: Seq<char>) -> nat
    decreases folders.len(),
{
    if folders.len() == 0 {
        0
    } else {
        folders_before(folders.drop_last(), name) + if text_less(folders.last().name, name) {
            1nat
        } else {
            0nat
        }
    }
}

/// Folder names rise strictly, in this node and below it.
pub open spec fn ordered(tree: TreeView) -> bool
    decreases tree,
{
    &&& forall|i: int, j: int|
        0 <= i < j < tree.folders.len() ==> text_less(
            (#[trigger] tree.folders[i]).name,
            (#[trigger] tree.folders[j]).name,
        )
    &&& forall|i: int| 0 <= i < tree.folders.len() ==> ordered((#[trigger] tree.folders[i]).node)
}

/// The tree with one more file: the last segment names the file, the others
/// its folders, which come into being where they are missing.
pub open spec fn with_file(
    tree: TreeView,
    segments: Seq<Seq<char>>,
    rename_from: Option<Seq<char>>,
) -> TreeView
    decreases segments.len(),
{
    if segments.len() == 0 {
        tree
    } else if segments.len() == 1 {
        TreeView { files: tree.files.push(LeafView { name: segments[0], rename_from }), ..tree }
    } else {
        let name = segments[0];
        let position = folders_before(tree.folders, name) as int;
        let known = position < tree.folders.len() && tree.folders[position].name == name;
        let child = if known {
            tree.folders[position].node
        } else {
            empty_tree()
        };
        let folder = FolderView {
            name,
            node: with_file(child, segments.drop_first(), rename_from),
        };
        TreeView {
            folders: if known {
                tree.folders.update(position, folder)
            } else {
                tree.folders.insert(position, folder)
            },
            ..tree
        }
    }
}

proof fn lemma_folders_before(folders: Seq<FolderView>, name: Seq<char>, position: nat)
    requires
        position <= folders.len(),
        forall|i: int| 0 <= i < position ==> text_less((#[trigger] folders[i]).name, name),
        forall|i: int|
            position <= i < folders.len() ==> !text_less((#[trigger] folders[i]).name, name),
    ensures
        folders_before(folders, name) == position,
    decreases folders.len(),
{
    if folders.len() > 0 {
        if position == folders.len() {
            lemma_folders_before(folders.drop_last(), name, (position - 1) as nat);
        } else {
            lemma_folders_before(folders.drop_last(), name, position);
        }
    }
}

/// A folder that is put in its place keeps a tree ordered.
pub(crate) proof fn lemma_insert_ordered(tree: TreeView, position: int, folder: FolderView)
    requires
        ordered(tree),
        ordered(folder.node),
        0 <= position <= tree.folders.len(),
        forall|i: int| 0 <= i < position ==> text_less((#[trigger] tree.folders[i]).name, folder.name),
        forall|i: int|
            position <= i < tree.folders.len() ==> text_less(
                folder.name,
                (#[trigger] tree.folders[i]).name,
            ),
    ensures
        ordered(TreeView { folders: tree.folders.insert(position, folder), ..tree }),
{
    let grown = tree.folders.insert(position, folder);
    assert forall|i: int, j: int| 0 <= i < j < grown.len() implies text_less(
        (#[trigger] grown[i]).name,
        (#[trigger] grown[j]).name,
    ) by {
        let a = if i < position { i } else { i - 1 };
        let b = if j < position { j } else { j - 1 };
        if i != position && j != position {
            assert(grown[i] == tree.folders[a]);
            assert(grown[j] == tree.folders[b]);
        } else if i == position {
            assert(grown[j] == tree.folders[b]);
        } else {
            assert(grown[i] == tree.folders[a]);
        }
    }
    assert forall|i: int| 0 <= i < grown.len() implies ordered((#[trigger] grown[i]).node) by {
        if i < position {
            assert(grown[i] == tree.folders[i]);
        } else if i > position {
            assert(grown[i] == tree.folders[i - 1]);
        }
    }
}

impl FileTreeNode {
    /// Builds the node without any file.
    pub fn new() -> (node: FileTreeNode)
        ensures
            node.tree() == empty_tree(),
            ordered(node.tree()),
    {
        let node = FileTreeNode { files: Vec::new(), folders: Vec::new() };
        assert(node.tree().files =~= Seq::<LeafView>::empty());
        assert(node.tree().folders =~= Seq::<FolderView>::empty());
        node
    }

    /// Inserts the file at `segments[depth..]`, creating the folders on the way.
    pub fn insert(&mut self, segments: &Vec<String>, depth: usize, rename_from: Option<String>)
        requires
            ordered(old(self).tree()),
            depth <= segments@.len(),
        ensures
            final(self).tree() == with_file(
                old(self).tree(),
                texts(segments@).skip(depth as int),
                optional_text(rename_from),
            ),
            ordered(final(self).tree()),
        decreases segments@.len() - depth,
    {
        let ghost path = texts(segments@).skip(depth as int);
        let ghost before = self.tree();
        if depth == segments.len() {
            return;
        }
        assert(path[0] == segments@[depth as int]@);
        if depth + 1 == segments.len() {
            let leaf = FileLeaf { name: segments[depth].clone(), rename_from };
            self.files.push(leaf);
            assert(self.tree().files =~= before.files.push(leaf@));
            assert(self.tree().folders == before.folders);
            assert(ordered(self.tree()));
            return;
        }
        let name: &String = &segments[depth];
        let mut position: usize = 0;
        while position < self.folders.len() && is_text_less(
            self.folders[position].name.as_str(),
            name.as_str(),
        )
            invariant
                position <= self.folders@.len(),
                self.tree() == before,
                ordered(before),
                name@ == path[0],
                forall|i: int|
                    0 <= i < position ==> text_less((#[trigger] before.folders[i]).name, name@),
            ensures
                position <= self.folders@.len(),
                self.tree() == before,
                forall|i: int|
                    0 <= i < position ==> text_less((#[trigger] before.folders[i]).name, name@),
                position < self.folders@.len() ==> !text_less(
                    before.folders[position as int].name,
                    name@,
                ),
            decreases self.folders@.len() - position,
        {
            assert(before.folders[position as int].name == self.folders@[position as int].name@);
            position = position + 1;
        }
        proof {
            if position < self.folders@.len() {
                assert(before.folders[position as int].name
                    == self.folders@[position as int].name@);
            }
            assert forall|i: int| position <= i < before.folders.len() implies !text_less(
                (#[trigger] before.folders[i]).name,
                name@,
            ) by {
                if i > position {
                    lemma_text_less_total(before.folders[position as int].name, name@);
                    lemma_text_less_total(before.folders[i].name, name@);
                    if text_less(before.folders[i].name, name@) {
                        lemma_text_less_transitive(
                            before.folders[position as int].name,
                            before.folders[i].name,
                            name@,
                        );
                    }
                }
            }
            lemma_folders_before(before.folders, name@, position as nat);
            assert(path.drop_first() =~= texts(segments@).skip(depth as int + 1));
        }
        let known: bool = position < self.folders.len() && same_text(
            self.folders[position].name.as_str(),
            name.as_str(),
        );
        if known {
            let ghost child = before.folders[position as int];
            let ghost folders_seq = self.folders@;
            assert(child.node == self.folders@[position as int].node.tree());
            assert(ordered(child.node));
            let folder: &mut TreeFolder = &mut self.folders[position];
            folder.node.insert(segments, depth + 1, rename_from);
            proof {
                let after = self.tree();
                let grown = FolderView {
                    name: name@,
                    node: with_file(child.node, path.drop_first(), optional_text(rename_from)),
                };
                assert(after.folders =~= before.folders.update(position as int, grown));
                assert(after.files == before.files);
                assert forall|i: int, j: int| 0 <= i < j < after.folders.len() implies text_less(
                    (#[trigger] after.folders[i]).name,
                    (#[trigger] after.folders[j]).name,
                ) by {
                    assert(after.folders[i].name == before.folders[i].name);
                    assert(after.folders[j].name == before.folders[j].name);
                }
                assert forall|i: int| 0 <= i < after.folders.len() implies ordered(
                    (#[trigger] after.folders[i]).node,
                ) by {
                    if i != position {
                        assert(after.folders[i] == before.folders[i]);
                    }
                }
            }
        } else {
            let mut node: FileTreeNode = FileTreeNode::new();
            node.insert(segments, depth + 1, rename_from);
            let folder = TreeFolder { name: name.clone(), node };
            let ghost grown = FolderView { name: name@, node: node.tree() };
            self.folders.insert(position, folder);
            proof {
                assert(self.tree().folders =~= before.folders.insert(position as int, grown));
                assert forall|i: int| position <= i < before.folders.len() implies text_less(
                    name@,
                    (#[trigger] before.folders[i]).name,
                ) by {
                    lemma_text_less_total(before.folders[i].name, name@);
                    if i > position {
                        assert(text_less(
                            before.folders[position as int].name,
                            before.folders[i].name,
                        ));
                        if before.folders[i].name == name@ {
                            assert(text_less(before.folders[position as int].name, name@));
                        }
                    }
                }
                lemma_insert_ordered(before, position as int, grown);
                assert(self.tree() == TreeView {
                    folders: before.folders.insert(position as int, grown),
                    ..before
                });
            }
        }
    }
}


/// How many leaves do not come after `name`.
pub open spec fn leaves_up_to(leaves: Seq<LeafView>, name: Seq<char>) -> nat
    decreases leaves.len(),
{
    if leaves.len() == 0 {
        0
    } else {
        leaves_up_to(leaves.drop_last(), name) + if text_less(name, leaves.last().name) {
            0nat
        } else {
            1nat
        }
    }
}

/// The leaves in dictionary order of their names; leaves of one name keep
/// their order.
pub open spec fn in_name_order(leaves: Seq<LeafView>) -> Seq<LeafView>
    decreases leaves.len(),
{
    if leaves.len() == 0 {
        leaves
    } else {
        let sorted = in_name_order(leaves.drop_last());
        sorted.insert(leaves_up_to(sorted, leaves.last().name) as int, leaves.last())
    }
}

/// Whether no leaf comes after a later one.
pub open spec fn names_rise(leaves: Seq<LeafView>) -> bool {
    forall|i: int, j: int|
        0 <= i < j < leaves.len() ==> !text_less(
            (#[trigger] leaves[j]).name,
            (#[trigger] leaves[i]).name,
        )
}

proof fn lemma_leaves_up_to(leaves: Seq<LeafView>, name: Seq<char>)
    requires
        names_rise(leaves),
    ensures
        leaves_up_to(leaves, name) <= leaves.len(),
        forall|i: int|
            0 <= i < leaves_up_to(leaves, name) ==> !text_less(name, (#[trigger] leaves[i]).name),
        forall|i: int|
            leaves_up_to(leaves, name) <= i < leaves.len() ==> text_less(
                name,
                (#[trigger] leaves[i]).name,
            ),
    decreases leaves.len(),
{
    if leaves.len() > 0 {
        let rest = leaves.drop_last();
        assert(names_rise(rest)) by {
            assert forall|i: int, j: int| 0 <= i < j < rest.len() implies !text_less(
                (#[trigger] rest[j]).name,
                (#[trigger] rest[i]).name,
            ) by {
                assert(rest[j] == leaves[j] && rest[i] == leaves[i]);
            }
        }
        lemma_leaves_up_to(rest, name);
        let count = leaves_up_to(rest, name);
        if !text_less(name, leaves.last().name) && count < rest.len() {
            assert(text_less(name, rest[count as int].name));
            assert(!text_less(leaves[leaves.len() - 1].name, leaves[count as int].name));
            lemma_text_less_total(leaves.last().name, rest[count as int].name);
            lemma_text_less_total(leaves.last().name, name);
            if leaves.last().name != rest[count as int].name {
                lemma_text_less_transitive(name, rest[count as int].name, leaves.last().name);
            }
        }
        assert forall|i: int| 0 <= i < leaves_up_to(leaves, name) implies !text_less(
            name,
            (#[trigger] leaves[i]).name,
        ) by {
            if i < rest.len() {
                assert(rest[i] == leaves[i]);
            }
        }
        assert forall|i: int| leaves_up_to(leaves, name) <= i < leaves.len() implies text_less(
            name,
            (#[trigger] leaves[i]).name,
        ) by {
            if i < rest.len() {
                assert(rest[i] == leaves[i]);
            }
        }
    }
}

/// Sorting rearranges the leaves so that their names rise.
pub proof fn lemma_in_name_order(leaves: Seq<LeafView>)
    ensures
        names_rise(in_name_order(leaves)),
        in_name_order(leaves).to_multiset() == leaves.to_multiset(),
        in_name_order(leaves).len() == leaves.len(),
    decreases leaves.len(),
{
    broadcast use vstd::seq_lib::group_to_multiset_ensures;

    if leaves.len() > 0 {
        let rest = leaves.drop_last();
        let leaf = leaves.last();
        let sorted = in_name_order(rest);
        lemma_in_name_order(rest);
        lemma_leaves_up_to(sorted, leaf.name);
        let position = leaves_up_to(sorted, leaf.name) as int;
        let grown = sorted.insert(position, leaf);
        assert forall|i: int, j: int| 0 <= i < j < grown.len() implies !text_less(
            (#[trigger] grown[j]).name,
            (#[trigger] grown[i]).name,
        ) by {
            let a = if i < position { i } else { i - 1 };
            let b = if j < position { j } else { j - 1 };
            if i == position {
                assert(grown[j] == sorted[b]);
                lemma_text_less_total(leaf.name, sorted[b].name);
            } else if j == position {
                assert(grown[i] == sorted[a]);
            } else {
                assert(grown[i] == sorted[a]);
                assert(grown[j] == sorted[b]);
            }
        }
        assert(leaves =~= rest.push(leaf));
        vstd::seq_lib::to_multiset_insert(sorted, position, leaf);
    }
}

/// The tree with the files of every node in name order.
pub open spec fn sorted_tree(tree: TreeView) -> TreeView
    decreases tree,
{
    TreeView {
        files: in_name_order(tree.files),
        folders: Seq::new(
            tree.folders.len(),
            |i: int|
                if 0 <= i < tree.folders.len() {
                    FolderView {
                        name: tree.folders[i].name,
                        node: sorted_tree(tree.folders[i].node),
                    }
                } else {
                    arbitrary()
                },
        ),
    }
}

/// Puts leaves in name order.
fn sort_leaves(leaves: Vec<FileLeaf>) -> (sorted: Vec<FileLeaf>)
    ensures
        leaf_views(sorted@) == in_name_order(leaf_views(leaves@)),
{
    let ghost all = leaf_views(leaves@);
    let mut rest: Vec<FileLeaf> = leaves;
    let mut sorted: Vec<FileLeaf> = Vec::new();
    let ghost mut count: int = 0;
    assert(all.take(0) =~= Seq::<LeafView>::empty());
    assert(leaf_views(sorted@) =~= Seq::<LeafView>::empty());
    assert(all.skip(0) =~= all);
    while rest.len() > 0
        invariant
            0 <= count <= all.len(),
            leaf_views(rest@) == all.skip(count),
            leaf_views(sorted@) == in_name_order(all.take(count)),
        decreases rest@.len(),
    {
        let ghost views = leaf_views(sorted@);
        let ghost before = leaf_views(rest@);
        let ghost waiting = rest@;
        let leaf: FileLeaf = rest.remove(0);
        proof {
            assert(before == all.skip(count));
            assert(before.len() == waiting.len());
            assert(rest@ =~= waiting.skip(1));
            lemma_in_name_order(all.take(count));
            lemma_leaves_up_to(views, leaf.name@);
            assert(leaf@ == before[0]);
            assert(leaf@ == all[count]);
            assert(leaf_views(rest@) =~= before.skip(1));
            assert(before.skip(1) =~= all.skip(count + 1));
            assert(all.take(count + 1).drop_last() =~= all.take(count));
        }
        let ghost goal = leaves_up_to(views, leaf.name@) as int;
        let mut position: usize = sorted.len();
        while position > 0 && is_text_less(leaf.name.as_str(), sorted[position - 1].name.as_str())
            invariant
                views == leaf_views(sorted@),
                goal <= position <= sorted@.len(),
                goal == leaves_up_to(views, leaf.name@),
                forall|i: int| 0 <= i < goal ==> !text_less(leaf.name@, (#[trigger] views[i]).name),
                forall|i: int|
                    goal <= i < views.len() ==> text_less(
                        leaf.name@,
                        (#[trigger] views[i]).name,
                    ),
            ensures
                position == goal,
            decreases position,
        {
            assert(views[position - 1].name == sorted@[position - 1].name@);
            position = position - 1;
        }
        sorted.insert(position, leaf);
        proof {
            assert(leaf_views(sorted@) =~= views.insert(goal, leaf@));
            count = count + 1;
        }
    }
    assert(all.take(count) =~= all);
    sorted
}

impl FileTreeNode {
    /// Sorts the files of this node and of all nodes below it.
    pub fn sort_recursive(&mut self)
        ensures
            final(self).tree() == sorted_tree(old(self).tree()),
        decreases *old(self),
    {
        let ghost before = *self;
        let ghost goal = sorted_tree(self.tree());
        let mut files: Vec<FileLeaf> = Vec::new();
        std::mem::swap(&mut files, &mut self.files);
        self.files = sort_leaves(files);
        let mut index: usize = 0;
        while index < self.folders.len()
            invariant
                index <= self.folders@.len(),
                before == *old(self),
                goal == sorted_tree(before.tree()),
                leaf_views(self.files@) == goal.files,
                self.folders@.len() == before.folders@.len(),
                forall|i: int|
                    index <= i < self.folders@.len() ==> (#[trigger] self.folders@[i])
                        == before.folders@[i],
                forall|i: int|
                    0 <= i < index ==> (#[trigger] self.folders@[i]).name@ == goal.folders[i].name
                        && self.folders@[i].node.tree() == goal.folders[i].node,
            decreases self.folders@.len() - index,
        {
            assert(self.folders@[index as int] == before.folders@[index as int]);
            assert(before.tree().folders[index as int].node
                == before.folders@[index as int].node.tree());
            let folder: &mut TreeFolder = &mut self.folders[index];
            folder.node.sort_recursive();
            index = index + 1;
        }
        assert(self.tree().folders =~= goal.folders);
    }
}

} // verus!
