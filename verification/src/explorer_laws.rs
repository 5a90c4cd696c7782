//! What the file explorer shows of a diff.

use vstd::prelude::*;

use crate::file_explorer::{
    DiffLine, DiffLineKind, added_path, aligned_spans, explorer_lines, explorer_rows, inside,
    inside_border, label_room, line_fitted,
    path_names, visual_row, without_pattern,
};
use crate::file_rows::{
    ItemView, branch, child_prefix, file_row, file_rows, folder_chain, folder_row,
    tree_rows,
};
use crate::file_tree::{LeafView, TreeView};
use crate::geometry::ViewportRect;
use crate::rich_text::{Color, Line, LineView, Span, SpanView, spans_width};
use crate::text_laws::lemma_joined_comes_apart;
use crate::text_lines::{joined_with, lemma_split_on, split_on};

verus! {

/// The names of a path are what stands between its slashes, without the empty
/// ones.
pub proof fn lemma_path_names(path: Seq<char>, index: int)
    requires
        0 <= index < path_names(path).len(),
    ensures
        path_names(path)[index].len() > 0,
        !path_names(path)[index].contains('/'),
{
    let pieces = split_on(path, '/');
    lemma_split_on(path, '/');
    lemma_filtered_name(pieces, index);
}

proof fn lemma_filtered_name(pieces: Seq<Seq<char>>, index: int)
    requires
        0 <= index < pieces.filter(|name: Seq<char>| name.len() > 0).len(),
    ensures
        pieces.filter(|name: Seq<char>| name.len() > 0)[index].len() > 0,
        exists|i: int|
            0 <= i < pieces.len() && #[trigger] pieces[i] == pieces.filter(
                |name: Seq<char>| name.len() > 0,
            )[index],
    decreases pieces.len(),
{
    reveal(Seq::filter);
    if pieces.len() > 0 {
        let rest = pieces.drop_last();
        let names = rest.filter(|name: Seq<char>| name.len() > 0);
        if index < names.len() {
            lemma_filtered_name(rest, index);
            let i = choose|i: int| 0 <= i < rest.len() && #[trigger] rest[i] == names[index];
            assert(pieces[i] == rest[i]);
        } else {
            assert(pieces[pieces.len() - 1] == pieces.last());
        }
    }
}

/// A path put together from names holds these names again, in their order.
pub proof fn lemma_path_of_names(names: Seq<Seq<char>>)
    requires
        names.len() > 0,
        forall|i: int|
            0 <= i < names.len() ==> !(#[trigger] names[i]).contains('/') && names[i].len() > 0,
    ensures
        path_names(joined_with(names, '/')) == names,
{
    lemma_joined_comes_apart(names, '/');
    lemma_nothing_filtered(names);
}

proof fn lemma_nothing_filtered(names: Seq<Seq<char>>)
    requires
        forall|i: int| 0 <= i < names.len() ==> (#[trigger] names[i]).len() > 0,
    ensures
        names.filter(|name: Seq<char>| name.len() > 0) == names,
    decreases names.len(),
{
    reveal(Seq::filter);
    if names.len() > 0 {
        let rest = names.drop_last();
        assert forall|i: int| 0 <= i < rest.len() implies (#[trigger] rest[i]).len() > 0 by {
            assert(rest[i] == names[i]);
        }
        lemma_nothing_filtered(rest);
        assert(names[names.len() - 1].len() > 0);
        assert(rest.push(names.last()) =~= names);
    }
}

/// Only the header of a file names one: by the path it has now, and by the one
/// it had, where that was another.
pub proof fn lemma_headers_name_files(line: DiffLine)
    ensures
        line.kind != DiffLineKind::FileHeader ==> added_path(line) is None,
        !("diff --git"@.is_prefix_of(line.content@)) ==> added_path(line) is None,
        line.kind == DiffLineKind::FileHeader && "diff --git"@.is_prefix_of(line.content@) ==> {
            line.header_paths matches Some(paths) ==> {
                &&& added_path(line) is Some <==> path_names(paths.new_path@).len() > 0
                &&& added_path(line) matches Some(path) ==> {
                    &&& path.segments == path_names(paths.new_path@)
                    &&& paths.old_path@ == paths.new_path@ ==> path.rename_from is None
                    &&& paths.old_path@ != paths.new_path@ ==> path.rename_from == Some(
                        paths.old_path@,
                    )
                }
            }
        },
        line.kind == DiffLineKind::FileHeader && line.header_paths is None
            && "diff --git "@.is_prefix_of(line.content@) ==> {
            &&& added_path(line) matches Some(path)
            &&& path.segments.len() == 1
            &&& path.rename_from is None
            &&& path.segments[0] == without_pattern(line.content@.skip(11), "diff --git "@)
        },
{
    reveal_strlit("diff --git");
    reveal_strlit("diff --git ");
    if "diff --git "@.is_prefix_of(line.content@) {
        assert("diff --git"@.is_prefix_of(line.content@)) by {
            assert(line.content@.take(10) =~= "diff --git"@);
            assert forall|i: int| 0 <= i < 10 implies line.content@[i] == "diff --git"@[i] by {
                assert(line.content@[i] == "diff --git "@[i]);
            }
        }
    }
}

/// What stands behind a text that is taken out stays, and so does text that is
/// shorter than it.
pub proof fn lemma_pattern_taken_out(rest: Seq<char>, pattern: Seq<char>)
    requires
        pattern.len() > 0,
    ensures
        without_pattern(pattern + rest, pattern) == without_pattern(rest, pattern),
        rest.len() < pattern.len() ==> without_pattern(rest, pattern) == rest,
        without_pattern(rest, pattern).len() <= rest.len(),
    decreases rest.len(),
{
    assert((pattern + rest).skip(pattern.len() as int) =~= rest);
    assert(pattern.is_prefix_of(pattern + rest)) by {
        assert((pattern + rest).take(pattern.len() as int) =~= pattern);
    }
    if rest.len() > 0 {
        lemma_pattern_taken_out(rest.drop_first(), pattern);
        if pattern.is_prefix_of(rest) {
            lemma_pattern_taken_out(rest.skip(pattern.len() as int), pattern);
        } else if rest.len() < pattern.len() {
            assert(seq![rest[0]] + rest.drop_first() =~= rest);
        }
    }
}

/// A position behind a list is held at its last item.
pub proof fn lemma_position_held_inside(index: usize, item_count: usize)
    ensures
        index < item_count ==> inside(index, item_count) == index,
        index >= item_count && item_count > 0 ==> inside(index, item_count) == item_count - 1,
        item_count == 0 ==> inside(index, item_count) == 0,
{
}

/// The selected entry of a bordered list shows in its own row, or in the last
/// row of a list that has scrolled.
pub proof fn lemma_selected_row(index: usize, item_count: usize, area: ViewportRect)
    requires
        index < item_count,
    ensures
        area.height <= 2 ==> visual_row(index, item_count, area) is None,
        area.height > 2 && index + 2 < area.height ==> visual_row(index, item_count, area) == Some(
            index as u16,
        ),
        area.height > 2 && index + 2 >= area.height ==> visual_row(index, item_count, area) == Some(
            (area.height - 3) as u16,
        ),
{
}

/// The inside of a border is a cell away from each side.
pub proof fn lemma_inside_border(area: ViewportRect)
    requires
        area.width >= 2,
        area.height >= 2,
        area.x + area.width <= u16::MAX,
        area.y + area.height <= u16::MAX,
    ensures
        inside_border(area).x == area.x + 1,
        inside_border(area).y == area.y + 1,
        inside_border(area).x + inside_border(area).width + 1 == area.x + area.width,
        inside_border(area).y + inside_border(area).height + 1 == area.y + area.height,
{
}

/// Entries below the root hang on a line, which ends at the last of them and
/// goes on beside what lies below the others.
pub proof fn lemma_tree_lines(prefix: Seq<char>, is_last: bool)
    ensures
        branch(true, is_last).len() == 0,
        branch(false, true) == seq!['\u{2514}', ' '],
        branch(false, false) == seq!['\u{251c}', ' '],
        child_prefix(prefix, true, is_last).len() == 0,
        child_prefix(prefix, false, true) == prefix.push(' ').push(' '),
        child_prefix(prefix, false, false) == prefix.push('\u{2502}').push(' '),
{
    reveal_strlit("");
    reveal_strlit("└ ");
    reveal_strlit("├ ");
    reveal_strlit("  ");
    reveal_strlit("│ ");
    assert(branch(false, true) =~= seq!['\u{2514}', ' ']);
    assert(branch(false, false) =~= seq!['\u{251c}', ' ']);
    assert(child_prefix(prefix, false, true) =~= prefix.push(' ').push(' '));
    assert(child_prefix(prefix, false, false) =~= prefix.push('\u{2502}').push(' '));
}

/// The row of a file shows its name, and behind it where it was renamed from;
/// it selects the file under its whole path.
pub proof fn lemma_file_row(leaf: LeafView, prefix: Seq<char>, path_prefix: Seq<char>, is_last: bool)
    ensures
        ({
            let row = file_row(leaf, prefix, path_prefix, is_last);
            &&& row.item == ItemView::File(path_prefix + leaf.name)
            &&& row.line.spans[0].content == prefix + branch(path_prefix.len() == 0, is_last)
                + leaf.name
            &&& row.line.spans[0].style.fg == Some(Color::Accent)
            &&& leaf.rename_from is None ==> row.line.spans.len() == 1
            &&& leaf.rename_from matches Some(origin) ==> row.line.spans.len() == 2
                && row.line.spans[1].content == seq![' ', '<', '-', ' '] + origin
        }),
{
    reveal_strlit(" <- ");
    if let Some(origin) = leaf.rename_from {
        assert(" <- "@ =~= seq![' ', '<', '-', ' ']);
    }
}

/// The row of a folder shows its name with a slash and selects its whole path.
pub proof fn lemma_folder_row(
    name: Seq<char>,
    node: TreeView,
    prefix: Seq<char>,
    path_prefix: Seq<char>,
    is_last: bool,
)
    ensures
        ({
            let chain = folder_chain(name, node, path_prefix);
            let row = folder_row(chain, prefix, path_prefix.len() == 0, is_last);
            &&& row.item == ItemView::Folder(chain.path)
            &&& row.line.spans.len() == 1
            &&& row.line.spans[0].content == (prefix + branch(path_prefix.len() == 0, is_last)
                + chain.label).push('/')
            &&& row.line.spans[0].style.fg == Some(Color::Warning)
            &&& chain.path == (path_prefix + chain.label).push('/')
            &&& name.is_prefix_of(chain.label)
            &&& node.files.len() > 0 || node.folders.len() != 1 ==> chain.label == name && chain.node
                == node
            &&& chain.node.files.len() > 0 || chain.node.folders.len() != 1
        }),
    decreases node,
{
    reveal_strlit("/");
    assert("/"@ =~= seq!['/']);
    let chain = folder_chain(name, node, path_prefix);
    let whole = prefix + branch(path_prefix.len() == 0, is_last) + chain.label;
    assert(whole + "/"@ =~= whole.push('/'));
    let path = path_prefix + name + "/"@;
    if node.files.len() > 0 || node.folders.len() != 1 {
        assert(path =~= (path_prefix + name).push('/'));
    } else {
        let below = node.folders[0];
        lemma_folder_row(below.name, below.node, prefix, path, is_last);
        let rest = folder_chain(below.name, below.node, path);
        assert((path + rest.label).push('/') =~= (path_prefix + (name + "/"@ + rest.label)).push(
            '/',
        ));
        assert(name.is_prefix_of(name + "/"@ + rest.label)) by {
            assert((name + "/"@ + rest.label).take(name.len() as int) =~= name);
        }
    }
}

/// A folder shows its folders first, and its files behind them in their order.
pub proof fn lemma_files_come_last(
    tree: TreeView,
    prefix: Seq<char>,
    path_prefix: Seq<char>,
    index: int,
)
    requires
        0 <= index < tree.files.len(),
    ensures
        ({
            let rows = tree_rows(tree, prefix, path_prefix);
            let row = rows[rows.len() - tree.files.len() + index];
            &&& rows.len() >= tree.files.len()
            &&& row.item == ItemView::File(path_prefix + tree.files[index].name)
            &&& row.line.spans[0].content == prefix + branch(
                path_prefix.len() == 0,
                index == tree.files.len() - 1,
            ) + tree.files[index].name
        }),
{
    let rows = tree_rows(tree, prefix, path_prefix);
    let files = file_rows(tree, prefix, path_prefix);
    assert(rows[rows.len() - tree.files.len() + index] == files[index]);
}

/// A suffix stands at the right edge: the label, the space and the suffix fill
/// the row where they fit.
pub proof fn lemma_suffix_at_right_edge(
    kept: Seq<SpanView>,
    available: int,
    suffix: Seq<SpanView>,
)
    ensures
        ({
            let spans = aligned_spans(kept, available, suffix);
            let gap = spans[kept.len() as int].content;
            &&& spans.len() == kept.len() + 1 + suffix.len()
            &&& spans.take(kept.len() as int) == kept
            &&& spans.skip(kept.len() as int + 1) == suffix
            &&& spans_width(kept) <= available ==> spans_width(kept) + gap.len() == available
            &&& spans_width(kept) > available ==> gap.len() == 0
            &&& forall|i: int| 0 <= i < gap.len() ==> #[trigger] gap[i] == ' '
        }),
{
    let spans = aligned_spans(kept, available, suffix);
    assert(spans.take(kept.len() as int) =~= kept);
    assert(spans.skip(kept.len() as int + 1) =~= suffix);
}

/// A line without a suffix to keep stays as it is.
pub proof fn lemma_line_without_suffix<F: Fn(Vec<Span>, usize) -> Vec<Span>>(
    count: usize,
    line: Line,
    max_width: usize,
    truncate: F,
    result: LineView,
)
    requires
        line_fitted(count, line, max_width, truncate, result),
        count == 0 || line.spans@.len() <= count,
    ensures
        result == line@,
{
}

/// A suffix leaves the columns beside it for the label.
pub proof fn lemma_label_room(max_width: usize, suffix: Seq<SpanView>)
    ensures
        spans_width(suffix) <= max_width ==> label_room(max_width, suffix) + spans_width(suffix)
            == max_width,
        spans_width(suffix) > max_width ==> label_room(max_width, suffix) == 0,
{
    lemma_width_not_negative(suffix);
}

proof fn lemma_width_not_negative(spans: Seq<SpanView>)
    ensures
        0 <= spans_width(spans) <= usize::MAX,
    decreases spans.len(),
{
    if spans.len() > 0 {
        lemma_width_not_negative(spans.drop_last());
    }
}

/// An explorer without files says so in one subdued line; one with files shows
/// a line for each entry.
pub proof fn lemma_explorer_lines(lines: Seq<DiffLine>)
    ensures
        ({
            let shown = explorer_lines(lines);
            let rows = explorer_rows(lines);
            &&& rows.len() == 0 ==> shown.len() == 1 && shown[0].spans.len() == 1
                && shown[0].spans[0].content == "No files"@ && shown[0].spans[0].style.fg == Some(
                Color::TextSubtle,
            )
            &&& rows.len() > 0 ==> shown.len() == rows.len() && forall|i: int|
                0 <= i < rows.len() ==> shown[i] == (#[trigger] rows[i]).line
        }),
{
}

} // verus!
