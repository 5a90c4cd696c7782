//! What the diff page shows: its rows, their changed lines and where they are
//! painted.

use vstd::prelude::*;

use crate::app_mode::{DiffCommentTarget, DiffLineCommentAnchor, DiffLineComments, DiffPreview};
use crate::geometry::ViewportRect;
use crate::text::same_text;

verus! {

/// One row of the file explorer.
#[derive(Debug)]
pub struct DiffItem {
    /// Changed lines in display order.
    pub changed_lines: Vec<DiffLineCommentAnchor>,
    /// Whether a preview of the file can be shown.
    pub is_markdown: bool,
    /// The file of the row; a folder has none.
    pub path: Option<String>,
}

/// The rows of the file explorer of one diff.
#[derive(Debug)]
pub struct DiffContent {
    pub items: Vec<DiffItem>,
}

/// Whether two anchors point at the same line.
pub open spec fn same_anchor(left: DiffLineCommentAnchor, right: DiffLineCommentAnchor) -> bool {
    &&& left.content@ == right.content@
    &&& left.line == right.line
    &&& left.path@ == right.path@
    &&& left.side == right.side
}

/// The first of `anchors` that points at the line of `anchor`.
pub open spec fn anchor_position(
    anchors: Seq<DiffLineCommentAnchor>,
    anchor: DiffLineCommentAnchor,
    index: int,
) -> Option<usize>
    decreases anchors.len() - index,
{
    if index < 0 || index >= anchors.len() {
        None
    } else if same_anchor(anchors[index], anchor) {
        Some(index as usize)
    } else {
        anchor_position(anchors, anchor, index + 1)
    }
}

/// Compares two anchors.
pub fn is_same_anchor(left: &DiffLineCommentAnchor, right: &DiffLineCommentAnchor) -> (same: bool)
    ensures
        same == same_anchor(*left, *right),
{
    left.line == right.line && left.side == right.side && same_text(
        left.content.as_str(),
        right.content.as_str(),
    ) && same_text(left.path.as_str(), right.path.as_str())
}

impl DiffContent {
    /// The file of a row.
    pub open spec fn file_path(self, index: usize) -> Option<String> {
        if index < self.items@.len() {
            self.items@[index as int].path
        } else {
            None
        }
    }

    /// The file of a row that can be previewed.
    pub open spec fn markdown_path(self, index: usize) -> Option<String> {
        if index < self.items@.len() && self.items@[index as int].is_markdown {
            self.items@[index as int].path
        } else {
            None
        }
    }

    /// The changed lines of a row.
    pub open spec fn changed_lines(self, index: usize) -> Seq<DiffLineCommentAnchor> {
        if index < self.items@.len() {
            self.items@[index as int].changed_lines@
        } else {
            Seq::empty()
        }
    }

    /// The changed lines from `start` to `end`, both shown.
    pub open spec fn lines_between(self, index: usize, start: usize, end: usize) -> Seq<
        DiffLineCommentAnchor,
    > {
        let lines = self.changed_lines(index);
        if start >= lines.len() || end < start {
            Seq::empty()
        } else if end < lines.len() {
            lines.subrange(start as int, end + 1)
        } else {
            lines.skip(start as int)
        }
    }

    /// Counts the rows.
    pub fn item_count(&self) -> (count: usize)
        ensures
            count == self.items@.len(),
    {
        self.items.len()
    }

    /// Looks up the file of a row.
    pub fn selected_file_path(&self, index: usize) -> (path: Option<&String>)
        ensures
            match path {
                Some(path) => self.file_path(index) == Some(*path),
                None => self.file_path(index) is None,
            },
    {
        if index < self.items.len() {
            self.items[index].path.as_ref()
        } else {
            None
        }
    }

    /// Reports whether a row is a file.
    pub fn selected_item_is_file(&self, index: usize) -> (result: bool)
        ensures
            result == (self.file_path(index) is Some),
    {
        self.selected_file_path(index).is_some()
    }

    /// Looks up the file of a row that can be previewed.
    pub fn selected_markdown_path(&self, index: usize) -> (path: Option<&String>)
        ensures
            match path {
                Some(path) => self.markdown_path(index) == Some(*path),
                None => self.markdown_path(index) is None,
            },
    {
        if index < self.items.len() && self.items[index].is_markdown {
            self.items[index].path.as_ref()
        } else {
            None
        }
    }

    /// Copies the changed lines from `start` to `end`.
    pub fn selected_changed_lines(&self, index: usize, start: usize, end: usize) -> (lines: Vec<
        DiffLineCommentAnchor,
    >)
        ensures
            lines@ == self.lines_between(index, start, end),
    {
        let mut lines: Vec<DiffLineCommentAnchor> = Vec::new();
        if index < self.items.len() && start <= end {
            let all: &Vec<DiffLineCommentAnchor> = &self.items[index].changed_lines;
            let mut position: usize = start;
            while position < all.len() && position <= end
                invariant
                    index < self.items@.len(),
                    all == &self.items@[index as int].changed_lines,
                    start <= end,
                    start <= position,
                    start < all@.len() ==> position <= all@.len() && position <= end + 1,
                    start >= all@.len() ==> position == start,
                    start < all@.len() ==> lines@ == all@.subrange(start as int, position as int),
                    start >= all@.len() ==> lines@.len() == 0,
                decreases all@.len() - position,
            {
                lines.push(all[position].clone());
                position = position + 1;
            }
        }
        assert(lines@ =~= self.lines_between(index, start, end));
        lines
    }

    /// Finds the changed line of a row that an anchor points at.
    pub fn changed_line_index_for_anchor(&self, index: usize, anchor: &DiffLineCommentAnchor) -> (
        position: Option<usize>)
        ensures
            position == anchor_position(self.changed_lines(index), *anchor, 0),
    {
        if index >= self.items.len() {
            return None;
        }
        let lines: &Vec<DiffLineCommentAnchor> = &self.items[index].changed_lines;
        let mut position: usize = 0;
        while position < lines.len()
            invariant
                position <= lines@.len(),
                lines@ == self.changed_lines(index),
                anchor_position(lines@, *anchor, 0) == anchor_position(
                    lines@,
                    *anchor,
                    position as int,
                ),
            decreases lines@.len() - position,
        {
            if is_same_anchor(&lines[position], anchor) {
                return Some(position);
            }
            position = position + 1;
        }
        None
    }
}

/// A row that a search for its anchor finds, and no earlier one.
pub proof fn lemma_anchor_found(
    anchors: Seq<DiffLineCommentAnchor>,
    anchor: DiffLineCommentAnchor,
    from: int,
)
    requires
        0 <= from <= anchors.len() <= usize::MAX,
    ensures
        match anchor_position(anchors, anchor, from) {
            Some(position) => {
                &&& from <= position < anchors.len()
                &&& same_anchor(anchors[position as int], anchor)
                &&& forall|i: int|
                    from <= i < position ==> !same_anchor(#[trigger] anchors[i], anchor)
            },
            None => forall|i: int|
                from <= i < anchors.len() ==> !same_anchor(#[trigger] anchors[i], anchor),
        },
    decreases anchors.len() - from,
{
    if from < anchors.len() && !same_anchor(anchors[from], anchor) {
        lemma_anchor_found(anchors, anchor, from + 1);
    }
}

/// The selected row and the area in which its diff is painted.
#[derive(Clone, Copy, Debug, PartialEq, Eq, Structural)]
pub struct DiffPlace {
    pub area: ViewportRect,
    pub file_index: usize,
}

/// Line layout of the page that paints the diff.
///
/// Wrapping and comment boxes decide where a changed line ends up, so only
/// the painting page can answer these questions.
pub trait DiffPage {
    /// Counts the changed lines of the selected row.
    fn changed_line_count(&self, comments: &DiffLineComments, place: DiffPlace) -> usize;

    /// Finds the changed line that is painted at a row of the panel.
    fn changed_line_at_row(
        &self,
        comments: &DiffLineComments,
        place: DiffPlace,
        scroll_offset: u16,
        row: u16,
    ) -> Option<usize>;

    /// Finds the scroll offset that shows a changed line.
    fn changed_line_scroll(
        &self,
        comments: &DiffLineComments,
        place: DiffPlace,
        line: usize,
        scroll_offset: u16,
    ) -> Option<u16>;

    /// Finds the scroll offset that shows a changed line and one of its
    /// comments.
    fn selection_scroll(
        &self,
        comments: &DiffLineComments,
        place: DiffPlace,
        line: usize,
        comment: Option<usize>,
        scroll_offset: u16,
    ) -> Option<u16>;

    /// Finds the changed line or comment below.
    fn next_selection(
        &self,
        comments: &DiffLineComments,
        place: DiffPlace,
        line: usize,
        comment: Option<usize>,
    ) -> (usize, Option<usize>);

    /// Finds the changed line or comment above.
    fn previous_selection(
        &self,
        comments: &DiffLineComments,
        place: DiffPlace,
        line: usize,
        comment: Option<usize>,
    ) -> (usize, Option<usize>);

    /// Measures the largest scroll offset.
    fn max_scroll_offset(
        &self,
        comments: &DiffLineComments,
        preview: &DiffPreview,
        place: DiffPlace,
    ) -> u16;

    /// Finds the area of the file explorer.
    fn file_list_area(&self, area: ViewportRect, shows_review_comments: bool) -> ViewportRect;
}

/// Copies the target of a comment.
pub fn copy_target(target: &DiffCommentTarget) -> (copy: DiffCommentTarget)
    ensures
        copy_of_target(*target, copy),
{
    match target {
        DiffCommentTarget::File { path } => DiffCommentTarget::File { path: path.clone() },
        DiffCommentTarget::Lines(anchors) => {
            let mut copies: Vec<DiffLineCommentAnchor> = Vec::new();
            let mut index: usize = 0;
            while index < anchors.len()
                invariant
                    index <= anchors@.len(),
                    copies@ == anchors@.take(index as int),
                decreases anchors@.len() - index,
            {
                copies.push(anchors[index].clone());
                assert(anchors@.take(index as int + 1) =~= anchors@.take(index as int).push(
                    anchors@[index as int],
                ));
                index = index + 1;
            }
            assert(copies@ =~= anchors@);
            DiffCommentTarget::Lines(copies)
        },
    }
}

/// Whether `copy` is about the same file or lines as `target`.
pub open spec fn copy_of_target(target: DiffCommentTarget, copy: DiffCommentTarget) -> bool {
    match (target, copy) {
        (DiffCommentTarget::File { path: left }, DiffCommentTarget::File { path: right }) => left
            == right,
        (DiffCommentTarget::Lines(left), DiffCommentTarget::Lines(right)) => left@ == right@,
        _ => false,
    }
}

} // verus!
