//! Header tabs and the cells they can be clicked in.

use vstd::prelude::*;

use crate::geometry::ViewportRect;
use crate::project_switcher_overlay::ProjectListItem;
use crate::rich_text::{Color, Span, SpanView, Style, display_width, styled, text_width};
use crate::text::joined;
use crate::viewport::{ListItemHit, ListRegion, ListRegionKind, least};

verus! {

/// A page of the main view.
#[derive(Clone, Copy, Debug, PartialEq, Eq, Structural)]
pub enum Tab {
    Projects,
    Sessions,
    Settings,
}

impl Tab {
    /// The position of the tab in the header.
    pub open spec fn position(self) -> usize {
        match self {
            Tab::Projects => 0,
            Tab::Sessions => 1,
            Tab::Settings => 2,
        }
    }

    /// The tab at a position.
    pub open spec fn at_position(index: usize) -> Option<Tab> {
        match index {
            0 => Some(Tab::Projects),
            1 => Some(Tab::Sessions),
            2 => Some(Tab::Settings),
            _ => None,
        }
    }

    /// Looks up the tab at a position.
    pub fn at(index: usize) -> (tab: Option<Tab>)
        ensures
            tab == Tab::at_position(index),
    {
        match index {
            0 => Some(Tab::Projects),
            1 => Some(Tab::Sessions),
            2 => Some(Tab::Settings),
            _ => None,
        }
    }
}

/// Every tab stands at its own position and at no other.
pub proof fn lemma_tab_positions(tab: Tab, index: usize)
    ensures
        Tab::at_position(index) == Some(tab) <==> index == tab.position(),
{
}

/// One piece of the header: a tab with its position, or text between tabs.
#[derive(Debug)]
pub struct TabSegment {
    pub span: Span,
    pub tab_index: Option<usize>,
}

/// The content of a `TabSegment`.
pub struct TabSegmentView {
    pub span: SpanView,
    pub tab_index: Option<usize>,
}

impl View for TabSegment {
    type V = TabSegmentView;

    open spec fn view(&self) -> TabSegmentView {
        TabSegmentView { span: self.span@, tab_index: self.tab_index }
    }
}

/// The contents of segments.
pub open spec fn segment_views(segments: Seq<TabSegment>) -> Seq<TabSegmentView> {
    Seq::new(segments.len(), |i: int| segments[i]@)
}

/// The style of a tab's label.
pub open spec fn tab_style(is_current: bool) -> Style {
    if is_current {
        Style {
            fg: Some(Color::Warning),
            bg: Some(Color::Surface),
            bold: true,
            italic: false,
        }
    } else {
        Style::colored_spec(Color::TextMuted)
    }
}

/// The header's piece for one tab.
pub open spec fn tab_piece(tab: Tab, label: Seq<char>, current: Tab) -> TabSegmentView {
    TabSegmentView {
        span: SpanView { content: label, style: tab_style(tab == current) },
        tab_index: Some(tab.position()),
    }
}

/// The piece between two tabs.
pub open spec fn divider_piece() -> TabSegmentView {
    TabSegmentView {
        span: SpanView { content: "|"@, style: Style::colored_spec(Color::Border) },
        tab_index: None,
    }
}

/// The label of the first project with this identifier.
pub open spec fn project_label(projects: Seq<ProjectListItem>, id: i64) -> Option<Seq<char>>
    decreases projects.len(),
{
    if projects.len() == 0 {
        None
    } else if projects[0].id == id {
        Some(projects[0].label@)
    } else {
        project_label(projects.skip(1), id)
    }
}

/// The piece that names the active project.
pub open spec fn scope_piece(label: Option<Seq<char>>) -> TabSegmentView {
    TabSegmentView {
        span: match label {
            Some(label) => SpanView {
                content: " Project: "@ + label + " "@,
                style: Style::bold_spec(Color::AccentSoft),
            },
            None => SpanView {
                content: " Project: None "@,
                style: Style::colored_spec(Color::TextSubtle),
            },
        },
        tab_index: None,
    }
}

/// The pieces of the header from left to right.
pub open spec fn header_pieces(current: Tab, label: Option<Seq<char>>) -> Seq<TabSegmentView> {
    seq![
        tab_piece(Tab::Projects, " Projects "@, current),
        divider_piece(),
        scope_piece(label),
        divider_piece(),
        tab_piece(Tab::Sessions, " Sessions "@, current),
        divider_piece(),
        tab_piece(Tab::Settings, " Settings "@, current),
    ]
}

/// Builds the piece of one tab.
fn tab_segment(tab: Tab, tab_index: usize, label: &str, current: Tab) -> (segment: TabSegment)
    requires
        tab_index == tab.position(),
    ensures
        segment@ == tab_piece(tab, label@, current),
{
    let style: Style = if tab == current {
        Style {
            fg: Some(Color::Warning),
            bg: Some(Color::Surface),
            bold: true,
            italic: false,
        }
    } else {
        Style::colored(Color::TextMuted)
    };
    TabSegment { span: styled(label, style), tab_index: Some(tab_index) }
}

/// Builds the piece between two tabs.
fn divider_segment() -> (segment: TabSegment)
    ensures
        segment@ == divider_piece(),
{
    TabSegment { span: styled("|", Style::colored(Color::Border)), tab_index: None }
}

/// Builds the piece that names the active project.
fn scope_segment(active_project_id: i64, projects: &[ProjectListItem]) -> (segment: TabSegment)
    ensures
        segment@ == scope_piece(project_label(projects@, active_project_id)),
{
    let mut index: usize = 0;
    assert(projects@.skip(0) =~= projects@);
    while index < projects.len()
        invariant
            index <= projects@.len(),
            project_label(projects@, active_project_id) == project_label(
                projects@.skip(index as int),
                active_project_id,
            ),
        decreases projects@.len() - index,
    {
        let ghost rest = projects@.skip(index as int);
        assert(rest[0] == projects@[index as int]);
        assert(rest.skip(1) =~= projects@.skip(index as int + 1));
        if projects[index].id == active_project_id {
            let start: String = joined(" Project: ", projects[index].label.as_str());
            let label: String = joined(start.as_str(), " ");
            return TabSegment {
                span: styled(label.as_str(), Style::bold(Color::AccentSoft)),
                tab_index: None,
            };
        }
        index = index + 1;
    }
    TabSegment {
        span: styled(" Project: None ", Style::colored(Color::TextSubtle)),
        tab_index: None,
    }
}

/// Builds the pieces of the header from left to right.
pub fn tab_segments(current_tab: Tab, active_project_id: i64, projects: &[ProjectListItem]) -> (
    segments: Vec<TabSegment>)
    ensures
        segment_views(segments@) == header_pieces(
            current_tab,
            project_label(projects@, active_project_id),
        ),
{
    let mut segments: Vec<TabSegment> = Vec::new();
    segments.push(tab_segment(Tab::Projects, 0, " Projects ", current_tab));
    segments.push(divider_segment());
    segments.push(scope_segment(active_project_id, projects));
    segments.push(divider_segment());
    segments.push(tab_segment(Tab::Sessions, 1, " Sessions ", current_tab));
    segments.push(divider_segment());
    segments.push(tab_segment(Tab::Settings, 2, " Settings ", current_tab));
    assert(segment_views(segments@) =~= header_pieces(
        current_tab,
        project_label(projects@, active_project_id),
    ));
    segments
}

/// The clickable cells of tabs of these widths, painted from column `x` and
/// cut at column `end`.
pub open spec fn tab_cells(
    widths: Seq<(int, Option<usize>)>,
    x: int,
    end: int,
    y: u16,
) -> Seq<ListItemHit>
    decreases widths.len(),
{
    if widths.len() == 0 {
        Seq::empty()
    } else {
        let next = least(x + widths[0].0, end);
        let rest = tab_cells(widths.skip(1), next, end, y);
        match widths[0].1 {
            Some(index) if x < next => seq![
                ListItemHit {
                    area: ViewportRect { height: 1, width: (next - x) as u16, x: x as u16, y },
                    index,
                },
            ] + rest,
            _ => rest,
        }
    }
}

/// The widths and tab positions of segments.
pub open spec fn segment_widths(segments: Seq<TabSegment>) -> Seq<(int, Option<usize>)> {
    Seq::new(
        segments.len(),
        |i: int| (display_width(segments[i].span.content@) as int, segments[i].tab_index),
    )
}

/// Builds the clickable list of the tabs in the header's line.
///
/// Labels that do not fit are cut at the right edge, and a header without a
/// line has no tabs to click.
pub fn tab_list_region(segments: &Vec<TabSegment>, inner: ViewportRect) -> (region: ListRegion)
    ensures
        region.kind == ListRegionKind::Tabs,
        region.items@ == (if inner.height == 0 {
            Seq::empty()
        } else {
            tab_cells(
                segment_widths(segments@),
                inner.x as int,
                least(inner.x + inner.width, u16::MAX as int),
                inner.y,
            )
        }),
{
    let mut items: Vec<ListItemHit> = Vec::new();
    if inner.height == 0 {
        return ListRegion { items, kind: ListRegionKind::Tabs };
    }
    let end: u16 = inner.x.saturating_add(inner.width);
    let mut x: u16 = inner.x;
    let mut index: usize = 0;
    let ghost widths = segment_widths(segments@);
    let ghost whole = tab_cells(widths, inner.x as int, end as int, inner.y);
    assert(widths.skip(0) =~= widths);
    assert(items@ + whole =~= whole);
    while index < segments.len()
        invariant
            index <= segments@.len(),
            widths == segment_widths(segments@),
            x <= end,
            items@ + tab_cells(widths.skip(index as int), x as int, end as int, inner.y) == whole,
        decreases segments@.len() - index,
    {
        let width: usize = text_width(segments[index].span.content.as_str());
        let room: u16 = end - x;
        let next: u16 = if width < room as usize {
            x + width as u16
        } else {
            end
        };
        let ghost rest = widths.skip(index as int);
        let ghost before = items@;
        assert(rest[0] == widths[index as int]);
        assert(rest.skip(1) =~= widths.skip(index as int + 1));
        if let Some(tab_index) = segments[index].tab_index {
            if x < next {
                items.push(
                    ListItemHit {
                        area: ViewportRect { height: 1, width: next - x, x, y: inner.y },
                        index: tab_index,
                    },
                );
            }
        }
        assert(items@ + tab_cells(rest.skip(1), next as int, end as int, inner.y) =~= before
            + tab_cells(rest, x as int, end as int, inner.y));
        x = next;
        index = index + 1;
    }
    assert(widths.skip(index as int) =~= Seq::empty());
    assert(items@ =~= whole);
    ListRegion { items, kind: ListRegionKind::Tabs }
}

} // verus!
