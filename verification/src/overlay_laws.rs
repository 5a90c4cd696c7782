//! What the popups paint.

use vstd::prelude::*;

use crate::fit::fitted;
use crate::geometry::ViewportRect;
use crate::input::InputState;
use crate::launch_configuration_list_editor::{
    LaunchConfigurationListEditor, LaunchConfigurationListEditorMode, edited_text, input_row,
    input_title, shown_commands, with_cursor,
};
use crate::launch_configuration_overlay::{LaunchConfigurationOverlay, command_row};
use crate::overlay::popup_at_center;
use crate::popup::label_columns;
use crate::project_switcher_overlay::{
    ProjectListItem, ProjectSwitcherOverlay, active_count_label, marked_label, project_row,
};
use crate::rich_text::{Alignment, Color, Line, LineView, Style};
use crate::session_creation_overlay::{OptionView, SessionCreationOverlay, option_row};
use crate::stack_append_parent_overlay::{
    StackAppendParentOverlay, parent_row, room_for_parents,
};
use crate::text_laws::{lemma_decimal, lemma_padded, value_of};

verus! {

/// Whether a style highlights the row it is painted in.
pub open spec fn highlights(style: Style) -> bool {
    style.bg == Some(Color::Accent) && style.fg == Some(Color::SurfaceOverlay) && style.bold
}

/// Whether a row of spans is highlighted as a whole.
pub open spec fn is_highlighted(row: LineView) -> bool {
    row.spans.len() == 1 && highlights(row.spans[0].style)
}

/// The creation popup has a heading, its five options and a hint; an option
/// stands two rows below its place.
pub proof fn lemma_creation_rows(overlay: SessionCreationOverlay, option: int)
    requires
        0 <= option < 5,
    ensures
        overlay.all_rows().len() == 9,
        overlay.all_rows()[1].spans.len() == 0,
        overlay.all_rows()[option + 2] == option_row(
            overlay.options()[option],
            overlay.selected_option_index == option,
        ),
        overlay.all_rows()[7].spans.len() == 0,
        shows_centered(overlay.all_rows()[0], "Select session type"@, Color::Warning, true),
        shows_centered(
            overlay.all_rows()[8],
            "j/k: move | Enter: select | q: close"@,
            Color::TextMuted,
            false,
        ),
{
}

/// The options and their descriptions; the last two are disabled where the
/// selected session does not allow them.
pub proof fn lemma_creation_options(overlay: SessionCreationOverlay)
    ensures
        ({
            let options = overlay.options();
            &&& options.len() == 5
            &&& options[0].label == "Regular"@ && options[0].detail == "Start immediately"@
                && !options[0].is_disabled
            &&& options[1].label == "Draft"@ && options[1].detail == "Stage locally first"@
                && !options[1].is_disabled
            &&& options[2].label == "Orchestrator"@ && options[2].detail
                == "[Preview] Plan workers"@ && !options[2].is_disabled
            &&& options[3].label == "Stacked"@ && options[3].is_disabled
                == !overlay.can_create_stacked_session
            &&& options[3].is_disabled ==> options[3].detail == "Select parent first"@
            &&& !options[3].is_disabled ==> options[3].detail == "Stack on selected"@
            &&& options[4].label == "Append to stack"@ && options[4].is_disabled
                == !overlay.can_append_to_stack
            &&& options[4].is_disabled ==> options[4].detail == "[Preview] Review only"@
            &&& !options[4].is_disabled ==> options[4].detail == "[Preview] Move under parent"@
        }),
{
}

/// An option is highlighted exactly where it is selected and can be chosen;
/// its name and description keep their columns either way.
pub proof fn lemma_option_row(option: OptionView, is_selected: bool)
    requires
        option.label.len() <= 15,
        option.detail.len() <= 27,
    ensures
        ({
            let row = option_row(option, is_selected);
            &&& is_highlighted(row) <==> is_selected && !option.is_disabled
            &&& is_highlighted(row) ==> {
                let text = row.spans[0].content;
                &&& text.len() == 46
                &&& text.subrange(1, 1 + option.label.len() as int) == option.label
                &&& text.subrange(18, 18 + option.detail.len() as int) == option.detail
            }
            &&& !is_highlighted(row) ==> {
                &&& row.spans.len() == 5
                &&& row.spans[1].content.len() == 15
                &&& option.label.is_prefix_of(row.spans[1].content)
                &&& row.spans[3].content.len() == 27
                &&& option.detail.is_prefix_of(row.spans[3].content)
                &&& row.spans[1].style.bold == !option.is_disabled
                &&& row.spans[1].style.fg == Some(
                    if option.is_disabled {
                        Color::TextSubtle
                    } else {
                        Color::Accent
                    },
                )
            }
        }),
{
    let row = option_row(option, is_selected);
    lemma_padded(option.label, 15);
    lemma_padded(option.detail, 27);
    reveal_strlit(" ");
    reveal_strlit("  ");
    if is_selected && !option.is_disabled {
        let text = row.spans[0].content;
        assert(text.subrange(1, 1 + option.label.len() as int) =~= option.label);
        assert(text.subrange(18, 18 + option.detail.len() as int) =~= option.detail);
    }
}

/// A selected command is highlighted over the whole width; any other one
/// shows its label alone.
pub proof fn lemma_command_row(label: Seq<char>, width: usize, is_selected: bool)
    ensures
        ({
            let row = command_row(label, width, is_selected);
            &&& is_highlighted(row) <==> is_selected
            &&& is_selected ==> {
                &&& row.spans[0].content.len() == 1 + (if label.len() < width {
                    width as int
                } else {
                    label.len() as int
                })
                &&& row.spans[0].content[0] == ' '
                &&& row.spans[0].content.subrange(1, 1 + label.len() as int) == label
            }
            &&& !is_selected ==> row.spans.len() == 2 && row.spans[1].content == label
        }),
{
    reveal_strlit(" ");
    lemma_padded(label, width as int);
    if is_selected {
        assert(command_row(label, width, is_selected).spans[0].content.subrange(
            1,
            1 + label.len() as int,
        ) =~= label);
    }
}

/// A parent's row shows its title in a cell on either side, highlighted where
/// it is selected.
pub proof fn lemma_parent_row(label: Seq<char>, width: usize, is_selected: bool)
    requires
        label.len() <= width,
    ensures
        ({
            let row = parent_row(label, width, is_selected);
            &&& is_highlighted(row) <==> is_selected
            &&& row.spans.len() == 1
            &&& row.spans[0].content.len() == width + 2
            &&& row.spans[0].content.subrange(1, 1 + label.len() as int) == label
        }),
{
    reveal_strlit(" ");
    lemma_padded(label, width as int);
    assert(parent_row(label, width, is_selected).spans[0].content.subrange(1, 1 + label.len() as int)
        =~= label);
}

/// The active project is marked by a star, and every label keeps its column.
pub proof fn lemma_marked_label(item: ProjectListItem, active: i64)
    ensures
        marked_label(item, active).len() == item.label@.len() + 2,
        marked_label(item, active).skip(2) == item.label@,
        marked_label(item, active)[0] == '*' <==> item.id == active,
        marked_label(item, active)[1] == ' ',
{
    reveal_strlit("* ");
    reveal_strlit("  ");
    assert(marked_label(item, active).skip(2) =~= item.label@);
}

/// A project with running sessions shows how many there are; an idle one
/// shows nothing.
pub proof fn lemma_running_count(count: u32)
    ensures
        count == 0 <==> active_count_label(count).len() == 0,
        count > 0 ==> active_count_label(count)[0] == '\u{25b6}' && active_count_label(count)[1]
            == ' ' && value_of(active_count_label(count).skip(2)) == count,
{
    reveal_strlit("\u{25b6} ");
    lemma_decimal(count as nat);
    if count > 0 {
        assert(active_count_label(count).skip(2) =~= crate::text::decimal(count as nat));
    }
}

/// A project's row shows its label and its count at the right; the selected
/// one is highlighted and the active one stands out.
pub proof fn lemma_project_row(
    label: Seq<char>,
    count_label: Seq<char>,
    width: usize,
    is_selected: bool,
    is_active: bool,
)
    requires
        label.len() <= width,
        count_label.len() <= 5,
    ensures
        ({
            let row = project_row(label, count_label, width, is_selected, is_active);
            &&& is_highlighted(row) <==> is_selected
            &&& is_selected ==> {
                let text = row.spans[0].content;
                &&& text.len() == width + 8
                &&& text.subrange(1, 1 + label.len() as int) == label
                &&& text.subrange(width + 7 - count_label.len(), width + 7) == count_label
            }
            &&& !is_selected ==> {
                &&& row.spans.len() == 3
                &&& row.spans[1].content.len() == width
                &&& label.is_prefix_of(row.spans[1].content)
                &&& row.spans[1].style.bold == is_active
                &&& row.spans[2].content.len() == 7
                &&& row.spans[2].content.subrange(6 - count_label.len(), 6) == count_label
                &&& row.spans[2].style.fg == Some(Color::Warning)
            }
        }),
{
    reveal_strlit(" ");
    lemma_padded(label, width as int);
    lemma_padded(count_label, 5);
    let row = project_row(label, count_label, width, is_selected, is_active);
    let padded = crate::text::padded_left(count_label, 5);
    assert(padded.skip(5 - count_label.len()) =~= count_label);
    assert forall|i: int| 0 <= i < count_label.len() implies padded[5 - count_label.len() + i]
        == count_label[i] by {
        assert(padded.skip(5 - count_label.len())[i] == count_label[i]);
    }
    if is_selected {
        let text = row.spans[0].content;
        assert(text.subrange(1, 1 + label.len() as int) =~= label);
        assert(text.subrange(width + 7 - count_label.len(), width + 7) =~= count_label);
    } else {
        assert(row.spans[2].content.subrange(6 - count_label.len(), 6) =~= count_label);
    }
}

/// The cursor is shown in front of its character, and taking it out leaves the
/// text.
pub proof fn lemma_shown_cursor(input: InputState)
    ensures
        ({
            let shown = with_cursor(input);
            let place = if input.cursor < input.text@.len() {
                input.cursor as int
            } else {
                input.text@.len() as int
            };
            &&& shown.len() == input.text@.len() + 1
            &&& shown[place] == '|'
            &&& shown.remove(place) == input.text@
        }),
        edited_text(None) == seq!['|'],
        edited_text(Some(input)) == with_cursor(input),
{
    let place = if input.cursor < input.text@.len() {
        input.cursor as int
    } else {
        input.text@.len() as int
    };
    assert(with_cursor(input).remove(place) =~= input.text@);
}

/// The input form is headed by what it does, and its row is highlighted.
pub proof fn lemma_input_form(label: Seq<char>, width: usize)
    requires
        label.len() <= width,
    ensures
        input_title(LaunchConfigurationListEditorMode::Add) == "Add command"@,
        input_title(LaunchConfigurationListEditorMode::Edit) == "Edit command"@,
        input_title(LaunchConfigurationListEditorMode::Browse) == "Command"@,
        is_highlighted(input_row(label, width)),
        input_row(label, width).spans[0].content.len() == width + 1,
        input_row(label, width).spans[0].content.subrange(1, 1 + label.len() as int) == label,
{
    reveal_strlit(" ");
    lemma_padded(label, width as int);
    assert(input_row(label, width).spans[0].content.subrange(1, 1 + label.len() as int) =~= label);
}

/// The editor shows a command in each row that its frame and its hints leave,
/// at least one, and no more than there are.
pub proof fn lemma_shown_commands(popup_height: int, count: int)
    requires
        0 <= popup_height,
        1 <= count,
    ensures
        popup_height >= 8 && count >= popup_height - 7 ==> shown_commands(popup_height, count)
            == popup_height - 7,
        popup_height >= 8 && count < popup_height - 7 ==> shown_commands(popup_height, count)
            == count,
        popup_height < 8 ==> shown_commands(popup_height, count) == 1,
{
}

/// The list of commands is shown between its hints: as many rows as are
/// visible, and only the selected one highlighted.
pub proof fn lemma_browsed_commands<F: Fn(&String, usize) -> String>(
    popup: &LaunchConfigurationListEditor,
    fit: &F,
    width: usize,
    popup_height: int,
    lines: Seq<Line>,
    index: int,
)
    requires
        popup.browses(fit, width, popup_height, lines),
        popup.editor.commands@.len() > 0,
        popup.window(popup_height).0 <= index < popup.window(popup_height).1,
        popup.editor.selected_index < popup.editor.commands@.len(),
    ensures
        ({
            let (start, end) = popup.window(popup_height);
            &&& lines.len() == end - start + 3
            &&& is_highlighted(lines[index - start]@) <==> index == popup.editor.selected_index
            &&& exists|label: Seq<char>| #[trigger]
                fitted(fit, popup.editor.commands@[index]@, width, label) && lines[index
                    - start]@.spans.last().content.len() >= label.len()
            &&& lines[end - start]@.spans.len() == 0
        }),
{
    let (start, end) = popup.window(popup_height);
    assert(crate::launch_configuration_overlay::shows_command(
        fit,
        popup.editor.commands@[index]@,
        width,
        index == popup.highlighted(),
        lines[index - start]@,
    ));
    let label = choose|label: Seq<char>| #[trigger]
        fitted(fit, popup.editor.commands@[index]@, width, label) && lines[index - start]@
            == command_row(label, width, index == popup.highlighted());
    lemma_command_row(label, width, index == popup.highlighted());
    assert(fitted(fit, popup.editor.commands@[index]@, width, label));
}

/// The selector shows each command in its own row, and only the selected one
/// highlighted.
pub proof fn lemma_selector_rows<F: Fn(&String, usize) -> String>(
    popup: &LaunchConfigurationOverlay,
    fit: &F,
    width: usize,
    lines: Seq<Line>,
    index: int,
)
    requires
        popup.painted(fit, width, lines),
        0 <= index < popup.commands@.len(),
    ensures
        lines.len() == popup.commands@.len() + 4,
        is_highlighted(lines[index + 2]@) <==> index == popup.selected_command_index,
        exists|label: Seq<char>| #[trigger]
            fitted(fit, popup.commands@[index]@, width, label) && (index
                != popup.selected_command_index ==> lines[index + 2]@.spans[1].content == label),
        lines[1]@.spans.len() == 0,
        lines[popup.commands@.len() as int + 2]@.spans.len() == 0,
{
    assert(crate::launch_configuration_overlay::shows_command(
        fit,
        popup.commands@[index]@,
        width,
        index == popup.selected_command_index,
        lines[index + 2]@,
    ));
    let label = choose|label: Seq<char>| #[trigger]
        fitted(fit, popup.commands@[index]@, width, label) && lines[index + 2]@ == command_row(
            label,
            width,
            index == popup.selected_command_index,
        );
    lemma_command_row(label, width, index == popup.selected_command_index);
    assert(fitted(fit, popup.commands@[index]@, width, label));
}

/// The switcher shows each project in its own row, and only the selected one
/// highlighted.
pub proof fn lemma_switcher_rows<F: Fn(&String, usize) -> String>(
    popup: &ProjectSwitcherOverlay,
    fit: &F,
    width: usize,
    lines: Seq<Line>,
    index: int,
)
    requires
        popup.painted(fit, width, lines),
        0 <= index < popup.project_items@.len(),
    ensures
        lines.len() == popup.project_items@.len() + 4,
        is_highlighted(lines[index + 2]@) <==> index == popup.selected_option_index,
        index != popup.selected_option_index ==> lines[index + 2]@.spans[1].style.bold == (
        popup.project_items@[index].id == popup.active_project_id),
{
    let item = *popup.project_items@[index];
    assert(popup.shows_project(fit, *popup.project_items@[index], width, index, lines[index + 2]@));
}

/// The parent popup shows as many parents as its height leaves room for, and
/// only the selected one highlighted.
pub proof fn lemma_parent_rows<F: Fn(&String, usize) -> String>(
    popup: &StackAppendParentOverlay,
    fit: &F,
    width: usize,
    popup_height: int,
    lines: Seq<Line>,
    index: int,
)
    requires
        popup.painted(fit, width, popup_height, lines),
        popup.visible(popup_height).0 <= index < popup.visible(popup_height).0 + popup.visible(
            popup_height,
        ).1,
        0 <= popup_height,
    ensures
        ({
            let (first, shown) = popup.visible(popup_height);
            &&& lines.len() == shown + 4
            &&& is_highlighted(lines[index - first + 2]@) <==> index == popup.selected_parent_index
            &&& popup_height >= 8 ==> room_for_parents(popup_height) == popup_height - 8
            &&& popup_height < 8 ==> room_for_parents(popup_height) == 0
            &&& shown <= popup.parent_sessions@.len()
            &&& shown == popup.parent_sessions@.len() || shown == room_for_parents(popup_height)
        }),
{
    let (first, shown) = popup.visible(popup_height);
    assert(crate::stack_append_parent_overlay::shows_parent(
        fit,
        popup.parent_sessions@[index].title@,
        width,
        index == popup.selected_parent_index,
        lines[index - first + 2]@,
    ));
}

/// The sizes of the popups: a share of the frame, and at least so many cells.
pub proof fn lemma_popup_sizes(
    frame: ViewportRect,
    creation: ViewportRect,
    selector: ViewportRect,
    editor: ViewportRect,
)
    requires
        call_ensures(SessionCreationOverlay::popup_area, (frame,), creation),
        call_ensures(LaunchConfigurationOverlay::popup_area, (frame,), selector),
        call_ensures(LaunchConfigurationListEditor::popup_area, (frame,), editor),
    ensures
        creation == popup_at_center(frame, 30, 22, 53, 13),
        selector == popup_at_center(frame, 62, 38, 50, 9),
        editor == popup_at_center(frame, 70, 42, 58, 11),
{
}

/// The popups that grow with their lists are four rows of text and four of
/// frame higher than these.
pub proof fn lemma_growing_popup_sizes(
    frame: ViewportRect,
    projects: &ProjectSwitcherOverlay,
    parents: &StackAppendParentOverlay,
    switcher: ViewportRect,
    append: ViewportRect,
)
    requires
        call_ensures(ProjectSwitcherOverlay::popup_area, (projects, frame), switcher),
        call_ensures(StackAppendParentOverlay::popup_area, (parents, frame), append),
        projects.project_items@.len() < 60_000,
        parents.parent_sessions@.len() < 60_000,
    ensures
        switcher == popup_at_center(frame, 30, 0, 42, projects.project_items@.len() as int + 8),
        append == popup_at_center(frame, 36, 0, 52, parents.parent_sessions@.len() as int + 8),
{
}

/// A label has the columns that are left, and at least one.
pub proof fn lemma_label_columns(width: usize, taken: int)
    requires
        0 <= taken,
    ensures
        width > taken ==> label_columns(width, taken) == width - taken,
        width <= taken ==> label_columns(width, taken) == 1,
{
}

/// The fixed lines of the popups: their heading, the empty rows around the
/// list and the hint below it.
pub proof fn lemma_fixed_lines<F: Fn(&String, usize) -> String>(
    selector: &LaunchConfigurationOverlay,
    switcher: &ProjectSwitcherOverlay,
    parents: &StackAppendParentOverlay,
    fit: &F,
    width: usize,
    popup_height: int,
    lines: Seq<Line>,
)
    ensures
        selector.painted(fit, width, lines) ==> framed(
            lines,
            "Select launch configuration"@,
            "j/k: move | Enter: open | Esc: cancel"@,
        ),
        switcher.painted(fit, width, lines) ==> framed(
            lines,
            "Switch project"@,
            "j/k: move | Enter: switch | q: close"@,
        ),
        parents.painted(fit, width, popup_height, lines) ==> framed(
            lines,
            "Choose parent session"@,
            "j/k: move | Enter: append | q: close"@,
        ),
{
}

/// Whether lines begin with a heading and an empty row, and end with an empty
/// row and a hint.
pub open spec fn framed(lines: Seq<Line>, heading: Seq<char>, hint: Seq<char>) -> bool {
    let count = lines.len() as int;
    &&& shows_centered(lines[0]@, heading, Color::Warning, true)
    &&& lines[1]@.spans.len() == 0
    &&& lines[count - 2]@.spans.len() == 0
    &&& shows_centered(lines[count - 1]@, hint, Color::TextMuted, false)
}

/// Whether a row shows one text in its middle.
pub open spec fn shows_centered(row: LineView, text: Seq<char>, color: Color, is_bold: bool) -> bool {
    &&& row.alignment == Some(Alignment::Center)
    &&& row.spans.len() == 1
    &&& row.spans[0].content == text
    &&& row.spans[0].style.fg == Some(color)
    &&& row.spans[0].style.bold == is_bold
}

/// The editor of commands shows its list or its form: the list with two hints
/// below it, the form with the typed text in its middle.
pub proof fn lemma_editor_lines<F: Fn(&String, usize) -> String>(
    popup: &LaunchConfigurationListEditor,
    fit: &F,
    width: usize,
    popup_height: int,
    lines: Seq<Line>,
)
    requires
        popup.painted(fit, width, popup_height, lines),
    ensures
        popup.editor.mode != LaunchConfigurationListEditorMode::Browse ==> {
            &&& lines.len() == 5
            &&& shows_centered(lines[0]@, input_title(popup.editor.mode), Color::Warning, true)
            &&& lines[1]@.spans.len() == 0
            &&& is_highlighted(lines[2]@)
            &&& lines[3]@.spans.len() == 0
            &&& shows_centered(
                lines[4]@,
                "Enter: save | Esc: cancel | Left/Right: cursor"@,
                Color::TextMuted,
                false,
            )
            &&& exists|label: Seq<char>| #[trigger]
                fitted(fit, edited_text(popup.editor.input), width, label) && lines[2]@ == input_row(
                    label,
                    width,
                )
        },
        popup.editor.mode == LaunchConfigurationListEditorMode::Browse ==> {
            let count = lines.len() as int;
            &&& lines[count - 3]@.spans.len() == 0
            &&& shows_centered(
                lines[count - 2]@,
                "j/k: move | a: add | e/Enter: edit | d: delete"@,
                Color::TextMuted,
                false,
            )
            &&& shows_centered(
                lines[count - 1]@,
                "J/K: reorder | Esc/q: close"@,
                Color::TextMuted,
                false,
            )
            &&& popup.editor.commands@.len() == 0 ==> count == 4 && shows_centered(
                lines[0]@,
                "(no commands configured)"@,
                Color::TextMuted,
                false,
            )
        },
{
}

/// Rows that are not selected are painted in the colors of their texts.
pub proof fn lemma_plain_row_colors(label: Seq<char>, count_label: Seq<char>, width: usize)
    ensures
        parent_row(label, width, false).spans[0].style.fg == Some(Color::Text),
        parent_row(label, width, false).spans[0].style.bg is None,
        command_row(label, width, false).spans[0].style.fg == Some(Color::TextSubtle),
        command_row(label, width, false).spans[1].style.fg == Some(Color::Text),
        project_row(label, count_label, width, false, false).spans[0].style.fg == Some(
            Color::TextSubtle,
        ),
        project_row(label, count_label, width, false, false).spans[1].style.fg == Some(Color::Text),
        project_row(label, count_label, width, false, true).spans[1].style.fg == Some(
            Color::Accent,
        ),
{
}

} // verus!
