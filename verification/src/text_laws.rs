//! What the text helpers promise of every text.

use vstd::prelude::*;

use crate::rich_text::{
    Alignment, Color, LineView, SpanView, Style, centered, display_width, empty_line, line_of,
    spans_text, spans_width, text_line, zero_width,
};
use crate::text::{
    decimal, digit, leading_white, padded_left, padded_right,
    trailing_white, trimmed, white, with_replaced,
};
use crate::text_lines::{joined_with, lemma_split_on, lines_of, split_on, text_less};

verus! {

/// The number that decimal digits stand for.
pub open spec fn value_of(digits: Seq<char>) -> int
    decreases digits.len(),
{
    if digits.len() == 0 {
        0
    } else {
        10 * value_of(digits.drop_last()) + (digits.last() as int - '0' as int)
    }
}

/// A written number reads as itself, in digits only, and without zeros in
/// front of it.
pub proof fn lemma_decimal(value: nat)
    ensures
        value_of(decimal(value)) == value,
        decimal(value).len() >= 1,
        forall|i: int|
            0 <= i < decimal(value).len() ==> '0' <= #[trigger] decimal(value)[i] <= '9',
        value > 0 ==> decimal(value)[0] != '0',
    decreases value,
{
    if value < 10 {
        let text = seq![digit(value as int)];
        assert(text.drop_last() =~= Seq::<char>::empty());
        reveal_with_fuel(value_of, 2);
        assert(digit(value as int) as int == 0x30 + value);
    } else {
        lemma_decimal(value / 10);
        let text = decimal(value);
        assert(text.drop_last() =~= decimal(value / 10));
        assert(digit((value % 10) as int) as int == 0x30 + value % 10);
    }
}

/// White space is what separates words: blanks, tabs and line breaks are, and
/// visible ASCII characters are not.
pub proof fn lemma_white_ascii(c: char)
    ensures
        c == ' ' || c == '\t' || c == '\n' || c == '\r' ==> white(c),
        '!' <= c <= '~' ==> !white(c),
{
}

/// Trimming cuts a piece out of a text: nothing but white space goes, and
/// what is left neither begins nor ends with any.
pub proof fn lemma_trimmed(text: Seq<char>)
    ensures
        ({
            let start = leading_white(text) as int;
            let kept = trimmed(text);
            &&& 0 <= start && start + kept.len() <= text.len()
            &&& kept == text.subrange(start, start + kept.len())
            &&& forall|i: int| 0 <= i < start ==> white(#[trigger] text[i])
            &&& forall|i: int| start + kept.len() <= i < text.len() ==> white(#[trigger] text[i])
            &&& kept.len() > 0 ==> !white(kept[0]) && !white(kept.last())
        }),
{
    lemma_leading(text);
    let start = leading_white(text) as int;
    let rest = text.skip(start);
    lemma_trailing(rest);
    let kept = trimmed(text);
    assert(kept =~= text.subrange(start, start + kept.len()));
    assert forall|i: int| start + kept.len() <= i < text.len() implies white(
        #[trigger] text[i],
    ) by {
        assert(rest[i - start] == text[i]);
    }
    if kept.len() > 0 {
        assert(kept[0] == text[start]);
        assert(kept.last() == rest[rest.len() - trailing_white(rest) - 1]);
    }
}

proof fn lemma_leading(text: Seq<char>)
    ensures
        leading_white(text) <= text.len(),
        forall|i: int| 0 <= i < leading_white(text) ==> white(#[trigger] text[i]),
        leading_white(text) < text.len() ==> !white(text[leading_white(text) as int]),
    decreases text.len(),
{
    if text.len() > 0 && white(text[0]) {
        let rest = text.drop_first();
        lemma_leading(rest);
        assert forall|i: int| 0 <= i < leading_white(text) implies white(#[trigger] text[i]) by {
            if i > 0 {
                assert(rest[i - 1] == text[i]);
            }
        }
    }
}

proof fn lemma_trailing(text: Seq<char>)
    ensures
        trailing_white(text) <= text.len(),
        forall|i: int|
            text.len() - trailing_white(text) <= i < text.len() ==> white(#[trigger] text[i]),
        trailing_white(text) < text.len() ==> !white(text[text.len() - trailing_white(text) - 1]),
    decreases text.len(),
{
    if text.len() > 0 && white(text.last()) {
        let rest = text.drop_last();
        lemma_trailing(rest);
        assert forall|i: int| text.len() - trailing_white(text) <= i < text.len() implies white(
            #[trigger] text[i],
        ) by {
            if i < rest.len() {
                assert(rest[i] == text[i]);
            }
        }
    }
}

/// Trimming twice is trimming once.
pub proof fn lemma_trim_twice(text: Seq<char>)
    ensures
        trimmed(trimmed(text)) == trimmed(text),
{
    let kept = trimmed(text);
    lemma_trimmed(text);
    lemma_trimmed(kept);
    lemma_leading(kept);
    let again = trimmed(kept);
    if kept.len() > 0 {
        assert(leading_white(kept) == 0);
        if again.len() < kept.len() {
            assert(white(kept[kept.len() - 1]));
        }
        assert(again =~= kept);
    } else {
        assert(again =~= kept);
    }
}

/// Filling up only adds blanks on the named side, up to the width and no
/// further.
pub proof fn lemma_padded(text: Seq<char>, width: int)
    ensures
        padded_right(text, width).len() == (if text.len() < width {
            width
        } else {
            text.len() as int
        }),
        text.is_prefix_of(padded_right(text, width)),
        forall|i: int|
            text.len() <= i < padded_right(text, width).len() ==> #[trigger] padded_right(
                text,
                width,
            )[i] == ' ',
        padded_left(text, width).len() == padded_right(text, width).len(),
        padded_left(text, width).skip(padded_left(text, width).len() - text.len()) == text,
        forall|i: int|
            0 <= i < padded_left(text, width).len() - text.len() ==> #[trigger] padded_left(
                text,
                width,
            )[i] == ' ',
{
    assert(padded_left(text, width).skip(padded_left(text, width).len() - text.len()) =~= text);
}

/// Exchanging a character leaves no other character touched and no place out.
pub proof fn lemma_replaced(text: Seq<char>, from: char, to: char)
    ensures
        with_replaced(text, from, to).len() == text.len(),
        forall|i: int|
            0 <= i < text.len() ==> (#[trigger] with_replaced(text, from, to)[i]) == (if text[i]
                == from {
                to
            } else {
                text[i]
            }),
        from != to ==> !with_replaced(text, from, to).contains(from),
        !text.contains(from) ==> with_replaced(text, from, to) == text,
{
    if !text.contains(from) {
        assert forall|i: int| 0 <= i < text.len() implies text[i] != from by {
            assert(text.contains(text[i]));
        }
        assert(with_replaced(text, from, to) =~= text);
    }
}

/// A text comes before another exactly where it is a shorter beginning of it,
/// or has the smaller character at the first place where they differ.
pub proof fn lemma_text_order(left: Seq<char>, right: Seq<char>, place: int)
    requires
        0 <= place <= left.len(),
        place <= right.len(),
        forall|i: int| 0 <= i < place ==> left[i] == right[i],
    ensures
        place == left.len() && place < right.len() ==> text_less(left, right),
        place == right.len() ==> !text_less(left, right),
        place < left.len() && place < right.len() && left[place] != right[place] ==> text_less(
            left,
            right,
        ) == (left[place] < right[place]),
    decreases place,
{
    if place > 0 {
        assert(left[0] == right[0]);
        assert forall|i: int| 0 <= i < place - 1 implies left.drop_first()[i]
            == right.drop_first()[i] by {
            assert(left[i + 1] == right[i + 1]);
        }
        lemma_text_order(left.drop_first(), right.drop_first(), place - 1);
    }
}

/// A text splits at every separator and nowhere else: one piece more than it
/// has separators.
pub proof fn lemma_split_count(text: Seq<char>, separator: char)
    ensures
        split_on(text, separator).len() == text.filter(|c: char| c == separator).len() + 1,
        !text.contains(separator) ==> split_on(text, separator) == seq![text],
    decreases text.len(),
{
    reveal(Seq::filter);
    if text.len() > 0 {
        let rest = text.drop_last();
        lemma_split_count(rest, separator);
        lemma_split_on(rest, separator);
        if !text.contains(separator) {
            assert(!rest.contains(separator)) by {
                if rest.contains(separator) {
                    let i = choose|i: int| 0 <= i < rest.len() && rest[i] == separator;
                    assert(text[i] == separator);
                }
            }
            assert(text[text.len() - 1] != separator);
            assert(split_on(rest, separator).drop_last() =~= Seq::<Seq<char>>::empty());
            assert(rest.push(text.last()) =~= text);
            assert(split_on(text, separator) =~= seq![text]);
        }
    } else {
        assert(text =~= Seq::<char>::empty());
        assert(split_on(text, separator) =~= seq![text]);
    }
}

/// The lines of a text hold no line break; ended lines follow each other, and
/// what stands behind the last line break is a line of its own unless it is
/// empty.
pub proof fn lemma_lines(text: Seq<char>, line: Seq<char>)
    requires
        !line.contains('\n'),
        line.len() > 0 ==> line.last() != '\r',
        text.len() == 0 || text.last() == '\n',
    ensures
        lines_of(text + line) == (if line.len() == 0 {
            lines_of(text)
        } else {
            lines_of(text).push(line)
        }),
        lines_of(text + line.push('\n')) == lines_of(text).push(line),
        lines_of(text + line.push('\r').push('\n')) == lines_of(text).push(line),
{
    let pieces = split_on(text, '\n');
    lemma_split_on(text, '\n');
    assert(pieces.last().len() == 0);
    lemma_split_unbroken(text, line, '\n');
    lemma_split_unbroken(text, line.push('\r'), '\n');
    let open = split_on(text + line, '\n');
    let ended = split_on((text + line).push('\n'), '\n');
    let returned = text + line.push('\r');
    let ended_return = split_on(returned.push('\n'), '\n');
    assert(!line.push('\r').contains('\n'));
    assert(text + line.push('\n') =~= (text + line).push('\n'));
    assert((text + line).push('\n').drop_last() =~= text + line);
    assert(text + line.push('\r').push('\n') =~= returned.push('\n'));
    assert(returned.push('\n').drop_last() =~= returned);
    assert(ended == open.push(Seq::empty()));
    assert(ended_return == split_on(returned, '\n').push(Seq::empty()));
    assert(ended.drop_last() =~= open);
    assert(open.drop_last() =~= pieces.drop_last());
    assert(line.push('\r').drop_last() =~= line);
    if line.len() == 0 {
        assert(text + line =~= text);
        assert(lines_of(text + line) =~= lines_of(text));
    } else {
        assert(lines_of(text + line) =~= lines_of(text).push(line));
    }
    assert(lines_of(text + line.push('\n')) =~= lines_of(text).push(line));
    assert(lines_of(text + line.push('\r').push('\n')) =~= lines_of(text).push(line));
}

proof fn lemma_split_unbroken(text: Seq<char>, line: Seq<char>, separator: char)
    requires
        !line.contains(separator),
        split_on(text, separator).len() >= 1,
        split_on(text, separator).last().len() == 0,
    ensures
        split_on(text + line, separator) == split_on(text, separator).drop_last().push(line),
    decreases line.len(),
{
    let pieces = split_on(text, separator);
    if line.len() == 0 {
        assert(text + line =~= text);
        assert(pieces.last() =~= line);
        assert(pieces =~= pieces.drop_last().push(line));
    } else {
        let rest = line.drop_last();
        assert(!rest.contains(separator)) by {
            if rest.contains(separator) {
                let i = choose|i: int| 0 <= i < rest.len() && rest[i] == separator;
                assert(line[i] == separator);
            }
        }
        lemma_split_unbroken(text, rest, separator);
        let whole = text + line;
        assert(whole.drop_last() =~= text + rest);
        assert(line[line.len() - 1] != separator);
        let before = split_on(text + rest, separator);
        assert(before.drop_last() =~= pieces.drop_last());
        assert(before.last() == rest);
        assert(rest.push(line.last()) =~= line);
    }
}

/// Pieces without the separator that are put together come apart again as
/// they were.
pub proof fn lemma_joined_comes_apart(pieces: Seq<Seq<char>>, separator: char)
    requires
        pieces.len() > 0,
        forall|i: int| 0 <= i < pieces.len() ==> !(#[trigger] pieces[i]).contains(separator),
    ensures
        split_on(joined_with(pieces, separator), separator) == pieces,
    decreases pieces.len(),
{
    let last = pieces.last();
    assert(!pieces[pieces.len() - 1].contains(separator));
    if pieces.len() == 1 {
        lemma_split_count(last, separator);
        assert(pieces =~= seq![last]);
    } else {
        let rest = pieces.drop_last();
        assert forall|i: int| 0 <= i < rest.len() implies !(#[trigger] rest[i]).contains(
            separator,
        ) by {
            assert(rest[i] == pieces[i]);
        }
        lemma_joined_comes_apart(rest, separator);
        let start = joined_with(rest, separator);
        let ended = start.push(separator);
        assert(ended.drop_last() =~= start);
        assert(split_on(ended, separator) == rest.push(Seq::empty()));
        lemma_split_unbroken(ended, last, separator);
        assert(rest.push(Seq::empty()).drop_last() =~= rest);
        assert(rest.push(last) =~= pieces);
        assert(joined_with(pieces, separator) =~= ended + last);
    }
}

/// The styles differ in what they are named after, and in nothing else.
pub proof fn lemma_styles(color: Color)
    ensures
        Style::plain_spec() == (Style { fg: None, bg: None, bold: false, italic: false }),
        Style::colored_spec(color) == (Style { fg: Some(color), ..Style::plain_spec() }),
        Style::bold_spec(color) == (Style { bold: true, ..Style::colored_spec(color) }),
        Style::highlight_spec() == (Style {
            bg: Some(Color::Accent),
            ..Style::bold_spec(Color::SurfaceOverlay)
        }),
{
}

/// A line shows its spans in their order, without alignment or style of its
/// own; a centered one shows a single span.
pub proof fn lemma_line_shapes(spans: Seq<SpanView>, content: Seq<char>, style: Style)
    ensures
        line_of(spans).spans == spans,
        line_of(spans).alignment is None,
        line_of(spans).style.fg is None && line_of(spans).style.bg is None,
        centered(content, style).alignment == Some(Alignment::Center),
        centered(content, style).spans == seq![SpanView { content, style }],
        empty_line().spans.len() == 0,
        text_line(content, style).style == style,
        text_line(content, style).alignment is None,
        text_line(content, style).spans.len() == lines_of(content).len(),
{
}

/// The text and the width of spans add up.
pub proof fn lemma_spans_add_up(first: Seq<SpanView>, last: SpanView)
    ensures
        spans_text(Seq::empty()).len() == 0,
        spans_text(first.push(last)) == spans_text(first) + last.content,
        spans_width(Seq::empty()) == 0,
        spans_width(first) + display_width(last.content) <= usize::MAX ==> spans_width(
            first.push(last),
        ) == spans_width(first) + display_width(last.content),
        spans_width(first) + display_width(last.content) > usize::MAX ==> spans_width(
            first.push(last),
        ) == usize::MAX,
{
    assert(first.push(last).drop_last() =~= first);
}

/// A line takes up no column exactly where none of its spans does.
pub proof fn lemma_no_columns(line: LineView, span: int)
    requires
        0 <= span < line.spans.len(),
    ensures
        display_width(line.spans[span].content) > 0 ==> !zero_width(line),
        line.spans.len() == 1 && display_width(line.spans[0].content) == 0 ==> zero_width(line),
        zero_width(empty_line()),
{
}

} // verus!
