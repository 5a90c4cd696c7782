//! What becomes of terminal events and pasted text.

use vstd::prelude::*;

use crate::app_mode::AppMode;
use crate::click_handler::MouseOutcome;
use crate::event::{
    BatchEnd, BatchState, DrainResult, EventBatch, EventRoute, HandlerResult, LoopSignal,
    MouseEffect, PasteRoute, PollOutcome, ReadOutcome, ReaderStep, ScrollOffer, ScrollStep,
    TerminalEvent, after_poll, after_read, after_scroll_offer, event_route, mouse_effect,
    paste_route, reading_continues, scroll_key, text_inserted,
};
use crate::input::{InputState, first_pasted_line, unified_breaks};
use crate::key::{KeyCode, KeyEvent, KeyEventKind};
use crate::text_lines::{joined_with, lemma_split_on, split_on};

verus! {

/// Pasted text reaches the field that is open: the composer, the answer to a
/// question, a comment on a diff, a branch name that may still change, and in
/// the list the settings. Nowhere else is there a field for it.
pub proof fn lemma_pasted_text_reaches_its_field(mode: AppMode, route: PasteRoute)
    requires
        call_ensures(paste_route, (&mode,), route),
    ensures
        mode is Prompt <==> route == PasteRoute::Prompt,
        mode is Question <==> route == PasteRoute::Question,
        mode is Diff <==> route == PasteRoute::Diff,
        mode is List <==> route == PasteRoute::Settings,
        (mode matches AppMode::PublishBranchInput(popup) && popup.locked_upstream_ref is None)
            <==> route == PasteRoute::PublishBranchInput,
        route == PasteRoute::Nothing ==> !(mode is Prompt || mode is Question || mode is Diff
            || mode is List),
{
}

/// Inserted text stands in one piece at the cursor, which ends up behind it;
/// what stood before and behind stays.
pub proof fn lemma_inserted_text(before: InputState, after: InputState, text: Seq<char>)
    requires
        text_inserted(before, after, text),
        before.cursor <= before.text@.len(),
    ensures
        after.text@.len() == before.text@.len() + text.len(),
        after.cursor == before.cursor + text.len(),
        forall|i: int| 0 <= i < before.cursor ==> after.text@[i] == before.text@[i],
        forall|i: int|
            0 <= i < text.len() ==> #[trigger] text[i] == after.text@[before.cursor + i],
        forall|i: int|
            before.cursor <= i < before.text@.len() ==> #[trigger] before.text@[i]
                == after.text@[i + text.len()],
{
}

/// Where the cursor is past the end, inserted text follows the whole text.
pub proof fn lemma_inserted_at_end(before: InputState, after: InputState, text: Seq<char>)
    requires
        text_inserted(before, after, text),
        before.cursor >= before.text@.len(),
    ensures
        after.text@ == before.text@ + text,
        after.cursor == after.text@.len(),
{
    assert(before.text@.take(before.text@.len() as int) =~= before.text@);
    assert(before.text@.skip(before.text@.len() as int) =~= Seq::<char>::empty());
    assert(after.text@ =~= before.text@ + text);
}

/// Unified text holds no carriage return, and text without one stays as it
/// is.
pub proof fn lemma_unified_breaks(text: Seq<char>)
    ensures
        forall|i: int|
            0 <= i < unified_breaks(text).len() ==> #[trigger] unified_breaks(text)[i] != '\r',
        unified_breaks(text).len() <= text.len(),
        !text.contains('\r') ==> unified_breaks(text) == text,
    decreases text.len(),
{
    if text.len() > 0 {
        let rest = text.drop_last();
        lemma_unified_breaks(rest);
        if !text.contains('\r') {
            assert(!rest.contains('\r')) by {
                if rest.contains('\r') {
                    let i = choose|i: int| 0 <= i < rest.len() && rest[i] == '\r';
                    assert(text[i] == '\r');
                }
            }
            assert(text[text.len() - 1] != '\r');
            if text.len() >= 2 {
                assert(text[text.len() - 2] != '\r');
            }
            assert(unified_breaks(text) =~= text);
        }
    }
}

/// A carriage return and a line feed are one line break, as is either alone.
pub proof fn lemma_one_break_each(text: Seq<char>)
    requires
        !text.contains('\r'),
    ensures
        unified_breaks(text + seq!['\r', '\n']) == text.push('\n'),
        unified_breaks(text + seq!['\r']) == text.push('\n'),
        unified_breaks(text + seq!['\n']) == text.push('\n'),
{
    lemma_unified_breaks(text);
    let returned = text + seq!['\r'];
    let both = text + seq!['\r', '\n'];
    let feed = text + seq!['\n'];
    assert(returned.drop_last() =~= text);
    assert(both.drop_last() =~= returned);
    assert(feed.drop_last() =~= text);
    assert(returned.last() == '\r' && both.last() == '\n' && feed.last() == '\n');
    assert(both[both.len() - 2] == '\r');
    if text.len() > 0 {
        assert(feed[feed.len() - 2] == text.last());
        assert(text[text.len() - 1] == text.last());
    }
    assert(unified_breaks(returned) == text.push('\n'));
    assert(unified_breaks(both) == unified_breaks(both.drop_last()));
}

/// Line breaks are unified piece by piece, wherever the text is cut but in
/// the middle of a line break.
pub proof fn lemma_breaks_unified_everywhere(before: Seq<char>, after: Seq<char>)
    requires
        before.len() == 0 || after.len() == 0 || before.last() != '\r' || after[0] != '\n',
    ensures
        unified_breaks(before + after) == unified_breaks(before) + unified_breaks(after),
    decreases after.len(),
{
    if after.len() == 0 {
        assert(before + after =~= before);
        assert(unified_breaks(before) + unified_breaks(after) =~= unified_breaks(before));
    } else {
        let rest = after.drop_last();
        let whole = before + after;
        lemma_breaks_unified_everywhere(before, rest);
        assert(whole.drop_last() =~= before + rest);
        assert(whole.last() == after.last());
        if after.len() >= 2 {
            assert(whole[whole.len() - 2] == after[after.len() - 2]);
        } else if before.len() > 0 {
            assert(whole[whole.len() - 2] == before.last());
        }
        assert(unified_breaks(whole) =~= unified_breaks(before) + unified_breaks(after));
    }
}

/// What is pasted into a field of one line is the beginning of the pasted
/// text up to its first line break, and holds none.
pub proof fn lemma_first_pasted_line(text: Seq<char>)
    ensures
        ({
            let line = first_pasted_line(text);
            let whole = unified_breaks(text);
            &&& !line.contains('\n')
            &&& !line.contains('\r')
            &&& line.is_prefix_of(whole)
            &&& line.len() < whole.len() ==> whole[line.len() as int] == '\n'
            &&& !whole.contains('\n') ==> line == whole
        }),
{
    let whole = unified_breaks(text);
    let pieces = split_on(whole, '\n');
    lemma_split_on(whole, '\n');
    lemma_unified_breaks(text);
    lemma_first_piece(pieces, '\n');
    let line = pieces[0];
    assert(!line.contains('\r')) by {
        if line.contains('\r') {
            let i = choose|i: int| 0 <= i < line.len() && line[i] == '\r';
            assert(whole[i] == '\r');
        }
    }
    if line.len() < whole.len() {
        assert(whole.contains('\n'));
    } else {
        assert(line =~= whole);
    }
}

proof fn lemma_first_piece(pieces: Seq<Seq<char>>, separator: char)
    requires
        pieces.len() >= 1,
    ensures
        pieces[0].is_prefix_of(joined_with(pieces, separator)),
        pieces.len() > 1 ==> {
            &&& pieces[0].len() < joined_with(pieces, separator).len()
            &&& joined_with(pieces, separator)[pieces[0].len() as int] == separator
        },
        pieces.len() == 1 ==> joined_with(pieces, separator) == pieces[0],
    decreases pieces.len(),
{
    if pieces.len() > 1 {
        let rest = pieces.drop_last();
        lemma_first_piece(rest, separator);
        let whole = joined_with(pieces, separator);
        let start = joined_with(rest, separator);
        assert(forall|i: int| 0 <= i < start.len() ==> whole[i] == start[i]);
        if pieces.len() == 2 {
            assert(start == pieces[0]);
            assert(whole[start.len() as int] == separator);
        }
    }
}

/// Pressed keys, the mouse and pasted text arrive as they were sent; a key
/// that is released or repeats, and every other event, goes nowhere.
pub proof fn lemma_events_arrive_unchanged(event: Option<TerminalEvent>, route: EventRoute)
    requires
        call_ensures(event_route, (event,), route),
    ensures
        event matches Some(TerminalEvent::Key(key)) ==> {
            &&& key.kind == KeyEventKind::Press ==> route == EventRoute::Key(key)
            &&& key.kind != KeyEventKind::Press ==> route is Nothing
        },
        event matches Some(TerminalEvent::Mouse(mouse)) ==> route == EventRoute::Mouse(mouse),
        event matches Some(TerminalEvent::Paste(text)) ==> route == EventRoute::Paste(text),
        event is None || event == Some(TerminalEvent::Other) ==> route is Nothing,
        route matches EventRoute::Key(key) ==> event == Some(TerminalEvent::Key(key)),
        route matches EventRoute::Mouse(mouse) ==> event == Some(TerminalEvent::Mouse(mouse)),
        route matches EventRoute::Paste(text) ==> event == Some(TerminalEvent::Paste(text)),
{
}

/// The batch of scroll keys is offered exactly the keys that are routed as
/// keys, and what it declines is handled like any other event.
pub proof fn lemma_scroll_batch(
    event: Option<TerminalEvent>,
    route: EventRoute,
    key: Option<KeyEvent>,
    offer: Option<ScrollOffer>,
    step: ScrollStep,
)
    requires
        call_ensures(event_route, (event,), route),
        call_ensures(scroll_key, (&event,), key),
        call_ensures(after_scroll_offer, (offer,), step),
    ensures
        key is Some <==> route is Key,
        key matches Some(offered) ==> route == EventRoute::Key(offered),
        step == ScrollStep::Continue <==> offer == Some(ScrollOffer::Scrolled),
        step == ScrollStep::Fail <==> offer == Some(ScrollOffer::Failed),
        step == ScrollStep::HandleEvent <==> (offer is None || offer == Some(
            ScrollOffer::Declined,
        )),
{
}

/// The reader reads exactly when an event is ready, hands every read event
/// on, polls again after nothing or an interruption, and stops only when
/// something failed or nobody receives its events.
pub proof fn lemma_reader_steps(
    polled: PollOutcome,
    read: ReadOutcome,
    after_polling: ReaderStep,
    after_reading: ReaderStep,
    is_delivered: bool,
    goes_on: (bool, bool),
)
    requires
        call_ensures(after_poll, (polled,), after_polling),
        call_ensures(after_read, (read,), after_reading),
        call_ensures(reading_continues, (after_polling, is_delivered), goes_on.0),
        call_ensures(reading_continues, (after_reading, is_delivered), goes_on.1),
    ensures
        after_polling == ReaderStep::Read <==> polled == PollOutcome::Ready,
        after_polling == ReaderStep::ForwardError <==> polled == PollOutcome::Failed,
        after_polling == ReaderStep::Poll <==> (polled == PollOutcome::Nothing || polled
            == PollOutcome::Interrupted),
        after_reading == ReaderStep::ForwardEvent <==> read == ReadOutcome::Event,
        after_reading == ReaderStep::ForwardError <==> read == ReadOutcome::Failed,
        after_reading == ReaderStep::Poll <==> read == ReadOutcome::Interrupted,
        goes_on.0 <==> polled != PollOutcome::Failed,
        goes_on.1 <==> (read == ReadOutcome::Interrupted || (read == ReadOutcome::Event
            && is_delivered)),
{
}

/// A batch starts with the event that woke it, works on it first, and may
/// hold 64 events in all. A closed or failed reader ends it at once.
pub proof fn lemma_batch_start(signal: LoopSignal)
    ensures
        ({
            let batch = EventBatch::started(signal);
            &&& batch.handled == 1 <==> signal == LoopSignal::TerminalEvent
            &&& batch.handled <= 1
            &&& batch.handled + batch.looks_left == 64
            &&& batch.state == BatchState::Done(BatchEnd::ChannelClosed) <==> signal
                == LoopSignal::ChannelClosed
            &&& batch.state == BatchState::Done(BatchEnd::ReaderFailed) <==> signal
                == LoopSignal::ReaderFailed
            &&& batch.state == BatchState::Handling <==> (signal == LoopSignal::TerminalEvent
                || signal == LoopSignal::Runtime || signal == LoopSignal::Tick)
        }),
{
}

/// Every received event is handled and counted once; what is counted and what
/// may still come stay together the same. Anything else ends the batch, and
/// says why.
pub proof fn lemma_batch_look(batch: EventBatch, result: DrainResult)
    requires
        batch.looks_left > 0,
        batch.handled < usize::MAX,
    ensures
        ({
            let next = batch.after_look(result);
            &&& next.handled + next.looks_left == batch.handled + batch.looks_left
            &&& next.handled == batch.handled + 1 <==> result == DrainResult::Event
            &&& next.state == BatchState::Handling <==> result == DrainResult::Event
            &&& result == DrainResult::Empty ==> next.state == BatchState::Done(
                BatchEnd::Continue,
            )
            &&& result == DrainResult::ChannelClosed ==> next.state == BatchState::Done(
                BatchEnd::ChannelClosed,
            )
            &&& result == DrainResult::ReaderFailed ==> next.state == BatchState::Done(
                BatchEnd::ReaderFailed,
            )
        }),
{
}

/// A handled event lets the batch look for another one; quitting or failing
/// ends it. Time ends it after eight milliseconds, and so does the last look.
pub proof fn lemma_batch_goes_on(batch: EventBatch, result: HandlerResult, elapsed: u128)
    ensures
        ({
            let next = batch.after_handler(result);
            &&& next.handled == batch.handled
            &&& next.looks_left == batch.looks_left
            &&& next.state == BatchState::Looking <==> result == HandlerResult::Continue
            &&& next.state == BatchState::Done(BatchEnd::Quit) <==> result == HandlerResult::Quit
            &&& next.state == BatchState::Done(BatchEnd::HandlerFailed) <==> result
                == HandlerResult::Failed
        }),
        elapsed >= 8_000_000 ==> !batch.may_look(elapsed),
        batch.looks_left == 0 ==> !batch.may_look(elapsed),
        elapsed < 8_000_000 && batch.looks_left > 0 ==> batch.may_look(elapsed),
{
}

/// The screen is painted anew after every mouse event that was not ignored;
/// only an activated item stands for the enter key, and only a clicked tab is
/// shown and remembered.
pub proof fn lemma_mouse_effects(outcome: MouseOutcome, effect: MouseEffect)
    requires
        call_ensures(mouse_effect, (outcome,), effect),
    ensures
        effect.redraws <==> outcome != MouseOutcome::Ignored,
        effect.key is Some <==> outcome == MouseOutcome::Activate,
        effect.key matches Some(key) ==> key.code == KeyCode::Enter && key.kind
            == KeyEventKind::Press && !key.modifiers.alt && !key.modifiers.control
            && !key.modifiers.shift && !key.modifiers.other,
        effect.tab is Some <==> outcome is SwitchTab,
        outcome matches MouseOutcome::SwitchTab(tab) ==> effect.tab == Some(tab),
{
}

/// Every carriage return is a line break of its own, wherever it stands.
pub proof fn lemma_return_breaks_line(before: Seq<char>, after: Seq<char>)
    requires
        after.len() == 0 || after[0] != '\n',
    ensures
        unified_breaks(before + seq!['\r'] + after) == unified_breaks(before).push('\n')
            + unified_breaks(after),
{
    let start = before + seq!['\r'];
    assert(start.drop_last() =~= before);
    assert(start.last() == '\r');
    lemma_breaks_unified_everywhere(start, after);
    assert(unified_breaks(start) == unified_breaks(before).push('\n'));
}

} // verus!
