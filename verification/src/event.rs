//! Reading, batching and routing of terminal events.

use vstd::prelude::*;

use crate::app_mode::{AppMode, PublishBranchInput};
use crate::click_handler::MouseOutcome;
use crate::input::{InputState, first_pasted_line, normalize_single_line_pasted_text};
use crate::key::{KeyCode, KeyEvent, KeyEventKind, KeyModifiers, MouseEvent, is_press_key_event};
use crate::tab::Tab;

verus! {

/// Most terminal events that one batch handles before the next frame.
pub const TERMINAL_EVENT_DRAIN_BUDGET: usize = 64;

/// Nanoseconds after which a batch gives way to the next frame.
pub const TERMINAL_EVENT_DRAIN_NANOS: u128 = 8_000_000;

/// An event of the terminal.
#[derive(Debug)]
pub enum TerminalEvent {
    Key(KeyEvent),
    Mouse(MouseEvent),
    Other,
    Paste(String),
}

/// What a poll for terminal events gave.
#[derive(Clone, Copy, Debug, PartialEq, Eq, Structural)]
pub enum PollOutcome {
    Failed,
    Interrupted,
    Nothing,
    Ready,
}

/// What a read of a terminal event gave.
#[derive(Clone, Copy, Debug, PartialEq, Eq, Structural)]
pub enum ReadOutcome {
    Event,
    Failed,
    Interrupted,
}

/// What the reader of terminal events does next.
#[derive(Clone, Copy, Debug, PartialEq, Eq, Structural)]
pub enum ReaderStep {
    /// The failure is handed on, and reading ends.
    ForwardError,
    /// The event is handed on.
    ForwardEvent,
    Poll,
    Read,
}

/// The reader's step after a poll.
pub open spec fn step_after_poll(outcome: PollOutcome) -> ReaderStep {
    match outcome {
        PollOutcome::Ready => ReaderStep::Read,
        PollOutcome::Nothing | PollOutcome::Interrupted => ReaderStep::Poll,
        PollOutcome::Failed => ReaderStep::ForwardError,
    }
}

/// The reader's step after a read.
pub open spec fn step_after_read(outcome: ReadOutcome) -> ReaderStep {
    match outcome {
        ReadOutcome::Event => ReaderStep::ForwardEvent,
        ReadOutcome::Interrupted => ReaderStep::Poll,
        ReadOutcome::Failed => ReaderStep::ForwardError,
    }
}

/// Finds the reader's step after a poll.
pub fn after_poll(outcome: PollOutcome) -> (step: ReaderStep)
    ensures
        step == step_after_poll(outcome),
{
    match outcome {
        PollOutcome::Ready => ReaderStep::Read,
        PollOutcome::Nothing | PollOutcome::Interrupted => ReaderStep::Poll,
        PollOutcome::Failed => ReaderStep::ForwardError,
    }
}

/// Finds the reader's step after a read.
pub fn after_read(outcome: ReadOutcome) -> (step: ReaderStep)
    ensures
        step == step_after_read(outcome),
{
    match outcome {
        ReadOutcome::Event => ReaderStep::ForwardEvent,
        ReadOutcome::Interrupted => ReaderStep::Poll,
        ReadOutcome::Failed => ReaderStep::ForwardError,
    }
}

/// Reports whether reading goes on after a step: a failure ends it, and so
/// does an event that nobody receives.
pub fn reading_continues(step: ReaderStep, is_delivered: bool) -> (result: bool)
    ensures
        result == (match step {
            ReaderStep::ForwardError => false,
            ReaderStep::ForwardEvent => is_delivered,
            _ => true,
        }),
{
    match step {
        ReaderStep::ForwardError => false,
        ReaderStep::ForwardEvent => is_delivered,
        _ => true,
    }
}

/// Text of the failure when the reader of terminal events is gone.
pub fn terminal_event_channel_closed_error() -> (message: String)
    ensures
        message@ == "terminal event reader stopped"@,
{
    "terminal event reader stopped".to_owned()
}

/// What woke up the event loop.
#[derive(Clone, Copy, Debug, PartialEq, Eq, Structural)]
pub enum LoopSignal {
    ChannelClosed,
    ReaderFailed,
    /// Work of the application itself.
    Runtime,
    TerminalEvent,
    Tick,
}

/// What a look for another terminal event gave.
#[derive(Clone, Copy, Debug, PartialEq, Eq, Structural)]
pub enum DrainResult {
    ChannelClosed,
    Empty,
    Event,
    ReaderFailed,
}

/// How a batch ended.
#[derive(Clone, Copy, Debug, PartialEq, Eq, Structural)]
pub enum BatchEnd {
    ChannelClosed,
    Continue,
    HandlerFailed,
    Quit,
    ReaderFailed,
}

/// What a handler made of an event.
#[derive(Clone, Copy, Debug, PartialEq, Eq, Structural)]
pub enum HandlerResult {
    Continue,
    Failed,
    Quit,
}

/// Where a batch of terminal events stands.
#[derive(Clone, Copy, Debug, PartialEq, Eq, Structural)]
pub enum BatchState {
    Done(BatchEnd),
    /// The handler runs on the event that was received last, or on none.
    Handling,
    /// Another terminal event is looked for, unless time is up.
    Looking,
}

/// A batch of terminal events between two frames.
#[derive(Clone, Copy, Debug, PartialEq, Eq, Structural)]
pub struct EventBatch {
    /// Terminal events that were received.
    pub handled: usize,
    /// Looks for another terminal event that are left.
    pub looks_left: usize,
    pub state: BatchState,
}

impl EventBatch {
    /// The batch holds no more events than its budget.
    pub open spec fn well_formed(self) -> bool {
        self.handled + self.looks_left <= TERMINAL_EVENT_DRAIN_BUDGET
    }

    /// The batch that a signal starts.
    pub open spec fn started(signal: LoopSignal) -> EventBatch {
        let budget = TERMINAL_EVENT_DRAIN_BUDGET;
        match signal {
            LoopSignal::ChannelClosed => EventBatch {
                handled: 0,
                looks_left: budget,
                state: BatchState::Done(BatchEnd::ChannelClosed),
            },
            LoopSignal::ReaderFailed => EventBatch {
                handled: 0,
                looks_left: budget,
                state: BatchState::Done(BatchEnd::ReaderFailed),
            },
            LoopSignal::TerminalEvent => EventBatch {
                handled: 1,
                looks_left: (budget - 1) as usize,
                state: BatchState::Handling,
            },
            LoopSignal::Runtime | LoopSignal::Tick => EventBatch {
                handled: 0,
                looks_left: budget,
                state: BatchState::Handling,
            },
        }
    }

    /// The batch after the handler ran.
    pub open spec fn after_handler(self, result: HandlerResult) -> EventBatch {
        EventBatch {
            state: match result {
                HandlerResult::Continue => BatchState::Looking,
                HandlerResult::Failed => BatchState::Done(BatchEnd::HandlerFailed),
                HandlerResult::Quit => BatchState::Done(BatchEnd::Quit),
            },
            ..self
        }
    }

    /// Whether the batch still looks for events after `elapsed` nanoseconds.
    pub open spec fn may_look(self, elapsed: u128) -> bool {
        self.looks_left > 0 && elapsed < TERMINAL_EVENT_DRAIN_NANOS
    }

    /// The batch after a look for another event.
    pub open spec fn after_look(self, result: DrainResult) -> EventBatch {
        match result {
            DrainResult::Event => EventBatch {
                handled: (self.handled + 1) as usize,
                looks_left: (self.looks_left - 1) as usize,
                state: BatchState::Handling,
            },
            DrainResult::Empty => EventBatch {
                state: BatchState::Done(BatchEnd::Continue),
                ..self
            },
            DrainResult::ChannelClosed => EventBatch {
                state: BatchState::Done(BatchEnd::ChannelClosed),
                ..self
            },
            DrainResult::ReaderFailed => EventBatch {
                state: BatchState::Done(BatchEnd::ReaderFailed),
                ..self
            },
        }
    }

    /// Starts a batch on a signal.
    pub fn start(signal: LoopSignal) -> (batch: EventBatch)
        ensures
            batch == EventBatch::started(signal),
            batch.well_formed(),
    {
        let budget: usize = TERMINAL_EVENT_DRAIN_BUDGET;
        match signal {
            LoopSignal::ChannelClosed => EventBatch {
                handled: 0,
                looks_left: budget,
                state: BatchState::Done(BatchEnd::ChannelClosed),
            },
            LoopSignal::ReaderFailed => EventBatch {
                handled: 0,
                looks_left: budget,
                state: BatchState::Done(BatchEnd::ReaderFailed),
            },
            LoopSignal::TerminalEvent => EventBatch {
                handled: 1,
                looks_left: budget - 1,
                state: BatchState::Handling,
            },
            LoopSignal::Runtime | LoopSignal::Tick => EventBatch {
                handled: 0,
                looks_left: budget,
                state: BatchState::Handling,
            },
        }
    }

    /// Takes note of what the handler did.
    pub fn handler_finished(&mut self, result: HandlerResult)
        requires
            old(self).well_formed(),
        ensures
            *final(self) == old(self).after_handler(result),
            final(self).well_formed(),
    {
        self.state = match result {
            HandlerResult::Continue => BatchState::Looking,
            HandlerResult::Failed => BatchState::Done(BatchEnd::HandlerFailed),
            HandlerResult::Quit => BatchState::Done(BatchEnd::Quit),
        };
    }

    /// Reports whether to look for another event; without looks or time left
    /// the batch ends.
    pub fn looks_further(&mut self, elapsed_nanos: u128) -> (looks: bool)
        requires
            old(self).well_formed(),
        ensures
            looks == old(self).may_look(elapsed_nanos),
            *final(self) == (if looks {
                *old(self)
            } else {
                EventBatch { state: BatchState::Done(BatchEnd::Continue), ..*old(self) }
            }),
            final(self).well_formed(),
    {
        if self.looks_left > 0 && elapsed_nanos < TERMINAL_EVENT_DRAIN_NANOS {
            return true;
        }
        self.state = BatchState::Done(BatchEnd::Continue);
        false
    }

    /// Takes note of what a look for another event gave.
    pub fn looked(&mut self, result: DrainResult)
        requires
            old(self).well_formed(),
            old(self).looks_left > 0,
        ensures
            *final(self) == old(self).after_look(result),
            final(self).well_formed(),
    {
        match result {
            DrainResult::Event => {
                self.handled = self.handled + 1;
                self.looks_left = self.looks_left - 1;
                self.state = BatchState::Handling;
            },
            DrainResult::Empty => {
                self.state = BatchState::Done(BatchEnd::Continue);
            },
            DrainResult::ChannelClosed => {
                self.state = BatchState::Done(BatchEnd::ChannelClosed);
            },
            DrainResult::ReaderFailed => {
                self.state = BatchState::Done(BatchEnd::ReaderFailed);
            },
        }
    }
}

/// The batch after handling one event after the other, each received within
/// the time, without any handler ending it.
pub open spec fn drained(batch: EventBatch, events: nat) -> EventBatch
    decreases events,
{
    if events == 0 {
        batch
    } else {
        drained(batch, (events - 1) as nat).after_look(DrainResult::Event).after_handler(
            HandlerResult::Continue,
        )
    }
}

/// However many events wait, a batch handles no more than its budget before
/// the next frame.
pub proof fn lemma_batch_keeps_budget(signal: LoopSignal, events: nat, elapsed: u128)
    requires
        events <= EventBatch::started(signal).looks_left,
    ensures
        ({
            let batch = drained(EventBatch::started(signal), events);
            &&& batch.well_formed()
            &&& batch.handled <= TERMINAL_EVENT_DRAIN_BUDGET
            &&& batch.handled == EventBatch::started(signal).handled + events
            &&& batch.may_look(elapsed) ==> batch.handled < TERMINAL_EVENT_DRAIN_BUDGET
        }),
{
    lemma_drained(EventBatch::started(signal), events);
}

proof fn lemma_drained(batch: EventBatch, events: nat)
    requires
        batch.well_formed(),
        events <= batch.looks_left,
    ensures
        drained(batch, events).handled == batch.handled + events,
        drained(batch, events).looks_left == batch.looks_left - events,
    decreases events,
{
    if events > 0 {
        lemma_drained(batch, (events - 1) as nat);
    }
}

/// Where a terminal event goes.
#[derive(Debug)]
pub enum EventRoute {
    Key(KeyEvent),
    Mouse(MouseEvent),
    Nothing,
    Paste(String),
}

/// The route of a terminal event: of keys only the press counts.
pub open spec fn route_of_event(event: Option<TerminalEvent>) -> EventRoute {
    match event {
        Some(TerminalEvent::Key(key)) => if key.kind == KeyEventKind::Press {
            EventRoute::Key(key)
        } else {
            EventRoute::Nothing
        },
        Some(TerminalEvent::Mouse(mouse)) => EventRoute::Mouse(mouse),
        Some(TerminalEvent::Paste(text)) => EventRoute::Paste(text),
        _ => EventRoute::Nothing,
    }
}

/// Finds the route of a terminal event.
pub fn event_route(event: Option<TerminalEvent>) -> (route: EventRoute)
    ensures
        route == route_of_event(event),
{
    match event {
        Some(TerminalEvent::Key(key)) => if is_press_key_event(key) {
            EventRoute::Key(key)
        } else {
            EventRoute::Nothing
        },
        Some(TerminalEvent::Mouse(mouse)) => EventRoute::Mouse(mouse),
        Some(TerminalEvent::Paste(text)) => EventRoute::Paste(text),
        _ => EventRoute::Nothing,
    }
}

/// What a batch of scroll keys made of a key that it was offered.
#[derive(Clone, Copy, Debug, PartialEq, Eq, Structural)]
pub enum ScrollOffer {
    Declined,
    Failed,
    Scrolled,
}

/// What becomes of an event that a batch of scroll keys was offered.
#[derive(Clone, Copy, Debug, PartialEq, Eq, Structural)]
pub enum ScrollStep {
    Continue,
    Fail,
    /// The batch ends, and the event is handled like any other.
    HandleEvent,
}

/// Finds the key that a batch of scroll keys is offered: of keys only the
/// press counts.
pub fn scroll_key(event: &Option<TerminalEvent>) -> (key: Option<KeyEvent>)
    ensures
        key == (match *event {
            Some(TerminalEvent::Key(key)) if key.kind == KeyEventKind::Press => Some(key),
            _ => None,
        }),
{
    match event {
        Some(TerminalEvent::Key(key)) => if is_press_key_event(*key) {
            Some(*key)
        } else {
            None
        },
        _ => None,
    }
}

/// Finds out what becomes of an event, offered to a batch of scroll keys or
/// not.
pub fn after_scroll_offer(offer: Option<ScrollOffer>) -> (step: ScrollStep)
    ensures
        step == (match offer {
            Some(ScrollOffer::Scrolled) => ScrollStep::Continue,
            Some(ScrollOffer::Failed) => ScrollStep::Fail,
            _ => ScrollStep::HandleEvent,
        }),
{
    match offer {
        Some(ScrollOffer::Scrolled) => ScrollStep::Continue,
        Some(ScrollOffer::Failed) => ScrollStep::Fail,
        _ => ScrollStep::HandleEvent,
    }
}

/// What follows from a mouse event.
#[derive(Clone, Copy, Debug, PartialEq, Eq, Structural)]
pub struct MouseEffect {
    /// The key that stands for the click.
    pub key: Option<KeyEvent>,
    pub redraws: bool,
    /// The tab to be shown and remembered.
    pub tab: Option<Tab>,
}

/// What follows from the outcome of a mouse event: the selected item is
/// activated by the `Enter` key.
pub open spec fn effect_of(outcome: MouseOutcome) -> MouseEffect {
    match outcome {
        MouseOutcome::Ignored => MouseEffect { key: None, redraws: false, tab: None },
        MouseOutcome::Redraw => MouseEffect { key: None, redraws: true, tab: None },
        MouseOutcome::SwitchTab(tab) => MouseEffect { key: None, redraws: true, tab: Some(tab) },
        MouseOutcome::Activate => MouseEffect {
            key: Some(KeyEvent::press(KeyCode::Enter, KeyModifiers::none_spec())),
            redraws: true,
            tab: None,
        },
    }
}

/// Finds out what follows from the outcome of a mouse event.
pub fn mouse_effect(outcome: MouseOutcome) -> (effect: MouseEffect)
    ensures
        effect == effect_of(outcome),
{
    match outcome {
        MouseOutcome::Ignored => MouseEffect { key: None, redraws: false, tab: None },
        MouseOutcome::Redraw => MouseEffect { key: None, redraws: true, tab: None },
        MouseOutcome::SwitchTab(tab) => MouseEffect { key: None, redraws: true, tab: Some(tab) },
        MouseOutcome::Activate => MouseEffect {
            key: Some(KeyEvent::new(KeyCode::Enter, KeyModifiers::none())),
            redraws: true,
            tab: None,
        },
    }
}

/// The handler of pasted text.
#[derive(Clone, Copy, Debug, PartialEq, Eq, Structural)]
pub enum PasteRoute {
    Diff,
    Nothing,
    Prompt,
    PublishBranchInput,
    Question,
    Settings,
}

/// The handler that pasted text goes to; a locked branch name takes none.
pub open spec fn paste_route_of(mode: AppMode) -> PasteRoute {
    match mode {
        AppMode::Prompt { .. } => PasteRoute::Prompt,
        AppMode::Question { .. } => PasteRoute::Question,
        AppMode::Diff(_) => PasteRoute::Diff,
        AppMode::PublishBranchInput(popup) => if popup.locked_upstream_ref is None {
            PasteRoute::PublishBranchInput
        } else {
            PasteRoute::Nothing
        },
        AppMode::List => PasteRoute::Settings,
        _ => PasteRoute::Nothing,
    }
}

/// Finds the handler that pasted text goes to.
pub fn paste_route(mode: &AppMode) -> (route: PasteRoute)
    ensures
        route == paste_route_of(*mode),
        *mode is Prompt ==> route == PasteRoute::Prompt,
        *mode is Question ==> route == PasteRoute::Question,
        *mode is Diff ==> route == PasteRoute::Diff,
        *mode is List ==> route == PasteRoute::Settings,
{
    match mode {
        AppMode::Prompt { .. } => PasteRoute::Prompt,
        AppMode::Question { .. } => PasteRoute::Question,
        AppMode::Diff(_) => PasteRoute::Diff,
        AppMode::PublishBranchInput(popup) => if popup.locked_upstream_ref.is_none() {
            PasteRoute::PublishBranchInput
        } else {
            PasteRoute::Nothing
        },
        AppMode::List => PasteRoute::Settings,
        _ => PasteRoute::Nothing,
    }
}

/// Whether `after` is the field `before` with `text` inserted at its cursor.
pub open spec fn text_inserted(before: InputState, after: InputState, text: Seq<char>) -> bool {
    let point = before.insertion_point();
    &&& after.text@ == before.text@.take(point) + text + before.text@.skip(point)
    &&& after.cursor == point + text.len()
}

/// Pastes the first line of a text into a branch name that may change.
///
/// Returns the handler that the text goes to otherwise.
pub fn process_paste_event(mode: &mut AppMode, pasted_text: &str) -> (route: PasteRoute)
    ensures
        route == paste_route_of(*old(mode)),
        *old(mode) is Prompt ==> route == PasteRoute::Prompt,
        *old(mode) is Question ==> route == PasteRoute::Question,
        *old(mode) is Diff ==> route == PasteRoute::Diff,
        *old(mode) is List ==> route == PasteRoute::Settings,
        route != PasteRoute::PublishBranchInput ==> *final(mode) == *old(mode),
        route == PasteRoute::PublishBranchInput ==> {
            &&& *old(mode) matches AppMode::PublishBranchInput(before)
            &&& *final(mode) matches AppMode::PublishBranchInput(after)
            &&& after == (PublishBranchInput { input: after.input, ..before })
            &&& text_inserted(before.input, after.input, first_pasted_line(pasted_text@))
        },
{
    let route: PasteRoute = paste_route(mode);
    if let AppMode::PublishBranchInput(popup) = mode {
        if popup.locked_upstream_ref.is_none() {
            let text: String = normalize_single_line_pasted_text(pasted_text);
            popup.input.insert_text(text.as_str());
        }
    }
    route
}

} // verus!
