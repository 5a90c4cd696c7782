use agentty_tui::app_mode::{
    AppMode, ConfirmationViewMode, HelpContext, PublishBranchAction, PublishBranchInput,
};
use agentty_tui::click_handler::{ClickFacts, ListPages, MouseOutcome, SettingsLists};
use agentty_tui::diff_page::DiffContent;
use agentty_tui::event::{
    BatchEnd, BatchState, DrainResult, EventBatch, EventRoute, HandlerResult, LoopSignal,
    MouseEffect, PasteRoute, PollOutcome, ReadOutcome, ReaderStep, ScrollOffer, ScrollStep,
    TERMINAL_EVENT_DRAIN_BUDGET, TERMINAL_EVENT_DRAIN_NANOS, TerminalEvent, after_poll, after_read,
    after_scroll_offer, event_route, mouse_effect, process_paste_event, reading_continues,
    scroll_key, terminal_event_channel_closed_error,
};
use agentty_tui::geometry::ViewportRect;
use agentty_tui::input::{InputState, normalize_pasted_text, normalize_single_line_pasted_text};
use agentty_tui::key::{
    KeyCode, KeyEvent, KeyEventKind, KeyModifiers, MouseButton, MouseEvent, MouseEventKind,
};
use agentty_tui::mouse_handler::handle_mouse_event;
use agentty_tui::session_creation::SelectedSessionFacts;
use agentty_tui::tab::Tab;
use agentty_tui::viewport::{
    LayoutSnapshot, ListItemHit, ListRegion, ListRegionKind, ScrollRegion,
};

/// What a run of the reader handed on and which calls it made.
#[derive(Debug, PartialEq)]
struct ReaderRun {
    calls: Vec<&'static str>,
    handed_on: Vec<ReaderStep>,
}

/// Runs the reader on a script of polls and reads until it ends.
fn run_reader(polls: &[PollOutcome], reads: &[ReadOutcome], is_delivered: bool) -> ReaderRun {
    let mut run = ReaderRun {
        calls: Vec::new(),
        handed_on: Vec::new(),
    };
    let mut polls = polls.iter();
    let mut reads = reads.iter();
    let mut step = ReaderStep::Poll;
    while reading_continues(step, is_delivered) {
        step = match step {
            ReaderStep::Read => {
                run.calls.push("read");
                after_read(*reads.next().expect("unexpected read"))
            }
            _ => {
                run.calls.push("poll");
                after_poll(*polls.next().expect("unexpected poll"))
            }
        };
        if matches!(step, ReaderStep::ForwardError | ReaderStep::ForwardEvent) {
            run.handed_on.push(step);
        }
    }
    assert!(polls.next().is_none());
    assert!(reads.next().is_none());

    run
}

#[test]
fn test_spawn_event_reader_with_source_forwards_event_to_channel() {
    // Arrange
    let polls = [PollOutcome::Ready, PollOutcome::Failed];
    let reads = [ReadOutcome::Event];

    // Act
    let run = run_reader(&polls, &reads, true);

    // Assert
    assert_eq!(run.calls, vec!["poll", "read", "poll"]);
    assert_eq!(
        run.handed_on,
        vec![ReaderStep::ForwardEvent, ReaderStep::ForwardError]
    );
}

#[test]
fn test_spawn_event_reader_with_source_stops_when_receiver_is_dropped() {
    // Arrange, Act
    let run = run_reader(&[PollOutcome::Ready], &[ReadOutcome::Event], false);

    // Assert
    assert_eq!(run.calls, vec!["poll", "read"]);
}

#[test]
fn test_spawn_event_reader_with_source_retries_interrupted_poll() {
    // Arrange
    let polls = [PollOutcome::Interrupted, PollOutcome::Failed];

    // Act
    let run = run_reader(&polls, &[], true);

    // Assert
    assert_eq!(run.calls, vec!["poll", "poll"]);
    assert_eq!(run.handed_on, vec![ReaderStep::ForwardError]);
}

#[test]
fn test_spawn_event_reader_with_source_forwards_poll_error_after_empty_poll() {
    // Arrange
    let polls = [PollOutcome::Nothing, PollOutcome::Failed];

    // Act
    let run = run_reader(&polls, &[], true);

    // Assert
    assert_eq!(run.calls, vec!["poll", "poll"]);
    assert_eq!(run.handed_on, vec![ReaderStep::ForwardError]);
}

#[test]
fn test_spawn_event_reader_with_source_retries_interrupted_read() {
    // Arrange
    let polls = [PollOutcome::Ready, PollOutcome::Failed];
    let reads = [ReadOutcome::Interrupted];

    // Act
    let run = run_reader(&polls, &reads, true);

    // Assert
    assert_eq!(run.calls, vec!["poll", "read", "poll"]);
    assert_eq!(run.handed_on, vec![ReaderStep::ForwardError]);
}

#[test]
fn test_spawn_event_reader_with_source_forwards_read_error() {
    // Arrange, Act
    let run = run_reader(&[PollOutcome::Ready], &[ReadOutcome::Failed], true);

    // Assert
    assert_eq!(run.calls, vec!["poll", "read"]);
    assert_eq!(run.handed_on, vec![ReaderStep::ForwardError]);
}

/// What waits for the event loop.
#[derive(Clone, Copy)]
enum Waiting {
    Closed,
    Event,
    Failure,
}

/// Runs one batch on what waits; `handler` also gets the events so far.
fn run_batch(
    signal: LoopSignal,
    waiting: &mut Vec<Waiting>,
    elapsed_nanos: impl Fn(usize) -> u128,
    handler: impl Fn(usize) -> HandlerResult,
) -> (BatchEnd, usize) {
    let mut batch = EventBatch::start(signal);
    loop {
        match batch.state {
            BatchState::Done(end) => return (end, batch.handled),
            BatchState::Handling => batch.handler_finished(handler(batch.handled)),
            BatchState::Looking => {
                if batch.looks_further(elapsed_nanos(batch.handled)) {
                    let result = if waiting.is_empty() {
                        DrainResult::Empty
                    } else {
                        match waiting.remove(0) {
                            Waiting::Closed => DrainResult::ChannelClosed,
                            Waiting::Event => DrainResult::Event,
                            Waiting::Failure => DrainResult::ReaderFailed,
                        }
                    };
                    batch.looked(result);
                }
            }
        }
    }
}

fn go_on(_: usize) -> HandlerResult {
    HandlerResult::Continue
}

fn no_time(_: usize) -> u128 {
    0
}

#[test]
fn test_process_events_with_handler_returns_handler_error() {
    // Arrange
    let mut waiting = vec![Waiting::Event];

    // Act
    let (end, handled) = run_batch(LoopSignal::TerminalEvent, &mut waiting, no_time, |_| {
        HandlerResult::Failed
    });

    // Assert
    assert_eq!(end, BatchEnd::HandlerFailed);
    assert_eq!(handled, 1);
    assert_eq!(waiting.len(), 1);
}

#[test]
fn test_process_events_with_handler_returns_reader_error() {
    // Arrange
    let mut waiting = Vec::new();
    let (initial_end, _) = run_batch(LoopSignal::Tick, &mut waiting, no_time, go_on);

    // Act
    let (end, handled) = run_batch(LoopSignal::ReaderFailed, &mut waiting, no_time, |_| {
        panic!("reader failures must not become events")
    });
    waiting.push(Waiting::Failure);
    let (end_during_drain, _) = run_batch(LoopSignal::Tick, &mut waiting, no_time, go_on);

    // Assert
    assert_eq!(initial_end, BatchEnd::Continue);
    assert_eq!(end, BatchEnd::ReaderFailed);
    assert_eq!(handled, 0);
    assert_eq!(end_during_drain, BatchEnd::ReaderFailed);
}

#[test]
fn test_process_events_with_handler_returns_error_when_reader_channel_closes() {
    // Arrange
    let mut waiting = Vec::new();
    let (initial_end, _) = run_batch(LoopSignal::Tick, &mut waiting, no_time, go_on);

    // Act
    let (end, handled) = run_batch(LoopSignal::ChannelClosed, &mut waiting, no_time, |_| {
        panic!("a closed channel must not become an event")
    });

    // Assert
    assert_eq!(initial_end, BatchEnd::Continue);
    assert_eq!(end, BatchEnd::ChannelClosed);
    assert_eq!(handled, 0);
    assert_eq!(
        terminal_event_channel_closed_error(),
        "terminal event reader stopped"
    );
}

#[test]
fn test_process_events_with_handler_drives_app_runtime_events() {
    // Arrange
    let mut waiting = Vec::new();

    // Act
    let (end, handled) = run_batch(LoopSignal::Runtime, &mut waiting, no_time, |handled| {
        assert_eq!(handled, 0);
        HandlerResult::Continue
    });

    // Assert
    assert_eq!(end, BatchEnd::Continue);
    assert_eq!(handled, 0);
}

#[test]
fn test_process_events_with_handler_keeps_events_over_budget_queued() {
    // Arrange
    let mut waiting = vec![Waiting::Event; TERMINAL_EVENT_DRAIN_BUDGET + 1];

    // Act
    let (end, handled) = run_batch(LoopSignal::TerminalEvent, &mut waiting, no_time, go_on);

    // Assert
    assert_eq!(end, BatchEnd::Continue);
    assert_eq!(handled, TERMINAL_EVENT_DRAIN_BUDGET);
    assert_eq!(waiting.len(), 2);
}

#[test]
fn test_batch_of_a_tick_handles_the_whole_budget() {
    // Arrange
    let mut waiting = vec![Waiting::Event; TERMINAL_EVENT_DRAIN_BUDGET + 2];

    // Act
    let (end, handled) = run_batch(LoopSignal::Tick, &mut waiting, no_time, go_on);

    // Assert
    assert_eq!(end, BatchEnd::Continue);
    assert_eq!(handled, 64);
    assert_eq!(waiting.len(), 2);
}

#[test]
fn test_process_events_with_handler_returns_error_when_channel_closes_during_drain() {
    // Arrange
    let mut waiting = vec![Waiting::Closed];

    // Act
    let (end, handled) = run_batch(LoopSignal::TerminalEvent, &mut waiting, no_time, go_on);

    // Assert
    assert_eq!(end, BatchEnd::ChannelClosed);
    assert_eq!(handled, 1);
}

#[test]
fn test_event_batch_yields_when_elapsed_budget_is_reached() {
    // Arrange
    let mut waiting = vec![Waiting::Event; 2];

    // Act
    let (end, handled) = run_batch(
        LoopSignal::TerminalEvent,
        &mut waiting,
        |_| 8_000_000,
        go_on,
    );
    let (_, handled_in_time) = run_batch(
        LoopSignal::TerminalEvent,
        &mut vec![Waiting::Event; 2],
        |_| TERMINAL_EVENT_DRAIN_NANOS - 1,
        go_on,
    );

    // Assert
    assert_eq!(end, BatchEnd::Continue);
    assert_eq!(handled, 1);
    assert_eq!(waiting.len(), 2);
    assert_eq!(handled_in_time, 3);
}

#[test]
fn test_quit_ends_the_batch_at_once() {
    // Arrange
    let mut waiting = vec![Waiting::Event; 3];

    // Act
    let (end, handled) = run_batch(LoopSignal::TerminalEvent, &mut waiting, no_time, |handled| {
        if handled == 2 {
            HandlerResult::Quit
        } else {
            HandlerResult::Continue
        }
    });

    // Assert
    assert_eq!(end, BatchEnd::Quit);
    assert_eq!(handled, 2);
    assert_eq!(waiting.len(), 2);
}

#[test]
fn test_event_batch_propagates_scroll_measurement_error() {
    // Arrange
    let key = KeyEvent::new(KeyCode::Char('j'), KeyModifiers::none());

    // Act
    let offered = scroll_key(&Some(TerminalEvent::Key(key)));
    let failed = after_scroll_offer(Some(ScrollOffer::Failed));

    // Assert
    assert_eq!(offered, Some(key));
    assert_eq!(failed, ScrollStep::Fail);
}

#[test]
fn test_scroll_batch_takes_presses_and_leaves_the_rest() {
    // Arrange
    let key = KeyEvent::new(KeyCode::Char('k'), KeyModifiers::none());
    let release = KeyEvent {
        kind: KeyEventKind::Release,
        ..key
    };

    // Act, Assert
    assert_eq!(scroll_key(&Some(TerminalEvent::Key(release))), None);
    assert_eq!(scroll_key(&Some(TerminalEvent::Other)), None);
    assert_eq!(scroll_key(&None), None);
    assert_eq!(
        after_scroll_offer(Some(ScrollOffer::Scrolled)),
        ScrollStep::Continue
    );
    assert_eq!(
        after_scroll_offer(Some(ScrollOffer::Declined)),
        ScrollStep::HandleEvent
    );
    assert_eq!(after_scroll_offer(None), ScrollStep::HandleEvent);
}

#[test]
fn test_process_event_with_key_handler_ignores_resize_events() {
    // Arrange, Act, Assert
    assert!(matches!(
        event_route(Some(TerminalEvent::Other)),
        EventRoute::Nothing
    ));
    assert!(matches!(event_route(None), EventRoute::Nothing));
}

#[test]
fn test_process_event_with_key_handler_ignores_key_release_events() {
    // Arrange
    let alt = KeyModifiers {
        alt: true,
        ..KeyModifiers::none()
    };
    let press = KeyEvent::new(KeyCode::Enter, alt);
    let release = KeyEvent {
        kind: KeyEventKind::Release,
        ..press
    };

    // Act
    let ignored = event_route(Some(TerminalEvent::Key(release)));
    let handled = event_route(Some(TerminalEvent::Key(press)));

    // Assert
    assert!(matches!(ignored, EventRoute::Nothing));
    assert!(matches!(handled, EventRoute::Key(key) if key == press));
}

#[test]
fn test_pasted_text_is_routed_as_a_whole() {
    // Arrange, Act
    let route = event_route(Some(TerminalEvent::Paste("a\r\nb".to_string())));

    // Assert
    assert!(matches!(route, EventRoute::Paste(text) if text == "a\r\nb"));
}

fn publish_branch_popup(locked_upstream_ref: Option<String>) -> AppMode {
    AppMode::PublishBranchInput(PublishBranchInput {
        default_branch_name: "wt/session".to_string(),
        input: InputState::default(),
        locked_upstream_ref,
        publish_branch_action: PublishBranchAction::Push,
        restore_view: ConfirmationViewMode {
            scroll_offset: None,
            session_id: "session-1".to_string(),
        },
    })
}

#[test]
fn test_process_paste_event_updates_publish_branch_input() {
    // Arrange
    let mut mode = publish_branch_popup(None);

    // Act
    let route = process_paste_event(&mut mode, "review/shared-input\r\nignored");

    // Assert
    assert_eq!(route, PasteRoute::PublishBranchInput);
    assert!(matches!(
        &mode,
        AppMode::PublishBranchInput(popup)
            if popup.input.text == "review/shared-input" && popup.input.cursor == 19
    ));
}

#[test]
fn test_paste_leaves_a_locked_branch_name_alone() {
    // Arrange
    let mut mode = publish_branch_popup(Some("origin/wt/session".to_string()));

    // Act
    let route = process_paste_event(&mut mode, "review/shared-input");

    // Assert
    assert_eq!(route, PasteRoute::Nothing);
    assert!(matches!(
        &mode,
        AppMode::PublishBranchInput(popup) if popup.input.text.is_empty()
    ));
}

#[test]
fn test_paste_on_the_list_goes_to_the_settings() {
    // Arrange
    let mut mode = AppMode::List;

    // Act
    let route = process_paste_event(&mut mode, "cargo nextest run\r\nignored");

    // Assert
    assert_eq!(route, PasteRoute::Settings);
    assert_eq!(
        normalize_single_line_pasted_text("cargo nextest run\r\nignored"),
        "cargo nextest run"
    );
}

#[test]
fn test_pasted_line_breaks_become_line_feeds() {
    // Arrange, Act, Assert
    assert_eq!(
        normalize_pasted_text("    line 1\r\n        line 2"),
        "    line 1\n        line 2"
    );
    assert_eq!(normalize_pasted_text("custom\ranswer"), "custom\nanswer");
    assert_eq!(normalize_pasted_text("\n\r\r\n"), "\n\n\n");
    assert_eq!(normalize_single_line_pasted_text("\rsecond"), "");
}

/// A screen that takes terminal events.
struct Screen {
    layout: LayoutSnapshot,
    mode: AppMode,
    pages: ListPages,
}

impl Screen {
    fn new(mode: AppMode, tab: Tab, layout: LayoutSnapshot) -> Self {
        Self {
            layout,
            mode,
            pages: ListPages {
                current_tab: tab,
                project_count: 0,
                selected_project: None,
                selected_session: None,
                session_count: 0,
                settings: SettingsLists {
                    is_editor_input_active: false,
                    is_editor_open: false,
                    is_selector_open: false,
                    item_count: 10,
                    selected_index: 0,
                },
            },
        }
    }

    fn process(&mut self, event: MouseEvent) -> MouseEffect {
        let EventRoute::Mouse(mouse) = event_route(Some(TerminalEvent::Mouse(event))) else {
            panic!("pointer events go to the pointer handler");
        };
        let facts = ClickFacts {
            parent_count: 0,
            project_count: 0,
            selected: SelectedSessionFacts {
                append_source: None,
                stacked_parent: None,
            },
        };
        let (outcome, _) = handle_mouse_event(
            &mut self.mode,
            &mut self.pages,
            &mut None,
            &self.layout,
            &DiffContent { items: Vec::new() },
            &Vec::new(),
            &facts,
            mouse,
        );
        let effect = mouse_effect(outcome);
        if let Some(tab) = effect.tab {
            self.pages.current_tab = tab;
        }

        effect
    }
}

/// A help overlay whose last frame recorded an overflowing popup.
fn help_overlay_fixture() -> Screen {
    Screen::new(
        AppMode::Help {
            context: HelpContext::List,
            scroll_offset: 0,
        },
        Tab::Projects,
        LayoutSnapshot {
            help_overlay: Some(ScrollRegion {
                area: ViewportRect {
                    height: 14,
                    width: 48,
                    x: 16,
                    y: 5,
                },
                scrollbar: None,
                total_lines: 20,
                viewport_height: 12,
            }),
            ..LayoutSnapshot::default()
        },
    )
}

#[test]
fn test_process_event_routes_mouse_wheel_and_marks_dirty() {
    // Arrange
    let mut screen = help_overlay_fixture();

    // Act
    let effect = screen.process(MouseEvent {
        column: 20,
        kind: MouseEventKind::ScrollDown,
        row: 8,
    });

    // Assert
    assert!(effect.redraws);
    assert!(matches!(
        screen.mode,
        AppMode::Help {
            scroll_offset: 3,
            ..
        }
    ));
}

#[test]
fn test_process_event_ignores_mouse_motion() {
    // Arrange
    let mut screen = help_overlay_fixture();

    // Act
    let effect = screen.process(MouseEvent {
        column: 20,
        kind: MouseEventKind::Moved,
        row: 8,
    });

    // Assert
    assert_eq!(effect, mouse_effect(MouseOutcome::Ignored));
    assert!(!effect.redraws);
    assert!(matches!(
        screen.mode,
        AppMode::Help {
            scroll_offset: 0,
            ..
        }
    ));
}

fn left_press(column: u16, row: u16) -> MouseEvent {
    MouseEvent {
        column,
        kind: MouseEventKind::Down(MouseButton::Left),
        row,
    }
}

/// One-row list of `kind` whose item `index` sits at `(x, y)`.
fn single_item_list(kind: ListRegionKind, index: usize, x: u16, y: u16) -> LayoutSnapshot {
    LayoutSnapshot {
        lists: vec![ListRegion {
            items: vec![ListItemHit {
                area: ViewportRect {
                    height: 1,
                    width: 10,
                    x,
                    y,
                },
                index,
            }],
            kind,
        }],
        ..LayoutSnapshot::default()
    }
}

#[test]
fn test_process_event_switches_tab_from_a_header_click() {
    // Arrange
    let layout = single_item_list(ListRegionKind::Tabs, 2, 30, 1);
    let mut screen = Screen::new(AppMode::List, Tab::Projects, layout);

    // Act
    let effect = screen.process(left_press(31, 1));

    // Assert
    assert_eq!(effect.tab, Some(Tab::Settings));
    assert_eq!(effect.key, None);
    assert!(effect.redraws);
    assert_eq!(screen.pages.current_tab, Tab::Settings);
}

#[test]
fn test_process_event_activates_a_selected_row_click_through_the_key_path() {
    // Arrange
    let layout = single_item_list(ListRegionKind::Settings, 0, 1, 4);
    let mut screen = Screen::new(AppMode::List, Tab::Settings, layout);

    // Act
    let effect = screen.process(left_press(3, 4));

    // Assert
    assert_eq!(
        effect.key,
        Some(KeyEvent::new(KeyCode::Enter, KeyModifiers::none()))
    );
    assert!(effect.redraws);
}

#[test]
fn test_process_event_ignores_a_press_outside_lists() {
    // Arrange
    let layout = single_item_list(ListRegionKind::Settings, 1, 1, 5);
    let mut screen = Screen::new(AppMode::List, Tab::Settings, layout);

    // Act
    let outside = screen.process(left_press(50, 20));
    let selected = screen.process(left_press(2, 5));

    // Assert
    assert!(!outside.redraws);
    assert_eq!(selected.key, None);
    assert!(selected.redraws);
    assert_eq!(screen.pages.settings.selected_index, 1);
}
