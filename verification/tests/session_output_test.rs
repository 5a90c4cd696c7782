use std::cell::Cell;

use agentty_tui::app_mode::{AppMode, ViewSessionState};
use agentty_tui::geometry::ViewportRect;
use agentty_tui::key::{KeyCode, KeyEvent, KeyModifiers};
use agentty_tui::output_cache::{
    SESSION_OUTPUT_LAYOUT_CACHE_ENTRY_LIMIT, SessionOutputLayout, SessionOutputLayoutCache,
};
use agentty_tui::output_lines::{
    OutputRenderer, append_block_separator, append_plain_review_status_lines,
    append_queued_message_lines, append_session_tail_lines, append_user_prompt_markdown_lines,
    output_lines_with_metadata, trim_trailing_blank_lines,
};
use agentty_tui::rich_text::{Color, Line, Span, Style, line_from_text};
use agentty_tui::session::{
    Session, SessionMessage, SessionMessageKind, SessionMessageState, Status,
};
use agentty_tui::session_output::{
    SessionOutput, SessionOutputLineContext, draft_prompt_fingerprint, loader_area,
    rendered_line_count, rendered_output_line_count_with_cache, session_output_inner_area,
    visible_loader_areas,
};
use agentty_tui::session_page::handle_session_page_key;
use agentty_tui::session_view::{ViewMetrics, ViewSessionFacts, scroll_offset_down};
use agentty_tui::transcript_sections::{
    TranscriptSection, render_draft_session_preview, staged_draft_transcript_block,
    typed_transcript_sections,
};
use agentty_tui::view_keys::{ViewAction, ViewKeyFacts};

const LOADER_WIDTH: u16 = 8;

/// Renders markdown as plain words and counts how often it does.
struct PlainRenderer {
    rendered: Cell<usize>,
    theme: Cell<u64>,
}

impl PlainRenderer {
    fn new() -> Self {
        Self {
            rendered: Cell::new(0),
            theme: Cell::new(1),
        }
    }
}

/// Breaks a text between words. Indentation gets lost, except that of a prompt
/// marker.
fn wrapped_words(text: &str, width: usize) -> Vec<String> {
    if text.starts_with(" › ") {
        return vec![text.to_string()];
    }
    let mut rows = Vec::new();
    let mut row = String::new();
    for word in text.split(' ') {
        if !row.is_empty() && row.chars().count() + 1 + word.chars().count() > width {
            rows.push(std::mem::take(&mut row));
        }
        if !row.is_empty() {
            row.push(' ');
        }
        row.push_str(word);
    }
    rows.push(row);

    rows
}

fn shaded(text: &str) -> Span {
    Span {
        content: text.to_string(),
        style: Style {
            fg: None,
            bg: Some(Color::SurfacePrompt),
            bold: false,
            italic: false,
        },
    }
}

impl OutputRenderer for PlainRenderer {
    fn markdown(&self, text: &String, width: usize) -> Vec<Line> {
        self.rendered.set(self.rendered.get() + 1);
        text.trim_matches('\n')
            .lines()
            .filter(|line| !line.starts_with("```"))
            .flat_map(|line| wrapped_words(&line.replace(['`', '#', '*'], ""), width))
            .map(|row| line_from_text(row.as_str(), Style::plain()))
            .collect()
    }

    fn status_line(&self, status: Status, progress: Option<&String>) -> Option<Line> {
        let label = match (status, progress) {
            (Status::InProgress, Some(progress)) => progress.clone(),
            (Status::InProgress, None) => "Working...".to_string(),
            (Status::Queued, _) => "Waiting...".to_string(),
            _ => return None,
        };

        Some(line_from_text(
            format!("{} {label}", self.loader_icon()).as_str(),
            Style::plain(),
        ))
    }

    fn done_line(&self) -> Line {
        line_from_text("Press c to continue", Style::plain())
    }

    fn summary_markdown(&self, content: &String) -> String {
        format!("# Change Summary\n\n## Current Turn\n{content}")
    }

    fn annotated_review(&self, content: &String) -> String {
        content.replace("### Suggestions", "### Suggestions (annotated)")
    }

    fn wrapped(&self, text: &String, width: usize) -> Vec<String> {
        wrapped_words(text, width)
    }

    fn preservation_mask(&self, text: &String) -> Vec<bool> {
        text.split('\n').map(|line| line.trim().starts_with('|')).collect()
    }

    fn prompt_gutter(&self) -> usize {
        1
    }

    fn prompt_padding_line(&self, width: usize) -> Line {
        Line {
            alignment: None,
            spans: vec![shaded(&" ".repeat(width))],
            style: Style::plain(),
        }
    }

    fn prompt_line(&self, spans: Vec<Span>, is_first: bool, width: usize) -> Line {
        let prefix = if is_first { " › " } else { "   " };
        let content: String = spans.iter().map(|span| span.content.as_str()).collect();
        let used = 3 + content.chars().count();
        let mut row = vec![shaded(prefix)];
        row.extend(spans);
        row.push(shaded(&" ".repeat(width.saturating_sub(used))));

        Line {
            alignment: None,
            spans: row,
            style: Style::plain(),
        }
    }

    fn loader_icon(&self) -> String {
        "▌▌▌".to_string()
    }

    fn loader_width(&self) -> u16 {
        LOADER_WIDTH
    }

    fn panel_inner_width(&self, area: ViewportRect) -> usize {
        usize::from(area.width)
    }

    fn pinned_scroll_offset(
        &self,
        area: ViewportRect,
        line_count: usize,
        scroll_offset: Option<u16>,
    ) -> u16 {
        let bottom = line_count.saturating_sub(usize::from(area.height.saturating_sub(2)));

        scroll_offset.unwrap_or(u16::try_from(bottom).unwrap_or(u16::MAX))
    }

    fn theme_version(&self) -> u64 {
        self.theme.get()
    }
}

/// Builds one output-line context with defaults suitable for tests.
fn line_context() -> SessionOutputLineContext<'static> {
    SessionOutputLineContext {
        active_prompt_output: None,
        active_progress: None,
        markdown_render_version: 0,
        session_update_version: 0,
    }
}

fn message(
    position: i64,
    kind: SessionMessageKind,
    state: SessionMessageState,
    content: &str,
) -> SessionMessage {
    SessionMessage {
        content: content.to_string(),
        kind,
        position,
        state,
    }
}

fn session_fixture() -> Session {
    Session {
        base_branch: "main".to_string(),
        folder: String::new(),
        id: "session-id".to_string(),
        is_draft: false,
        parent_session_id: None,
        prompt: String::new(),
        published_upstream_ref: None,
        queued_messages: Vec::new(),
        replay_text: None,
        status: Status::Draft,
        title: "Session".to_string(),
        transcript: Vec::new(),
        updated_at: 0,
    }
}

fn set_conversation_transcript(session: &mut Session, messages: Vec<(SessionMessageKind, &str)>) {
    session.transcript = messages
        .into_iter()
        .enumerate()
        .map(|(position, (kind, content))| {
            message(
                i64::try_from(position).expect("position should fit"),
                kind,
                SessionMessageState::Resolved,
                content,
            )
        })
        .collect();
}

fn set_assistant_transcript(session: &mut Session, output: &str) {
    session.replay_text = Some(output.to_string());
    set_conversation_transcript(
        session,
        vec![(SessionMessageKind::AssistantAnswer, output)],
    );
}

const SUMMARY: &str = "- Added the structured protocol summary.\n- Session output now renders \
                       persisted summary markdown.";

fn line_text(line: &Line) -> String {
    line.spans.iter().map(|span| span.content.as_str()).collect()
}

fn texts_of(lines: &[Line]) -> Vec<String> {
    lines
        .iter()
        .map(|line| line_text(line).trim_end().to_string())
        .collect()
}

fn output_text(session: &Session) -> String {
    output_text_in(session, 80)
}

fn output_text_in(session: &Session, width: usize) -> String {
    let output = output_lines_with_metadata(session, width, None, &PlainRenderer::new());

    texts_of(&output.lines).join("\n")
}

fn place(text: &str, needle: &str) -> usize {
    text.find(needle).expect("needle should be rendered")
}

fn layout_text(layout: &SessionOutputLayout) -> String {
    texts_of(&layout.lines).join("\n")
}

const AREA: ViewportRect = ViewportRect {
    height: 8,
    width: 80,
    x: 0,
    y: 0,
};

#[test]
fn test_rendered_line_count_counts_wrapped_content() {
    // Arrange
    let mut session = session_fixture();
    set_assistant_transcript(&mut session, &"word ".repeat(40));
    let raw_line_count = 1;
    let renderer = PlainRenderer::new();
    let mut cache = Some(SessionOutputLayoutCache::default());

    // Act
    let line_count = rendered_line_count(&session, 20, line_context(), &renderer, &mut cache);

    // Assert
    assert!(line_count > raw_line_count);
}

#[test]
fn test_output_layout_cache_reuses_lines_for_matching_update_key() {
    // Arrange
    let mut session = session_fixture();
    set_assistant_transcript(&mut session, "## Heading\n\ncached body");
    let renderer = PlainRenderer::new();
    let mut cache = SessionOutputLayoutCache::default();
    let context = SessionOutputLineContext {
        session_update_version: 7,
        ..line_context()
    };

    // Act
    let first_layout = cache.layout(&session, AREA, context, &renderer);
    let rendered_once = renderer.rendered.get();
    let second_layout = cache.layout(&session, AREA, context, &renderer);

    // Assert
    assert_eq!(first_layout.line_count, second_layout.line_count);
    assert_eq!(layout_text(&first_layout), layout_text(&second_layout));
    assert_eq!(renderer.rendered.get(), rendered_once);
    assert_eq!(cache.entries.len(), 1);
}

#[test]
fn test_output_layout_cache_keys_active_theme() {
    // Arrange
    let mut session = session_fixture();
    session.status = Status::Review;
    set_conversation_transcript(
        &mut session,
        vec![(SessionMessageKind::UserPrompt, "Use **bold** and `code`.")],
    );
    let renderer = PlainRenderer::new();
    let mut cache = SessionOutputLayoutCache::default();

    // Act
    cache.layout(&session, AREA, line_context(), &renderer);
    let rendered_once = renderer.rendered.get();
    renderer.theme.set(2);
    cache.layout(&session, AREA, line_context(), &renderer);

    // Assert
    assert!(renderer.rendered.get() > rendered_once);
    assert_eq!(cache.entries.len(), 2);
}

#[test]
fn test_output_layout_cache_keys_staged_draft_prompt() {
    // Arrange
    let mut session = session_fixture();
    session.is_draft = true;
    let renderer = PlainRenderer::new();
    let mut cache = SessionOutputLayoutCache::default();

    // Act
    let empty_layout = cache.layout(&session, AREA, line_context(), &renderer);
    session.prompt = "First staged draft".to_string();
    let staged_layout = cache.layout(&session, AREA, line_context(), &renderer);

    // Assert
    assert!(!layout_text(&empty_layout).contains("First staged draft"));
    assert!(layout_text(&staged_layout).contains("First staged draft"));
}

#[test]
fn test_output_layout_cache_keys_stacked_draft_preview() {
    // Arrange
    let mut session = session_fixture();
    session.is_draft = true;
    session.prompt = "First staged draft".to_string();
    let renderer = PlainRenderer::new();
    let mut cache = SessionOutputLayoutCache::default();

    // Act
    let root_layout = cache.layout(&session, AREA, line_context(), &renderer);
    session.parent_session_id = Some("parent-session".to_string());
    let stacked_layout = cache.layout(&session, AREA, line_context(), &renderer);
    let stacked_text = layout_text(&stacked_layout);

    // Assert
    assert_ne!(layout_text(&root_layout), stacked_text);
    assert!(stacked_text.contains("start the stacked"));
    assert!(stacked_text.contains("bundle from its parent"));
    assert!(stacked_text.contains("parent"));
}

#[test]
fn test_output_layout_cache_keys_queued_messages() {
    // Arrange
    let mut session = session_fixture();
    session.status = Status::InProgress;
    set_assistant_transcript(&mut session, " › running prompt");
    let renderer = PlainRenderer::new();
    let mut cache = SessionOutputLayoutCache::default();

    // Act
    let empty_layout = cache.layout(&session, AREA, line_context(), &renderer);
    session.queued_messages = vec!["queued reply".to_string()];
    let queued_layout = cache.layout(&session, AREA, line_context(), &renderer);

    // Assert
    assert!(!layout_text(&empty_layout).contains("queued reply"));
    assert!(layout_text(&queued_layout).contains("queued › queued reply"));
}

#[test]
fn test_output_layout_cache_keys_workflow_notice() {
    // Arrange
    let mut session = session_fixture();
    set_assistant_transcript(&mut session, "implemented the feature");
    session.status = Status::Review;
    let renderer = PlainRenderer::new();
    let mut cache = SessionOutputLayoutCache::default();

    // Act
    let base_layout = cache.layout(&session, AREA, line_context(), &renderer);
    session.transcript.push(message(
        1,
        SessionMessageKind::WorkflowNotice,
        SessionMessageState::Resolved,
        "[Commit] No changes to commit.",
    ));
    let notice_layout = cache.layout(&session, AREA, line_context(), &renderer);

    // Assert
    assert!(!layout_text(&base_layout).contains("[Commit] No changes to commit."));
    assert!(layout_text(&notice_layout).contains("[Commit] No changes to commit."));
}

#[test]
fn test_output_layout_cache_reuses_active_loader_layout_across_frames() {
    // Arrange
    let mut session = session_fixture();
    set_assistant_transcript(&mut session, "active output");
    session.status = Status::InProgress;
    let renderer = PlainRenderer::new();
    let mut cache = SessionOutputLayoutCache::default();

    // Act
    let first_layout = cache.layout(&session, AREA, line_context(), &renderer);
    let rendered_once = renderer.rendered.get();
    cache.layout(&session, AREA, line_context(), &renderer);
    cache.layout(&session, AREA, line_context(), &renderer);

    // Assert
    assert_eq!(renderer.rendered.get(), rendered_once);
    assert!(layout_text(&first_layout).contains(&renderer.loader_icon()));
}

#[test]
fn test_output_layout_cache_keeps_tachyon_effect_state_per_session() {
    // Arrange
    let mut cache = SessionOutputLayoutCache::default();

    // Act
    let is_first_new = cache.apply_tachyon_loader_effect(&"first-loader-session".to_string());
    let is_second_new = cache.apply_tachyon_loader_effect(&"second-loader-session".to_string());
    let is_known_new = cache.apply_tachyon_loader_effect(&"first-loader-session".to_string());

    // Assert
    assert_eq!(cache.loader_sessions.len(), 2);
    assert!(is_first_new);
    assert!(is_second_new);
    assert!(!is_known_new);
}

#[test]
fn test_output_layout_cache_evicts_tachyon_effects_with_layout_lru() {
    // Arrange
    let mut cache = SessionOutputLayoutCache::default();
    let renderer = PlainRenderer::new();

    // Act
    for session_index in 0..=SESSION_OUTPUT_LAYOUT_CACHE_ENTRY_LIMIT {
        let mut session = session_fixture();
        session.id = format!("loader-session-{session_index:02}");
        set_assistant_transcript(&mut session, &format!("active output {session_index}"));
        session.status = Status::InProgress;
        cache.layout(&session, AREA, line_context(), &renderer);
        cache.apply_tachyon_loader_effect(&session.id);
    }

    // Assert
    assert_eq!(
        cache.loader_sessions.len(),
        SESSION_OUTPUT_LAYOUT_CACHE_ENTRY_LIMIT
    );
    assert!(!cache.loader_sessions.contains(&"loader-session-00".to_string()));
    assert!(cache.loader_sessions.contains(&"loader-session-16".to_string()));
}

#[test]
fn test_output_lines_metadata_marks_status_loader_not_user_text() {
    // Arrange
    let renderer = PlainRenderer::new();
    let mut session = session_fixture();
    set_assistant_transcript(
        &mut session,
        &format!("{} pasted transcript glyph", renderer.loader_icon()),
    );
    session.status = Status::InProgress;

    // Act
    let output_lines = output_lines_with_metadata(&session, 80, None, &renderer);

    // Assert
    let loader_line_index = output_lines
        .active_loader_line_index
        .expect("active loader status row should be tracked");
    let loader_line = line_text(&output_lines.lines[loader_line_index]);
    assert!(loader_line.contains("Working..."));
    assert!(!loader_line.contains("pasted transcript glyph"));
}

#[test]
fn test_loader_area_tracks_scrolled_row() {
    // Arrange
    let output_area = ViewportRect::new(2, 3, 80, 10);

    // Act
    let area = loader_area(output_area, Some(19), 12, LOADER_WIDTH);

    // Assert
    assert_eq!(area, Some(ViewportRect::new(2, 11, LOADER_WIDTH, 1)));
}

#[test]
fn test_loader_area_locates_row_before_following_hint() {
    // Arrange
    let output_area = ViewportRect::new(0, 0, 80, 8);

    // Act
    let area = loader_area(output_area, Some(1), 0, LOADER_WIDTH);

    // Assert
    assert_eq!(area, Some(ViewportRect::new(0, 2, LOADER_WIDTH, 1)));
}

#[test]
fn test_loader_area_skips_missing_line_index() {
    // Arrange
    let output_area = ViewportRect::new(0, 0, 80, 10);

    // Act
    let area = loader_area(output_area, None, 0, LOADER_WIDTH);

    // Assert
    assert_eq!(area, None);
}

#[test]
fn test_loader_area_needs_room() {
    assert_eq!(loader_area(ViewportRect::new(0, 0, 7, 10), Some(0), 0, LOADER_WIDTH), None);
    assert_eq!(loader_area(ViewportRect::new(0, 0, 80, 2), Some(0), 0, LOADER_WIDTH), None);
    assert_eq!(loader_area(ViewportRect::new(0, 0, 80, 10), Some(8), 0, LOADER_WIDTH), None);
    assert_eq!(loader_area(ViewportRect::new(0, 0, 80, 10), Some(3), 4, LOADER_WIDTH), None);
}

#[test]
fn test_inner_area_leaves_out_the_borders() {
    assert_eq!(
        session_output_inner_area(ViewportRect::new(2, 3, 80, 10)),
        ViewportRect::new(2, 4, 80, 8)
    );
    assert_eq!(
        session_output_inner_area(ViewportRect::new(0, 0, 80, 1)),
        ViewportRect::new(0, 1, 80, 0)
    );
}

#[test]
fn test_visible_loader_areas_keep_their_order() {
    // Act
    let areas = visible_loader_areas(
        ViewportRect::new(0, 0, 80, 6),
        &vec![1, 3, 5, 9],
        2,
        LOADER_WIDTH,
    );

    // Assert
    assert_eq!(
        areas,
        vec![
            ViewportRect::new(0, 2, LOADER_WIDTH, 1),
            ViewportRect::new(0, 4, LOADER_WIDTH, 1)
        ]
    );
}

#[test]
fn test_output_lines_done_summary_mode_keeps_transcript_with_summary() {
    // Arrange
    let mut session = session_fixture();
    set_conversation_transcript(
        &mut session,
        vec![
            (SessionMessageKind::AssistantAnswer, "streamed output"),
            (SessionMessageKind::TurnSummary, SUMMARY),
        ],
    );
    session.status = Status::Done;

    // Act
    let text = output_text(&session);

    // Assert
    assert!(text.contains("Added the structured protocol summary."));
    assert!(text.contains("Session output now renders persisted summary markdown."));
    assert!(text.contains("streamed output"));
    assert!(text.ends_with("\n\nPress c to continue\n"));
}

#[test]
fn test_output_lines_render_staged_draft_preview_for_new_session() {
    // Arrange
    let mut session = session_fixture();
    session.is_draft = true;
    session.prompt = "First draft\n\nSecond draft".to_string();

    // Act
    let text = output_text(&session);

    // Assert
    assert!(text.contains("Draft Session"));
    assert!(text.contains("Draft messages stay local until you press s in session view"));
    assert!(text.contains("First draft"));
    assert!(text.contains("Second draft"));
}

#[test]
fn test_output_lines_render_draft_preview_with_status_lines() {
    // Arrange
    let mut session = session_fixture();
    session.is_draft = true;
    set_assistant_transcript(
        &mut session,
        "[Paste Image Error] Clipboard is unavailable.",
    );
    session.prompt = "First draft".to_string();

    // Act
    let text = output_text(&session);

    // Assert
    assert!(text.contains("Draft Session"));
    assert!(text.contains("First draft"));
    assert!(text.contains("Paste Image Error"));
    assert!(text.contains("Clipboard is unavailable"));
}

#[test]
fn test_output_lines_render_staged_draft_preview_for_stacked_session() {
    // Arrange
    let mut session = session_fixture();
    session.is_draft = true;
    session.parent_session_id = Some("parent-session".to_string());
    session.prompt = "Stacked draft".to_string();

    // Act
    let text = output_text(&session);

    // Assert
    assert!(text.contains("Draft Session"));
    assert!(text.contains("start the stacked"));
    assert!(text.contains("bundle from its parent"));
    assert!(text.contains("parent"));
    assert!(text.contains("Stacked draft"));
}

#[test]
fn test_output_lines_render_empty_draft_preview_for_new_session() {
    // Arrange
    let mut session = session_fixture();
    session.is_draft = true;

    // Act
    let text = output_text(&session);

    // Assert
    assert!(text.contains("Draft Session"));
    assert!(text.contains("No draft messages staged yet."));
    assert!(text.contains("Use Enter to stage the first draft locally"));
}

#[test]
fn test_output_lines_render_empty_draft_preview_for_stacked_session() {
    // Arrange
    let mut session = session_fixture();
    session.is_draft = true;
    session.parent_session_id = Some("parent-session".to_string());

    // Act
    let text = output_text_in(&session, 200);

    // Assert
    assert!(text.contains("Draft Session"));
    assert!(text.contains("No draft messages staged yet."));
    assert!(text.contains("start action appears after the parent is review-ready"));
}

#[test]
fn test_output_lines_done_output_mode_appends_structured_summary() {
    // Arrange
    let mut session = session_fixture();
    set_conversation_transcript(
        &mut session,
        vec![
            (SessionMessageKind::AssistantAnswer, "streamed output"),
            (SessionMessageKind::TurnSummary, SUMMARY),
            (
                SessionMessageKind::WorkflowNotice,
                "\n[Commit] No changes to commit.\n",
            ),
        ],
    );
    session.status = Status::Done;

    // Act
    let text = output_text(&session);
    let output_index = place(&text, "streamed output");
    let summary_index = place(&text, "Change Summary");
    let commit_index = place(&text, "[Commit] No changes to commit.");

    // Assert
    assert!(text.contains("Added the structured protocol summary."));
    assert!(text.contains("Session output now renders persisted summary markdown."));
    assert!(output_index < summary_index);
    assert!(summary_index < commit_index);
}

#[test]
fn test_output_lines_places_summary_before_trailing_workflow_notices() {
    // Arrange
    let mut session = session_fixture();
    set_conversation_transcript(
        &mut session,
        vec![
            (SessionMessageKind::AssistantAnswer, "streamed output"),
            (SessionMessageKind::TurnSummary, SUMMARY),
            (
                SessionMessageKind::WorkflowNotice,
                "\n[Commit] No changes to commit.\n",
            ),
            (
                SessionMessageKind::WorkflowNotice,
                "\n[Sync Assist] Attempt 1/3. Resolving conflicts in:\n- \
                 crates/agentty/src/runtime/worker.rs\n",
            ),
        ],
    );
    session.status = Status::Review;

    // Act
    let text = output_text(&session);
    let output_index = place(&text, "streamed output");
    let summary_index = place(&text, "Change Summary");
    let commit_index = place(&text, "[Commit] No changes to commit.");
    let sync_index = place(&text, "[Sync Assist] Attempt 1/3.");

    // Assert
    assert!(output_index < summary_index);
    assert!(summary_index < commit_index);
    assert!(commit_index < sync_index);
}

#[test]
fn test_output_lines_typed_assistant_notice_prefix_stays_before_summary() {
    // Arrange
    let mut session = session_fixture();
    set_conversation_transcript(
        &mut session,
        vec![
            (SessionMessageKind::UserPrompt, "summarize merge"),
            (
                SessionMessageKind::AssistantAnswer,
                "Assistant output.\n[Merge] this is literal assistant text.",
            ),
            (SessionMessageKind::TurnSummary, SUMMARY),
        ],
    );
    session.status = Status::Review;

    // Act
    let text = output_text(&session);
    let assistant_notice_index = place(&text, "[Merge] this is literal assistant text.");
    let summary_index = place(&text, "Change Summary");

    // Assert
    assert!(assistant_notice_index < summary_index);
}

/// Joins the messages of a part of a transcript.
fn section_text(section: &TranscriptSection, messages: &[SessionMessage]) -> String {
    match section {
        TranscriptSection::Messages { start, end } => messages[*start..*end]
            .iter()
            .map(|message| match message.kind {
                SessionMessageKind::UserPrompt => format!(" › {}\n\n", message.content),
                _ => message.content.clone(),
            })
            .collect(),
        _ => String::new(),
    }
}

#[test]
fn test_typed_transcript_sections_ignore_assistant_prompt_markers() {
    // Arrange
    let mut session = session_fixture();
    set_conversation_transcript(
        &mut session,
        vec![
            (SessionMessageKind::UserPrompt, "previous prompt"),
            (
                SessionMessageKind::AssistantAnswer,
                "previous answer\n › quoted assistant marker",
            ),
            (
                SessionMessageKind::WorkflowNotice,
                "\n[Commit] No changes to commit.\n",
            ),
            (SessionMessageKind::UserPrompt, "actual prompt"),
            (
                SessionMessageKind::AssistantAnswer,
                "streaming answer\n › quoted active output",
            ),
        ],
    );

    // Act
    let sections = typed_transcript_sections(Status::InProgress, &session.transcript);
    let completed_turn = section_text(&sections.completed_turn, &session.transcript);
    let trailing_notice = section_text(&sections.trailing_notice, &session.transcript);
    let active_turn = section_text(&sections.active_turn, &session.transcript);

    // Assert
    assert!(completed_turn.contains(" › quoted assistant marker"));
    assert!(trailing_notice.contains("[Commit] No changes to commit."));
    assert!(active_turn.starts_with(" › actual prompt"));
}

#[test]
fn test_typed_transcript_sections_hold_every_message_once() {
    // Arrange
    let mut session = session_fixture();
    set_conversation_transcript(
        &mut session,
        vec![
            (SessionMessageKind::WorkflowNotice, "one"),
            (SessionMessageKind::UserPrompt, "two"),
            (SessionMessageKind::WorkflowNotice, "three"),
        ],
    );

    for status in [Status::InProgress, Status::Review] {
        // Act
        let sections = typed_transcript_sections(status, &session.transcript);
        let whole = [
            section_text(&sections.completed_turn, &session.transcript),
            section_text(&sections.trailing_notice, &session.transcript),
            section_text(&sections.active_turn, &session.transcript),
        ]
        .concat();

        // Assert
        assert_eq!(whole, "one › two\n\nthree");
    }
}

#[test]
fn test_output_lines_places_review_before_trailing_workflow_notices() {
    // Arrange
    let mut session = session_fixture();
    set_conversation_transcript(
        &mut session,
        vec![
            (SessionMessageKind::AssistantAnswer, "implemented fix"),
            (SessionMessageKind::TurnSummary, SUMMARY),
            (
                SessionMessageKind::FocusedReview,
                "## Review\n\n### Project Impact\n\n- Documentation-only change.",
            ),
            (
                SessionMessageKind::WorkflowNotice,
                "\n[Merge Error] Cannot merge branch\n",
            ),
        ],
    );
    session.status = Status::Review;

    // Act
    let text = output_text(&session);
    let output_index = place(&text, "implemented fix");
    let summary_index = place(&text, "Change Summary");
    let review_index = place(&text, "Project Impact");
    let merge_error_index = place(&text, "[Merge Error] Cannot merge branch");

    // Assert
    assert!(output_index < summary_index);
    assert!(summary_index < review_index);
    assert!(review_index < merge_error_index);
}

#[test]
fn test_output_lines_uses_transcript_for_completed_published_branch_push() {
    // Arrange
    let mut session = session_fixture();
    set_conversation_transcript(
        &mut session,
        vec![(
            SessionMessageKind::WorkflowNotice,
            "\n[Branch Push] Auto-pushed published branch after completed turn.\n",
        )],
    );
    session.published_upstream_ref = Some("origin/wt/session-id".to_string());
    session.status = Status::Review;

    // Act
    let lines = output_lines_with_metadata(&session, 80, None, &PlainRenderer::new());
    let text = texts_of(&lines.lines).join("\n");

    // Assert
    assert!(lines.timeline_loader_line_indices.is_empty());
    assert!(text.contains("[Branch Push]"));
    assert_eq!(
        text.matches("Auto-pushed published branch after completed turn.")
            .count(),
        1
    );
}

#[test]
fn test_output_lines_review_session_appends_structured_summary() {
    // Arrange
    let mut session = session_fixture();
    set_conversation_transcript(
        &mut session,
        vec![
            (SessionMessageKind::AssistantAnswer, "implemented the feature"),
            (SessionMessageKind::TurnSummary, SUMMARY),
        ],
    );
    session.status = Status::Review;

    // Act
    let text = output_text(&session);

    // Assert
    assert!(text.contains("implemented the feature"));
    assert!(text.contains("Added the structured protocol summary."));
    assert!(text.contains("Session output now renders persisted summary markdown."));
}

#[test]
fn test_output_lines_in_progress_session_keeps_summary_before_active_prompt() {
    // Arrange
    let mut session = session_fixture();
    set_conversation_transcript(
        &mut session,
        vec![
            (SessionMessageKind::UserPrompt, "hi"),
            (SessionMessageKind::TurnSummary, SUMMARY),
            (
                SessionMessageKind::WorkflowNotice,
                "\n[Commit] No changes to commit.\n",
            ),
            (SessionMessageKind::UserPrompt, "add hello world"),
        ],
    );
    session.status = Status::InProgress;

    // Act
    let text = output_text(&session);
    let commit_index = place(&text, "[Commit] No changes to commit.");
    let prompt_index = place(&text, " › add hello world");
    let summary_index = place(&text, "Change Summary");

    // Assert
    assert!(summary_index < commit_index);
    assert!(commit_index < prompt_index);
}

#[test]
fn test_output_lines_in_progress_session_shows_queued_messages_after_active_turn() {
    // Arrange
    let mut session = session_fixture();
    set_conversation_transcript(
        &mut session,
        vec![
            (SessionMessageKind::UserPrompt, "hi"),
            (SessionMessageKind::TurnSummary, SUMMARY),
            (
                SessionMessageKind::WorkflowNotice,
                "\n[Commit] No changes to commit.\n",
            ),
            (SessionMessageKind::UserPrompt, "add hello world"),
            (SessionMessageKind::AssistantAnswer, "working"),
        ],
    );
    session.queued_messages = vec!["follow up\nwith context".to_string()];
    session.status = Status::InProgress;

    // Act
    let text = output_text(&session);
    let commit_index = place(&text, "[Commit] No changes to commit.");
    let prompt_index = place(&text, " › add hello world");
    let queued_index = place(&text, "queued › follow up");
    let summary_index = place(&text, "Change Summary");

    // Assert
    assert!(summary_index < commit_index);
    assert!(commit_index < prompt_index);
    assert!(prompt_index < queued_index);
    assert!(text.contains("        with context"));
}

#[test]
fn test_output_lines_in_progress_without_active_capture_keeps_summary_before_last_prompt() {
    // Arrange
    let mut session = session_fixture();
    set_conversation_transcript(
        &mut session,
        vec![
            (SessionMessageKind::UserPrompt, "hi"),
            (SessionMessageKind::AssistantAnswer, "Hello!"),
            (SessionMessageKind::TurnSummary, SUMMARY),
            (
                SessionMessageKind::WorkflowNotice,
                "\n[Commit] No changes to commit.\n",
            ),
            (SessionMessageKind::UserPrompt, "review project"),
        ],
    );
    session.status = Status::InProgress;

    // Act
    let text = output_text(&session);
    let commit_index = place(&text, "[Commit] No changes to commit.");
    let prompt_index = place(&text, " › review project");
    let summary_index = place(&text, "Change Summary");

    // Assert
    assert!(summary_index < commit_index);
    assert!(commit_index < prompt_index);
}

#[test]
fn test_output_lines_in_progress_ignores_assistant_lines_that_look_like_prompts() {
    // Arrange
    let mut session = session_fixture();
    set_conversation_transcript(
        &mut session,
        vec![
            (SessionMessageKind::UserPrompt, "hi"),
            (SessionMessageKind::AssistantAnswer, "previous answer"),
            (SessionMessageKind::TurnSummary, SUMMARY),
            (SessionMessageKind::UserPrompt, "actual prompt"),
            (
                SessionMessageKind::AssistantAnswer,
                "streaming answer\n › quoted output",
            ),
        ],
    );
    session.status = Status::InProgress;

    // Act
    let text = output_text(&session);
    let prompt_index = place(&text, " › actual prompt");
    let quoted_output_index = place(&text, " › quoted output");

    // Assert
    let summary_index = place(&text, "Change Summary");
    assert!(summary_index < prompt_index);
    assert!(prompt_index < quoted_output_index);
}

#[test]
fn test_output_lines_review_session_without_summary_keeps_transcript_only() {
    // Arrange
    let mut session = session_fixture();
    set_assistant_transcript(&mut session, "implemented the feature");
    session.status = Status::Review;

    // Act
    let text = output_text(&session);

    // Assert
    assert!(text.contains("implemented the feature"));
    assert!(!text.contains("No changes"));
    assert!(!text.contains("Current Turn"));
    assert!(!text.contains("Session Changes"));
    assert_eq!(text, "implemented the feature\n");
}

#[test]
fn test_output_lines_preserve_user_prompt_indentation() {
    // Arrange
    let mut session = session_fixture();
    set_conversation_transcript(
        &mut session,
        vec![(
            SessionMessageKind::UserPrompt,
            "    if ready {\n        run();\n    }",
        )],
    );
    session.status = Status::Review;

    // Act
    let output = output_lines_with_metadata(&session, 80, None, &PlainRenderer::new());
    let rendered_lines = texts_of(&output.lines);

    // Assert
    assert!(rendered_lines.iter().any(|line| line == " ›     if ready {"));
    assert!(rendered_lines.iter().any(|line| line == "           run();"));
    assert!(rendered_lines.iter().any(|line| line == "       }"));
}

#[test]
fn test_output_lines_expand_user_prompt_tab_indentation() {
    // Arrange
    let mut session = session_fixture();
    set_conversation_transcript(
        &mut session,
        vec![(
            SessionMessageKind::UserPrompt,
            "\tif ready {\n\t\trun();\n\t}",
        )],
    );
    session.status = Status::Review;

    // Act
    let output = output_lines_with_metadata(&session, 80, None, &PlainRenderer::new());
    let rendered_lines = texts_of(&output.lines);

    // Assert
    assert!(rendered_lines.iter().any(|line| line == " ›     if ready {"));
    assert!(rendered_lines.iter().any(|line| line == "           run();"));
    assert!(rendered_lines.iter().any(|line| line == "       }"));
}

#[test]
fn test_output_lines_preserve_literal_private_use_character() {
    // Arrange
    let prompt = "  before \u{e000} after";
    let mut session = session_fixture();
    set_conversation_transcript(&mut session, vec![(SessionMessageKind::UserPrompt, prompt)]);
    session.status = Status::Review;

    // Act
    let text = output_text(&session);

    // Assert
    assert!(text.contains(" ›   before \u{e000} after"));
}

#[test]
fn test_append_user_prompt_markdown_lines_keeps_right_gutter() {
    // Arrange
    let mut lines = Vec::new();

    // Act
    append_user_prompt_markdown_lines(
        &mut lines,
        &"one two".to_string(),
        10,
        &PlainRenderer::new(),
    );
    let prompt_lines = lines
        .iter()
        .filter(|line| {
            let text = line_text(line);

            !text.trim().is_empty() && (text.starts_with(" › ") || text.starts_with("   "))
        })
        .collect::<Vec<_>>();

    // Assert
    assert!(!texts_of(&lines).iter().any(|line| line == " › one two"));
    assert_eq!(prompt_lines.len(), 2);
    for line in prompt_lines {
        let rendered_text = line_text(line);
        let trimmed_width = rendered_text.trim_end().chars().count();

        assert_eq!(rendered_text.chars().count(), 10);
        assert!(trimmed_width < 10);
    }
}

#[test]
fn test_append_user_prompt_markdown_lines_wraps_code_blocks_on_word_boundaries() {
    // Arrange
    let mut lines = Vec::new();
    let prompt = "```text\nformatted blocks in user messages without words breaking\n```";

    // Act
    append_user_prompt_markdown_lines(
        &mut lines,
        &prompt.to_string(),
        36,
        &PlainRenderer::new(),
    );
    let rendered_lines = texts_of(&lines);

    // Assert
    assert!(rendered_lines.iter().any(|line| line == " › formatted blocks in user"));
    assert!(
        rendered_lines
            .iter()
            .any(|line| line == "   messages without words breaking")
    );
    assert!(!rendered_lines.iter().any(|line| line.ends_with("message")));
    assert!(!rendered_lines.iter().any(|line| line.starts_with("   s ")));
}

#[test]
fn test_user_prompt_block_lies_between_empty_rows() {
    // Arrange
    let mut lines = vec![
        line_from_text("before", Style::plain()),
        line_from_text("", Style::plain()),
        line_from_text("", Style::plain()),
    ];

    // Act
    append_user_prompt_markdown_lines(
        &mut lines,
        &"one\n\ntwo".to_string(),
        20,
        &PlainRenderer::new(),
    );

    // Assert
    assert_eq!(
        texts_of(&lines),
        ["before", "", "", " › one", "", "   two", ""]
    );
    assert_eq!(line_text(&lines[2]).chars().count(), 20);
    assert_eq!(line_text(&lines[4]).chars().count(), 20);
}

#[test]
fn test_blank_user_prompt_appends_nothing() {
    // Arrange
    let mut lines = vec![line_from_text("before", Style::plain())];

    // Act
    append_user_prompt_markdown_lines(&mut lines, &" \n ".to_string(), 20, &PlainRenderer::new());

    // Assert
    assert_eq!(texts_of(&lines), ["before"]);
}

#[test]
fn test_lines_of_markdown_blocks_are_rendered_without_marks() {
    // Arrange
    let mut lines = Vec::new();

    // Act
    append_user_prompt_markdown_lines(
        &mut lines,
        &"  | a | b |\n  text".to_string(),
        30,
        &PlainRenderer::new(),
    );

    // Assert
    assert_eq!(texts_of(&lines), ["", " › | a | b |", "     text", ""]);
}

#[test]
fn test_output_lines_done_summary_transition_preserves_transcript() {
    // Arrange
    let mut session = session_fixture();
    set_conversation_transcript(
        &mut session,
        vec![
            (SessionMessageKind::AssistantAnswer, "streamed output"),
            (SessionMessageKind::TurnSummary, SUMMARY),
        ],
    );
    session.status = Status::Review;
    let review_text = output_text(&session);
    session.transcript[1].content = "# Summary\n\nSession now greets users on startup.\n\n# \
                                     Commit\n\nRefine session summary"
        .to_string();
    session.status = Status::Done;

    // Act
    let done_text = output_text(&session);

    // Assert
    assert!(review_text.contains("Change Summary"));
    assert!(review_text.contains("Added the structured protocol summary."));
    assert!(done_text.contains("Summary"));
    assert!(done_text.contains("Session now greets users on startup."));
    assert!(done_text.contains("Commit"));
    assert!(done_text.contains("Refine session summary"));
    assert!(done_text.contains("streamed output"));
}

#[test]
fn test_output_lines_agent_review_mode_shows_pending_timeline_entry() {
    // Arrange
    let mut session = session_fixture();
    session.status = Status::AgentReview;
    session.transcript = vec![message(
        0,
        SessionMessageKind::FocusedReview,
        SessionMessageState::Pending,
        "Reviewing changes with gpt-5.5",
    )];

    // Act
    let output = output_lines_with_metadata(&session, 80, None, &PlainRenderer::new());

    // Assert
    let text = texts_of(&output.lines).join("\n");
    assert!(text.contains("Reviewing changes with gpt-5.5"));
    assert_eq!(output.timeline_loader_line_indices, vec![0]);
    assert_eq!(output.active_loader_line_index, None);
    assert_eq!(
        line_text(&output.lines[0]),
        "▌▌▌ Reviewing changes with gpt-5.5"
    );
}

#[test]
fn test_failed_review_is_shown_as_plain_text() {
    // Arrange
    let mut session = session_fixture();
    session.status = Status::Review;
    session.transcript = vec![
        message(
            0,
            SessionMessageKind::AssistantAnswer,
            SessionMessageState::Resolved,
            "answer",
        ),
        message(
            1,
            SessionMessageKind::FocusedReview,
            SessionMessageState::Failed,
            "# not a heading",
        ),
    ];

    // Act
    let text = output_text(&session);

    // Assert
    assert_eq!(text, "answer\n\n# not a heading\n");
}

#[test]
fn test_resolved_review_is_annotated() {
    // Arrange
    let mut session = session_fixture();
    session.status = Status::Review;
    set_conversation_transcript(
        &mut session,
        vec![(SessionMessageKind::FocusedReview, "### Suggestions")],
    );

    // Act
    let text = output_text(&session);

    // Assert
    assert!(text.contains("Suggestions (annotated)"));
}

#[test]
fn test_output_lines_uses_transcript_for_canceled_session() {
    // Arrange
    let mut session = session_fixture();
    set_conversation_transcript(
        &mut session,
        vec![
            (SessionMessageKind::AssistantAnswer, "streamed output"),
            (SessionMessageKind::TurnSummary, SUMMARY),
        ],
    );
    session.status = Status::Canceled;

    // Act
    let text = output_text(&session);

    // Assert
    assert!(text.contains("Added the structured protocol summary."));
    assert!(text.contains("streamed output"));
}

#[test]
fn test_output_lines_use_generic_in_progress_loader() {
    // Arrange
    let mut session = session_fixture();
    set_assistant_transcript(&mut session, "some output");
    session.status = Status::InProgress;

    // Act
    let text = output_text(&session);

    // Assert
    assert!(text.contains("Working..."));
    assert!(text.contains(&PlainRenderer::new().loader_icon()));
    assert_eq!(text, "some output\n\n▌▌▌ Working...");
}

#[test]
fn test_notices_move_below_queued_messages_without_a_running_turn() {
    // Arrange
    let mut session = session_fixture();
    set_conversation_transcript(
        &mut session,
        vec![
            (SessionMessageKind::AssistantAnswer, "answer"),
            (SessionMessageKind::WorkflowNotice, "[Commit] done"),
        ],
    );
    session.queued_messages = vec![" ".to_string(), "next".to_string()];
    session.status = Status::Review;

    // Act
    let text = output_text(&session);

    // Assert
    assert_eq!(text, "answer\n\nqueued › next\n\n[Commit] done\n");
}

#[test]
fn test_queued_messages_are_subtle_and_italic() {
    // Arrange
    let mut lines = Vec::new();

    // Act
    append_queued_message_lines(&mut lines, &vec!["one\ntwo".to_string()]);

    // Assert
    assert_eq!(texts_of(&lines), ["", "queued › one", "        two", ""]);
    assert!(lines[1].style.italic || lines[1].spans[0].style.italic);
}

#[test]
fn test_no_queued_messages_append_nothing() {
    // Arrange
    let mut lines = vec![line_from_text("text", Style::plain())];

    // Act
    append_queued_message_lines(&mut lines, &Vec::new());

    // Assert
    assert_eq!(texts_of(&lines), ["text"]);
}

#[test]
fn test_separators_are_single() {
    // Arrange
    let mut lines = vec![
        line_from_text("text", Style::plain()),
        line_from_text("", Style::plain()),
        line_from_text("", Style::plain()),
    ];
    let mut empty = Vec::new();

    // Act
    append_block_separator(&mut lines, false);
    append_block_separator(&mut lines, true);
    append_block_separator(&mut empty, false);

    // Assert
    assert_eq!(texts_of(&lines), ["text", ""]);
    assert!(empty.is_empty());
    append_block_separator(&mut empty, true);
    assert_eq!(texts_of(&empty), [""]);
}

#[test]
fn test_rows_of_blanks_are_not_trimmed() {
    // Arrange
    let mut lines = vec![
        line_from_text("   ", Style::plain()),
        line_from_text("\u{200b}", Style::plain()),
        line_from_text("", Style::plain()),
    ];

    // Act
    trim_trailing_blank_lines(&mut lines);

    // Assert
    assert_eq!(lines.len(), 1);
    assert_eq!(line_text(&lines[0]), "   ");
}

#[test]
fn test_plain_review_lines_are_additive() {
    // Arrange
    let mut lines = vec![line_from_text("", Style::plain())];

    // Act
    append_plain_review_status_lines(
        &mut lines,
        &"one two three".to_string(),
        7,
        &PlainRenderer::new(),
    );

    // Assert
    assert_eq!(texts_of(&lines), ["", "one two", "three"]);
}

#[test]
fn test_tail_places_its_loader_in_the_last_row() {
    // Arrange
    let mut lines = vec![line_from_text("text", Style::plain())];
    let progress = "Running tests".to_string();

    // Act
    let loader = append_session_tail_lines(
        &mut lines,
        Status::InProgress,
        Some(&progress),
        &PlainRenderer::new(),
    );

    // Assert
    assert_eq!(loader, Some(2));
    assert_eq!(texts_of(&lines), ["text", "", "▌▌▌ Running tests"]);
}

#[test]
fn test_queued_status_has_no_animation() {
    // Arrange
    let mut lines = Vec::new();

    // Act
    let loader =
        append_session_tail_lines(&mut lines, Status::Queued, None, &PlainRenderer::new());

    // Assert
    assert_eq!(loader, None);
    assert_eq!(texts_of(&lines), ["", "▌▌▌ Waiting..."]);
}

#[test]
fn test_staged_block_marks_its_lines() {
    assert_eq!(staged_draft_transcript_block("one\ntwo"), " › one\n   two\n\n");
    assert_eq!(staged_draft_transcript_block(""), " › \n\n");
}

#[test]
fn test_draft_preview_text() {
    // Arrange
    let mut session = session_fixture();
    session.is_draft = true;
    session.prompt = "Draft".to_string();
    session.replay_text = Some("\nnote\n".to_string());

    // Act
    let preview = render_draft_session_preview(&session);

    // Assert
    assert_eq!(
        preview,
        "## Draft Session\n\nDraft messages stay local until you press `s` in session view to \
         start the staged bundle.\n\n › Draft\n\n\n\nnote"
    );
}

#[test]
fn test_cache_keeps_the_entries_used_last() {
    // Arrange
    let mut cache = SessionOutputLayoutCache::default();
    let renderer = PlainRenderer::new();
    let session_of = |index: usize| {
        let mut session = session_fixture();
        session.id = format!("session-{index}");

        session
    };
    for index in 0..SESSION_OUTPUT_LAYOUT_CACHE_ENTRY_LIMIT {
        cache.layout(&session_of(index), AREA, line_context(), &renderer);
    }

    // Act
    cache.layout(&session_of(0), AREA, line_context(), &renderer);
    cache.layout(&session_of(99), AREA, line_context(), &renderer);

    // Assert
    assert_eq!(cache.entries.len(), SESSION_OUTPUT_LAYOUT_CACHE_ENTRY_LIMIT);
    assert_eq!(cache.entries[0].key.session_id, "session-99");
    assert_eq!(cache.entries[1].key.session_id, "session-0");
    assert!(!cache.has_entry("session-1"));
    assert!(cache.has_entry("session-2"));
}

#[test]
fn test_cache_keys_width_and_versions() {
    // Arrange
    let session = session_fixture();
    let renderer = PlainRenderer::new();
    let mut cache = SessionOutputLayoutCache::default();
    let progress = "step".to_string();
    let prompt = " › prompt".to_string();

    // Act
    cache.layout(&session, AREA, line_context(), &renderer);
    cache.layout(&session, ViewportRect::new(0, 0, 40, 8), line_context(), &renderer);
    cache.layout(
        &session,
        AREA,
        SessionOutputLineContext {
            markdown_render_version: 1,
            ..line_context()
        },
        &renderer,
    );
    cache.layout(
        &session,
        AREA,
        SessionOutputLineContext {
            active_progress: Some(&progress),
            ..line_context()
        },
        &renderer,
    );
    cache.layout(
        &session,
        AREA,
        SessionOutputLineContext {
            active_prompt_output: Some(&prompt),
            ..line_context()
        },
        &renderer,
    );

    // Assert
    assert_eq!(cache.entries.len(), 5);
}

#[test]
fn test_line_count_of_a_missing_row_is_zero() {
    // Arrange
    let sessions = vec![session_fixture()];
    let renderer = PlainRenderer::new();
    let mut cache = None;

    // Act
    let known = rendered_output_line_count_with_cache(
        &sessions,
        0,
        80,
        line_context(),
        &renderer,
        &mut cache,
    );
    let missing = rendered_output_line_count_with_cache(
        &sessions,
        1,
        80,
        line_context(),
        &renderer,
        &mut cache,
    );

    // Assert
    assert_eq!(known, 1);
    assert_eq!(missing, 0);
    assert!(cache.is_none());
}

#[test]
fn test_draft_prompt_is_only_identified_while_it_is_previewed() {
    // Arrange
    let mut session = session_fixture();
    session.prompt = "Draft".to_string();

    // Act
    let other = draft_prompt_fingerprint(&session);
    session.is_draft = true;
    let draft = draft_prompt_fingerprint(&session);

    // Assert
    assert!(!other.is_some);
    assert!(draft.is_some);
    assert_eq!(draft.content_len, 5);
}

#[test]
fn test_render_places_loaders_and_hands_the_cache_back() {
    // Arrange
    let mut session = session_fixture();
    session.status = Status::InProgress;
    session.transcript = vec![message(
        0,
        SessionMessageKind::FocusedReview,
        SessionMessageState::Pending,
        "Reviewing",
    )];
    let progress = "Thinking".to_string();
    let panel = SessionOutput::new(&session)
        .active_progress(&progress)
        .active_prompt_output(None)
        .markdown_render_cache(3)
        .session_update_version(4)
        .output_layout_cache(SessionOutputLayoutCache::default())
        .scroll_offset(0);

    // Act
    let frame = panel.render(AREA, &PlainRenderer::new());

    // Assert
    assert_eq!(frame.final_scroll, 0);
    assert_eq!(
        texts_of(&frame.layout.lines),
        ["▌▌▌ Reviewing", "", "▌▌▌ Thinking"]
    );
    assert_eq!(
        frame.active_loader_area,
        Some(ViewportRect::new(0, 3, LOADER_WIDTH, 1))
    );
    assert_eq!(
        frame.timeline_loader_areas,
        vec![ViewportRect::new(0, 1, LOADER_WIDTH, 1)]
    );
    let cache = frame.output_layout_cache.expect("the cache is handed back");
    assert_eq!(cache.entries.len(), 1);
    assert_eq!(cache.entries[0].key.markdown_render_version, 3);
    assert_eq!(cache.entries[0].key.session_update_version, 4);
}

/// Counts the rendered rows of one listed session.
fn row_count(sessions: &Vec<Session>, width: u16) -> u16 {
    rendered_output_line_count_with_cache(
        sessions,
        0,
        width,
        line_context(),
        &PlainRenderer::new(),
        &mut None,
    )
}

#[test]
fn test_view_total_lines_counts_wrapped_output_lines() {
    // Arrange
    let mut session = session_fixture();
    session.status = Status::Review;
    set_assistant_transcript(&mut session, &"word ".repeat(40));

    // Act
    let total_lines = row_count(&vec![session], 20);

    // Assert
    assert!(total_lines > 1);
}

#[test]
fn test_scroll_offset_down_does_not_jump_to_bottom_for_wrapped_output() {
    // Arrange
    let mut session = session_fixture();
    session.status = Status::Review;
    set_assistant_transcript(&mut session, &"word ".repeat(60));
    let metrics = ViewMetrics {
        total_lines: row_count(&vec![session], 20),
        view_height: 5,
    };

    // Act
    let next_offset = scroll_offset_down(Some(0), metrics, 1);

    // Assert
    assert_eq!(next_offset, Some(1));
}

fn page_facts() -> ViewSessionFacts {
    ViewSessionFacts {
        allows_continuation: true,
        allows_fork: true,
        can_merge_in_stack: true,
        can_mutate_in_stack: true,
        can_rebase_in_stack: true,
        can_reply_in_stack: true,
        can_start_staged: false,
        follow_up_task_action: None,
        publish_pull_request_action: None,
        session_state: ViewSessionState::Review,
        worktrees: Vec::new(),
    }
}

/// Presses a key on the page of a session with ten rows of output, in a
/// terminal that shows four of them.
fn press_on_page(mode: &mut AppMode, sessions: &Vec<Session>, code: KeyCode) -> ViewAction {
    let key_facts = ViewKeyFacts {
        default_branch_name: "wt/session".to_string(),
        default_option_index: 1,
        has_multiple_follow_up_tasks: false,
        has_review_text: false,
        is_image_paste: false,
        is_insertable: true,
        launch_configurations: Vec::new(),
        published_branch_name: None,
        review_status: None,
    };

    handle_session_page_key(
        mode,
        sessions,
        &page_facts(),
        &key_facts,
        line_context(),
        &PlainRenderer::new(),
        &mut Some(SessionOutputLayoutCache::default()),
        (80, 9),
        KeyEvent::new(code, KeyModifiers::none()),
    )
}

fn page_session() -> Session {
    let mut session = session_fixture();
    session.status = Status::Review;
    set_assistant_transcript(&mut session, &"line\n".repeat(10));

    session
}

fn page_mode(scroll_offset: Option<u16>) -> AppMode {
    AppMode::View {
        scroll_offset,
        session_id: "session-id".to_string(),
    }
}

#[test]
fn test_page_keys_scroll_by_the_measured_output() {
    // Arrange
    let sessions = vec![page_session()];
    let total_lines = row_count(&sessions, 78);
    let mut mode = page_mode(None);

    // Act
    press_on_page(&mut mode, &sessions, KeyCode::Char('k'));

    // Assert
    let expected = total_lines - 4 - 1;
    assert!(matches!(
        mode,
        AppMode::View { scroll_offset: Some(offset), .. } if offset == expected
    ));

    // Act
    press_on_page(&mut mode, &sessions, KeyCode::Char('j'));

    // Assert
    assert!(matches!(
        mode,
        AppMode::View {
            scroll_offset: None,
            ..
        }
    ));
}

#[test]
fn test_page_takes_the_status_of_the_listed_session() {
    // Arrange
    let sessions = vec![page_session()];
    let mut mode = page_mode(Some(1));

    // Act
    let action = press_on_page(&mut mode, &sessions, KeyCode::Char('d'));

    // Assert
    assert!(matches!(action, ViewAction::LoadDiff));
}

#[test]
fn test_page_without_its_session_gives_way_to_the_list() {
    // Arrange
    let mut mode = page_mode(Some(1));

    // Act
    let action = press_on_page(&mut mode, &Vec::new(), KeyCode::Char('d'));

    // Assert
    assert!(matches!(action, ViewAction::Nothing));
    assert!(matches!(mode, AppMode::List));
}
