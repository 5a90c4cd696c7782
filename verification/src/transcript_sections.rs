//! The parts of a transcript and their order on the screen.

use vstd::prelude::*;

use crate::prompt_history::{lemma_joined_with_push, written_prompt};
use crate::session::{Session, SessionMessage, SessionMessageKind, Status};
use crate::text::{blank, is_blank, joined, trim, trimmed};
use crate::text_lines::{joined_with, lemma_split_on, split_on, split_text, texts};

verus! {

/// One part of a transcript.
#[derive(Debug)]
pub enum TranscriptSection {
    Empty,
    Markdown(String),
    /// Messages from `start` up to `end`.
    Messages { end: usize, start: usize },
}

/// The parts of a transcript.
#[derive(Debug)]
pub struct TranscriptSections {
    pub active_turn: TranscriptSection,
    pub completed_turn: TranscriptSection,
    pub trailing_notice: TranscriptSection,
}

impl TranscriptSection {
    /// The part that holds these messages.
    pub open spec fn of_messages(start: int, end: int) -> TranscriptSection {
        if start < end {
            TranscriptSection::Messages { end: end as usize, start: start as usize }
        } else {
            TranscriptSection::Empty
        }
    }

    /// Whether the part shows nothing.
    pub open spec fn shows_nothing(self, messages: Seq<SessionMessage>) -> bool {
        match self {
            TranscriptSection::Empty => true,
            TranscriptSection::Markdown(text) => blank(text@),
            TranscriptSection::Messages { end, start } => forall|i: int|
                start <= i < end && i < messages.len() ==> blank(
                    (#[trigger] messages[i]).content@,
                ),
        }
    }

    /// Reports whether the part shows nothing.
    pub fn is_empty(&self, messages: &Vec<SessionMessage>) -> (result: bool)
        ensures
            result == self.shows_nothing(messages@),
    {
        match self {
            TranscriptSection::Empty => true,
            TranscriptSection::Markdown(text) => is_blank(text.as_str()),
            TranscriptSection::Messages { end, start } => {
                let last: usize = *end;
                let first: usize = *start;
                let mut index: usize = first;
                while index < last && index < messages.len()
                    invariant
                        *self == (TranscriptSection::Messages { end: last, start: first }),
                        first <= index,
                        forall|i: int|
                            first <= i < index && i < messages@.len() ==> blank(
                                (#[trigger] messages@[i]).content@,
                            ),
                    decreases last - index,
                {
                    if !is_blank(messages[index].content.as_str()) {
                        return false;
                    }
                    index = index + 1;
                }
                true
            },
        }
    }
}

/// Builds the part that holds these messages.
pub fn messages_section(start: usize, end: usize) -> (section: TranscriptSection)
    ensures
        section == TranscriptSection::of_messages(start as int, end as int),
{
    if start >= end {
        return TranscriptSection::Empty;
    }
    TranscriptSection::Messages { end, start }
}

/// Whether a turn is going on in this status.
pub open spec fn turn_active(status: Status) -> bool {
    match status {
        Status::InProgress | Status::Queued | Status::Rebasing | Status::Merging => true,
        _ => false,
    }
}

/// The place of the last message of a kind among the first `count`, or
/// nothing.
pub open spec fn last_of_kind(
    messages: Seq<SessionMessage>,
    kind: SessionMessageKind,
    count: int,
) -> Option<int>
    decreases count,
{
    if count <= 0 {
        None
    } else if messages[count - 1].kind == kind {
        Some(count - 1)
    } else {
        last_of_kind(messages, kind, count - 1)
    }
}

/// Where the active turn begins: at the last prompt, while a turn is going
/// on, and otherwise behind the last message.
pub open spec fn active_start(status: Status, messages: Seq<SessionMessage>) -> int {
    if turn_active(status) {
        match last_of_kind(messages, SessionMessageKind::UserPrompt, messages.len() as int) {
            Some(index) => index,
            None => messages.len() as int,
        }
    } else {
        messages.len() as int
    }
}

/// Finds the prompt of the active turn.
pub fn active_prompt_message_index(status: Status, messages: &Vec<SessionMessage>) -> (index: Option<
    usize,
>)
    ensures
        match index {
            Some(index) => turn_active(status) && last_of_kind(
                messages@,
                SessionMessageKind::UserPrompt,
                messages@.len() as int,
            ) == Some(index as int) && index < messages@.len(),
            None => !turn_active(status) || last_of_kind(
                messages@,
                SessionMessageKind::UserPrompt,
                messages@.len() as int,
            ) is None,
        },
{
    if !matches!(
        status,
        Status::InProgress | Status::Queued | Status::Rebasing | Status::Merging
    ) {
        return None;
    }
    let mut count: usize = messages.len();
    while count > 0
        invariant
            count <= messages@.len(),
            turn_active(status),
            last_of_kind(messages@, SessionMessageKind::UserPrompt, messages@.len() as int)
                == last_of_kind(messages@, SessionMessageKind::UserPrompt, count as int),
        decreases count,
    {
        if messages[count - 1].kind == SessionMessageKind::UserPrompt {
            return Some(count - 1);
        }
        count = count - 1;
    }
    None
}

/// Where the notices at the end of the first `end` messages begin.
pub open spec fn notices_start(messages: Seq<SessionMessage>, end: int) -> int
    decreases end,
{
    if end > 0 && messages[end - 1].kind == SessionMessageKind::WorkflowNotice {
        notices_start(messages, end - 1)
    } else {
        end
    }
}

/// Finds where the notices at the end of the first `end` messages begin.
pub fn trailing_workflow_notice_start(messages: &Vec<SessionMessage>, end: usize) -> (start: usize)
    requires
        end <= messages@.len(),
    ensures
        start == notices_start(messages@, end as int),
        start <= end,
{
    let mut start: usize = end;
    while start > 0 && messages[start - 1].kind == SessionMessageKind::WorkflowNotice
        invariant
            start <= end <= messages@.len(),
            notices_start(messages@, start as int) == notices_start(messages@, end as int),
        decreases start,
    {
        start = start - 1;
    }
    start
}

/// The parts of a transcript of messages.
pub open spec fn message_sections(status: Status, messages: Seq<SessionMessage>) -> TranscriptSections {
    let active = active_start(status, messages);
    let notices = notices_start(messages, active);
    TranscriptSections {
        active_turn: TranscriptSection::of_messages(active, messages.len() as int),
        completed_turn: TranscriptSection::of_messages(0, notices),
        trailing_notice: TranscriptSection::of_messages(notices, active),
    }
}

/// Splits a transcript of messages into its parts.
pub fn typed_transcript_sections(status: Status, messages: &Vec<SessionMessage>) -> (sections:
    TranscriptSections)
    ensures
        sections == message_sections(status, messages@),
{
    let active: usize = match active_prompt_message_index(status, messages) {
        Some(index) => index,
        None => messages.len(),
    };
    let notices: usize = trailing_workflow_notice_start(messages, active);
    TranscriptSections {
        active_turn: messages_section(active, messages.len()),
        completed_turn: messages_section(0, notices),
        trailing_notice: messages_section(notices, active),
    }
}

/// The parts follow each other without a gap and hold every message. The
/// active turn begins with a prompt and holds no other, the notices are
/// notices, and the completed part does not end with one.
pub proof fn lemma_sections_cover_transcript(status: Status, messages: Seq<SessionMessage>)
    ensures
        ({
            let active = active_start(status, messages);
            let notices = notices_start(messages, active);
            &&& 0 <= notices <= active <= messages.len()
            &&& active < messages.len() ==> messages[active].kind
                == SessionMessageKind::UserPrompt
            &&& turn_active(status) ==> forall|i: int|
                active < i < messages.len() ==> (#[trigger] messages[i]).kind
                    != SessionMessageKind::UserPrompt
            &&& forall|i: int|
                notices <= i < active ==> (#[trigger] messages[i]).kind
                    == SessionMessageKind::WorkflowNotice
            &&& notices > 0 ==> messages[notices - 1].kind != SessionMessageKind::WorkflowNotice
        }),
{
    lemma_last_of_kind(messages, SessionMessageKind::UserPrompt, messages.len() as int);
    lemma_notices_start(messages, active_start(status, messages));
}

proof fn lemma_last_of_kind(messages: Seq<SessionMessage>, kind: SessionMessageKind, count: int)
    requires
        0 <= count <= messages.len(),
    ensures
        match last_of_kind(messages, kind, count) {
            Some(index) => {
                &&& 0 <= index < count
                &&& messages[index].kind == kind
                &&& forall|i: int| index < i < count ==> (#[trigger] messages[i]).kind != kind
            },
            None => forall|i: int| 0 <= i < count ==> (#[trigger] messages[i]).kind != kind,
        },
    decreases count,
{
    if count > 0 && messages[count - 1].kind != kind {
        lemma_last_of_kind(messages, kind, count - 1);
    }
}

proof fn lemma_notices_start(messages: Seq<SessionMessage>, end: int)
    requires
        0 <= end <= messages.len(),
    ensures
        0 <= notices_start(messages, end) <= end,
        forall|i: int|
            notices_start(messages, end) <= i < end ==> (#[trigger] messages[i]).kind
                == SessionMessageKind::WorkflowNotice,
        notices_start(messages, end) > 0 ==> messages[notices_start(messages, end) - 1].kind
            != SessionMessageKind::WorkflowNotice,
    decreases end,
{
    if end > 0 && messages[end - 1].kind == SessionMessageKind::WorkflowNotice {
        lemma_notices_start(messages, end - 1);
    }
}

/// The note of a draft session's preview.
pub open spec fn draft_note(has_drafts: bool, is_stacked: bool) -> Seq<char> {
    if has_drafts && is_stacked {
        "Draft messages stay local until the parent is review-ready and you press `s` in session view to start the stacked bundle from its parent branch."@
    } else if has_drafts {
        "Draft messages stay local until you press `s` in session view to start the staged bundle."@
    } else if is_stacked {
        "No draft messages staged yet. Use `Enter` to stage the first draft locally. The `s` start action appears after the parent is review-ready."@
    } else {
        "No draft messages staged yet. Use `Enter` to stage the first draft locally, then press `s` in session view to start the bundle."@
    }
}

/// A staged prompt as a transcript shows prompts.
pub open spec fn staged_block(prompt: Seq<char>) -> Seq<char> {
    joined_with(written_prompt(split_on(prompt, '\n')), '\n') + "\n\n"@
}

/// The transcript of a draft session's preview, if there is any.
pub open spec fn preview_transcript(replay: Option<String>) -> Seq<char> {
    match replay {
        Some(text) => if trimmed(text@).len() > 0 {
            "\n\n"@ + trimmed(text@)
        } else {
            Seq::empty()
        },
        None => Seq::empty(),
    }
}

/// The preview of a draft session.
pub open spec fn draft_preview(session: Session) -> Seq<char> {
    let note = "## Draft Session"@ + "\n\n"@ + draft_note(
        session.prompt@.len() > 0,
        session.stacked(),
    );
    let body = if session.prompt@.len() > 0 {
        note + "\n\n"@ + staged_block(session.prompt@)
    } else {
        note + "\n"@
    };
    body + preview_transcript(session.replay_text)
}

/// Writes a staged prompt as a transcript shows prompts.
pub fn staged_draft_transcript_block(prompt_text: &str) -> (block: String)
    ensures
        block@ == staged_block(prompt_text@),
{
    let lines: Vec<String> = split_text(prompt_text, '\n');
    let ghost all = split_on(prompt_text@, '\n');
    let ghost wanted = written_prompt(all);
    let mut block: String = String::new();
    let mut index: usize = 0;
    proof {
        lemma_split_on(prompt_text@, '\n');
    }
    assert(wanted.take(0) =~= Seq::empty());
    while index < lines.len()
        invariant
            index <= lines@.len(),
            texts(lines@) == all,
            wanted == written_prompt(all),
            block@ == joined_with(wanted.take(index as int), '\n'),
        decreases lines@.len() - index,
    {
        let prefix: &str = if index == 0 {
            " \u{203a} "
        } else {
            "   "
        };
        let line: String = joined(prefix, lines[index].as_str());
        proof {
            assert(all[index as int] == lines@[index as int]@);
            assert(line@ =~= wanted[index as int]);
            let before = wanted.take(index as int);
            assert(wanted.take(index as int + 1) =~= before.push(line@));
            if index > 0 {
                lemma_joined_with_push(before, line@, '\n');
            } else {
                assert(before.push(line@).len() == 1);
            }
        }
        if index > 0 {
            block.push('\n');
        }
        let ghost start = block@;
        block = joined(block.as_str(), line.as_str());
        assert(block@ =~= start + line@);
        assert(index == 0 ==> block@ =~= line@);
        index = index + 1;
    }
    assert(wanted.take(index as int) =~= wanted);
    joined(block.as_str(), "\n\n")
}

/// Writes the preview of a draft session.
pub fn render_draft_session_preview(session: &Session) -> (output: String)
    ensures
        output@ == draft_preview(*session),
{
    let has_drafts: bool = session.has_staged_drafts();
    let is_stacked: bool = session.is_stacked_child();
    let note: &str = if has_drafts && is_stacked {
        "Draft messages stay local until the parent is review-ready and you press `s` in session view to start the stacked bundle from its parent branch."
    } else if has_drafts {
        "Draft messages stay local until you press `s` in session view to start the staged bundle."
    } else if is_stacked {
        "No draft messages staged yet. Use `Enter` to stage the first draft locally. The `s` start action appears after the parent is review-ready."
    } else {
        "No draft messages staged yet. Use `Enter` to stage the first draft locally, then press `s` in session view to start the bundle."
    };
    assert(note@ == draft_note(has_drafts, is_stacked));
    let heading: String = joined("## Draft Session", "\n\n");
    let headed: String = joined(heading.as_str(), note);
    let body: String = if has_drafts {
        let start: String = joined(headed.as_str(), "\n\n");
        joined(start.as_str(), staged_draft_transcript_block(session.prompt.as_str()).as_str())
    } else {
        joined(headed.as_str(), "\n")
    };
    let output: String = match &session.replay_text {
        Some(text) => {
            let transcript: String = trim(text.as_str());
            if transcript.as_str().is_empty() {
                joined(body.as_str(), "")
            } else {
                let start: String = joined(body.as_str(), "\n\n");
                joined(start.as_str(), transcript.as_str())
            }
        },
        None => joined(body.as_str(), ""),
    };
    proof {
        reveal_strlit("");
        assert(output@ =~= draft_preview(*session));
    }
    output
}

/// Whether `sections` are the parts of a session's transcript: a draft shows
/// its preview instead.
pub open spec fn sections_of(session: Session, sections: TranscriptSections) -> bool {
    if session.previews_draft() {
        &&& sections.active_turn is Empty
        &&& sections.trailing_notice is Empty
        &&& sections.completed_turn matches TranscriptSection::Markdown(text)
        &&& text@ == draft_preview(session)
    } else {
        sections == message_sections(session.status, session.transcript@)
    }
}

/// Splits the transcript of a session into its parts.
pub fn output_text_sections(session: &Session) -> (sections: TranscriptSections)
    ensures
        sections_of(*session, sections),
{
    if session.is_draft_preview() {
        return TranscriptSections {
            active_turn: TranscriptSection::Empty,
            completed_turn: TranscriptSection::Markdown(render_draft_session_preview(session)),
            trailing_notice: TranscriptSection::Empty,
        };
    }
    typed_transcript_sections(session.status, &session.transcript)
}

} // verus!
