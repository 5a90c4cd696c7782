use agentty_tui::fingerprint::{TextFingerprint, TranscriptFingerprint};
use agentty_tui::session::{
    Session, SessionMessage, SessionMessageKind, SessionMessageState, Status,
};

fn session(messages: Vec<(SessionMessageKind, &str)>) -> Session {
    let transcript = messages
        .into_iter()
        .zip(10..)
        .map(|((kind, content), position)| SessionMessage {
            content: content.to_string(),
            kind,
            position,
            state: SessionMessageState::Resolved,
        })
        .collect();

    Session {
        base_branch: "main".to_string(),
        folder: "/tmp/session".to_string(),
        id: "session-1".to_string(),
        is_draft: false,
        parent_session_id: None,
        prompt: String::new(),
        published_upstream_ref: None,
        queued_messages: Vec::new(),
        replay_text: None,
        status: Status::Review,
        title: String::new(),
        transcript,
        updated_at: 0,
    }
}

fn texts(list: &[&str]) -> Vec<String> {
    list.iter().map(|text| text.to_string()).collect()
}

#[test]
fn test_missing_text_has_its_own_fingerprint() {
    // Arrange, Act
    let missing = TextFingerprint::from_text(None);
    let empty = TextFingerprint::from_text(Some(""));

    // Assert
    assert_eq!(
        missing,
        TextFingerprint {
            content_hash: 0,
            content_len: 0,
            is_some: false
        }
    );
    assert!(empty.is_some);
    assert_ne!(missing, empty);
}

#[test]
fn test_equal_texts_have_equal_fingerprints() {
    // Arrange, Act
    let first = TextFingerprint::from_text(Some("progress ▌"));
    let again = TextFingerprint::from_text(Some("progress ▌"));
    let other = TextFingerprint::from_text(Some("progress ▐"));

    // Assert
    assert_eq!(first, again);
    assert_eq!(first.content_len, 12);
    assert_ne!(first, other);
}

#[test]
fn test_text_boundaries_count() {
    // Arrange, Act
    let joined = TextFingerprint::from_texts(&texts(&["ab", "c"]));
    let split = TextFingerprint::from_texts(&texts(&["a", "bc"]));
    let none = TextFingerprint::from_texts(&Vec::new());

    // Assert
    assert_eq!(joined.content_len, 3);
    assert_eq!(split.content_len, 3);
    assert_ne!(joined.content_hash, split.content_hash);
    assert!(!none.is_some);
    assert_eq!(none.content_len, 0);
}

#[test]
fn test_transcript_is_identified_by_its_last_message() {
    // Arrange
    let source = session(vec![
        (SessionMessageKind::UserPrompt, "Fix it"),
        (SessionMessageKind::AssistantAnswer, "Done"),
    ]);

    // Act
    let fingerprint = TranscriptFingerprint::from_session(&source);
    let empty = TranscriptFingerprint::from_session(&session(Vec::new()));

    // Assert
    assert_eq!(
        fingerprint,
        TranscriptFingerprint {
            content_len: 10,
            is_some: true,
            last_kind: Some(SessionMessageKind::AssistantAnswer),
            last_position: 11,
            message_count: 2,
        }
    );
    assert!(!empty.is_some);
    assert_eq!(empty.last_kind, None);
}
