//! Compact identities of texts and transcripts.

use vstd::prelude::*;

use std::hash::Hasher;

use crate::session::{Session, SessionMessage, SessionMessageKind};

verus! {

/// The hasher that fingerprints are made with.
#[verifier::external_type_specification]
#[verifier::external_body]
pub struct ExFxHasher(rustc_hash::FxHasher);

/// What was written into a hasher, in order: runs of bytes, and single bytes
/// marked by `true`.
pub uninterp spec fn hasher_input(hasher: rustc_hash::FxHasher) -> Seq<(bool, Seq<u8>)>;

/// `rustc_hash::FxHasher::default`: a hasher into which nothing was written.
#[verifier::external_body]
fn new_hasher() -> (hasher: rustc_hash::FxHasher)
    ensures
        hasher_input(hasher) == Seq::<(bool, Seq<u8>)>::empty(),
{
    rustc_hash::FxHasher::default()
}

/// `FxHasher::write`: adds a run of bytes to what was written.
#[verifier::external_body]
fn write_bytes(hasher: &mut rustc_hash::FxHasher, bytes: &[u8])
    ensures
        hasher_input(*final(hasher)) == hasher_input(*old(hasher)).push((false, bytes@)),
{
    hasher.write(bytes);
}

/// `FxHasher::write_u8`: adds a single byte to what was written.
#[verifier::external_body]
fn write_byte(hasher: &mut rustc_hash::FxHasher, byte: u8)
    ensures
        hasher_input(*final(hasher)) == hasher_input(*old(hasher)).push((true, seq![byte])),
{
    hasher.write_u8(byte);
}

/// `FxHasher::finish`: the digest of what was written.
///
/// The digest is computed in machine words, so it differs between machines
/// and nothing is claimed of its value.
#[verifier::external_body]
fn finish_hasher(hasher: &rustc_hash::FxHasher) -> (digest: u64)
{
    hasher.finish()
}

/// Whether a hasher into which this input was written may give `digest`.
pub closed spec fn digest_of(input: Seq<(bool, Seq<u8>)>, digest: u64) -> bool {
    exists|hasher: rustc_hash::FxHasher| #[trigger]
        hasher_input(hasher) == input && call_ensures(finish_hasher, (&hasher,), digest)
}

/// Computes the digest of what was written.
fn digest(hasher: &rustc_hash::FxHasher) -> (value: u64)
    ensures
        digest_of(hasher_input(*hasher), value),
{
    let finish = finish_hasher;
    let value: u64 = finish(hasher);
    assert(call_ensures(finish_hasher, (hasher,), value));
    value
}

/// The bytes of a text.
pub open spec fn text_bytes(text: Seq<char>) -> Seq<u8> {
    vstd::utf8::encode_utf8(text)
}

/// A sum of sizes, capped by the largest `usize`.
pub open spec fn capped_size(sum: int) -> usize {
    if sum > usize::MAX {
        usize::MAX
    } else {
        sum as usize
    }
}

/// The bytes of all texts together.
pub open spec fn total_bytes(texts: Seq<String>) -> int
    decreases texts.len(),
{
    if texts.len() == 0 {
        0
    } else {
        total_bytes(texts.drop_last()) + text_bytes(texts.last()@).len()
    }
}

/// What is hashed for a list of texts: each of them, followed by a byte that
/// ends it.
pub open spec fn list_input(texts: Seq<String>) -> Seq<(bool, Seq<u8>)>
    decreases texts.len(),
{
    if texts.len() == 0 {
        Seq::empty()
    } else {
        list_input(texts.drop_last()).push((false, text_bytes(texts.last()@))).push(
            (true, seq![0xffu8]),
        )
    }
}

/// Identity of an optional text.
#[derive(Clone, Copy, Debug, PartialEq, Eq, Structural)]
pub struct TextFingerprint {
    pub content_hash: u64,
    /// Length in bytes.
    pub content_len: usize,
    pub is_some: bool,
}

impl TextFingerprint {
    /// Whether the fingerprint is one of an optional text.
    pub open spec fn identifies(self, text: Option<Seq<char>>) -> bool {
        match text {
            None => self == (TextFingerprint { content_hash: 0, content_len: 0, is_some: false }),
            Some(text) => {
                &&& self.is_some
                &&& self.content_len == capped_size(text_bytes(text).len() as int)
                &&& digest_of(seq![(false, text_bytes(text))], self.content_hash)
            },
        }
    }

    /// Whether the fingerprint is one of a list of texts.
    pub open spec fn identifies_list(self, texts: Seq<String>) -> bool {
        &&& self.is_some == (texts.len() > 0)
        &&& self.content_len == capped_size(total_bytes(texts))
        &&& digest_of(list_input(texts), self.content_hash)
    }

    /// Builds the fingerprint of an optional text.
    pub fn from_text(text: Option<&str>) -> (fingerprint: TextFingerprint)
        ensures
            fingerprint.identifies(
                match text {
                    Some(text) => Some(text@),
                    None => None,
                },
            ),
    {
        let text: &str = match text {
            Some(text) => text,
            None => {
                return TextFingerprint { content_hash: 0, content_len: 0, is_some: false };
            },
        };
        let bytes: &[u8] = text.as_bytes();
        let mut hasher: rustc_hash::FxHasher = new_hasher();
        write_bytes(&mut hasher, bytes);
        assert(hasher_input(hasher) =~= seq![(false, text_bytes(text@))]);
        TextFingerprint {
            content_hash: digest(&hasher),
            content_len: bytes.len(),
            is_some: true,
        }
    }

    /// Builds the fingerprint of a list of texts.
    pub fn from_texts(texts: &Vec<String>) -> (fingerprint: TextFingerprint)
        ensures
            fingerprint.identifies_list(texts@),
    {
        let mut content_len: usize = 0;
        let mut hasher: rustc_hash::FxHasher = new_hasher();
        let mut index: usize = 0;
        assert(texts@.take(0) =~= Seq::empty());
        while index < texts.len()
            invariant
                index <= texts@.len(),
                content_len == capped_size(total_bytes(texts@.take(index as int))),
                hasher_input(hasher) == list_input(texts@.take(index as int)),
                total_bytes(texts@.take(index as int)) >= 0,
            decreases texts@.len() - index,
        {
            assert(texts@.take(index as int + 1).drop_last() =~= texts@.take(index as int));
            let bytes: &[u8] = texts[index].as_str().as_bytes();
            write_bytes(&mut hasher, bytes);
            write_byte(&mut hasher, 0xff);
            content_len = content_len.saturating_add(bytes.len());
            index = index + 1;
        }
        assert(texts@.take(index as int) =~= texts@);
        TextFingerprint {
            content_hash: digest(&hasher),
            content_len,
            is_some: texts.len() > 0,
        }
    }
}

/// The bytes of all messages together.
pub open spec fn message_bytes(messages: Seq<SessionMessage>) -> int
    decreases messages.len(),
{
    if messages.len() == 0 {
        0
    } else {
        message_bytes(messages.drop_last()) + text_bytes(messages.last().content@).len()
    }
}

/// Identity of a transcript.
#[derive(Clone, Copy, Debug, PartialEq, Eq, Structural)]
pub struct TranscriptFingerprint {
    /// Length of all messages in bytes.
    pub content_len: usize,
    pub is_some: bool,
    /// Kind of the last message, where there is one.
    pub last_kind: Option<SessionMessageKind>,
    pub last_position: i64,
    pub message_count: usize,
}

/// The fingerprint of a transcript; one without messages counts as none.
pub open spec fn fingerprint_of(messages: Seq<SessionMessage>) -> TranscriptFingerprint {
    if messages.len() == 0 {
        TranscriptFingerprint {
            content_len: 0,
            is_some: false,
            last_kind: None,
            last_position: 0,
            message_count: 0,
        }
    } else {
        TranscriptFingerprint {
            content_len: capped_size(message_bytes(messages)),
            is_some: true,
            last_kind: Some(messages.last().kind),
            last_position: messages.last().position,
            message_count: messages.len() as usize,
        }
    }
}

impl TranscriptFingerprint {
    /// Builds the fingerprint of a session's transcript.
    pub fn from_session(session: &Session) -> (fingerprint: TranscriptFingerprint)
        ensures
            fingerprint == fingerprint_of(session.transcript@),
    {
        let messages: &Vec<SessionMessage> = &session.transcript;
        if messages.len() == 0 {
            return TranscriptFingerprint {
                content_len: 0,
                is_some: false,
                last_kind: None,
                last_position: 0,
                message_count: 0,
            };
        }
        let mut content_len: usize = 0;
        let mut index: usize = 0;
        assert(messages@.take(0) =~= Seq::empty());
        while index < messages.len()
            invariant
                index <= messages@.len(),
                content_len == capped_size(message_bytes(messages@.take(index as int))),
                message_bytes(messages@.take(index as int)) >= 0,
            decreases messages@.len() - index,
        {
            assert(messages@.take(index as int + 1).drop_last() =~= messages@.take(index as int));
            let bytes: &[u8] = messages[index].content.as_str().as_bytes();
            content_len = content_len.saturating_add(bytes.len());
            index = index + 1;
        }
        assert(messages@.take(index as int) =~= messages@);
        let last: &SessionMessage = &messages[messages.len() - 1];
        TranscriptFingerprint {
            content_len,
            is_some: true,
            last_kind: Some(last.kind),
            last_position: last.position,
            message_count: messages.len(),
        }
    }
}

} // verus!
