//! Assembled session outputs, kept for the frames that follow.

use std::collections::VecDeque;

use vstd::prelude::*;

use crate::fingerprint::{TextFingerprint, TranscriptFingerprint};
use crate::rich_text::{Line, LineView, lemma_line_views_push, line_views};
use crate::session::{SessionId, Status};
use crate::text::same_text;

verus! {

/// Outputs that are kept at a time.
pub const SESSION_OUTPUT_LAYOUT_CACHE_ENTRY_LIMIT: usize = 16;

/// Everything that the lines of a session's output depend on.
#[derive(Debug)]
pub struct SessionOutputLayoutCacheKey {
    pub active_progress: TextFingerprint,
    pub active_prompt_output: TextFingerprint,
    pub draft_prompt: TextFingerprint,
    pub is_stacked_child: bool,
    pub markdown_render_version: u64,
    pub output_width: u16,
    pub queued_messages: TextFingerprint,
    pub session_id: SessionId,
    pub session_update_version: u64,
    pub session_updated_at: i64,
    pub status: Status,
    pub theme_cache_version: u64,
    pub transcript: TranscriptFingerprint,
}

/// A key, with its session's identifier as plain text.
pub struct LayoutKey {
    pub active_progress: TextFingerprint,
    pub active_prompt_output: TextFingerprint,
    pub draft_prompt: TextFingerprint,
    pub is_stacked_child: bool,
    pub markdown_render_version: u64,
    pub output_width: u16,
    pub queued_messages: TextFingerprint,
    pub session_id: Seq<char>,
    pub session_update_version: u64,
    pub session_updated_at: i64,
    pub status: Status,
    pub theme_cache_version: u64,
    pub transcript: TranscriptFingerprint,
}

impl View for SessionOutputLayoutCacheKey {
    type V = LayoutKey;

    open spec fn view(&self) -> LayoutKey {
        LayoutKey {
            active_progress: self.active_progress,
            active_prompt_output: self.active_prompt_output,
            draft_prompt: self.draft_prompt,
            is_stacked_child: self.is_stacked_child,
            markdown_render_version: self.markdown_render_version,
            output_width: self.output_width,
            queued_messages: self.queued_messages,
            session_id: self.session_id@,
            session_update_version: self.session_update_version,
            session_updated_at: self.session_updated_at,
            status: self.status,
            theme_cache_version: self.theme_cache_version,
            transcript: self.transcript,
        }
    }
}

impl SessionOutputLayoutCacheKey {
    /// Reports whether two keys are the same.
    pub fn same_as(&self, other: &SessionOutputLayoutCacheKey) -> (result: bool)
        ensures
            result == (self@ == other@),
    {
        self.active_progress == other.active_progress && self.active_prompt_output
            == other.active_prompt_output && self.draft_prompt == other.draft_prompt
            && self.is_stacked_child == other.is_stacked_child && self.markdown_render_version
            == other.markdown_render_version && self.output_width == other.output_width
            && self.queued_messages == other.queued_messages && same_text(
            self.session_id.as_str(),
            other.session_id.as_str(),
        ) && self.session_update_version == other.session_update_version
            && self.session_updated_at == other.session_updated_at && self.status == other.status
            && self.theme_cache_version == other.theme_cache_version && self.transcript
            == other.transcript
    }
}

/// An assembled output.
#[derive(Debug)]
pub struct SessionOutputLayout {
    /// Row of the animated status.
    pub active_loader_line_index: Option<usize>,
    /// Number of lines, as far as a row index can count.
    pub line_count: u16,
    pub lines: Vec<Line>,
    /// Rows of pending entries.
    pub timeline_loader_line_indices: Vec<usize>,
}

/// An assembled output with plain lines.
#[verifier::ext_equal]
pub struct LayoutView {
    pub active_loader_line_index: Option<usize>,
    pub line_count: u16,
    pub lines: Seq<LineView>,
    pub timeline_loader_line_indices: Seq<usize>,
}

impl View for SessionOutputLayout {
    type V = LayoutView;

    open spec fn view(&self) -> LayoutView {
        LayoutView {
            active_loader_line_index: self.active_loader_line_index,
            line_count: self.line_count,
            lines: line_views(self.lines@),
            timeline_loader_line_indices: self.timeline_loader_line_indices@,
        }
    }
}

impl Clone for SessionOutputLayout {
    fn clone(&self) -> (copy: SessionOutputLayout)
        ensures
            copy@ == self@,
    {
        let mut lines: Vec<Line> = Vec::new();
        let ghost whole = line_views(self.lines@);
        let mut index: usize = 0;
        assert(line_views(lines@) =~= whole.take(0));
        while index < self.lines.len()
            invariant
                index <= self.lines@.len(),
                whole == line_views(self.lines@),
                line_views(lines@) == whole.take(index as int),
            decreases self.lines@.len() - index,
        {
            let line: Line = self.lines[index].clone();
            proof {
                assert(line@ == whole[index as int]);
                lemma_line_views_push(lines@, line);
                assert(whole.take(index as int + 1) =~= whole.take(index as int).push(line@));
            }
            lines.push(line);
            index = index + 1;
        }
        assert(whole.take(index as int) =~= whole);
        let mut loaders: Vec<usize> = Vec::new();
        let mut next: usize = 0;
        while next < self.timeline_loader_line_indices.len()
            invariant
                next <= self.timeline_loader_line_indices@.len(),
                loaders@ == self.timeline_loader_line_indices@.take(next as int),
            decreases self.timeline_loader_line_indices@.len() - next,
        {
            loaders.push(self.timeline_loader_line_indices[next]);
            assert(loaders@ =~= self.timeline_loader_line_indices@.take(next as int + 1));
            next = next + 1;
        }
        assert(loaders@ =~= self.timeline_loader_line_indices@);
        SessionOutputLayout {
            active_loader_line_index: self.active_loader_line_index,
            line_count: self.line_count,
            lines,
            timeline_loader_line_indices: loaders,
        }
    }
}

/// A kept output.
#[derive(Debug)]
pub struct SessionOutputLayoutCacheEntry {
    pub key: SessionOutputLayoutCacheKey,
    pub layout: SessionOutputLayout,
}

/// The place of the first entry under this key.
pub open spec fn entry_position(
    entries: Seq<SessionOutputLayoutCacheEntry>,
    key: LayoutKey,
    start: int,
) -> Option<int>
    decreases entries.len() - start,
{
    if start >= entries.len() || start < 0 {
        None
    } else if entries[start].key@ == key {
        Some(start)
    } else {
        entry_position(entries, key, start + 1)
    }
}

/// Entries after the one at `index` was used: it moved to the front.
pub open spec fn promoted(
    entries: Seq<SessionOutputLayoutCacheEntry>,
    index: int,
) -> Seq<SessionOutputLayoutCacheEntry> {
    seq![entries[index]] + entries.remove(index)
}

/// Entries after a new one was put in front; the last one goes when there
/// are too many.
pub open spec fn stored(
    entries: Seq<SessionOutputLayoutCacheEntry>,
    entry: SessionOutputLayoutCacheEntry,
) -> Seq<SessionOutputLayoutCacheEntry> {
    let all = seq![entry] + entries;
    if all.len() > SESSION_OUTPUT_LAYOUT_CACHE_ENTRY_LIMIT {
        all.drop_last()
    } else {
        all
    }
}

/// Whether a session has an output among the entries.
pub open spec fn session_has_entry(
    entries: Seq<SessionOutputLayoutCacheEntry>,
    session_id: Seq<char>,
) -> bool {
    exists|i: int| 0 <= i < entries.len() && (#[trigger] entries[i]).key.session_id@ == session_id
}

/// The place of a session among those with an animation.
pub open spec fn session_position(
    sessions: Seq<SessionId>,
    session_id: Seq<char>,
    start: int,
) -> Option<int>
    decreases sessions.len() - start,
{
    if start >= sessions.len() || start < 0 {
        None
    } else if sessions[start]@ == session_id {
        Some(start)
    } else {
        session_position(sessions, session_id, start + 1)
    }
}

/// Animated sessions without this one.
pub open spec fn without_session(sessions: Seq<SessionId>, session_id: Seq<char>) -> Seq<
    SessionId,
> {
    match session_position(sessions, session_id, 0) {
        Some(index) => sessions.remove(index),
        None => sessions,
    }
}

/// Animated sessions after an entry was stored: a session whose last output
/// goes loses its animation.
pub open spec fn sessions_after_store(
    entries: Seq<SessionOutputLayoutCacheEntry>,
    entry: SessionOutputLayoutCacheEntry,
    sessions: Seq<SessionId>,
) -> Seq<SessionId> {
    let all = seq![entry] + entries;
    if all.len() > SESSION_OUTPUT_LAYOUT_CACHE_ENTRY_LIMIT && !session_has_entry(
        stored(entries, entry),
        all.last().key.session_id@,
    ) {
        without_session(sessions, all.last().key.session_id@)
    } else {
        sessions
    }
}

/// Kept outputs, the one used last in front, and the sessions whose loader
/// animation has a state.
#[derive(Debug)]
pub struct SessionOutputLayoutCache {
    pub entries: VecDeque<SessionOutputLayoutCacheEntry>,
    pub loader_sessions: Vec<SessionId>,
}

impl Default for SessionOutputLayoutCache {
    fn default() -> (cache: SessionOutputLayoutCache)
        ensures
            cache.well_formed(),
            cache.entries@.len() == 0,
            cache.loader_sessions@.len() == 0,
    {
        SessionOutputLayoutCache {
            entries: VecDeque::with_capacity(SESSION_OUTPUT_LAYOUT_CACHE_ENTRY_LIMIT),
            loader_sessions: Vec::new(),
        }
    }
}

impl SessionOutputLayoutCache {
    /// No more outputs are kept than the limit, no two under one key, and no
    /// session has two animations.
    pub open spec fn well_formed(&self) -> bool {
        &&& self.entries@.len() <= SESSION_OUTPUT_LAYOUT_CACHE_ENTRY_LIMIT
        &&& forall|i: int, j: int|
            0 <= i < j < self.entries@.len() ==> (#[trigger] self.entries@[i]).key@ != (
            #[trigger] self.entries@[j]).key@
        &&& forall|i: int, j: int|
            0 <= i < j < self.loader_sessions@.len() ==> (#[trigger] self.loader_sessions@[i])@ != (
            #[trigger] self.loader_sessions@[j])@
    }

    /// Whether every animated session has an output here.
    pub open spec fn animations_have_outputs(&self) -> bool {
        forall|i: int|
            0 <= i < self.loader_sessions@.len() ==> session_has_entry(
                self.entries@,
                (#[trigger] self.loader_sessions@[i])@,
            )
    }

    /// Looks an output up and moves it to the front.
    pub fn cached_layout(&mut self, key: &SessionOutputLayoutCacheKey) -> (layout: Option<
        SessionOutputLayout,
    >)
        requires
            old(self).well_formed(),
        ensures
            final(self).well_formed(),
            final(self).loader_sessions == old(self).loader_sessions,
            match entry_position(old(self).entries@, key@, 0) {
                Some(index) => {
                    &&& layout matches Some(found)
                    &&& found@ == old(self).entries@[index].layout@
                    &&& final(self).entries@ == promoted(old(self).entries@, index)
                },
                None => layout is None && final(self).entries == old(self).entries,
            },
    {
        let mut index: usize = 0;
        while index < self.entries.len()
            invariant
                index <= self.entries@.len(),
                *self == *old(self),
                entry_position(self.entries@, key@, 0) == entry_position(
                    self.entries@,
                    key@,
                    index as int,
                ),
            ensures
                index <= self.entries@.len(),
                *self == *old(self),
                entry_position(self.entries@, key@, 0) == (if index < self.entries@.len() {
                    Some(index as int)
                } else {
                    None
                }),
            decreases self.entries@.len() - index,
        {
            if self.entries[index].key.same_as(key) {
                break;
            }
            index = index + 1;
        }
        if index >= self.entries.len() {
            return None;
        }
        let ghost before = self.entries@;
        let entry: SessionOutputLayoutCacheEntry = match self.entries.remove(index) {
            Some(entry) => entry,
            None => {
                return None;
            },
        };
        let layout: SessionOutputLayout = entry.layout.clone();
        self.entries.push_front(entry);
        assert(self.entries@ =~= promoted(before, index as int));
        assert forall|i: int, j: int| 0 <= i < j < self.entries@.len() implies (
        #[trigger] self.entries@[i]).key@ != (#[trigger] self.entries@[j]).key@ by {
            let a = if i == 0 {
                index as int
            } else if i <= index {
                i - 1
            } else {
                i
            };
            let b = if j <= index {
                j - 1
            } else {
                j
            };
            assert(self.entries@[i] == before[a]);
            assert(self.entries@[j] == before[b]);
        }
        Some(layout)
    }

    /// Stores an output. A session whose last output goes loses its
    /// animation and is returned.
    pub(crate) fn store_entry(&mut self, entry: SessionOutputLayoutCacheEntry) -> (dropped: Option<
        SessionId,
    >)
        requires
            old(self).well_formed(),
            entry_position(old(self).entries@, entry.key@, 0) is None,
        ensures
            final(self).well_formed(),
            final(self).entries@ == stored(old(self).entries@, entry),
            final(self).loader_sessions@ == sessions_after_store(
                old(self).entries@,
                entry,
                old(self).loader_sessions@,
            ),
            match dropped {
                Some(session_id) => {
                    &&& old(self).entries@.len() == SESSION_OUTPUT_LAYOUT_CACHE_ENTRY_LIMIT
                    &&& session_id == old(self).entries@.last().key.session_id
                    &&& !session_has_entry(final(self).entries@, session_id@)
                },
                None => old(self).entries@.len() == SESSION_OUTPUT_LAYOUT_CACHE_ENTRY_LIMIT
                    ==> session_has_entry(
                    final(self).entries@,
                    old(self).entries@.last().key.session_id@,
                ),
            },
    {
        let ghost before = self.entries@;
        let ghost all = seq![entry] + before;
        proof {
            lemma_entry_position(before, entry.key@, 0);
        }
        self.entries.push_front(entry);
        assert(self.entries@ =~= all);
        if self.entries.len() <= SESSION_OUTPUT_LAYOUT_CACHE_ENTRY_LIMIT {
            return None;
        }
        let evicted: Option<SessionOutputLayoutCacheEntry> = self.entries.pop_back();
        assert(self.entries@ =~= stored(before, entry));
        match evicted {
            Some(evicted) => {
                assert(evicted == all.last());
                assert(all.last() == before.last());
                if self.has_entry(evicted.key.session_id.as_str()) {
                    return None;
                }
                self.drop_animation(evicted.key.session_id.as_str());
                Some(evicted.key.session_id)
            },
            None => None,
        }
    }

    /// Reports whether a session has an output here.
    pub fn has_entry(&self, session_id: &str) -> (result: bool)
        ensures
            result == session_has_entry(self.entries@, session_id@),
    {
        let mut index: usize = 0;
        while index < self.entries.len()
            invariant
                index <= self.entries@.len(),
                forall|i: int|
                    0 <= i < index ==> (#[trigger] self.entries@[i]).key.session_id@
                        != session_id@,
            decreases self.entries@.len() - index,
        {
            if same_text(self.entries[index].key.session_id.as_str(), session_id) {
                return true;
            }
            index = index + 1;
        }
        false
    }

    /// Finds a session among those with an animation.
    fn animation_position(&self, session_id: &str) -> (position: Option<usize>)
        ensures
            match position {
                Some(index) => session_position(self.loader_sessions@, session_id@, 0) == Some(
                    index as int,
                ) && index < self.loader_sessions@.len(),
                None => session_position(self.loader_sessions@, session_id@, 0) is None,
            },
    {
        let mut index: usize = 0;
        while index < self.loader_sessions.len()
            invariant
                index <= self.loader_sessions@.len(),
                session_position(self.loader_sessions@, session_id@, 0) == session_position(
                    self.loader_sessions@,
                    session_id@,
                    index as int,
                ),
            decreases self.loader_sessions@.len() - index,
        {
            if same_text(self.loader_sessions[index].as_str(), session_id) {
                return Some(index);
            }
            index = index + 1;
        }
        None
    }

    /// Forgets the animation of a session.
    fn drop_animation(&mut self, session_id: &str)
        requires
            old(self).well_formed(),
        ensures
            final(self).well_formed(),
            final(self).entries == old(self).entries,
            final(self).loader_sessions@ == without_session(
                old(self).loader_sessions@,
                session_id@,
            ),
    {
        if let Some(index) = self.animation_position(session_id) {
            let removed: SessionId = self.loader_sessions.remove(index);
        }
    }

    /// Prepares the animation of a session for a frame and reports whether
    /// its state is new.
    pub fn apply_tachyon_loader_effect(&mut self, session_id: &SessionId) -> (is_new: bool)
        requires
            old(self).well_formed(),
        ensures
            final(self).well_formed(),
            final(self).entries == old(self).entries,
            is_new == (session_position(old(self).loader_sessions@, session_id@, 0) is None),
            final(self).loader_sessions@ == (if is_new {
                old(self).loader_sessions@.push(*session_id)
            } else {
                old(self).loader_sessions@
            }),
    {
        if self.animation_position(session_id.as_str()).is_some() {
            return false;
        }
        proof {
            lemma_absent_session(self.loader_sessions@, session_id@, 0);
        }
        self.loader_sessions.push(session_id.clone());
        true
    }
}

proof fn lemma_entry_position(
    entries: Seq<SessionOutputLayoutCacheEntry>,
    key: LayoutKey,
    start: int,
)
    requires
        0 <= start <= entries.len(),
    ensures
        match entry_position(entries, key, start) {
            Some(index) => start <= index < entries.len() && entries[index].key@ == key,
            None => forall|i: int|
                start <= i < entries.len() ==> (#[trigger] entries[i]).key@ != key,
        },
    decreases entries.len() - start,
{
    if start < entries.len() {
        lemma_entry_position(entries, key, start + 1);
    }
}

proof fn lemma_absent_session(sessions: Seq<SessionId>, session_id: Seq<char>, start: int)
    requires
        0 <= start <= sessions.len(),
        session_position(sessions, session_id, start) is None,
    ensures
        forall|i: int| start <= i < sessions.len() ==> (#[trigger] sessions[i])@ != session_id,
    decreases sessions.len() - start,
{
    if start < sessions.len() {
        lemma_absent_session(sessions, session_id, start + 1);
    }
}

proof fn lemma_session_position(sessions: Seq<SessionId>, session_id: Seq<char>, start: int)
    requires
        0 <= start <= sessions.len(),
    ensures
        session_position(sessions, session_id, start) matches Some(index) ==> start <= index
            < sessions.len() && sessions[index]@ == session_id,
    decreases sessions.len() - start,
{
    if start < sessions.len() {
        lemma_session_position(sessions, session_id, start + 1);
    }
}

/// What was stored is found again: it is the first entry, and looking it up
/// changes nothing.
pub proof fn lemma_stored_entry_is_found(
    entries: Seq<SessionOutputLayoutCacheEntry>,
    entry: SessionOutputLayoutCacheEntry,
)
    ensures
        entry_position(stored(entries, entry), entry.key@, 0) == Some(0int),
        stored(entries, entry)[0] == entry,
        promoted(stored(entries, entry), 0) == stored(entries, entry),
{
    let all = stored(entries, entry);
    assert(all[0] == entry);
    assert(promoted(all, 0) =~= all);
}

/// Using an output loses none: whatever was found under a key is found under
/// it afterwards, and the used one comes first.
pub proof fn lemma_use_keeps_entries(
    cache: SessionOutputLayoutCache,
    used: LayoutKey,
    key: LayoutKey,
    index: int,
)
    requires
        cache.well_formed(),
        entry_position(cache.entries@, used, 0) == Some(index),
    ensures
        entry_position(promoted(cache.entries@, index), used, 0) == Some(0int),
        match entry_position(cache.entries@, key, 0) {
            Some(before) => entry_position(promoted(cache.entries@, index), key, 0) matches Some(
                after,
            ) && promoted(cache.entries@, index)[after] == cache.entries@[before],
            None => entry_position(promoted(cache.entries@, index), key, 0) is None,
        },
{
    let entries = cache.entries@;
    let after = promoted(entries, index);
    lemma_entry_position(entries, used, 0);
    lemma_entry_position(entries, key, 0);
    lemma_entry_position(after, key, 0);
    assert(after[0] == entries[index]);
    match entry_position(entries, key, 0) {
        Some(before) => {
            let place = if before == index {
                0
            } else if before < index {
                before + 1
            } else {
                before
            };
            assert(after[place] == entries[before]);
            if let Some(found) = entry_position(after, key, 0) {
                let origin = if found == 0 {
                    index
                } else if found <= index {
                    found - 1
                } else {
                    found
                };
                assert(after[found] == entries[origin]);
                assert(entries[origin].key@ == entries[before].key@);
                assert(origin == before);
            }
        },
        None => {
            if let Some(found) = entry_position(after, key, 0) {
                let origin = if found == 0 {
                    index
                } else if found <= index {
                    found - 1
                } else {
                    found
                };
                assert(after[found] == entries[origin]);
            }
        },
    }
}

/// The output that was used longest ago goes first: every entry but the last
/// of a full cache is still there after another one was stored.
pub proof fn lemma_store_keeps_newer_entries(
    entries: Seq<SessionOutputLayoutCacheEntry>,
    entry: SessionOutputLayoutCacheEntry,
    index: int,
)
    requires
        0 <= index < entries.len(),
        entries.len() <= SESSION_OUTPUT_LAYOUT_CACHE_ENTRY_LIMIT,
    ensures
        index + 1 < SESSION_OUTPUT_LAYOUT_CACHE_ENTRY_LIMIT ==> stored(entries, entry)[index + 1]
            == entries[index],
        stored(entries, entry).len() <= SESSION_OUTPUT_LAYOUT_CACHE_ENTRY_LIMIT,
{
}

/// Storing an output keeps it so that every animated session has an output,
/// and animating a session that has one does too.
pub proof fn lemma_animations_have_outputs(
    before: SessionOutputLayoutCache,
    stored_after: SessionOutputLayoutCache,
    animated_after: SessionOutputLayoutCache,
    entry: SessionOutputLayoutCacheEntry,
    session_id: SessionId,
)
    requires
        before.well_formed(),
        before.animations_have_outputs(),
        stored_after.entries@ == stored(before.entries@, entry),
        stored_after.loader_sessions@ == sessions_after_store(
            before.entries@,
            entry,
            before.loader_sessions@,
        ),
        session_has_entry(before.entries@, session_id@),
        animated_after.entries@ == before.entries@,
        animated_after.loader_sessions@ == before.loader_sessions@
            || animated_after.loader_sessions@ == before.loader_sessions@.push(session_id),
    ensures
        stored_after.animations_have_outputs(),
        animated_after.animations_have_outputs(),
{
    let entries = before.entries@;
    let sessions = before.loader_sessions@;
    let all = seq![entry] + entries;
    let kept = stored(entries, entry);
    let gone = all.last().key.session_id@;
    assert forall|i: int| 0 <= i < stored_after.loader_sessions@.len() implies session_has_entry(
        kept,
        (#[trigger] stored_after.loader_sessions@[i])@,
    ) by {
        let id = stored_after.loader_sessions@[i]@;
        lemma_session_position(sessions, gone, 0);
        assert(exists|j: int| 0 <= j < sessions.len() && #[trigger] sessions[j]@ == id && (
        stored_after.loader_sessions@ != sessions ==> id != gone)) by {
            if stored_after.loader_sessions@ == sessions {
                assert(sessions[i]@ == id);
            } else {
                let place = session_position(sessions, gone, 0)->0;
                let j = if i < place {
                    i
                } else {
                    i + 1
                };
                assert(sessions[j]@ == id);
                assert(sessions[place]@ == gone);
                assert(sessions[j]@ != sessions[place]@);
            }
        }
        let j = choose|j: int|
            0 <= j < sessions.len() && #[trigger] sessions[j]@ == id && (
            stored_after.loader_sessions@ != sessions ==> id != gone);
        assert(session_has_entry(entries, sessions[j]@));
        let place = choose|k: int|
            0 <= k < entries.len() && (#[trigger] entries[k]).key.session_id@ == id;
        assert(all[place + 1] == entries[place]);
        if place + 1 < kept.len() {
            assert(kept[place + 1] == entries[place]);
        } else {
            assert(all.last() == entries[place]);
            assert(id == gone);
            if !session_has_entry(kept, gone) {
                lemma_absent_or_removed(sessions, gone, j);
            }
        }
    }
    assert forall|i: int| 0 <= i < animated_after.loader_sessions@.len() implies session_has_entry(
        animated_after.entries@,
        (#[trigger] animated_after.loader_sessions@[i])@,
    ) by {
        if i < sessions.len() {
            assert(animated_after.loader_sessions@[i] == sessions[i]);
        }
    }
}

/// A session that is listed is taken out.
proof fn lemma_absent_or_removed(sessions: Seq<SessionId>, session_id: Seq<char>, index: int)
    requires
        0 <= index < sessions.len(),
        sessions[index]@ == session_id,
    ensures
        without_session(sessions, session_id).len() == sessions.len() - 1,
{
    if session_position(sessions, session_id, 0) is None {
        lemma_absent_session(sessions, session_id, 0);
    }
    lemma_session_position(sessions, session_id, 0);
}

} // verus!
