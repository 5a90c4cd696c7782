//! The panel that shows a session's output.

use vstd::prelude::*;

use crate::fingerprint::{TextFingerprint, TranscriptFingerprint, fingerprint_of};
use crate::geometry::ViewportRect;
use crate::layout_snapshot::capped;
use crate::output_cache::{
    LayoutKey, LayoutView, SessionOutputLayout, SessionOutputLayoutCache,
    SessionOutputLayoutCacheEntry, SessionOutputLayoutCacheKey, entry_position, promoted,
    sessions_after_store, stored,
};
use crate::output_lines::{
    OutputRenderer, SessionOutputLines, loader_status, output_lines_with_metadata, output_of,
    status_uses_tachyon_loader,
};
use crate::rich_text::line_views;
use crate::session::Session;
use crate::viewport::minus;

verus! {

/// What the output depends on besides the session.
#[derive(Clone, Copy, Debug)]
pub struct SessionOutputLineContext<'a> {
    /// Prompt block of the running turn, when it was sent from here.
    pub active_prompt_output: Option<&'a String>,
    /// Progress text of the loader row.
    pub active_progress: Option<&'a String>,
    /// Counts the rendered markdown that was thrown away.
    pub markdown_render_version: u64,
    /// Counts the changes of the session.
    pub session_update_version: u64,
}

/// A text where there is one.
pub open spec fn optional_text(text: Option<&String>) -> Option<Seq<char>> {
    match text {
        Some(text) => Some(text@),
        None => None,
    }
}

/// Whether `layout` is the assembled output of a session.
pub open spec fn layout_of<R: OutputRenderer>(
    renderer: &R,
    session: Session,
    area: ViewportRect,
    context: SessionOutputLineContext<'_>,
    layout: LayoutView,
) -> bool {
    exists|width: usize, output: SessionOutputLines|
        call_ensures(R::panel_inner_width, (renderer, area), width) && #[trigger] output_of(
            renderer,
            session,
            width,
            context.active_progress,
            output,
        ) && layout == (LayoutView {
            active_loader_line_index: output.active_loader_line_index,
            line_count: capped(output.lines@.len() as int) as u16,
            lines: line_views(output.lines@),
            timeline_loader_line_indices: output.timeline_loader_line_indices@,
        })
}

/// Whether `key` stands for everything that a session's output depends on.
pub open spec fn key_of<R: OutputRenderer>(
    renderer: &R,
    session: Session,
    area: ViewportRect,
    context: SessionOutputLineContext<'_>,
    key: LayoutKey,
) -> bool {
    &&& key.active_progress.identifies(optional_text(context.active_progress))
    &&& key.active_prompt_output.identifies(optional_text(context.active_prompt_output))
    &&& key.draft_prompt.identifies(
        if session.previews_draft() {
            Some(session.prompt@)
        } else {
            None
        },
    )
    &&& key.is_stacked_child == session.stacked()
    &&& key.markdown_render_version == context.markdown_render_version
    &&& exists|width: usize| #[trigger]
        call_ensures(R::panel_inner_width, (renderer, area), width) && key.output_width == capped(
            width as int,
        ) as u16
    &&& key.queued_messages.identifies_list(session.queued_messages@)
    &&& key.session_id == session.id@
    &&& key.session_update_version == context.session_update_version
    &&& key.session_updated_at == session.updated_at
    &&& key.status == session.status
    &&& call_ensures(R::theme_version, (renderer,), key.theme_cache_version)
    &&& key.transcript == fingerprint_of(session.transcript@)
}

/// Builds the fingerprint of the prompt that a draft's preview shows.
pub fn draft_prompt_fingerprint(session: &Session) -> (fingerprint: TextFingerprint)
    ensures
        fingerprint.identifies(
            if session.previews_draft() {
                Some(session.prompt@)
            } else {
                None
            },
        ),
{
    if session.is_draft_preview() {
        return TextFingerprint::from_text(Some(session.prompt.as_str()));
    }
    TextFingerprint::from_text(None)
}

/// Builds the fingerprint of a text where there is one.
fn optional_fingerprint(text: Option<&String>) -> (fingerprint: TextFingerprint)
    ensures
        fingerprint.identifies(optional_text(text)),
{
    match text {
        Some(text) => TextFingerprint::from_text(Some(text.as_str())),
        None => TextFingerprint::from_text(None),
    }
}

/// Builds the key of a session's output.
pub fn layout_cache_key<R: OutputRenderer>(
    session: &Session,
    area: ViewportRect,
    context: SessionOutputLineContext<'_>,
    renderer: &R,
) -> (key: SessionOutputLayoutCacheKey)
    ensures
        key_of(renderer, *session, area, context, key@),
{
    let width: usize = renderer.panel_inner_width(area);
    assert(call_ensures(R::panel_inner_width, (renderer, area), width));
    let output_width: u16 = if width > 65535 {
        65535
    } else {
        width as u16
    };
    assert(output_width == capped(width as int) as u16);
    let theme_cache_version: u64 = renderer.theme_version();
    assert(call_ensures(R::theme_version, (renderer,), theme_cache_version));
    SessionOutputLayoutCacheKey {
        active_progress: optional_fingerprint(context.active_progress),
        active_prompt_output: optional_fingerprint(context.active_prompt_output),
        draft_prompt: draft_prompt_fingerprint(session),
        is_stacked_child: session.is_stacked_child(),
        markdown_render_version: context.markdown_render_version,
        output_width,
        queued_messages: TextFingerprint::from_texts(&session.queued_messages),
        session_id: session.id.clone(),
        session_update_version: context.session_update_version,
        session_updated_at: session.updated_at,
        status: session.status,
        theme_cache_version,
        transcript: TranscriptFingerprint::from_session(session),
    }
}

/// Assembles the output of a session.
pub fn derive_layout<R: OutputRenderer>(
    session: &Session,
    area: ViewportRect,
    context: SessionOutputLineContext<'_>,
    renderer: &R,
) -> (layout: SessionOutputLayout)
    ensures
        layout_of(renderer, *session, area, context, layout@),
{
    let width: usize = renderer.panel_inner_width(area);
    assert(call_ensures(R::panel_inner_width, (renderer, area), width));
    let output: SessionOutputLines = output_lines_with_metadata(
        session,
        width,
        context.active_progress,
        renderer,
    );
    assert(output_of(renderer, *session, width, context.active_progress, output));
    let line_count: u16 = if output.lines.len() > 65535 {
        65535
    } else {
        output.lines.len() as u16
    };
    SessionOutputLayout {
        active_loader_line_index: output.active_loader_line_index,
        line_count,
        lines: output.lines,
        timeline_loader_line_indices: output.timeline_loader_line_indices,
    }
}

/// Whether `layout` came out of a cache that changed from `before` to
/// `after`: a kept output moves to the front, and one that is not kept is
/// assembled and stored.
pub open spec fn layout_from_cache<R: OutputRenderer>(
    renderer: &R,
    session: Session,
    area: ViewportRect,
    context: SessionOutputLineContext<'_>,
    before: SessionOutputLayoutCache,
    after: SessionOutputLayoutCache,
    layout: LayoutView,
) -> bool {
    exists|key: LayoutKey| #[trigger]
        key_of(renderer, session, area, context, key) && match entry_position(
            before.entries@,
            key,
            0,
        ) {
            Some(index) => {
                &&& layout == before.entries@[index].layout@
                &&& after.entries@ == promoted(before.entries@, index)
                &&& after.loader_sessions == before.loader_sessions
            },
            None => {
                &&& layout_of(renderer, session, area, context, layout)
                &&& exists|entry: SessionOutputLayoutCacheEntry|
                    {
                        &&& after.entries@ == #[trigger] stored(before.entries@, entry)
                        &&& entry.key@ == key
                        &&& entry.layout@ == layout
                        &&& after.loader_sessions@ == sessions_after_store(
                            before.entries@,
                            entry,
                            before.loader_sessions@,
                        )
                    }
            },
        }
}

impl SessionOutputLayoutCache {
    /// Finds the output of a session, or assembles and stores it.
    pub fn layout<R: OutputRenderer>(
        &mut self,
        session: &Session,
        area: ViewportRect,
        context: SessionOutputLineContext<'_>,
        renderer: &R,
    ) -> (layout: SessionOutputLayout)
        requires
            old(self).well_formed(),
        ensures
            final(self).well_formed(),
            layout_from_cache(
                renderer,
                *session,
                area,
                context,
                *old(self),
                *final(self),
                layout@,
            ),
    {
        let key: SessionOutputLayoutCacheKey = layout_cache_key(session, area, context, renderer);
        if let Some(layout) = self.cached_layout(&key) {
            return layout;
        }
        let layout: SessionOutputLayout = derive_layout(session, area, context, renderer);
        let entry: SessionOutputLayoutCacheEntry = SessionOutputLayoutCacheEntry {
            key,
            layout: layout.clone(),
        };
        let ghost kept = entry;
        let dropped: Option<String> = self.store_entry(entry);
        assert(self.entries@ == stored(old(self).entries@, kept));
        assert(key_of(renderer, *session, area, context, kept.key@));
        layout
    }
}

/// Whether `layout` is the output of a session, out of the cache if there is
/// one.
pub open spec fn layout_rendered<R: OutputRenderer>(
    renderer: &R,
    session: Session,
    area: ViewportRect,
    context: SessionOutputLineContext<'_>,
    before: Option<SessionOutputLayoutCache>,
    after: Option<SessionOutputLayoutCache>,
    layout: LayoutView,
) -> bool {
    match before {
        Some(before) => {
            &&& after matches Some(after)
            &&& after.well_formed()
            &&& layout_from_cache(renderer, session, area, context, before, after, layout)
        },
        None => after is None && layout_of(renderer, session, area, context, layout),
    }
}

/// Whether a cache, where there is one, is well formed.
pub open spec fn cache_well_formed(cache: Option<SessionOutputLayoutCache>) -> bool {
    cache matches Some(cache) ==> cache.well_formed()
}

/// Finds or assembles the output of a session.
pub fn rendered_layout<R: OutputRenderer>(
    session: &Session,
    area: ViewportRect,
    context: SessionOutputLineContext<'_>,
    renderer: &R,
    cache: &mut Option<SessionOutputLayoutCache>,
) -> (layout: SessionOutputLayout)
    requires
        cache_well_formed(*old(cache)),
    ensures
        layout_rendered(
            renderer,
            *session,
            area,
            context,
            *old(cache),
            *final(cache),
            layout@,
        ),
{
    if let Some(cache) = cache {
        return cache.layout(session, area, context, renderer);
    }
    derive_layout(session, area, context, renderer)
}

/// Counts the lines of a session's output in a number of columns.
pub fn rendered_line_count<R: OutputRenderer>(
    session: &Session,
    output_width: u16,
    context: SessionOutputLineContext<'_>,
    renderer: &R,
    cache: &mut Option<SessionOutputLayoutCache>,
) -> (count: u16)
    requires
        cache_well_formed(*old(cache)),
    ensures
        line_count_rendered(
            renderer,
            *session,
            output_width,
            context,
            *old(cache),
            *final(cache),
            count,
        ),
{
    let area: ViewportRect = ViewportRect::new(0, 0, output_width, 0);
    let layout: SessionOutputLayout = rendered_layout(session, area, context, renderer, cache);
    assert(layout_rendered(
        renderer,
        *session,
        width_only(output_width),
        context,
        *old(cache),
        *cache,
        layout@,
    ));
    layout.line_count
}

/// An area that only has a width.
pub open spec fn width_only(width: u16) -> ViewportRect {
    ViewportRect { height: 0, width, x: 0, y: 0 }
}

/// Whether `count` is the number of lines of a session's output.
pub open spec fn line_count_rendered<R: OutputRenderer>(
    renderer: &R,
    session: Session,
    output_width: u16,
    context: SessionOutputLineContext<'_>,
    before: Option<SessionOutputLayoutCache>,
    after: Option<SessionOutputLayoutCache>,
    count: u16,
) -> bool {
    exists|layout: LayoutView| #[trigger]
        layout_rendered(
            renderer,
            session,
            width_only(output_width),
            context,
            before,
            after,
            layout,
        ) && count == layout.line_count
}

/// Counts the output lines of the session in a row of the list; a row that
/// is not there has none, and the cache stays as it is.
pub fn rendered_output_line_count_with_cache<R: OutputRenderer>(
    sessions: &Vec<Session>,
    session_index: usize,
    output_width: u16,
    context: SessionOutputLineContext<'_>,
    renderer: &R,
    cache: &mut Option<SessionOutputLayoutCache>,
) -> (count: u16)
    requires
        cache_well_formed(*old(cache)),
    ensures
        row_line_count(
            renderer,
            sessions@,
            session_index,
            output_width,
            context,
            *old(cache),
            *final(cache),
            count,
        ),
{
    if session_index >= sessions.len() {
        return 0;
    }
    rendered_line_count(&sessions[session_index], output_width, context, renderer, cache)
}

/// Whether `count` is the number of output lines of the session in a row.
pub open spec fn row_line_count<R: OutputRenderer>(
    renderer: &R,
    sessions: Seq<Session>,
    session_index: usize,
    output_width: u16,
    context: SessionOutputLineContext<'_>,
    before: Option<SessionOutputLayoutCache>,
    after: Option<SessionOutputLayoutCache>,
    count: u16,
) -> bool {
    if session_index < sessions.len() {
        line_count_rendered(
            renderer,
            sessions[session_index as int],
            output_width,
            context,
            before,
            after,
            count,
        )
    } else {
        count == 0 && after == before
    }
}

/// The part of the panel that shows lines.
pub open spec fn inner_area(area: ViewportRect) -> ViewportRect {
    ViewportRect::at(
        area.x,
        capped(area.y + 1) as u16,
        area.width,
        minus(area.height as int, 2) as u16,
    )
}

/// Returns the part of the panel that shows lines.
pub fn session_output_inner_area(area: ViewportRect) -> (inner: ViewportRect)
    ensures
        inner == inner_area(area),
{
    ViewportRect::new(
        area.x,
        area.y.saturating_add(1),
        area.width,
        area.height.saturating_sub(2),
    )
}

/// Where a loader shows, if its row does.
pub open spec fn loader_place(
    area: ViewportRect,
    line_index: Option<usize>,
    scroll: u16,
    loader_width: u16,
) -> Option<ViewportRect> {
    let inner = inner_area(area);
    match line_index {
        Some(index) => if area.width >= loader_width && scroll <= index < scroll + inner.height {
            Some(ViewportRect::at(area.x, capped(inner.y + (index - scroll)) as u16, loader_width, 1))
        } else {
            None
        },
        None => None,
    }
}

/// Finds where a loader shows, if its row does.
pub fn loader_area(
    area: ViewportRect,
    line_index: Option<usize>,
    scroll: u16,
    loader_width: u16,
) -> (place: Option<ViewportRect>)
    ensures
        place == loader_place(area, line_index, scroll, loader_width),
{
    if area.width < loader_width {
        return None;
    }
    let inner: ViewportRect = session_output_inner_area(area);
    let index: usize = match line_index {
        Some(index) => index,
        None => {
            return None;
        },
    };
    let first: usize = scroll as usize;
    if index < first || index - first >= inner.height as usize {
        return None;
    }
    let row: u16 = (index - first) as u16;
    Some(ViewportRect::new(inner.x, inner.y.saturating_add(row), loader_width, 1))
}

/// A loader that fits on the screen lies inside the panel.
pub proof fn lemma_loader_inside_panel(
    area: ViewportRect,
    line_index: Option<usize>,
    scroll: u16,
    loader_width: u16,
)
    requires
        area.x + area.width <= u16::MAX,
        area.y + area.height <= u16::MAX,
        loader_width > 0,
    ensures
        loader_place(area, line_index, scroll, loader_width) matches Some(place) ==> {
            &&& area.has_cell(place.x as int, place.y as int)
            &&& area.has_cell(place.x + place.width - 1, place.y as int)
            &&& place.y > area.y
            &&& place.y + 1 < area.y + area.height
        },
{
}

/// The places of the loaders among the first `count` that show.
pub open spec fn loader_places(
    area: ViewportRect,
    indices: Seq<usize>,
    scroll: u16,
    loader_width: u16,
) -> Seq<ViewportRect>
    decreases indices.len(),
{
    if indices.len() == 0 {
        Seq::empty()
    } else {
        let earlier = loader_places(area, indices.drop_last(), scroll, loader_width);
        match loader_place(area, Some(indices.last()), scroll, loader_width) {
            Some(place) => earlier.push(place),
            None => earlier,
        }
    }
}

/// Finds the places of the loaders that show.
pub fn visible_loader_areas(
    area: ViewportRect,
    indices: &Vec<usize>,
    scroll: u16,
    loader_width: u16,
) -> (places: Vec<ViewportRect>)
    ensures
        places@ == loader_places(area, indices@, scroll, loader_width),
{
    let mut places: Vec<ViewportRect> = Vec::new();
    let mut index: usize = 0;
    assert(indices@.take(0) =~= Seq::empty());
    while index < indices.len()
        invariant
            index <= indices@.len(),
            places@ == loader_places(area, indices@.take(index as int), scroll, loader_width),
        decreases indices@.len() - index,
    {
        assert(indices@.take(index as int + 1).drop_last() =~= indices@.take(index as int));
        if let Some(place) = loader_area(area, Some(indices[index]), scroll, loader_width) {
            places.push(place);
        }
        index = index + 1;
    }
    assert(indices@.take(index as int) =~= indices@);
    places
}

/// One frame of the panel.
#[derive(Debug)]
pub struct SessionOutputFrame {
    /// Place of the animated status.
    pub active_loader_area: Option<ViewportRect>,
    /// First row that shows.
    pub final_scroll: u16,
    pub layout: SessionOutputLayout,
    /// The cache that the panel was given.
    pub output_layout_cache: Option<SessionOutputLayoutCache>,
    /// Places of the pending entries.
    pub timeline_loader_areas: Vec<ViewportRect>,
}

/// The panel that shows a session's output.
#[derive(Debug)]
pub struct SessionOutput<'a> {
    pub active_progress: Option<&'a String>,
    pub active_prompt_output: Option<&'a String>,
    pub markdown_render_version: u64,
    pub output_layout_cache: Option<SessionOutputLayoutCache>,
    pub scroll_offset: Option<u16>,
    pub session: &'a Session,
    pub session_update_version: u64,
}

impl<'a> SessionOutput<'a> {
    /// Creates the panel of a session.
    pub fn new(session: &'a Session) -> (panel: SessionOutput<'a>)
        ensures
            panel == (SessionOutput {
                active_progress: None,
                active_prompt_output: None,
                markdown_render_version: 0,
                output_layout_cache: None,
                scroll_offset: None,
                session,
                session_update_version: 0,
            }),
    {
        SessionOutput {
            active_progress: None,
            active_prompt_output: None,
            markdown_render_version: 0,
            output_layout_cache: None,
            scroll_offset: None,
            session,
            session_update_version: 0,
        }
    }

    /// Sets the prompt block of the running turn.
    #[must_use]
    pub fn active_prompt_output(self, active_prompt_output: Option<&'a String>) -> (panel:
        SessionOutput<'a>)
        ensures
            panel == (SessionOutput { active_prompt_output, ..self }),
    {
        SessionOutput { active_prompt_output, ..self }
    }

    /// Sets the progress text of the loader row.
    #[must_use]
    pub fn active_progress(self, active_progress: &'a String) -> (panel: SessionOutput<'a>)
        ensures
            panel == (SessionOutput { active_progress: Some(active_progress), ..self }),
    {
        SessionOutput { active_progress: Some(active_progress), ..self }
    }

    /// Sets the version of the shared rendered markdown.
    #[must_use]
    pub fn markdown_render_cache(self, version: u64) -> (panel: SessionOutput<'a>)
        ensures
            panel == (SessionOutput { markdown_render_version: version, ..self }),
    {
        SessionOutput { markdown_render_version: version, ..self }
    }

    /// Hands the panel the shared outputs; a frame hands them back.
    #[must_use]
    pub fn output_layout_cache(self, cache: SessionOutputLayoutCache) -> (panel: SessionOutput<'a>)
        ensures
            panel == (SessionOutput { output_layout_cache: Some(cache), ..self }),
    {
        SessionOutput { output_layout_cache: Some(cache), ..self }
    }

    /// Sets the row to start at.
    #[must_use]
    pub fn scroll_offset(self, offset: u16) -> (panel: SessionOutput<'a>)
        ensures
            panel == (SessionOutput { scroll_offset: Some(offset), ..self }),
    {
        SessionOutput { scroll_offset: Some(offset), ..self }
    }

    /// Sets the version of the session.
    #[must_use]
    pub fn session_update_version(self, version: u64) -> (panel: SessionOutput<'a>)
        ensures
            panel == (SessionOutput { session_update_version: version, ..self }),
    {
        SessionOutput { session_update_version: version, ..self }
    }

    /// What the output depends on besides the session.
    pub open spec fn context(self) -> SessionOutputLineContext<'a> {
        SessionOutputLineContext {
            active_prompt_output: self.active_prompt_output,
            active_progress: self.active_progress,
            markdown_render_version: self.markdown_render_version,
            session_update_version: self.session_update_version,
        }
    }

    /// Prepares a frame: the lines, the row to start at, and the loaders.
    pub fn render<R: OutputRenderer>(self, area: ViewportRect, renderer: &R) -> (frame:
        SessionOutputFrame)
        requires
            cache_well_formed(self.output_layout_cache),
        ensures
            layout_rendered(
                renderer,
                *self.session,
                area,
                self.context(),
                self.output_layout_cache,
                frame.output_layout_cache,
                frame.layout@,
            ),
            call_ensures(
                R::pinned_scroll_offset,
                (renderer, area, frame.layout.lines@.len() as usize, self.scroll_offset),
                frame.final_scroll,
            ),
            exists|loader_width: u16| #[trigger]
                call_ensures(R::loader_width, (renderer,), loader_width) && loaders_placed(
                    *self.session,
                    area,
                    loader_width,
                    frame,
                ),
    {
        let context: SessionOutputLineContext<'a> = SessionOutputLineContext {
            active_prompt_output: self.active_prompt_output,
            active_progress: self.active_progress,
            markdown_render_version: self.markdown_render_version,
            session_update_version: self.session_update_version,
        };
        let mut cache: Option<SessionOutputLayoutCache> = self.output_layout_cache;
        let layout: SessionOutputLayout = rendered_layout(
            self.session,
            area,
            context,
            renderer,
            &mut cache,
        );
        let line_count: usize = layout.lines.len();
        let final_scroll: u16 = renderer.pinned_scroll_offset(
            area,
            line_count,
            self.scroll_offset,
        );
        assert(call_ensures(
            R::pinned_scroll_offset,
            (renderer, area, line_count, self.scroll_offset),
            final_scroll,
        ));
        let loader_width: u16 = renderer.loader_width();
        assert(call_ensures(R::loader_width, (renderer,), loader_width));
        let active_loader_area: Option<ViewportRect> = if status_uses_tachyon_loader(
            self.session.status,
        ) {
            loader_area(area, layout.active_loader_line_index, final_scroll, loader_width)
        } else {
            None
        };
        let timeline_loader_areas: Vec<ViewportRect> = visible_loader_areas(
            area,
            &layout.timeline_loader_line_indices,
            final_scroll,
            loader_width,
        );
        SessionOutputFrame {
            active_loader_area,
            final_scroll,
            layout,
            output_layout_cache: cache,
            timeline_loader_areas,
        }
    }
}

/// Whether the loaders of a frame show where their rows do.
pub open spec fn loaders_placed(
    session: Session,
    area: ViewportRect,
    loader_width: u16,
    frame: SessionOutputFrame,
) -> bool {
    &&& frame.active_loader_area == (if loader_status(session.status) {
        loader_place(
            area,
            frame.layout.active_loader_line_index,
            frame.final_scroll,
            loader_width,
        )
    } else {
        None
    })
    &&& frame.timeline_loader_areas@ == loader_places(
        area,
        frame.layout.timeline_loader_line_indices@,
        frame.final_scroll,
        loader_width,
    )
}

} // verus!
