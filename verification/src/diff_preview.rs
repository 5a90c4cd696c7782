//! Markdown previews on the diff page.

use vstd::prelude::*;

use crate::app_mode::{DiffPreview, DiffPreviewUnavailableReason};
use crate::diff_page::DiffContent;
use crate::session::{Session, SessionId, row_of, session_row};
use crate::text::same_text;

verus! {

/// A file to be read for a preview.
#[derive(Debug)]
pub struct PreviewRequest {
    pub folder: String,
    pub path: String,
    pub request_id: u64,
    pub session_id: SessionId,
}

/// Whether the selected row shows its preview instead of its diff.
pub open spec fn preview_visible(
    content: DiffContent,
    file_index: usize,
    preview: DiffPreview,
) -> bool {
    &&& content.markdown_path(file_index) is Some
    &&& preview.shown_path() == Some(content.markdown_path(file_index).unwrap()@)
}

/// Reports whether the selected row shows its preview.
pub fn selected_preview_is_visible(
    content: &DiffContent,
    file_index: usize,
    preview: &DiffPreview,
) -> (visible: bool)
    ensures
        visible == preview_visible(*content, file_index, *preview),
{
    match (preview.path(), content.selected_markdown_path(file_index)) {
        (Some(shown), Some(selected)) => same_text(shown.as_str(), selected.as_str()),
        _ => false,
    }
}

/// Whether `preview` and `request` start a new preview of the selected row.
///
/// A row that is no markdown file cannot be previewed, and without a worktree
/// there is nothing to read.
pub open spec fn starts_preview(
    content: DiffContent,
    file_index: usize,
    previous: DiffPreview,
    sessions: Seq<Session>,
    session_id: SessionId,
    preview: DiffPreview,
    request: Option<PreviewRequest>,
) -> bool {
    let request_id = previous.following_request();
    match content.markdown_path(file_index) {
        None => preview == (DiffPreview::Unsupported { request_id }) && request is None,
        Some(path) => match row_of(sessions, session_id@) {
            Some(row) => {
                &&& preview == (DiffPreview::Loading { path, request_id })
                &&& request == Some(
                    PreviewRequest {
                        folder: sessions[row as int].folder,
                        path,
                        request_id,
                        session_id,
                    },
                )
            },
            None => {
                &&& request is None
                &&& preview matches DiffPreview::Unavailable {
                    path: shown,
                    reason: DiffPreviewUnavailableReason::LoadFailed(message),
                    request_id: shown_request,
                }
                &&& shown == path
                &&& message@ == "Session worktree is unavailable"@
                &&& shown_request == request_id
            },
        },
    }
}

/// Starts a preview of the selected row.
pub fn start_selected_preview_load(
    content: &DiffContent,
    file_index: usize,
    preview: &DiffPreview,
    sessions: &Vec<Session>,
    session_id: &SessionId,
) -> (started: (DiffPreview, Option<PreviewRequest>))
    ensures
        starts_preview(
            *content,
            file_index,
            *preview,
            sessions@,
            *session_id,
            started.0,
            started.1,
        ),
{
    let request_id: u64 = preview.next_request_id();
    let path: String = match content.selected_markdown_path(file_index) {
        Some(path) => path.clone(),
        None => {
            return (DiffPreview::Unsupported { request_id }, None);
        },
    };
    match session_row(sessions, session_id.as_str()) {
        Some(row) => {
            let request: PreviewRequest = PreviewRequest {
                folder: sessions[row].folder.clone(),
                path: path.clone(),
                request_id,
                session_id: session_id.clone(),
            };
            (DiffPreview::Loading { path, request_id }, Some(request))
        },
        None => (
            DiffPreview::Unavailable {
                path,
                reason: DiffPreviewUnavailableReason::LoadFailed(
                    "Session worktree is unavailable".to_owned(),
                ),
                request_id,
            },
            None,
        ),
    }
}

/// Switches the preview of the selected row on or off.
///
/// Nothing happens when a row that cannot be previewed is switched on.
pub fn toggle_selected_preview(
    content: &DiffContent,
    file_index: usize,
    preview: &DiffPreview,
    sessions: &Vec<Session>,
    session_id: &SessionId,
) -> (toggled: Option<(DiffPreview, Option<PreviewRequest>)>)
    ensures
        match toggled {
            Some((next, request)) => if *preview !is Disabled {
                next == preview.off() && request is None
            } else {
                &&& content.markdown_path(file_index) is Some
                &&& starts_preview(
                    *content,
                    file_index,
                    *preview,
                    sessions@,
                    *session_id,
                    next,
                    request,
                )
            },
            None => *preview is Disabled && content.markdown_path(file_index) is None,
        },
{
    if preview.is_enabled() {
        return Some((preview.disabled(), None));
    }
    if content.selected_markdown_path(file_index).is_none() {
        return None;
    }
    Some(start_selected_preview_load(content, file_index, preview, sessions, session_id))
}

/// Every new preview gets the number after that of the preview it replaces,
/// so an answer to the earlier request no longer matches.
pub proof fn lemma_new_preview_has_new_request(
    content: DiffContent,
    file_index: usize,
    previous: DiffPreview,
    sessions: Seq<Session>,
    session_id: SessionId,
    preview: DiffPreview,
    request: Option<PreviewRequest>,
)
    requires
        starts_preview(content, file_index, previous, sessions, session_id, preview, request),
    ensures
        preview.request() == previous.following_request(),
        preview.request() != previous.request(),
        request matches Some(sent) ==> sent.request_id == preview.request(),
{
}

} // verus!
