//! Verified interaction core of a terminal user interface for agent sessions.

pub mod app_mode;
pub mod app_render;
pub mod cell_grid;
pub mod click_handler;
pub mod confirmation;
pub mod diff;
pub mod diff_comments;
pub mod diff_laws;
pub mod diff_navigation;
pub mod diff_page;
pub mod diff_preview;
pub mod event;
pub mod event_laws;
pub mod explorer_laws;
pub mod file_explorer;
pub mod file_laws;
pub mod file_order;
pub mod file_rows;
pub mod file_tree;
pub mod fingerprint;
pub mod fit;
pub mod frame_laws;
pub mod geometry;
pub mod indentation;
pub mod input;
pub mod key;
pub mod key_dispatch;
pub mod key_handler;
pub mod launch_configuration_list_editor;
pub mod launch_configuration_overlay;
pub mod launch_configuration_selector;
pub mod layout_snapshot;
pub mod mouse_handler;
pub mod output_cache;
pub mod output_laws;
pub mod output_lines;
pub mod overlay;
pub mod overlay_laws;
pub mod pointer_laws;
pub mod popup;
pub mod popup_laws;
pub mod presentation;
pub mod project_switcher;
pub mod project_switcher_overlay;
pub mod prompt_history;
pub mod publish_branch;
pub mod review;
pub mod review_laws;
pub mod rich_text;
pub mod session;
pub mod session_creation;
pub mod session_creation_overlay;
pub mod session_output;
pub mod session_page;
pub mod session_view;
pub mod stack_append;
pub mod stack_append_parent_overlay;
pub mod tab;
pub mod text;
pub mod text_laws;
pub mod text_lines;
pub mod transcript_sections;
pub mod view_keys;
pub mod view_laws;
pub mod viewport;
