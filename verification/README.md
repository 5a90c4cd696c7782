# agentty_tui

The interaction core of a terminal user interface for agent sessions: what
keys, pointer gestures and pasted text do to the interface, and what its pages
and popups show. The core is written in Verus, and its functions are proved
against their contracts.

- `src/` holds the verified library. `app_mode` has the modes of the interface
  and their state. `event`, `key_handler`, `key_dispatch`, `mouse_handler` and
  `click_handler` lead events to the handlers of pages and popups. `diff*`,
  `session_view`, `view_keys`, `review` and `session_page` are the pages.
  `file_*`, `output_*`, `session_output`, `transcript_sections` and the
  `*_overlay` modules build what is painted, and `viewport`, `layout_snapshot`
  and `presentation` keep what a frame needs from the one before.
- `app/` holds the terminal around it: the reader thread, the event loop, what
  the pages ask of the application, and the painting.
- `tests/` runs the library on concrete values.

Where the interface depends on rendering that lives elsewhere (markdown, wrapped
diff lines, text fields, whole pages), a trait without any promise stands for it:
`OutputRenderer`, `DiffPage`, `CommentEditor`, `PopupBlock` and `FramePages`. Contracts say
what is asked of them and what becomes of the answers, whatever these are.
