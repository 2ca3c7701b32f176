# pdf_folio_ui

The decision logic of the PDF-Folio desktop shell (a Linux PDF reader and
library manager), written in Verus and proved against its contracts.

## Layout

- `src/` — the verified library. Each module states its behaviour as
  `requires`/`ensures` contracts over spec functions and views, and the
  laws that tie several operations together as public proof functions
  (named `law_*`):
  - `model`, `seqs`, `text`, `order` — entries and folders, sequence and
    string helpers, lexicographic and stable ordering;
  - `folders`, `folder_edits`, `move_picker`, `navigation` — the folder
    tree: subtrees, sibling order, breadcrumbs, smart counts, creating,
    renaming and moving folders;
  - `selection`, `clipboard`, `drag`, `history`, `library_events` —
    selecting entries, cut/copy/paste, drag and drop, the undo tree, and
    how the library's state answers errors, statuses, undo and redo, the
    end of a paste or bulk edit, its text fields and a switch of library;
  - `view_filters`, `library_view`, `tags`, `clicks`, `confirmations`,
    `overlays`, `command_palette`, `document_errors` — the library view's
    filters and the entries they keep, search notes, tag editing, double
    clicks, confirmation dialogs, Escape, the command palette's rows and
    the command Enter runs, the document error banner;
  - `registry`, `raindrop`, `raindrop_dialog`, `export`, `style_files`,
    `shell` — libraries and their switcher, Raindrop import, export, style
    reloading, sync queueing and its follow-ups;
  - `labels`, `menu`, `menu_panel`, `context_menu`, `selection_row`,
    `shortcuts`, `preview_title`, `viewer_pages`, `metadata`, `state`,
    `screen`, `subscriptions`, `zoom` — what the menus, toolbars, shortcuts and
    views show and do, how the window is layered, and which event sources
    are listened to.
- `tests/` — executable tests of the library.
- `app/` — the unverified edge: files on disk, serde copies of the stored
  types, and the floating-point layout estimates that feed the library.

Outside calls (`str::to_lowercase`, `Path::file_stem`, `Path::file_name`,
`Path::join`, `String::push`) stand behind small trusted wrappers in
`src/text.rs`, each with a doc comment saying what its contract claims.
