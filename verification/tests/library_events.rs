use pdf_folio_ui::clipboard::{LibraryClipboard, LibraryClipboardMode, LibraryClipboardTarget};
use pdf_folio_ui::history::{LibraryHistory, LibraryHistoryAction, LibraryOrganizationSnapshot};
use pdf_folio_ui::library_events::{
    LibraryRuntime, LibraryStartPreferences, LibraryTextField, ViewerDocument,
};
use pdf_folio_ui::model::LibrarySortMode;
use pdf_folio_ui::selection::LibrarySelection;
use pdf_folio_ui::state::AppMode;
use pdf_folio_ui::view_filters::{LibraryView, ViewFilters};

fn runtime() -> LibraryRuntime<u32, u32> {
    LibraryRuntime {
        status: None,
        error: None,
        dismissed_errors: Vec::new(),
        startup_loading: true,
        history_restore_running: false,
        rollback_recovery_active: true,
        rollback_recovery_status: Some("recovering".to_string()),
        import_progress: Some(4),
        bulk_progress: Some(2),
        pending_thumbnails: vec![1, 2],
        selection: LibrarySelection {
            selected_library_entries: vec![3],
            library_selection_anchor: Some(3),
            details_entry_id: Some(3),
            details_title_input: "Title".to_string(),
            details_author_input: "Author".to_string(),
        },
        history: LibraryHistory::default(),
        clipboard: Some(LibraryClipboard { mode: LibraryClipboardMode::Cut, target: LibraryClipboardTarget::Entries(vec![3]) }),
        drag: None,
        entries: Vec::new(),
        folders: Vec::new(),
        sort_mode: LibrarySortMode::TitleAsc,
        compact_view_mode: false,
        move_picker: None,
        raindrop_connect_dialog_open: true,
        raindrop_import_dialog_open: true,
        new_folder_name: String::new(),
        folder_rename_input: String::new(),
        bulk_tag_input: String::new(),
        tag_rename_input: String::new(),
    }
}

fn action(label: &str, before: Vec<u64>, after: Vec<u64>) -> LibraryHistoryAction {
    LibraryHistoryAction {
        label: label.to_string(),
        before: LibraryOrganizationSnapshot { encoded: before },
        after: LibraryOrganizationSnapshot { encoded: after },
        refresh_search_on_restore: false,
    }
}

#[test]
fn library_error_is_reported_and_stops_background_work() {
    let mut r = runtime();
    r.history_restore_running = true;
    r.library_error("disk full".to_string());
    assert_eq!(r.status.as_deref(), Some("Library operation failed."));
    assert_eq!(r.error.as_deref(), Some("disk full"));
    assert!(!r.startup_loading && !r.history_restore_running && !r.rollback_recovery_active);
    assert_eq!(r.rollback_recovery_status, None);
    assert_eq!(r.import_progress, None);
    assert_eq!(r.bulk_progress, None);
    assert!(r.pending_thumbnails.is_empty());
}

#[test]
fn dismissed_library_error_stays_hidden() {
    let mut r = runtime();
    r.library_error("disk full".to_string());
    r.dismiss_library_error();
    assert_eq!(r.error, None);
    assert_eq!(r.dismissed_errors, vec!["disk full".to_string()]);
    r.library_error("disk full".to_string());
    assert_eq!(r.error, None);
    assert_eq!(r.status.as_deref(), Some("Library operation failed."));
    r.library_error("locked".to_string());
    assert_eq!(r.error.as_deref(), Some("locked"));
    r.library_status("Done.".to_string());
    assert_eq!((r.status.as_deref(), r.error.as_deref()), (Some("Done."), None));
}

#[test]
fn text_fields_drop_controls_and_keep_their_limits() {
    let mut r = runtime();
    let long: String = "x".repeat(300);
    r.text_field_changed(LibraryTextField::BulkTag, &long);
    assert_eq!(r.bulk_tag_input.chars().count(), 80);
    r.text_field_changed(LibraryTextField::TagRename, "a\tb\nc");
    assert_eq!(r.tag_rename_input, "abc");
    r.text_field_changed(LibraryTextField::DetailsTitle, &long);
    assert_eq!(r.selection.details_title_input.chars().count(), 240);
    r.text_field_changed(LibraryTextField::DetailsAuthor, "Ann\u{7}e");
    assert_eq!(r.selection.details_author_input, "Anne");
    r.text_field_changed(LibraryTextField::NewFolderName, &long);
    assert_eq!(r.new_folder_name.chars().count(), 80);
    r.text_field_changed(LibraryTextField::FolderRename, "Papers");
    assert_eq!(r.folder_rename_input, "Papers");
    assert_eq!(r.bulk_tag_input.chars().count(), 80);
}

#[test]
fn undo_and_redo_statuses() {
    let mut r = runtime();
    assert!(r.undo_requested().is_none());
    assert_eq!(r.status.as_deref(), Some("Nothing to undo."));
    assert!(r.redo_requested().is_none());
    assert_eq!(r.status.as_deref(), Some("Nothing to redo."));

    r.history_action_finished(action("Tag", vec![1], vec![2]), "Tag", 1, &Vec::new());
    assert_eq!(r.history.nodes.len(), 2);
    let restore = r.undo_requested().unwrap();
    assert_eq!(restore.target_index, 0);
    assert_eq!(restore.snapshot.encoded, vec![1]);
    assert_eq!(restore.done_status, "Undid Tag.");
    assert_eq!(r.status.as_deref(), Some("Undoing Tag..."));
    assert!(r.history_restore_running);
    assert_eq!(r.history.current, 1);
    // Ignored while the restore runs.
    assert!(r.undo_requested().is_none());
    assert_eq!(r.status.as_deref(), Some("Undoing Tag..."));

    r.history_restore_finished(0, "Undid Tag.".to_string());
    assert_eq!(r.history.current, 0);
    assert_eq!(r.status.as_deref(), Some("Undid Tag."));
    r.history_restore_running = false;
    let restore = r.redo_requested().unwrap();
    assert_eq!(restore.target_index, 1);
    assert_eq!(restore.snapshot.encoded, vec![2]);
    assert_eq!(restore.done_status, "Redid Tag.");
    assert_eq!(r.status.as_deref(), Some("Redoing Tag..."));
}

#[test]
fn restore_finished_clears_the_selection() {
    let mut r = runtime();
    r.history_restore_finished(5, "Undid Move.".to_string());
    assert_eq!(r.history.current, 0);
    assert_eq!(r.status.as_deref(), Some("Undid Move."));
    assert!(r.selection.selected_library_entries.is_empty());
    assert_eq!(r.selection.library_selection_anchor, None);
    assert!(r.pending_thumbnails.is_empty());
}

#[test]
fn paste_finished_reports_and_empties_a_clean_cut() {
    let mut r = runtime();
    let cut = LibraryClipboard { mode: LibraryClipboardMode::Cut, target: LibraryClipboardTarget::Entries(vec![3]) };
    r.paste_finished(action("Move PDFs", vec![1], vec![1]), &cut, 1, &Vec::new());
    assert_eq!(r.history.nodes.len(), 1);
    assert!(r.clipboard.is_none());
    assert_eq!(r.status.as_deref(), Some("Move PDFs 1 item."));
    assert_eq!(r.error, None);
    assert!(r.selection.selected_library_entries.is_empty());
}

#[test]
fn paste_finished_with_failures_keeps_the_clipboard() {
    let mut r = runtime();
    let copy = LibraryClipboard { mode: LibraryClipboardMode::Copy, target: LibraryClipboardTarget::Entries(vec![3]) };
    r.paste_finished(
        action("Paste PDFs", vec![1], vec![1, 2]),
        &copy,
        2,
        &vec!["a missing".to_string(), "b locked".to_string()],
    );
    assert_eq!(r.history.nodes.len(), 2);
    assert!(r.clipboard.is_some());
    assert_eq!(r.status.as_deref(), Some("Paste PDFs 2 items; 2 failed."));
    assert_eq!(r.error.as_deref(), Some("a missing\nb locked"));
}

#[test]
fn switching_library_resets_its_runtime() {
    let mut r = runtime();
    let mut mode = AppMode::Viewer;
    let mut viewer = ViewerDocument { entry_id: Some(3), path: Some("/a.pdf".to_string()), pending_open: true, error: Some("bad".to_string()) };
    let mut view: LibraryView<u8, Vec<u64>, f32> = LibraryView {
        filters: ViewFilters {
            search_query: "rust".to_string(),
            search: Some(vec![1]),
            tag_filter: Some("t".to_string()),
            reading_filter: Some(1),
            recently_opened_filter: true,
            missing_filter: true,
            selected_folder: Some(2),
            scroll_offset: 50.0,
        },
        before_tag_pill: None,
    };
    let mut details = Some(2);
    let prefs = LibraryStartPreferences { sort_mode: LibrarySortMode::RecentlyAdded, selected_folder: Some(9), list_layout: true };
    r.reset_for_active_library(&mut mode, &mut viewer, &mut view, &mut details, prefs, 0.0, "Work");
    assert_eq!(mode, AppMode::Library);
    assert!(viewer.entry_id.is_none() && viewer.path.is_none() && !viewer.pending_open && viewer.error.is_none());
    assert_eq!(view.filters.search_query, "");
    assert_eq!(view.filters.search, None);
    assert_eq!(view.filters.tag_filter, None);
    assert_eq!(view.filters.selected_folder, Some(9));
    assert!(view.filters.recently_opened_filter);
    assert_eq!(view.filters.scroll_offset, 0.0);
    assert_eq!(details, None);
    assert!(r.selection.selected_library_entries.is_empty());
    assert_eq!(r.sort_mode, LibrarySortMode::RecentlyAdded);
    assert!(r.compact_view_mode);
    assert!(r.startup_loading);
    assert_eq!(r.status.as_deref(), Some("Loading Work..."));
    assert!(!r.raindrop_connect_dialog_open && !r.raindrop_import_dialog_open);
    assert_eq!(r.import_progress, None);
    assert!(r.clipboard.is_some());
}
