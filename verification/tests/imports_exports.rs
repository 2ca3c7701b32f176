use pdf_folio_ui::export::{export_entries_for_source, export_start, ExportStart, LibraryExportDialog};
use pdf_folio_ui::labels::{ExportConflictBehavior, ExportFilenameTemplate, ExportMode};
use pdf_folio_ui::model::{ExportSource, LibraryEntry};
use pdf_folio_ui::raindrop::{
    import_review_from_summary, ImportRecord, raindrop_import_destination, raindrop_import_preserves_structure,
    raindrop_import_root_folder, ImportSummary, ImportedEntry, PendingRaindropRollback, RaindropImportDestination,
};
use pdf_folio_ui::shell::{
    device_id_from_hostname, startup_plan, sync_tick, title, StartupPlan, SyncCounts, SyncDecision, SyncQueue, SyncTick,
};
use pdf_folio_ui::registry::LibraryProfile;
use pdf_folio_ui::state::{pdfs_done_status, AppMode, AppTheme, LibraryExportSummary, Settings};
use pdf_folio_ui::style_files::{
    style_files_snapshot, style_watch_event_should_reload, style_watch_step, StyleFile, StyleWatchStep, WatchEventKind,
    WatchWait, WatchedPath,
};

fn entry(id: u64, folders: Vec<u64>, tags: Vec<&str>) -> LibraryEntry {
    LibraryEntry {
        id,
        title: None,
        display_title: None,
        author: None,
        display_author: None,
        path: format!("/p/{id}.pdf"),
        tags: tags.into_iter().map(|t| t.to_string()).collect(),
        folders,
        missing: false,
        page_count: None,
        last_page: 0,
    }
}

fn ids(entries: &[LibraryEntry]) -> Vec<u64> {
    entries.iter().map(|e| e.id).collect()
}

#[test]
fn raindrop_destinations_round_trip() {
    let all = [
        RaindropImportDestination::LibraryRoot,
        RaindropImportDestination::LocalFolder(4),
        RaindropImportDestination::PreserveRaindropFolders,
        RaindropImportDestination::PreserveRaindropFoldersUnder(Some(4)),
    ];
    for destination in all {
        let rebuilt = raindrop_import_destination(
            raindrop_import_preserves_structure(&destination),
            raindrop_import_root_folder(&destination),
        );
        assert_eq!(rebuilt, destination);
    }
    let odd = RaindropImportDestination::PreserveRaindropFoldersUnder(None);
    assert_eq!(
        raindrop_import_destination(raindrop_import_preserves_structure(&odd), raindrop_import_root_folder(&odd)),
        RaindropImportDestination::PreserveRaindropFolders
    );
    assert_eq!(raindrop_import_root_folder(&RaindropImportDestination::LocalFolder(9)), Some(9));
    assert!(!raindrop_import_preserves_structure(&RaindropImportDestination::LocalFolder(9)));
}

#[test]
fn rollback_records_what_the_import_made() {
    let imported = vec![
        ImportedEntry { id: 1, path: "/a.pdf".to_string(), inserted: true },
        ImportedEntry { id: 2, path: "/b.pdf".to_string(), inserted: false },
    ];
    let rollback = PendingRaindropRollback::from_progress(imported, vec![7]);
    assert_eq!(rollback.entries.len(), 2);
    assert_eq!(rollback.entries[1].path, "/b.pdf");
    assert!(!rollback.entries[1].inserted);
    assert_eq!(rollback.folders, vec![7]);
    assert!(!rollback.is_empty());
    assert!(PendingRaindropRollback::from_progress(vec![], vec![]).is_empty());
}

#[test]
fn import_review_counts_duplicates_and_failures() {
    let summary = ImportSummary {
        entries: vec![
            ImportedEntry { id: 1, path: "/a.pdf".to_string(), inserted: true },
            ImportedEntry { id: 2, path: "/b.pdf".to_string(), inserted: false },
            ImportedEntry { id: 3, path: "/c.pdf".to_string(), inserted: true },
        ],
        errors: vec!["bad.pdf: unreadable".to_string()],
    };
    let review = import_review_from_summary("Import".to_string(), &summary, "Library root".to_string(), vec!["new".to_string()]);
    assert_eq!(review.imported_entry_ids, vec![1, 2, 3]);
    assert_eq!(review.imported_count, 2);
    assert_eq!(review.duplicate_count, 1);
    assert_eq!(review.failed_count, 1);
    assert_eq!(review.errors, vec!["bad.pdf: unreadable".to_string()]);
    assert_eq!(review.destination_label, "Library root");
}

#[test]
fn export_dialog_defaults_and_sources() {
    let dialog = LibraryExportDialog::new(ExportSource::Tag("x".to_string()));
    assert_eq!(dialog.mode, ExportMode::CopyFlat);
    assert_eq!(dialog.filename_template, ExportFilenameTemplate::OriginalFilename);
    assert_eq!(dialog.conflict_behavior, ExportConflictBehavior::KeepBoth);
    assert!(dialog.include_metadata_csv && !dialog.include_metadata_json && dialog.include_tags);
    assert!(dialog.destination.is_none());

    let library = vec![entry(1, vec![5], vec!["read"]), entry(2, vec![], vec!["later"])];
    let trash = vec![entry(3, vec![5], vec!["read"])];
    let active = vec![entry(1, vec![5], vec!["read"]), entry(2, vec![], vec!["later"])];
    let selected = vec![2];
    assert_eq!(ids(&export_entries_for_source(&library, &trash, &active, &selected, &ExportSource::SelectedEntries)), vec![2]);
    assert_eq!(ids(&export_entries_for_source(&library, &trash, &active, &selected, &ExportSource::SingleEntry(3))), vec![3]);
    assert_eq!(ids(&export_entries_for_source(&library, &trash, &active, &selected, &ExportSource::Folder(5))), vec![1, 3]);
    assert_eq!(
        ids(&export_entries_for_source(&library, &trash, &active, &selected, &ExportSource::Tag("read".to_string()))),
        vec![1, 3]
    );
    assert!(export_entries_for_source(&library, &trash, &active, &selected, &ExportSource::Tag("none".to_string())).is_empty());
}

#[test]
fn shell_titles_and_device_names() {
    assert_eq!(title(AppMode::Library, Some("/docs/book.pdf")), "PDF-Folio");
    assert_eq!(title(AppMode::Viewer, Some("/docs/book.pdf")), "book.pdf - PDF-Folio");
    assert_eq!(title(AppMode::Viewer, None), "PDF-Folio");
    assert_eq!(device_id_from_hostname(Some("  workstation\n".to_string())), "workstation");
    assert_eq!(device_id_from_hostname(Some(" \n".to_string())), "local-device");
    assert_eq!(device_id_from_hostname(None), "local-device");
    let settings = Settings::default();
    assert_eq!(settings.default_zoom_width, 800);
    assert_eq!(settings.tile_cache_pages, 64);
    assert_eq!(AppTheme::Light.toggled(), AppTheme::Dark);
}

#[test]
fn sync_requests_queue_while_a_sync_runs() {
    let profiles = vec![
        LibraryProfile { id: "a".to_string(), name: "A".to_string(), db_path: "/a.db".to_string() },
        LibraryProfile { id: "b".to_string(), name: "B".to_string(), db_path: "/b.db".to_string() },
    ];
    let mut queue = SyncQueue { in_progress: None, queued: vec!["a".to_string()] };
    assert!(matches!(queue.request_sync(false, &profiles, "a"), SyncDecision::Skip));
    match queue.request_sync(true, &profiles, "a") {
        SyncDecision::Start(profile) => assert_eq!(profile.id, "a"),
        other => panic!("unexpected {other:?}"),
    }
    assert_eq!(queue.in_progress, Some("a".to_string()));
    assert!(queue.queued.is_empty());
    assert!(matches!(queue.request_sync(true, &profiles, "b"), SyncDecision::Queued));
    assert!(matches!(queue.request_sync(true, &profiles, "b"), SyncDecision::Queued));
    assert_eq!(queue.queued, vec!["b".to_string()]);
    assert_eq!(queue.next_queued(), Some("b".to_string()));
    queue.in_progress = None;
    assert!(matches!(queue.request_sync(true, &profiles, "zz"), SyncDecision::Skip));
}

#[test]
fn style_events_and_snapshots() {
    let kdl = WatchedPath { is_dir: false, extension: Some("KDL".to_string()) };
    let png = WatchedPath { is_dir: false, extension: Some("png".to_string()) };
    let dir = WatchedPath { is_dir: true, extension: None };
    assert!(style_watch_event_should_reload(WatchEventKind::Modify, &vec![png.clone_path(), kdl]));
    assert!(!style_watch_event_should_reload(WatchEventKind::Modify, &vec![png.clone_path()]));
    assert!(style_watch_event_should_reload(WatchEventKind::Create, &vec![dir]));
    assert!(style_watch_event_should_reload(WatchEventKind::Remove, &vec![]));
    assert!(!style_watch_event_should_reload(WatchEventKind::Access, &vec![]));

    let files = vec![
        StyleFile { path: "/s/b.kdl".to_string(), modified: Some(2), len: 20 },
        StyleFile { path: "/s/a.kdl".to_string(), modified: Some(1), len: 10 },
        StyleFile { path: "/s/b.kdl".to_string(), modified: Some(3), len: 30 },
    ];
    let snapshot = style_files_snapshot(&files);
    let paths: Vec<&str> = snapshot.iter().map(|f| f.path.as_str()).collect();
    assert_eq!(paths, vec!["/s/a.kdl", "/s/b.kdl"]);
    assert_eq!(snapshot[1].len, 20);
}

trait ClonePath {
    fn clone_path(&self) -> WatchedPath;
}

impl ClonePath for WatchedPath {
    fn clone_path(&self) -> WatchedPath {
        WatchedPath { is_dir: self.is_dir, extension: self.extension.clone() }
    }
}

#[test]
fn import_progress_records_each_file_and_folder_once() {
    let mut record = ImportRecord { imported_entries: vec![], created_folders: vec![] };
    record.record_progress(
        Some(ImportedEntry { id: 1, path: String::from("/r/a.pdf"), inserted: true }),
        &vec![10, 11, 10],
    );
    record.record_progress(Some(ImportedEntry { id: 2, path: String::from("/r/a.pdf"), inserted: false }), &vec![11, 12]);
    record.record_progress(None, &vec![]);
    record.record_created_folder(12);
    record.record_created_folder(13);
    assert_eq!(record.imported_entries.len(), 1);
    assert_eq!(record.imported_entries[0].id, 1);
    assert_eq!(record.created_folders, vec![10, 11, 12, 13]);
}

#[test]
fn starting_an_export() {
    assert_eq!(export_start(None, 3), ExportStart::Nothing);
    let mut dialog = LibraryExportDialog::new(ExportSource::SelectedEntries);
    assert_eq!(export_start(Some(&dialog), 3), ExportStart::ChooseDestination);
    dialog.destination = Some(String::from("/exports"));
    assert_eq!(
        export_start(Some(&dialog), 0),
        ExportStart::Refused { error: String::from("There are no PDFs available for this export.") }
    );
    assert_eq!(export_start(Some(&dialog), 3), ExportStart::Start { total: 3 });
}

#[test]
fn export_and_bulk_statuses() {
    let summary = LibraryExportSummary { destination: String::from("/exports"), exported: 4, skipped: 0, errors: vec![] };
    assert_eq!(summary.status(), "Exported 4 PDFs to /exports");
    let skipped = LibraryExportSummary { destination: String::from("/out"), exported: 2, skipped: 1, errors: vec![] };
    assert_eq!(skipped.status(), "Exported 2 PDFs to /out (1 skipped)");
    assert_eq!(pdfs_done_status("Tagged", 5, 0), "Tagged 5 PDFs.");
    assert_eq!(pdfs_done_status("Tagged", 1, 2), "Tagged 1 PDFs; 2 failed.");
}

fn counts() -> SyncCounts {
    SyncCounts {
        uploaded_blobs: 0,
        failed_blobs: 0,
        generated_operations: 0,
        pushed_operations: 0,
        pulled_operations: 0,
        hydrated_entries: 0,
        relinked_entries: 0,
        hydrated_folders: 0,
        hydrated_memberships: 0,
        missing_blobs: 0,
    }
}

#[test]
fn finished_syncs_report_and_refresh() {
    let profiles = vec![
        LibraryProfile { id: "a".to_string(), name: "Work".to_string(), db_path: "/a.db".to_string() },
        LibraryProfile { id: "b".to_string(), name: "Home".to_string(), db_path: "/b.db".to_string() },
    ];
    let mut queue = SyncQueue { in_progress: Some("a".to_string()), queued: vec!["b".to_string()] };
    let mut pulled = counts();
    pulled.pulled_operations = 3;
    pulled.uploaded_blobs = 1;
    let follow = queue.sync_finished("a", "a", &profiles, Ok(pulled));
    assert_eq!(queue.in_progress, None);
    assert_eq!(
        follow.status.as_deref(),
        Some("Synced Work: 1 PDFs, 0 new, 0 pushed, 3 pulled, 0 entries hydrated, 0 PDFs healed, 0 folders, 0 memberships hydrated, 0 PDFs missing.")
    );
    assert!(follow.refresh_preview);
    assert!(follow.refresh_library);
    assert!(follow.start_next);

    let mut queue = SyncQueue { in_progress: Some("b".to_string()), queued: vec![] };
    let follow = queue.sync_finished("a", "b", &profiles, Ok(counts()));
    assert_eq!(queue.in_progress, Some("b".to_string()));
    assert_eq!(follow.status, None);
    assert!(!follow.refresh_preview && !follow.refresh_library && !follow.start_next);

    let mut pushed = counts();
    pushed.pushed_operations = 2;
    let follow = queue.sync_finished("zz", "b", &profiles, Ok(pushed));
    assert!(follow.status.as_deref().unwrap().starts_with("Synced zz: "));
    assert!(follow.refresh_preview && !follow.refresh_library);

    let follow = queue.sync_finished("b", "b", &profiles, Err("offline".to_string()));
    assert_eq!(follow.status.as_deref(), Some("Sync paused: offline"));
    assert_eq!(queue.in_progress, None);
}

#[test]
fn sync_timer_ticks() {
    let empty = SyncQueue { in_progress: None, queued: vec![] };
    let waiting = SyncQueue { in_progress: None, queued: vec!["a".to_string()] };
    assert_eq!(sync_tick(false, &waiting), SyncTick::Nothing);
    assert_eq!(sync_tick(true, &empty), SyncTick::SyncRegistry);
    assert_eq!(sync_tick(true, &waiting), SyncTick::StartNext);
}

#[test]
fn style_watcher_rounds() {
    assert_eq!(style_watch_step(WatchWait::Signalled, false), StyleWatchStep::Reload);
    assert_eq!(style_watch_step(WatchWait::TimedOut, true), StyleWatchStep::Reload);
    assert_eq!(style_watch_step(WatchWait::Disconnected, true), StyleWatchStep::Reload);
    assert_eq!(style_watch_step(WatchWait::TimedOut, false), StyleWatchStep::Wait);
    assert_eq!(style_watch_step(WatchWait::Disconnected, false), StyleWatchStep::Stop);
    assert_eq!(style_watch_step(WatchWait::Failed, false), StyleWatchStep::Stop);
}

#[test]
fn startup_opens_the_file_given_or_the_last_document() {
    let file = Some(String::from("/docs/a.pdf"));
    let last = Some(String::from("/docs/b.pdf"));
    assert_eq!(
        startup_plan(true, file.clone(), last.clone()),
        StartupPlan { open_document: file.clone(), check_pending_rollback: true }
    );
    assert_eq!(startup_plan(true, None, last.clone()).open_document, last);
    assert_eq!(startup_plan(false, file, None), StartupPlan { open_document: None, check_pending_rollback: false });
}
