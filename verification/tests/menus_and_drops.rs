use pdf_folio_ui::clipboard::{
    can_cut_or_copy_library_selection, can_paste_library_clipboard, set_library_clipboard, LibraryClipboard,
    LibraryClipboardMode, LibraryClipboardTarget,
};
use pdf_folio_ui::context_menu::{
    context_menu_action_message, context_menu_groups, destructive_spec, folder_context_groups, folder_menu_facts,
    library_background_context_groups, library_entry_context_groups, spec, tag_context_groups,
    viewer_context_groups, ContextCommand, ContextMenuAction, ContextMenuTarget, FolderMenuFacts, MenuFacts,
};
use pdf_folio_ui::drag::{
    begin_folder_drag, begin_library_drag, can_drag_reorder_library, finish_folder_drag, finish_library_drag,
    reorder_entry_ids_for_drag, FolderDragState, FolderDropOutcome, LibraryDragState, LibraryDropOutcome,
};
use pdf_folio_ui::menu::{app_menu_action_message, AppMenuAction, MenuCommand};
use pdf_folio_ui::model::{ConfirmationAction, ExportSource, Folder, LibrarySortMode};
use pdf_folio_ui::state::AppMode;

fn folder(id: u64, name: &str, parent: Option<u64>, order: i64) -> Folder {
    Folder { id, name: name.to_string(), parent_id: parent, manual_order: order }
}

fn tree() -> Vec<Folder> {
    vec![folder(1, "Top", None, 0), folder(2, "Child", Some(1), 0), folder(3, "Other", Some(1), 1)]
}

#[test]
fn clipboard_labels_and_availability() {
    let cut_entries = LibraryClipboard { mode: LibraryClipboardMode::Cut, target: LibraryClipboardTarget::Entries(vec![1]) };
    assert_eq!(cut_entries.label(), "Cut PDFs");
    assert_eq!(cut_entries.paste_label(), "Move PDFs");
    let copy_folder = LibraryClipboard { mode: LibraryClipboardMode::Copy, target: LibraryClipboardTarget::Folder(2) };
    assert_eq!(copy_folder.label(), "Copy Folder");
    assert_eq!(copy_folder.paste_label(), "Paste Folder");
    assert!(can_cut_or_copy_library_selection(AppMode::Library, &vec![1], None));
    assert!(can_cut_or_copy_library_selection(AppMode::Library, &vec![], Some(2)));
    assert!(!can_cut_or_copy_library_selection(AppMode::Viewer, &vec![1], None));
    assert!(!can_cut_or_copy_library_selection(AppMode::Library, &vec![], None));
}

#[test]
fn paste_rules() {
    let folders = tree();
    let copy_entries = Some(LibraryClipboard { mode: LibraryClipboardMode::Copy, target: LibraryClipboardTarget::Entries(vec![1]) });
    assert!(!can_paste_library_clipboard(AppMode::Library, &copy_entries, None, &folders));
    assert!(can_paste_library_clipboard(AppMode::Library, &copy_entries, Some(1), &folders));
    assert!(!can_paste_library_clipboard(AppMode::Viewer, &copy_entries, Some(1), &folders));
    let cut_folder = Some(LibraryClipboard { mode: LibraryClipboardMode::Cut, target: LibraryClipboardTarget::Folder(1) });
    assert!(!can_paste_library_clipboard(AppMode::Library, &cut_folder, Some(1), &folders));
    assert!(!can_paste_library_clipboard(AppMode::Library, &cut_folder, Some(2), &folders));
    assert!(can_paste_library_clipboard(AppMode::Library, &cut_folder, None, &folders));
    let cut_child = Some(LibraryClipboard { mode: LibraryClipboardMode::Cut, target: LibraryClipboardTarget::Folder(2) });
    assert!(can_paste_library_clipboard(AppMode::Library, &cut_child, Some(3), &folders));
    assert!(!can_paste_library_clipboard(AppMode::Library, &None, Some(3), &folders));
}

#[test]
fn cut_and_copy_capture_the_selection() {
    let mut clipboard = None;
    assert!(set_library_clipboard(&mut clipboard, LibraryClipboardMode::Copy, &vec![9, 3, 5], None));
    match &clipboard {
        Some(LibraryClipboard { mode: LibraryClipboardMode::Copy, target: LibraryClipboardTarget::Entries(ids) }) => {
            assert_eq!(ids, &vec![3, 5, 9])
        }
        other => panic!("unexpected clipboard {other:?}"),
    }
    assert!(set_library_clipboard(&mut clipboard, LibraryClipboardMode::Cut, &vec![], Some(4)));
    assert!(matches!(
        clipboard,
        Some(LibraryClipboard { mode: LibraryClipboardMode::Cut, target: LibraryClipboardTarget::Folder(4) })
    ));
    assert!(!set_library_clipboard(&mut clipboard, LibraryClipboardMode::Copy, &vec![], None));
    assert!(matches!(clipboard, Some(LibraryClipboard { mode: LibraryClipboardMode::Cut, .. })));
}

fn labels(groups: &[Vec<pdf_folio_ui::context_menu::ContextMenuItemSpec>]) -> Vec<Vec<(&'static str, bool)>> {
    groups.iter().map(|g| g.iter().map(|i| (i.label, i.enabled)).collect()).collect()
}

#[test]
fn entry_and_folder_menus() {
    let entry = library_entry_context_groups(true, 2, false);
    assert_eq!(entry.len(), 4);
    assert_eq!(labels(&entry)[0][2], ("Remove From Selection", true));
    assert_eq!(labels(&entry)[1][3], ("Save Details", false));
    assert_eq!(labels(&entry)[2][2], ("Relink Missing File...", false));
    assert_eq!(entry[3][4].detail, "Del");
    let lone = library_entry_context_groups(false, 0, true);
    assert_eq!(labels(&lone)[0][2], ("Add To Selection", false));
    assert_eq!(labels(&lone)[2][2], ("Relink Missing File...", true));
    let root = folder_context_groups(false, false, false, false, false);
    assert_eq!(labels(&root)[0][0], ("Open Library", true));
    assert_eq!(labels(&root)[1][0], ("Rename Folder", false));
    let facts = folder_menu_facts(&tree(), &tree(), Some(2));
    assert!(facts.has_parent && !facts.has_grandparent && !facts.can_move_earlier && facts.can_move_later);
    let top = folder_menu_facts(&tree(), &tree(), Some(1));
    assert!(!top.has_parent && !top.can_move_earlier && !top.can_move_later);
}

#[test]
fn background_tag_and_viewer_menus() {
    let bg = library_background_context_groups(false, true);
    assert_eq!(labels(&bg)[1][2], ("Switch To Grid", true));
    assert_eq!(labels(&bg)[1][0], ("Move To...", false));
    let tag = tag_context_groups(true);
    assert!(tag[0][2].destructive);
    assert!(!tag[0][0].destructive);
    let viewer = viewer_context_groups(false, true);
    assert_eq!(labels(&viewer)[0][0], ("Copy Selection", false));
    assert_eq!(labels(&viewer)[2][0], ("Hide Table Of Contents", true));
    let item = spec("Label", "Ctrl+L", true, ContextMenuAction::Open);
    assert!(!item.destructive && item.enabled);
    assert!(destructive_spec("Delete", "", false, ContextMenuAction::DeleteTag).destructive);
}

#[test]
fn context_menu_commands() {
    let entry = ContextMenuTarget::LibraryEntry(5);
    assert_eq!(context_menu_action_message(ContextMenuAction::Open, Some(&entry), &vec![], None), Some(ContextCommand::OpenLibraryEntry(5)));
    assert_eq!(
        context_menu_action_message(ContextMenuAction::Export, Some(&entry), &vec![5, 6], None),
        Some(ContextCommand::OpenExportDialog(ExportSource::SelectedEntries))
    );
    assert_eq!(
        context_menu_action_message(ContextMenuAction::Export, Some(&entry), &vec![5], None),
        Some(ContextCommand::OpenExportDialog(ExportSource::SingleEntry(5)))
    );
    assert_eq!(context_menu_action_message(ContextMenuAction::SelectOnly, Some(&entry), &vec![], None), None);
    assert_eq!(context_menu_action_message(ContextMenuAction::Open, None, &vec![], None), None);
    assert_eq!(
        context_menu_action_message(ContextMenuAction::ResetDetails, Some(&entry), &vec![], Some(5)),
        Some(ContextCommand::RequestConfirmation(ConfirmationAction::ResetDetailsMetadata(5)))
    );
    assert_eq!(context_menu_action_message(ContextMenuAction::ResetDetails, Some(&entry), &vec![], None), None);
    let tag = ContextMenuTarget::Tag("later".to_string());
    assert_eq!(
        context_menu_action_message(ContextMenuAction::DeleteTag, Some(&tag), &vec![], None),
        Some(ContextCommand::RequestConfirmation(ConfirmationAction::DeleteTag("later".to_string())))
    );
    assert_eq!(context_menu_action_message(ContextMenuAction::RenameTag, Some(&entry), &vec![], None), None);
    let root = ContextMenuTarget::Folder(None);
    assert_eq!(context_menu_action_message(ContextMenuAction::Export, Some(&root), &vec![1], None), None);
    let bg = ContextMenuTarget::LibraryBackground;
    assert_eq!(context_menu_action_message(ContextMenuAction::Export, Some(&bg), &vec![], None), None);
    assert_eq!(
        context_menu_action_message(ContextMenuAction::SortTitleAsc, Some(&bg), &vec![], None),
        Some(ContextCommand::LibrarySortChanged(LibrarySortMode::TitleAsc))
    );
}

#[test]
fn app_menu_commands() {
    assert_eq!(app_menu_action_message(AppMenuAction::OpenFile, None), Some(MenuCommand::OpenFileDialog));
    assert_eq!(app_menu_action_message(AppMenuAction::ResetDetails, None), None);
    assert_eq!(
        app_menu_action_message(AppMenuAction::ResetDetails, Some(3)),
        Some(MenuCommand::RequestConfirmation(ConfirmationAction::ResetDetailsMetadata(3)))
    );
    assert_eq!(
        app_menu_action_message(AppMenuAction::SortLibrary(LibrarySortMode::PageCount), None),
        Some(MenuCommand::LibrarySortChanged(LibrarySortMode::PageCount))
    );
    assert_eq!(
        app_menu_action_message(AppMenuAction::SetViewerScrollMode(pdf_folio_ui::shortcuts::ViewerScrollMode::Page), None),
        None
    );
}

fn drag(entry_ids: Vec<u64>, active: bool, parent: bool, target: Option<u64>, index: usize, multi: bool) -> LibraryDragState {
    LibraryDragState {
        entry_id: entry_ids.first().copied().unwrap_or(0),
        entry_ids,
        source_index: 0,
        multi,
        active,
        parent_drop_target: parent,
        drop_target: target,
        target_index: index,
    }
}

#[test]
fn starting_drags() {
    let d = begin_library_drag(3, &vec![1, 2, 3, 4], &vec![4, 3, 1]).unwrap();
    assert_eq!(d.entry_ids, vec![1, 3, 4]);
    assert!(d.multi);
    assert_eq!(d.source_index, 2);
    let single = begin_library_drag(2, &vec![1, 2, 3], &vec![4, 3]).unwrap();
    assert_eq!(single.entry_ids, vec![2]);
    assert!(!single.multi);
    assert!(begin_library_drag(9, &vec![1, 2], &vec![]).is_none());
    assert!(begin_folder_drag(2, &tree()).is_some());
    assert!(begin_folder_drag(8, &tree()).is_none());
    assert!(can_drag_reorder_library(LibrarySortMode::Manual, "  ", false, false, false));
    assert!(!can_drag_reorder_library(LibrarySortMode::TitleAsc, "", false, false, false));
    assert!(!can_drag_reorder_library(LibrarySortMode::Manual, "q", false, false, false));
}

#[test]
fn reordering_dropped_entries() {
    assert_eq!(reorder_entry_ids_for_drag(&vec![1, 2, 3, 4, 5], &vec![2, 4], 0), vec![2, 4, 1, 3, 5]);
    assert_eq!(reorder_entry_ids_for_drag(&vec![1, 2, 3, 4, 5], &vec![2, 4], 2), vec![1, 3, 2, 4, 5]);
    assert_eq!(reorder_entry_ids_for_drag(&vec![1, 2, 3], &vec![1], 99), vec![2, 3, 1]);
}

#[test]
fn dropping_pdfs() {
    let folders = tree();
    let visible = vec![1, 2, 3];
    let click = finish_library_drag(drag(vec![2], false, false, None, 0, false), None, &folders, true, &visible);
    assert!(matches!(click.outcome, LibraryDropOutcome::Click(2)) && click.collapse_expanded);
    let to_parent = finish_library_drag(drag(vec![2, 3], true, true, None, 0, true), Some(2), &folders, true, &visible);
    match to_parent.outcome {
        LibraryDropOutcome::MoveToFolder { entry_ids, folder, status } => {
            assert_eq!(entry_ids, vec![2, 3]);
            assert_eq!(folder, 1);
            assert_eq!(status, "Moving 2 PDFs to parent folder...");
        }
        other => panic!("unexpected {other:?}"),
    }
    let to_root = finish_library_drag(drag(vec![2], true, true, None, 0, false), Some(1), &folders, true, &visible);
    match to_root.outcome {
        LibraryDropOutcome::RemoveFromFolder { folder, status, .. } => {
            assert_eq!(folder, 1);
            assert_eq!(status, "Moving 1 PDF to library root...");
        }
        other => panic!("unexpected {other:?}"),
    }
    let into = finish_library_drag(drag(vec![1], true, false, Some(3), 0, false), None, &folders, true, &visible);
    assert!(!into.collapse_expanded);
    match into.outcome {
        LibraryDropOutcome::MoveToFolder { folder, status, .. } => {
            assert_eq!(folder, 3);
            assert_eq!(status, "Adding 1 PDF to folder...");
        }
        other => panic!("unexpected {other:?}"),
    }
    let same = finish_library_drag(drag(vec![1], true, false, Some(3), 0, false), Some(3), &folders, true, &visible);
    assert!(matches!(same.outcome, LibraryDropOutcome::KeepScroll));
    let reorder = finish_library_drag(drag(vec![1], true, false, None, 2, false), None, &folders, true, &visible);
    match reorder.outcome {
        LibraryDropOutcome::SaveOrder { order, status } => {
            assert_eq!(order, vec![2, 3, 1]);
            assert_eq!(status, "Saving manual PDF order...");
        }
        other => panic!("unexpected {other:?}"),
    }
    let multi = finish_library_drag(drag(vec![1, 2], true, false, None, 1, true), None, &folders, true, &visible);
    match multi.outcome {
        LibraryDropOutcome::SaveOrder { order, status } => {
            assert_eq!(order, vec![3, 1, 2]);
            assert_eq!(status, "Saving manual order for 2 PDFs...");
        }
        other => panic!("unexpected {other:?}"),
    }
    let unchanged = finish_library_drag(drag(vec![1], true, false, None, 0, false), None, &folders, true, &visible);
    assert!(matches!(unchanged.outcome, LibraryDropOutcome::KeepScroll));
    let filtered = finish_library_drag(drag(vec![1], true, false, None, 2, false), None, &folders, false, &visible);
    assert!(matches!(filtered.outcome, LibraryDropOutcome::KeepScroll));
}

fn folder_drag(active: bool, parent: bool, target: Option<u64>, pending: Option<u64>) -> FolderDragState {
    FolderDragState { folder_id: 2, active, parent_drop_target: parent, drop_target: target, pending_drop_target: pending }
}

#[test]
fn dropping_folders() {
    let folders = tree();
    let click = finish_folder_drag(folder_drag(false, false, None, None), true, None, &folders);
    assert!(matches!(click.outcome, FolderDropOutcome::Click { folder_id: 2, in_tree: true }));
    let up = finish_folder_drag(folder_drag(true, true, None, None), false, Some(2), &folders);
    assert!(matches!(up.outcome, FolderDropOutcome::MoveFolder { folder_id: 2, parent: Some(1), .. }));
    let into = finish_folder_drag(folder_drag(true, false, Some(3), None), false, None, &folders);
    assert!(matches!(into.outcome, FolderDropOutcome::MoveInto { folder_id: 2, target: 3, .. }));
    assert!(!into.collapse_expanded);
    let refused = finish_folder_drag(folder_drag(true, false, Some(2), None), false, None, &folders);
    match refused.outcome {
        FolderDropOutcome::Refused { error } => assert_eq!(error, "That folder cannot be moved there."),
        other => panic!("unexpected {other:?}"),
    }
    let reorder = finish_folder_drag(
        FolderDragState { folder_id: 3, active: true, parent_drop_target: false, drop_target: None, pending_drop_target: Some(2) },
        false,
        None,
        &folders,
    );
    match reorder.outcome {
        FolderDropOutcome::SaveFolderOrder { parent, order, status } => {
            assert_eq!(parent, Some(1));
            assert_eq!(order, vec![3, 2]);
            assert_eq!(status, "Saving manual folder order...");
        }
        other => panic!("unexpected {other:?}"),
    }
    let nothing = finish_folder_drag(folder_drag(true, false, None, None), false, None, &folders);
    assert!(matches!(nothing.outcome, FolderDropOutcome::Nothing));
}

#[test]
fn clipboard_statuses_and_emptying() {
    let cut_entries = LibraryClipboard { mode: LibraryClipboardMode::Cut, target: LibraryClipboardTarget::Entries(vec![1]) };
    let copy_folder = LibraryClipboard { mode: LibraryClipboardMode::Copy, target: LibraryClipboardTarget::Folder(2) };
    assert_eq!(cut_entries.ready_status(), "Cut PDFs ready to paste.");
    assert_eq!(copy_folder.pasting_status(), "Paste Folder...");
    assert!(cut_entries.emptied_after_paste(0));
    assert!(!cut_entries.emptied_after_paste(1));
    assert!(!copy_folder.emptied_after_paste(0));
}

#[test]
fn finished_operation_statuses() {
    assert_eq!(pdf_folio_ui::state::items_done_status("Move PDFs", 1, 0), "Move PDFs 1 item.");
    assert_eq!(pdf_folio_ui::state::items_done_status("Tagged", 3, 0), "Tagged 3 items.");
    assert_eq!(pdf_folio_ui::state::items_done_status("Tagged", 0, 2), "Tagged 0 items; 2 failed.");
}

#[test]
fn menu_groups_follow_the_target() {
    let facts = MenuFacts {
        entry_in_selection: false,
        selection_count: 0,
        entry_missing: false,
        folder: FolderMenuFacts { has_parent: false, has_grandparent: false, can_move_earlier: false, can_move_later: false },
        tag_exists: true,
        has_selection: false,
        compact_view_mode: false,
        has_text_selection: false,
        toc_open: true,
    };
    let tag = context_menu_groups(&ContextMenuTarget::Tag(String::from("math")), facts);
    assert_eq!(tag[0][1].action, ContextMenuAction::RenameTag);
    let root = context_menu_groups(&ContextMenuTarget::Folder(None), facts);
    assert_eq!(root[0][0].label, "Open Library");
    assert!(!root[1][0].enabled);
    let folder = context_menu_groups(&ContextMenuTarget::Folder(Some(3)), facts);
    assert_eq!(folder[0][0].label, "Open Folder");
    assert!(folder[1][0].enabled);
    let viewer = context_menu_groups(&ContextMenuTarget::ViewerCanvas, facts);
    assert!(viewer.iter().flatten().any(|i| i.action == ContextMenuAction::ToggleToc));
}
