use pdf_folio_ui::metadata::{entry_author, entry_title, library_preview_title};
use pdf_folio_ui::model::LibraryEntry;
use pdf_folio_ui::navigation::{
    clear_library_sidebar_details, library_folders_loaded, open_folder_from_tree, select_folder_for_details,
    select_for_context_menu, trash_folders_loaded, FolderPanel,
};
use pdf_folio_ui::model::Folder;
use pdf_folio_ui::selection::{master_checkbox_state, master_checkbox_state_for_counts, LibrarySelection, MasterCheckboxState};

fn entry(id: u64, title: Option<&str>, author: Option<&str>) -> LibraryEntry {
    LibraryEntry {
        id,
        title: title.map(|t| t.to_string()),
        display_title: None,
        author: author.map(|a| a.to_string()),
        display_author: None,
        path: format!("/library/file-{id}.pdf"),
        tags: vec![],
        folders: vec![],
        missing: false,
        page_count: None,
        last_page: 0,
    }
}

fn entries() -> Vec<LibraryEntry> {
    vec![entry(1, Some("One"), Some("Ann")), entry(2, None, None), entry(3, Some("Three"), None), entry(4, None, None)]
}

fn sorted(ids: &[u64]) -> Vec<u64> {
    let mut v = ids.to_vec();
    v.sort();
    v
}

#[test]
fn plain_click_selects_one_and_fills_the_details_editor() {
    let all = entries();
    let visible = vec![1, 2, 3, 4];
    let mut selection = LibrarySelection::new();
    selection.select_library_entry(1, false, false, &visible, &all);
    assert_eq!(selection.selected_library_entries, vec![1]);
    assert_eq!(selection.library_selection_anchor, Some(1));
    assert_eq!(selection.details_entry_id, Some(1));
    assert_eq!(selection.details_title_input, "One");
    assert_eq!(selection.details_author_input, "Ann");
}

#[test]
fn ctrl_click_toggles_and_shift_click_selects_a_range() {
    let all = entries();
    let visible = vec![1, 2, 3, 4];
    let mut selection = LibrarySelection::new();
    selection.select_library_entry(2, false, false, &visible, &all);
    selection.select_library_entry(4, false, true, &visible, &all);
    assert_eq!(sorted(&selection.selected_library_entries), vec![2, 4]);
    assert_eq!(selection.details_entry_id, None);
    assert_eq!(selection.details_title_input, "");
    selection.select_library_entry(4, false, true, &visible, &all);
    assert_eq!(selection.selected_library_entries, vec![2]);
    // The anchor is now 4; shift-clicking 1 selects 1 through 4.
    selection.select_library_entry(1, true, false, &visible, &all);
    assert_eq!(sorted(&selection.selected_library_entries), vec![1, 2, 3, 4]);
    assert_eq!(selection.library_selection_anchor, Some(4));
}

#[test]
fn shift_click_with_an_invisible_anchor_selects_only_the_entry() {
    let all = entries();
    let mut selection = LibrarySelection::new();
    selection.select_library_entry(4, false, false, &vec![1, 2, 3, 4], &all);
    selection.select_library_entry(2, true, false, &vec![1, 2, 3], &all);
    assert_eq!(selection.selected_library_entries, vec![2]);
    assert_eq!(selection.library_selection_anchor, Some(2));
    assert_eq!(selection.details_title_input, "file-2");
}

#[test]
fn pruning_drops_hidden_entries_and_moves_the_anchor() {
    let all = entries();
    let mut selection = LibrarySelection::new();
    selection.select_all_visible_library_entries(&vec![1, 2, 3], &all);
    assert_eq!(selection.library_selection_anchor, Some(1));
    selection.prune_selection_to_visible_entries(&vec![2, 3], &all);
    assert_eq!(selection.selected_library_entries, vec![2, 3]);
    assert_eq!(selection.library_selection_anchor, Some(2));
    selection.prune_selection_to_visible_entries(&vec![3], &all);
    assert_eq!(selection.details_entry_id, Some(3));
    assert_eq!(selection.details_title_input, "Three");
    selection.prune_selection_to_visible_entries(&vec![], &all);
    assert!(selection.selected_library_entries.is_empty());
    assert_eq!(selection.library_selection_anchor, None);
}

#[test]
fn toggling_a_checkbox_and_clearing() {
    let all = entries();
    let visible = vec![1, 2, 3, 4];
    let mut selection = LibrarySelection::new();
    selection.toggle_library_entry_selection(3, &visible, &all);
    selection.toggle_library_entry_selection(1, &visible, &all);
    assert_eq!(sorted(&selection.selected_library_entries), vec![1, 3]);
    assert_eq!(selection.library_selection_anchor, Some(1));
    selection.clear_library_selection(&all);
    assert!(selection.selected_library_entries.is_empty());
    assert_eq!(selection.details_entry_id, None);
}

#[test]
fn master_checkbox_states() {
    assert_eq!(master_checkbox_state(&vec![], &vec![1]), MasterCheckboxState::Unchecked);
    assert_eq!(master_checkbox_state(&vec![1, 2], &vec![]), MasterCheckboxState::Unchecked);
    assert_eq!(master_checkbox_state(&vec![1, 2], &vec![2, 9]), MasterCheckboxState::Partial);
    assert_eq!(master_checkbox_state(&vec![1, 2], &vec![2, 1]), MasterCheckboxState::Checked);
    assert_eq!(master_checkbox_state_for_counts(3, 3), MasterCheckboxState::Checked);
    assert_eq!(master_checkbox_state_for_counts(0, 3), MasterCheckboxState::Unchecked);
}

#[test]
fn select_all_then_master_checkbox_is_checked() {
    let all = entries();
    let visible = vec![4, 2, 4];
    let mut selection = LibrarySelection::new();
    selection.select_all_visible_library_entries(&visible, &all);
    assert_eq!(selection.selected_library_entries, vec![4, 2]);
    assert_eq!(master_checkbox_state(&visible, &selection.selected_library_entries), MasterCheckboxState::Checked);
}

#[test]
fn primary_and_selected_entries() {
    let all = entries();
    let mut selection = LibrarySelection::new();
    selection.select_all_visible_library_entries(&vec![3, 1], &all);
    assert!(selection.primary_selected_entry(&all).is_none());
    assert_eq!(selection.selected_entries(&all), vec![1, 3]);
    selection.select_library_entry(2, false, false, &vec![2], &all);
    assert_eq!(selection.primary_selected_entry(&all).map(|e| e.id), Some(2));
}

#[test]
fn titles_fall_back_to_the_file_name() {
    let mut e = entry(7, None, None);
    assert_eq!(library_preview_title(&e), "file-7");
    e.title = Some("Extracted".to_string());
    assert_eq!(entry_title(&e), "Extracted");
    e.display_title = Some("Shown".to_string());
    assert_eq!(entry_title(&e), "Shown");
    e.path = "/".to_string();
    e.display_title = None;
    e.title = None;
    assert_eq!(library_preview_title(&e), "PDF");
    e.author = Some("Extracted Author".to_string());
    assert_eq!(entry_author(&e), "Extracted Author");
    e.display_author = Some("Shown Author".to_string());
    assert_eq!(entry_author(&e), "Shown Author");
}

#[test]
fn right_click_outside_the_selection_selects_the_entry() {
    let all = entries();
    let visible = vec![1, 2, 3];
    let mut selection = LibrarySelection::new();
    selection.select_all_visible_library_entries(&visible, &all);
    select_for_context_menu(&mut selection, 2, false, false, &visible, &all);
    assert_eq!(sorted(&selection.selected_library_entries), vec![1, 2, 3]);
    let mut single = LibrarySelection::new();
    single.select_library_entry(1, false, false, &visible, &all);
    select_for_context_menu(&mut single, 3, false, false, &visible, &all);
    assert_eq!(single.selected_library_entries, vec![3]);
    assert_eq!(single.details_title_input, "Three");
}

#[test]
fn folder_panel_navigation() {
    let all = entries();
    let folders = vec![Folder { id: 8, name: "Reading".to_string(), parent_id: None, manual_order: 0 }];
    let mut selection = LibrarySelection::new();
    selection.select_library_entry(1, false, false, &vec![1], &all);
    let mut panel = FolderPanel { details_folder_id: None, folder_details_sidebar_open: false, folder_rename_input: String::new() };
    select_folder_for_details(&mut selection, &mut panel, Some(8), &folders);
    assert!(selection.selected_library_entries.is_empty());
    assert!(panel.folder_details_sidebar_open);
    assert_eq!(panel.folder_rename_input, "Reading");
    let mut trash = true;
    let mut open_folder = None;
    open_folder_from_tree(&mut selection, &mut panel, &mut trash, &mut open_folder, Some(8), &folders);
    assert!(!trash);
    assert_eq!(open_folder, Some(8));
    assert!(!panel.folder_details_sidebar_open);
    clear_library_sidebar_details(&mut selection, &mut panel, &all);
    assert_eq!(panel.details_folder_id, None);
    assert_eq!(panel.folder_rename_input, "");
}

#[test]
fn master_checkbox_click_selects_all_then_clears() {
    let all = entries();
    let visible = vec![1, 2, 3];
    let mut selection = LibrarySelection::new();
    selection.select_library_entry(2, false, false, &visible, &all);
    assert_eq!(master_checkbox_state(&visible, &selection.selected_library_entries), MasterCheckboxState::Partial);
    selection.master_checkbox_clicked(&visible, &all);
    assert_eq!(selection.selected_library_entries, vec![1, 2, 3]);
    assert_eq!(selection.library_selection_anchor, Some(1));
    assert_eq!(master_checkbox_state(&visible, &selection.selected_library_entries), MasterCheckboxState::Checked);
    selection.master_checkbox_clicked(&visible, &all);
    assert!(selection.selected_library_entries.is_empty());
    assert_eq!(selection.library_selection_anchor, None);
    assert_eq!(master_checkbox_state(&visible, &selection.selected_library_entries), MasterCheckboxState::Unchecked);
}

fn panel_showing(details: Option<u64>) -> FolderPanel {
    FolderPanel { details_folder_id: details, folder_details_sidebar_open: true, folder_rename_input: String::from("old") }
}

#[test]
fn reloading_folders_drops_an_open_folder_that_vanished() {
    let library = vec![Folder { id: 1, name: String::from("Papers"), parent_id: None, manual_order: 0 }];
    let trash: Vec<Folder> = vec![];
    let mut selected = Some(9);
    let mut panel = panel_showing(Some(8));
    assert!(library_folders_loaded(&library, &trash, false, &mut selected, &mut panel));
    assert_eq!(selected, None);
    assert_eq!(panel.details_folder_id, Some(8));
    assert_eq!(panel.folder_rename_input, "");

    let mut selected = Some(1);
    let mut panel = panel_showing(Some(8));
    assert!(!library_folders_loaded(&library, &trash, false, &mut selected, &mut panel));
    assert_eq!(selected, Some(1));
    assert_eq!(panel.details_folder_id, None);

    let mut panel = panel_showing(Some(1));
    assert!(!library_folders_loaded(&library, &trash, false, &mut selected, &mut panel));
    assert_eq!(panel.folder_rename_input, "Papers");

    let mut selected = Some(9);
    assert!(!library_folders_loaded(&library, &trash, true, &mut selected, &mut panel));
    assert_eq!(selected, Some(9));
}

#[test]
fn reloading_trash_folders_matters_only_in_the_trash() {
    let library: Vec<Folder> = vec![];
    let trash = vec![Folder { id: 5, name: String::from("Old"), parent_id: None, manual_order: 0 }];
    let mut selected = Some(9);
    let mut panel = panel_showing(Some(7));
    trash_folders_loaded(&library, &trash, false, &mut selected, &mut panel);
    assert_eq!(selected, Some(9));
    assert_eq!(panel.details_folder_id, Some(7));
    trash_folders_loaded(&library, &trash, true, &mut selected, &mut panel);
    assert_eq!(selected, None);
    assert_eq!(panel.details_folder_id, None);
    let mut panel = panel_showing(Some(5));
    trash_folders_loaded(&library, &trash, true, &mut selected, &mut panel);
    assert_eq!(panel.folder_rename_input, "Old");
}
