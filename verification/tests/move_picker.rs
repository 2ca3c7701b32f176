use pdf_folio_ui::model::Folder;
use pdf_folio_ui::move_picker::{open_for_folder, open_for_selection, LibraryMoveTarget, MoveRequest};

fn folder(id: u64, name: &str, parent: Option<u64>) -> Folder {
    Folder { id, name: name.to_string(), parent_id: parent, manual_order: 0 }
}

fn tree() -> Vec<Folder> {
    vec![
        folder(1, "Papers", None),
        folder(2, "Drafts", Some(1)),
        folder(3, "Old", Some(2)),
        folder(4, "Books", None),
    ]
}

#[test]
fn picker_for_selection_needs_entries() {
    assert!(open_for_selection(&vec![], Some(1), &tree(), &vec![]).is_none());
    let picker = open_for_selection(&vec![10, 11], Some(1), &tree(), &vec![2]).unwrap();
    assert_eq!(picker.target, LibraryMoveTarget::SelectedEntries);
    assert_eq!(picker.selected_destination, Some(1));
    let mut expanded = picker.expanded_folders.clone();
    expanded.sort();
    assert_eq!(expanded, vec![1, 3, 4]);
}

#[test]
fn picker_for_folder_starts_at_its_parent() {
    assert!(open_for_folder(None, &tree(), &vec![]).is_none());
    let picker = open_for_folder(Some(3), &tree(), &vec![]).unwrap();
    assert_eq!(picker.target, LibraryMoveTarget::Folder(3));
    assert_eq!(picker.selected_destination, Some(2));
    let root_level = open_for_folder(Some(1), &tree(), &vec![]).unwrap();
    assert_eq!(root_level.selected_destination, None);
}

#[test]
fn picker_refuses_moving_a_folder_into_itself_or_below() {
    let folders = tree();
    let mut picker = open_for_folder(Some(2), &folders, &vec![]).unwrap();
    assert!(!picker.select_destination(&folders, Some(2)));
    assert!(!picker.select_destination(&folders, Some(3)));
    assert_eq!(picker.selected_destination, Some(1));
    assert!(picker.select_destination(&folders, Some(4)));
    assert_eq!(picker.selected_destination, Some(4));
    assert!(picker.select_destination(&folders, None));
    assert_eq!(picker.selected_destination, None);
}

#[test]
fn picker_for_entries_takes_any_destination() {
    let folders = tree();
    let mut picker = open_for_selection(&vec![10], None, &folders, &vec![]).unwrap();
    assert!(picker.select_destination(&folders, Some(3)));
    assert_eq!(picker.selected_destination, Some(3));
}

#[test]
fn picker_tree_toggles_twice_back() {
    let folders = tree();
    let mut picker = open_for_selection(&vec![10], None, &folders, &vec![]).unwrap();
    picker.toggle_expanded(2);
    assert!(!picker.expanded_folders.contains(&2));
    picker.toggle_expanded(2);
    assert!(picker.expanded_folders.contains(&2));
    picker.toggle_expanded(9);
    assert!(picker.expanded_folders.contains(&9));
}

#[test]
fn confirming_the_picker_asks_for_the_move() {
    let folders = tree();
    let mut picker = open_for_selection(&vec![10, 11], None, &folders, &vec![]).unwrap();
    picker.select_destination(&folders, Some(4));
    assert_eq!(
        picker.confirm(&vec![10, 11]),
        MoveRequest::MoveEntries { entry_ids: vec![10, 11], destination: Some(4) }
    );
    assert_eq!(picker.confirm(&vec![]), MoveRequest::Nothing);
    let folder_picker = open_for_folder(Some(3), &folders, &vec![]).unwrap();
    assert_eq!(folder_picker.confirm(&vec![10]), MoveRequest::MoveFolder { folder_id: 3, destination: Some(2) });
}
