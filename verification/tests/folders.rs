use pdf_folio_ui::folders::{
    child_folders, folder_breadcrumbs, folder_can_move_into, folder_drag_manual_reorder, folder_has_children,
    folder_smart_counts_for, folder_subtree_ids, move_picker_expanded_folders, parent_directory_folder_id,
    reorder_folder_ids_before_target, selected_folder, selected_folder_manual_reorder, selected_folder_name,
    selected_folder_sibling_order, FolderSmartCounts,
};
use pdf_folio_ui::model::{Folder, LibraryEntry};

fn folder(id: u64, name: &str, parent: Option<u64>, order: i64) -> Folder {
    Folder { id, name: name.to_string(), parent_id: parent, manual_order: order }
}

fn tree() -> Vec<Folder> {
    vec![
        folder(1, "Papers", None, 0),
        folder(2, "Zeta", Some(1), 0),
        folder(3, "alpha", Some(1), 0),
        folder(4, "Beta", Some(1), -1),
        folder(5, "Deep", Some(3), 0),
        folder(6, "Books", None, 1),
    ]
}

fn entry(id: u64, folders: Vec<u64>, missing: bool, pages: Option<u32>, last_page: u32) -> LibraryEntry {
    LibraryEntry {
        id,
        title: None,
        display_title: None,
        author: None,
        display_author: None,
        path: format!("/pdfs/{id}.pdf"),
        tags: vec![],
        folders,
        missing,
        page_count: pages,
        last_page,
    }
}

fn ids(folders: &[Folder]) -> Vec<u64> {
    folders.iter().map(|f| f.id).collect()
}

#[test]
fn children_sort_by_manual_order_then_lowercase_name() {
    let folders = tree();
    // Beta has the lowest manual order; alpha comes before Zeta once lowercased.
    assert_eq!(ids(&child_folders(&folders, Some(1), false)), vec![4, 3, 2]);
    assert_eq!(ids(&child_folders(&folders, None, false)), vec![1, 6]);
    assert!(child_folders(&folders, Some(1), true).is_empty());
}

#[test]
fn subtree_and_moves_into_descendants() {
    let folders = tree();
    let mut subtree = folder_subtree_ids(&folders, 1);
    subtree.sort();
    assert_eq!(subtree, vec![1, 2, 3, 4, 5]);
    assert_eq!(folder_subtree_ids(&folders, 99), vec![99]);
    assert!(!folder_can_move_into(&folders, 1, 1));
    assert!(!folder_can_move_into(&folders, 1, 5));
    assert!(folder_can_move_into(&folders, 5, 1));
    assert!(folder_can_move_into(&folders, 3, 6));
}

#[test]
fn subtree_survives_a_cycle() {
    let folders = vec![folder(1, "A", Some(2), 0), folder(2, "B", Some(1), 0)];
    let mut subtree = folder_subtree_ids(&folders, 1);
    subtree.sort();
    assert_eq!(subtree, vec![1, 2]);
}

#[test]
fn lookups_by_id() {
    let folders = tree();
    assert_eq!(selected_folder(&folders, Some(5)).map(|f| f.id), Some(5));
    assert!(selected_folder(&folders, Some(42)).is_none());
    assert!(selected_folder(&folders, None).is_none());
    assert_eq!(selected_folder_name(&folders, Some(3)), Some("alpha".to_string()));
    assert_eq!(parent_directory_folder_id(&folders, Some(5)), Some(3));
    assert_eq!(parent_directory_folder_id(&folders, Some(1)), None);
    assert!(folder_has_children(&folders, 3));
    assert!(!folder_has_children(&folders, 5));
}

#[test]
fn breadcrumbs_walk_from_the_root_down() {
    let folders = tree();
    let crumbs = folder_breadcrumbs(&folders, Some(5), false);
    assert_eq!(
        crumbs,
        vec![
            ("Library".to_string(), None),
            ("Papers".to_string(), Some(1)),
            ("alpha".to_string(), Some(3)),
            ("Deep".to_string(), Some(5)),
        ]
    );
    assert_eq!(folder_breadcrumbs(&folders, None, true), vec![("Trash Can".to_string(), None)]);
    let cycle = vec![folder(1, "A", Some(2), 0), folder(2, "B", Some(1), 0)];
    assert_eq!(
        folder_breadcrumbs(&cycle, Some(1), false),
        vec![("Library".to_string(), None), ("B".to_string(), Some(2)), ("A".to_string(), Some(1))]
    );
}

#[test]
fn sibling_order_and_manual_moves() {
    let folders = tree();
    let (parent, order, index) = selected_folder_sibling_order(&folders, Some(3)).unwrap();
    assert_eq!(parent, Some(1));
    assert_eq!(order, vec![4, 3, 2]);
    assert_eq!(index, 1);
    assert_eq!(selected_folder_manual_reorder(&folders, Some(3), -1), Some((Some(1), vec![3, 4, 2])));
    assert_eq!(selected_folder_manual_reorder(&folders, Some(3), 1), Some((Some(1), vec![4, 2, 3])));
    assert_eq!(selected_folder_manual_reorder(&folders, Some(4), -1), None);
    assert_eq!(selected_folder_manual_reorder(&folders, Some(2), 1), None);
    assert!(selected_folder_sibling_order(&folders, Some(77)).is_none());
}

#[test]
fn dragging_a_folder_before_a_sibling() {
    assert_eq!(reorder_folder_ids_before_target(&vec![4, 3, 2], 2, 4), Some(vec![2, 4, 3]));
    assert_eq!(reorder_folder_ids_before_target(&vec![4, 3, 2], 4, 2), Some(vec![3, 4, 2]));
    assert_eq!(reorder_folder_ids_before_target(&vec![4, 3, 2], 4, 4), None);
    assert_eq!(reorder_folder_ids_before_target(&vec![4, 3, 2], 9, 4), None);
    let folders = tree();
    assert_eq!(folder_drag_manual_reorder(&folders, 2, 4), Some((Some(1), vec![2, 4, 3])));
    // Placing a folder before the sibling that already follows it changes nothing.
    assert_eq!(folder_drag_manual_reorder(&folders, 4, 3), None);
    // Folders under different parents cannot be reordered against each other.
    assert_eq!(folder_drag_manual_reorder(&folders, 5, 2), None);
}

#[test]
fn smart_counts_cover_the_subtree() {
    let folders = tree();
    let entries = vec![
        entry(10, vec![5], false, Some(10), 3),
        entry(11, vec![2], true, Some(10), 9),
        entry(12, vec![6], false, None, 0),
        entry(13, vec![], false, Some(0), 0),
    ];
    assert_eq!(
        folder_smart_counts_for(&entries, &folders, Some(1)),
        FolderSmartCounts { total: 2, in_progress: 1, missing: 1 }
    );
    assert_eq!(
        folder_smart_counts_for(&entries, &folders, None),
        FolderSmartCounts { total: 4, in_progress: 1, missing: 1 }
    );
    assert_eq!(
        folder_smart_counts_for(&entries, &folders, Some(6)),
        FolderSmartCounts { total: 1, in_progress: 0, missing: 0 }
    );
}

#[test]
fn move_picker_opens_the_folders_not_collapsed() {
    let folders = tree();
    let mut expanded = move_picker_expanded_folders(&folders, &vec![1, 3]);
    expanded.sort();
    assert_eq!(expanded, vec![2, 4, 5, 6]);
}
