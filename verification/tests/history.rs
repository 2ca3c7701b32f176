use pdf_folio_ui::history::{LibraryHistory, LibraryHistoryAction, LibraryOrganizationSnapshot};

fn action(label: &str, before: Vec<u64>, after: Vec<u64>) -> LibraryHistoryAction {
    LibraryHistoryAction {
        label: label.to_string(),
        before: LibraryOrganizationSnapshot { encoded: before },
        after: LibraryOrganizationSnapshot { encoded: after },
        refresh_search_on_restore: false,
    }
}

#[test]
fn new_history_has_nothing_to_undo_or_redo() {
    let history = LibraryHistory::default();
    assert!(!history.can_undo());
    assert!(!history.can_redo());
    assert!(history.undo_target().is_none());
    assert!(history.redo_target().is_none());
}

#[test]
fn undo_reverts_the_last_edit_and_redo_replays_it() {
    let mut history = LibraryHistory::default();
    history.push(action("Move PDFs", vec![1, 2], vec![2, 1]));
    assert!(history.can_undo());
    assert!(!history.can_redo());
    let (target, undone) = history.undo_target().unwrap();
    assert_eq!(target, 0);
    assert_eq!(undone.label, "Move PDFs");
    assert_eq!(undone.before.encoded, vec![1, 2]);
    history.set_current(target);
    assert!(history.can_redo());
    let (redo_node, redone) = history.redo_target().unwrap();
    assert_eq!(redo_node, 1);
    assert_eq!(redone.after.encoded, vec![2, 1]);
}

#[test]
fn an_edit_that_changes_nothing_is_not_recorded() {
    let mut history = LibraryHistory::default();
    history.push(action("Nothing", vec![5], vec![5]));
    assert_eq!(history.nodes.len(), 1);
    assert!(!history.can_undo());
}

#[test]
fn editing_after_undo_opens_a_branch_and_redo_follows_the_newest() {
    let mut history = LibraryHistory::default();
    history.push(action("First", vec![0], vec![1]));
    history.set_current(0);
    history.push(action("Second", vec![0], vec![2]));
    assert_eq!(history.nodes.len(), 3);
    assert_eq!(history.nodes[0].children, vec![1, 2]);
    history.set_current(0);
    let (node, redone) = history.redo_target().unwrap();
    assert_eq!(node, 2);
    assert_eq!(redone.label, "Second");
    // An index past the end is ignored.
    history.set_current(99);
    assert_eq!(history.current, 0);
}
