use pdf_folio_ui::confirmations::ConfirmationState;
use pdf_folio_ui::model::ConfirmationAction;
use pdf_folio_ui::tags::{
    inspector_tag_input, submit_tag_rename, tag_deleted, tag_to_add, tags_from_list, TagRenameOutcome,
};

#[test]
fn blank_tags_are_not_added() {
    assert_eq!(tag_to_add("  "), None);
    assert_eq!(tag_to_add(" math "), Some(String::from("math")));
}

#[test]
fn tag_rename_outcomes() {
    let existing = vec![String::from("math"), String::from("physics")];
    let mut renaming = None;
    let mut input = String::from("algebra");
    let mut filter = None;
    assert_eq!(submit_tag_rename(&mut renaming, &mut input, &mut filter, &existing), TagRenameOutcome::Unchanged);
    assert_eq!(input, "algebra");

    let mut renaming = Some(String::from("math"));
    let mut input = String::from(" math ");
    assert_eq!(submit_tag_rename(&mut renaming, &mut input, &mut filter, &existing), TagRenameOutcome::Unchanged);
    assert_eq!(renaming, None);
    assert_eq!(input, "");

    let mut renaming = Some(String::from("math"));
    let mut input = String::from("physics");
    assert_eq!(
        submit_tag_rename(&mut renaming, &mut input, &mut filter, &existing),
        TagRenameOutcome::AlreadyExists { error: String::from("The tag \"physics\" already exists.") }
    );

    let mut renaming = Some(String::from("math"));
    let mut input = String::from(" algebra");
    let mut filter = Some(String::from("math"));
    assert_eq!(
        submit_tag_rename(&mut renaming, &mut input, &mut filter, &existing),
        TagRenameOutcome::Rename {
            old_tag: String::from("math"),
            new_tag: String::from("algebra"),
            status: String::from("Renaming tag \"math\"..."),
        }
    );
    assert_eq!(filter, Some(String::from("algebra")));
}

#[test]
fn deleting_a_tag_clears_its_filter_and_rename() {
    let mut filter = Some(String::from("math"));
    let mut renaming = Some(String::from("math"));
    let mut input = String::from("maths");
    let status = tag_deleted("math", &mut filter, &mut renaming, &mut input);
    assert_eq!(status, "Deleting tag \"math\"...");
    assert_eq!(filter, None);
    assert_eq!(renaming, None);
    assert_eq!(input, "");

    let mut filter = Some(String::from("physics"));
    let mut renaming = None;
    let mut input = String::new();
    tag_deleted("math", &mut filter, &mut renaming, &mut input);
    assert_eq!(filter, Some(String::from("physics")));
}

#[test]
fn confirming_runs_the_waiting_action() {
    let mut state = ConfirmationState::new();
    assert_eq!(state.request(ConfirmationAction::BulkDeleteFromLibrary), None);
    assert_eq!(state.confirm(), Some(ConfirmationAction::BulkDeleteFromLibrary));
    assert_eq!(state.confirm(), None);
    assert_eq!(state.request(ConfirmationAction::DeleteTag(String::from("math"))), None);
    state.cancel();
    assert_eq!(state.pending, None);
}

#[test]
fn folder_deletion_warning_can_be_suppressed() {
    let mut state = ConfirmationState::new();
    assert_eq!(state.request(ConfirmationAction::DeleteFolder(3)), None);
    state.set_skip_warning(true);
    assert_eq!(state.confirm(), Some(ConfirmationAction::DeleteFolder(3)));
    assert!(state.folder_delete_warning_suppressed);
    assert_eq!(state.request(ConfirmationAction::DeleteFolder(4)), Some(ConfirmationAction::DeleteFolder(4)));
    assert_eq!(state.pending, None);
    assert_eq!(state.request(ConfirmationAction::BulkDeleteFromLibrary), None);
}

#[test]
fn unticked_box_keeps_asking() {
    let mut state = ConfirmationState::new();
    state.request(ConfirmationAction::DeleteFolder(3));
    assert_eq!(state.confirm(), Some(ConfirmationAction::DeleteFolder(3)));
    assert!(!state.folder_delete_warning_suppressed);
    assert_eq!(state.request(ConfirmationAction::DeleteFolder(3)), None);
}

#[test]
fn comma_separated_tags_are_trimmed_and_blank_ones_dropped() {
    assert_eq!(tags_from_list(" math, physics ,,  "), vec![String::from("math"), String::from("physics")]);
    assert_eq!(tags_from_list(""), Vec::<String>::new());
    assert_eq!(tags_from_list("solo"), vec![String::from("solo")]);
    assert_eq!(tags_from_list("a b,c"), vec![String::from("a b"), String::from("c")]);
}

#[test]
fn inspector_tag_field_opens_suggestions_when_not_blank() {
    assert_eq!(inspector_tag_input("ma\u{7}th"), (String::from("math"), true));
    assert_eq!(inspector_tag_input("   "), (String::from("   "), false));
    let long = "y".repeat(130);
    assert_eq!(inspector_tag_input(&long).0.chars().count(), 120);
}
