use pdf_folio_ui::folder_edits::{create_folder_request, folder_name_input, move_up_request, rename_folder_request};
use pdf_folio_ui::model::Folder;

fn folder(id: u64, parent: Option<u64>) -> Folder {
    Folder { id, name: format!("f{id}"), parent_id: parent, manual_order: 0 }
}

#[test]
fn folder_name_field_drops_controls_and_keeps_eighty() {
    assert_eq!(folder_name_input("Re\tports\u{7}"), "Reports");
    let long = "x".repeat(100);
    assert_eq!(folder_name_input(&long).chars().count(), 80);
}

#[test]
fn blank_folder_names_create_nothing() {
    assert_eq!(create_folder_request("   ", Some(3)), None);
    assert_eq!(create_folder_request("  Notes ", Some(3)), Some((String::from("Notes"), Some(3))));
    assert_eq!(create_folder_request("Notes", None), Some((String::from("Notes"), None)));
}

#[test]
fn renaming_needs_a_folder_and_a_name() {
    assert_eq!(rename_folder_request(None, "New"), None);
    assert_eq!(rename_folder_request(Some(2), " \n"), None);
    assert_eq!(rename_folder_request(Some(2), " New "), Some((2, String::from("New"))));
}

#[test]
fn moving_up_goes_to_the_grandparent() {
    let folders = vec![folder(1, None), folder(2, Some(1)), folder(3, Some(2)), folder(4, Some(9))];
    assert_eq!(move_up_request(&folders, Some(3)), Some((3, Some(1))));
    assert_eq!(move_up_request(&folders, Some(2)), Some((2, None)));
    assert_eq!(move_up_request(&folders, Some(1)), None);
    assert_eq!(move_up_request(&folders, Some(4)), Some((4, None)));
    assert_eq!(move_up_request(&folders, Some(7)), None);
    assert_eq!(move_up_request(&folders, None), None);
}
