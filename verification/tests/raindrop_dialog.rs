use pdf_folio_ui::raindrop::RaindropImportDestination;
use pdf_folio_ui::raindrop_dialog::{RaindropImportDialog, RaindropImportRequest};

fn dialog() -> RaindropImportDialog {
    RaindropImportDialog {
        preview_pdf_ids: None,
        selected_pdf_ids: vec![],
        destination: RaindropImportDestination::LibraryRoot,
        location_menu_open: true,
        new_folder_active: false,
        new_folder_name: String::new(),
        expanded_location_folders: vec![],
    }
}

#[test]
fn a_loaded_preview_ticks_everything() {
    let mut d = dialog();
    d.preview_loaded(vec![7, 8, 9]);
    assert_eq!(d.selected_pdf_ids, vec![7, 8, 9]);
    assert!(!d.location_menu_open);
    d.pdf_toggled(8, false);
    assert_eq!(d.selected_pdf_ids, vec![7, 9]);
    d.pdf_toggled(8, true);
    d.pdf_toggled(8, true);
    assert_eq!(d.selected_pdf_ids.iter().filter(|id| **id == 8).count(), 1);
    d.clear_all();
    assert!(d.selected_pdf_ids.is_empty());
    d.select_all();
    assert_eq!(d.selected_pdf_ids, vec![7, 8, 9]);
}

#[test]
fn import_requests() {
    let mut d = dialog();
    assert_eq!(d.import_request(), RaindropImportRequest::Nothing);
    d.selected_pdf_ids = vec![8];
    assert_eq!(
        d.import_request(),
        RaindropImportRequest::Refused {
            error: String::from("Raindrop import metadata is still loading. Try again once the list appears.")
        }
    );
    d.preview_pdf_ids = Some(vec![1, 2]);
    assert_eq!(d.import_request(), RaindropImportRequest::Nothing);
    d.preview_loaded(vec![7, 8, 9]);
    d.pdf_toggled(7, false);
    d.start_new_folder();
    assert_eq!(
        d.import_request(),
        RaindropImportRequest::Refused { error: String::from("Enter a new folder name before importing to a new folder.") }
    );
    d.new_folder_name = String::from("  Reading list ");
    assert_eq!(
        d.import_request(),
        RaindropImportRequest::Start {
            pdf_ids: vec![8, 9],
            preserve_structure: false,
            root_folder: None,
            new_folder_name: Some(String::from("Reading list")),
            status: String::from("Importing 2 Raindrop PDFs..."),
        }
    );
}

#[test]
fn destination_controls() {
    let mut d = dialog();
    d.root_changed(Some(4));
    assert_eq!(d.destination, RaindropImportDestination::LocalFolder(4));
    assert!(!d.location_menu_open);
    d.preserve_structure_toggled(true);
    assert_eq!(d.destination, RaindropImportDestination::PreserveRaindropFoldersUnder(Some(4)));
    d.start_new_folder();
    assert_eq!(d.destination, RaindropImportDestination::PreserveRaindropFolders);
    assert!(d.new_folder_active);
    d.root_changed(None);
    assert!(!d.new_folder_active);
    d.toggle_location_menu();
    assert!(d.location_menu_open);
    d.toggle_location_folder(3);
    assert_eq!(d.expanded_location_folders, vec![3]);
    d.toggle_location_folder(3);
    assert!(d.expanded_location_folders.is_empty());
}
