use pdf_folio_ui::registry::{
    clean_library_name, create_library_profile, default_profile, default_registry, delete_library_profile,
    prepare_loaded_registry, registry_path, rename_library_profile, sort_profiles, thumbnail_height_from_rgba_len,
    unique_library_id, CardClick, LibraryNameDialog, LibraryProfile, LibraryRegistryRuntime, NameDialogRequest, RegistryError,
    StoredLibraryRegistry,
};

fn profile(id: &str, name: &str) -> LibraryProfile {
    LibraryProfile { id: id.to_string(), name: name.to_string(), db_path: format!("/data/{id}.db") }
}

fn registry(profiles: Vec<LibraryProfile>, active: &str) -> LibraryRegistryRuntime {
    let rename_inputs = profiles.iter().map(|p| (p.id.clone(), p.name.clone())).collect();
    LibraryRegistryRuntime {
        profiles,
        active_library_id: active.to_string(),
        new_library_name: "draft".to_string(),
        rename_inputs,
        open_menu_library_id: Some("x".to_string()),
        name_dialog: None,
    }
}

fn ids(profiles: &[LibraryProfile]) -> Vec<String> {
    profiles.iter().map(|p| p.id.clone()).collect()
}

#[test]
fn library_names_are_cleaned() {
    assert_eq!(clean_library_name("  Research\u{0007} Papers  "), Ok("Research Papers".to_string()));
    assert_eq!(clean_library_name(" \t\n "), Err(RegistryError::EmptyName));
    assert_eq!(clean_library_name("\u{0001}"), Err(RegistryError::EmptyName));
    let long = "x".repeat(100);
    assert_eq!(clean_library_name(&long).unwrap().chars().count(), 80);
    assert_eq!(RegistryError::EmptyName.message(), "Library name cannot be empty.");
    assert_eq!(RegistryError::NotFound.message(), "Library was not found.");
    assert_eq!(RegistryError::LastLibrary.message(), "At least one library must remain.");
}

#[test]
fn unique_ids_skip_taken_ones() {
    let profiles = vec![profile("library-42", "A"), profile("library-42-1", "B")];
    assert_eq!(unique_library_id(&profiles, 42), "library-42-2");
    assert_eq!(unique_library_id(&profiles, 7), "library-7");
    assert_eq!(unique_library_id(&vec![], 1700000000000), "library-1700000000000");
}

#[test]
fn default_registry_and_paths() {
    let stored = default_registry("/data");
    assert_eq!(stored.active_library_id, "default");
    assert_eq!(stored.libraries.len(), 1);
    assert_eq!(stored.libraries[0].name, "Default Library");
    assert_eq!(stored.libraries[0].db_path, "/data/library.db");
    assert_eq!(default_profile("/data/").db_path, "/data/library.db");
    assert_eq!(registry_path("/data"), "/data/libraries.json");
}

#[test]
fn stored_registry_resolves_the_active_library() {
    let stored = || StoredLibraryRegistry {
        active_library_id: "b".to_string(),
        libraries: vec![profile("a", "Alpha"), profile("b", "Beta")],
    };
    assert_eq!(LibraryRegistryRuntime::from_stored(stored(), Some("a")).active_library_id, "a");
    assert_eq!(LibraryRegistryRuntime::from_stored(stored(), Some("zzz")).active_library_id, "b");
    assert_eq!(LibraryRegistryRuntime::from_stored(stored(), None).active_library_id, "b");
    let mut other = stored();
    other.active_library_id = "gone".to_string();
    assert_eq!(LibraryRegistryRuntime::from_stored(other, None).active_library_id, "a");
    let empty = StoredLibraryRegistry { active_library_id: "gone".to_string(), libraries: vec![] };
    assert_eq!(LibraryRegistryRuntime::from_stored(empty, None).active_library_id, "default");
    let r = LibraryRegistryRuntime::from_stored(stored(), None);
    assert_eq!(r.rename_inputs, vec![("a".to_string(), "Alpha".to_string()), ("b".to_string(), "Beta".to_string())]);
    assert_eq!(r.active_profile().map(|p| p.name.clone()), Some("Beta".to_string()));
}

#[test]
fn loaded_registry_sorts_default_first_then_by_name() {
    let stored = StoredLibraryRegistry {
        active_library_id: "m".to_string(),
        libraries: vec![profile("m", "math"), profile("c", "Comics"), profile("default", "Default Library"), profile("z", "art")],
    };
    let r = prepare_loaded_registry(stored, None, "/data");
    assert_eq!(ids(&r.profiles), vec!["default", "z", "c", "m"]);
    assert_eq!(r.active_library_id, "m");
    assert_eq!(r.rename_inputs[1], ("z".to_string(), "art".to_string()));
    let empty = StoredLibraryRegistry { active_library_id: "x".to_string(), libraries: vec![] };
    let fresh = prepare_loaded_registry(empty, None, "/data");
    assert_eq!(ids(&fresh.profiles), vec!["default"]);
    assert_eq!(fresh.profiles[0].db_path, "/data/library.db");
    assert_eq!(fresh.active_library_id, "default");
    assert_eq!(ids(&sort_profiles(&vec![profile("b", "b"), profile("a", "B")])), vec!["b", "a"]);
}

#[test]
fn creating_a_library_makes_it_active() {
    let r = registry(vec![profile("default", "Default Library")], "default");
    let created = create_library_profile(r, "  Work  ", 99, "/data").unwrap();
    assert_eq!(created.active_library_id, "library-99");
    assert_eq!(created.profiles.len(), 2);
    assert_eq!(created.profiles[1].name, "Work");
    assert_eq!(created.profiles[1].db_path, "/data/libraries/library-99/library.db");
    assert_eq!(created.new_library_name, "");
    assert_eq!(created.open_menu_library_id, None);
    assert_eq!(created.rename_inputs.last(), Some(&("library-99".to_string(), "Work".to_string())));
    let r2 = registry(vec![profile("default", "Default Library")], "default");
    assert_eq!(create_library_profile(r2, "   ", 99, "/data").err(), Some(RegistryError::EmptyName));
}

#[test]
fn renaming_and_deleting_libraries() {
    let r = registry(vec![profile("a", "Alpha"), profile("b", "Beta")], "b");
    let renamed = rename_library_profile(r, "a", "First").unwrap();
    assert_eq!(renamed.profiles[0].name, "First");
    assert_eq!(renamed.rename_inputs[0], ("a".to_string(), "First".to_string()));
    assert_eq!(renamed.active_library_id, "b");
    assert_eq!(rename_library_profile(renamed, "nope", "X").err(), Some(RegistryError::NotFound));

    let r = registry(vec![profile("a", "Alpha"), profile("b", "Beta")], "b");
    let (after, removed) = delete_library_profile(r, "b").unwrap();
    assert_eq!(removed.id, "b");
    assert_eq!(ids(&after.profiles), vec!["a"]);
    assert_eq!(after.active_library_id, "a");
    assert_eq!(after.rename_inputs, vec![("a".to_string(), "Alpha".to_string())]);
    assert_eq!(delete_library_profile(after, "a").err(), Some(RegistryError::LastLibrary));
    let r = registry(vec![profile("a", "Alpha"), profile("b", "Beta")], "b");
    assert_eq!(delete_library_profile(r, "c").err(), Some(RegistryError::NotFound));
}

#[test]
fn selecting_a_library() {
    let mut r = registry(vec![profile("a", "Alpha"), profile("b", "Beta")], "b");
    assert_eq!(r.select_library("a").map(|p| p.db_path), Ok("/data/a.db".to_string()));
    assert_eq!(r.active_library_id, "a");
    assert_eq!(r.select_library("zz").err(), Some(RegistryError::NotFound));
    assert_eq!(r.active_library_id, "a");
}

#[test]
fn thumbnail_heights_from_byte_counts() {
    assert_eq!(thumbnail_height_from_rgba_len(400, 10), Some(10));
    assert_eq!(thumbnail_height_from_rgba_len(439, 10), Some(10));
    assert_eq!(thumbnail_height_from_rgba_len(39, 10), None);
    assert_eq!(thumbnail_height_from_rgba_len(400, 0), None);
    assert_eq!(thumbnail_height_from_rgba_len(4 * 70_000, 1), Some(u16::MAX));
}

#[test]
fn card_menus_toggle() {
    let mut reg = registry(vec![profile("a", "Alpha"), profile("b", "Beta")], "a");
    reg.toggle_card_menu("a".to_string());
    assert_eq!(reg.open_menu_library_id, Some("a".to_string()));
    reg.toggle_card_menu("b".to_string());
    assert_eq!(reg.open_menu_library_id, Some("b".to_string()));
    reg.toggle_card_menu("b".to_string());
    assert_eq!(reg.open_menu_library_id, None);
}

#[test]
fn name_dialog_create_and_rename() {
    let mut reg = registry(vec![profile("a", "Alpha"), profile("b", "Beta")], "a");
    reg.open_create_dialog();
    assert!(matches!(reg.name_dialog, Some(LibraryNameDialog::Create)));
    assert_eq!(reg.new_library_name, "");
    assert_eq!(reg.confirm_name_dialog(), NameDialogRequest::Nothing);
    reg.new_library_name_changed("  New\u{7} one ");
    assert_eq!(reg.new_library_name, "  New one ");
    assert_eq!(reg.confirm_name_dialog(), NameDialogRequest::Create);

    assert!(!reg.open_rename_dialog("zz"));
    assert!(reg.open_rename_dialog("b"));
    assert_eq!(reg.new_library_name, "Beta");
    assert_eq!(reg.open_menu_library_id, None);
    reg.new_library_name_changed(" Gamma ");
    assert_eq!(reg.confirm_name_dialog(), NameDialogRequest::Rename("b".to_string()));
    assert!(reg.rename_inputs.contains(&("b".to_string(), "Gamma".to_string())));

    reg.rename_input_changed("c", "Delta");
    assert!(reg.rename_inputs.contains(&("c".to_string(), "Delta".to_string())));
    reg.cancel_name_dialog();
    assert!(reg.name_dialog.is_none());
    assert_eq!(reg.new_library_name, "");
    assert_eq!(reg.confirm_name_dialog(), NameDialogRequest::Nothing);
}

#[test]
fn switcher_cards() {
    let mut reg = registry(vec![profile("a", "Alpha"), profile("b", "Beta")], "a");
    reg.open_menu_library_id = Some("b".to_string());
    let active = reg.library_card(0, 1);
    assert!(active.active);
    assert_eq!(active.click, CardClick::CloseSwitcher);
    assert_eq!(active.count_label, "1 PDF");
    assert!(!active.menu_open);
    assert!(active.delete_enabled);
    let other = reg.library_card(1, 12);
    assert_eq!(other.click, CardClick::SelectLibrary("b".to_string()));
    assert_eq!(other.count_label, "12 PDFs");
    assert!(other.menu_open);
    let single = registry(vec![profile("a", "Alpha")], "a");
    assert!(!single.library_card(0, 0).delete_enabled);
}
