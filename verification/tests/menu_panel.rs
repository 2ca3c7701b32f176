use pdf_folio_ui::labels::{AppLabelTokens, AppMenu, LabelOverride, LabelSection, SelectionMenu, ViewMenuFlyout};
use pdf_folio_ui::selection_row::{selection_row, SelectionControl};
use pdf_folio_ui::menu::AppMenuAction;
use pdf_folio_ui::menu_panel::{app_menu_entries, AppMenuEntry, MenuBarFacts};
use pdf_folio_ui::model::LibrarySortMode;
use pdf_folio_ui::state::{AppMode, AppTheme};

fn facts(mode: AppMode) -> MenuBarFacts {
    MenuBarFacts {
        mode,
        selection_count: 0,
        has_active_folder: false,
        compact_view_mode: false,
        theme: AppTheme::Light,
        toc_open: false,
        open_flyout: None,
        sort_mode: LibrarySortMode::TitleAsc,
    }
}

fn item(entry: &AppMenuEntry) -> (String, &'static str, bool, AppMenuAction) {
    match entry {
        AppMenuEntry::Item { label, shortcut, enabled, action } => (label.clone(), *shortcut, *enabled, *action),
        other => panic!("not an item: {other:?}"),
    }
}

#[test]
fn file_menu_in_the_library() {
    let labels = AppLabelTokens { overrides: vec![] };
    let entries = app_menu_entries(AppMenu::File, &labels, facts(AppMode::Library), "");
    assert_eq!(entries.len(), 5);
    assert_eq!(item(&entries[0]), (String::from("Open PDF..."), "Ctrl+O", true, AppMenuAction::OpenFile));
    assert!(matches!(entries[2], AppMenuEntry::Separator));
    assert_eq!(item(&entries[4]), (String::from("Back to Library"), "Esc", false, AppMenuAction::BackToLibrary));
}

#[test]
fn overrides_relabel_menu_items() {
    let labels = AppLabelTokens {
        overrides: vec![LabelOverride {
            section: LabelSection::AppMenuAction,
            key: String::from("OpenFile"),
            value: String::from("Open…"),
        }],
    };
    let entries = app_menu_entries(AppMenu::File, &labels, facts(AppMode::Viewer), "");
    assert_eq!(item(&entries[0]).0, "Open…");
    assert!(item(&entries[4]).2);
}

#[test]
fn edit_menu_needs_a_selection_and_a_typed_tag() {
    let labels = AppLabelTokens { overrides: vec![] };
    let mut f = facts(AppMode::Library);
    f.selection_count = 1;
    let entries = app_menu_entries(AppMenu::Edit, &labels, f, "   ");
    assert!(item(&entries[3]).2);
    assert!(!item(&entries[6]).2);
    let entries = app_menu_entries(AppMenu::Edit, &labels, f, " math ");
    assert!(item(&entries[6]).2);
    f.selection_count = 2;
    let entries = app_menu_entries(AppMenu::Edit, &labels, f, "math");
    assert!(!item(&entries[3]).2);
    assert!(item(&entries[8]).2);
}

#[test]
fn view_menu_follows_layout_theme_and_flyout() {
    let labels = AppLabelTokens { overrides: vec![] };
    let mut f = facts(AppMode::Viewer);
    f.compact_view_mode = true;
    f.theme = AppTheme::Dark;
    f.toc_open = true;
    f.open_flyout = Some(ViewMenuFlyout::Spreads);
    let entries = app_menu_entries(AppMenu::View, &labels, f, "");
    assert_eq!(entries.len(), 12);
    assert_eq!(item(&entries[0]).0, "Switch to Grid");
    assert_eq!(item(&entries[1]).0, "Switch to Light Theme");
    assert_eq!(item(&entries[4]).0, "Hide Table of Contents");
    match &entries[7] {
        AppMenuEntry::Submenu { label, flyout, enabled, open } => {
            assert_eq!(label, "Spreads");
            assert_eq!(*flyout, ViewMenuFlyout::Spreads);
            assert!(*enabled && *open);
        }
        other => panic!("not a submenu: {other:?}"),
    }
    assert_eq!(item(&entries[11]), (String::from("Reset Zoom"), "Ctrl+0", true, AppMenuAction::ResetZoom));
}

#[test]
fn library_menu_lists_sort_orders() {
    let labels = AppLabelTokens { overrides: vec![] };
    let mut f = facts(AppMode::Library);
    f.selection_count = 3;
    f.has_active_folder = true;
    let entries = app_menu_entries(AppMenu::Library, &labels, f, "");
    assert_eq!(entries.len(), 17);
    assert!(item(&entries[4]).2);
    match &entries[8] {
        AppMenuEntry::SortOption { mode, detail, enabled } => {
            assert_eq!(*mode, LibrarySortMode::TitleAsc);
            assert_eq!(detail, "Selected");
            assert!(*enabled);
        }
        other => panic!("not a sort option: {other:?}"),
    }
    match &entries[16] {
        AppMenuEntry::SortOption { mode, detail, .. } => {
            assert_eq!(*mode, LibrarySortMode::MissingFiles);
            assert_eq!(detail, "");
        }
        other => panic!("not a sort option: {other:?}"),
    }
}

#[test]
fn tools_document_and_help_menus() {
    let labels = AppLabelTokens { overrides: vec![] };
    let tools = app_menu_entries(AppMenu::Tools, &labels, facts(AppMode::Library), "");
    assert_eq!(tools.len(), 6);
    assert!(!item(&tools[0]).2);
    let document = app_menu_entries(AppMenu::Document, &labels, facts(AppMode::Viewer), "");
    assert_eq!(document.len(), 7);
    assert_eq!(item(&document[2]).0, "Show Table of Contents");
    let help = app_menu_entries(AppMenu::Help, &labels, facts(AppMode::Library), "");
    match &help[0] {
        AppMenuEntry::Static { label, detail } => {
            assert_eq!(label, "PDF-Folio");
            assert_eq!(detail, "Local PDF library and reader");
        }
        other => panic!("not a static line: {other:?}"),
    }
}

#[test]
fn selection_row_for_one_entry_and_for_many() {
    let one = selection_row(1, false, None, false, Some(SelectionMenu::More));
    assert_eq!(one.label, "1 selected");
    assert_eq!(
        one.controls,
        vec![
            SelectionControl::Clear,
            SelectionControl::TitleField,
            SelectionControl::AuthorField,
            SelectionControl::SaveDetails,
            SelectionControl::MenuButton { menu: SelectionMenu::More, open: true },
            SelectionControl::TrashButton,
        ]
    );
    let many = selection_row(3, false, Some(2), true, None);
    assert_eq!(many.label, "3 selected");
    assert_eq!(many.controls.len(), 7);
    assert_eq!(many.controls[2], SelectionControl::MenuButton { menu: SelectionMenu::Tags, open: false });
}

#[test]
fn selection_row_for_a_folder_and_in_the_trash() {
    let folder = selection_row(0, false, Some(2), true, None);
    assert_eq!(folder.label, "1 folder selected");
    assert_eq!(folder.controls[0], SelectionControl::ClearFolderDetails);
    let trash = selection_row(2, true, Some(5), true, None);
    assert_eq!(trash.label, "3 selected");
    assert_eq!(
        trash.controls,
        vec![
            SelectionControl::Clear,
            SelectionControl::RestoreFromTrash,
            SelectionControl::DeleteEntriesForever,
            SelectionControl::DeleteFolderForever(5),
            SelectionControl::AppName,
        ]
    );
    let trashed_folder_only = selection_row(0, true, Some(5), false, None);
    assert_eq!(trashed_folder_only.label, "0 selected");
    assert_eq!(trashed_folder_only.controls.len(), 4);
}
