use pdf_folio_ui::labels::{
    app_menu_action_label, app_menu_key, app_menu_label, label_text, library_sidebar_tab_key, library_sidebar_tab_label,
    selection_toolbar_action_key, selection_toolbar_action_label, AppLabelTokens, AppMenu, ExportConflictBehavior,
    ExportFilenameTemplate, ExportMode, LabelOverride, LabelSection, LibrarySidebarTab, SelectionToolbarAction,
    ViewerSidebarTab,
};
use pdf_folio_ui::text::{
    decimal_string, eq_ignore_ascii_case, format_count, remove_controls, str_eq, take_chars, trim,
    truncate_to_chars,
};

#[test]
fn export_option_labels() {
    assert_eq!(ExportMode::CopyFlat.label(), "Copy PDFs to folder");
    assert_eq!(ExportMode::PreserveFolders.label(), "Preserve folder structure");
    assert_eq!(ExportMode::Zip.label(), "Export as ZIP");
    assert_eq!(ExportFilenameTemplate::OriginalFilename.label(), "Original filename");
    assert_eq!(ExportFilenameTemplate::Title.label(), "{title}.pdf");
    assert_eq!(ExportFilenameTemplate::AuthorTitle.label(), "{author} - {title}.pdf");
    assert_eq!(ExportFilenameTemplate::YearAuthorTitle.label(), "{year} - {author} - {title}.pdf");
    assert_eq!(ExportConflictBehavior::Skip.label(), "Skip existing");
    assert_eq!(ExportConflictBehavior::Overwrite.label(), "Overwrite");
    assert_eq!(ExportConflictBehavior::KeepBoth.label(), "Keep both");
}

#[test]
fn menu_and_tab_labels() {
    assert_eq!(AppMenu::File.label(), "File");
    assert_eq!(AppMenu::Document.label(), "Document");
    assert_eq!(AppMenu::Help.label(), "Help");
    assert_eq!(app_menu_key(AppMenu::Tools), "Tools");
    assert_eq!(LibrarySidebarTab::Files.label(), "Files");
    assert_eq!(library_sidebar_tab_key(LibrarySidebarTab::Tags), "Tags");
    assert_eq!(ViewerSidebarTab::Contents.label(), "Contents");
    assert_eq!(ViewerSidebarTab::Thumbnails.label(), "Thumbnails");
    assert_eq!(SelectionToolbarAction::DeleteMetadata.label(), "Move to Trash");
    assert_eq!(SelectionToolbarAction::AddToFolder.label(), "Add to folder");
    assert_eq!(SelectionToolbarAction::Reindex.to_display_string(), "Reindex");
    assert_eq!(selection_toolbar_action_key(SelectionToolbarAction::DeleteMetadata), "DeleteMetadata");
    assert_eq!(selection_toolbar_action_key(SelectionToolbarAction::RebuildThumbnails), "RebuildThumbnails");
}

fn overrides() -> AppLabelTokens {
    AppLabelTokens {
        overrides: vec![
            LabelOverride { section: LabelSection::AppMenu, key: "File".to_string(), value: "Datei".to_string() },
            LabelOverride { section: LabelSection::AppMenu, key: "File".to_string(), value: "Second".to_string() },
            LabelOverride {
                section: LabelSection::SelectionToolbarAction,
                key: "AddTag".to_string(),
                value: "Tag it".to_string(),
            },
            LabelOverride { section: LabelSection::Text, key: "greeting".to_string(), value: "Hello".to_string() },
        ],
    }
}

#[test]
fn label_overrides_take_the_first_match_and_fall_back() {
    let labels = overrides();
    assert_eq!(app_menu_label(&labels, AppMenu::File), "Datei");
    assert_eq!(app_menu_label(&labels, AppMenu::Edit), "Edit");
    assert_eq!(selection_toolbar_action_label(&labels, SelectionToolbarAction::AddTag), "Tag it");
    assert_eq!(selection_toolbar_action_label(&labels, SelectionToolbarAction::RemoveTag), "Remove tag");
    assert_eq!(library_sidebar_tab_label(&labels, LibrarySidebarTab::Files), "Files");
    assert_eq!(label_text(&labels, "greeting", "Hi"), "Hello");
    assert_eq!(label_text(&labels, "farewell", "Bye"), "Bye");
    // An override in another section does not apply.
    assert_eq!(app_menu_action_label(&labels, "greeting", "Fallback"), "Fallback");
}

#[test]
fn trim_removes_unicode_white_space_only_at_the_ends() {
    assert_eq!(trim("  hello world \t\n"), "hello world");
    assert_eq!(trim("\u{3000}x\u{00A0}"), "x");
    assert_eq!(trim("   "), "");
    assert_eq!(trim(""), "");
    assert_eq!(trim("a"), "a");
}

#[test]
fn truncation_keeps_short_labels_and_marks_cuts() {
    assert_eq!(truncate_to_chars("Short", 10), "Short");
    assert_eq!(truncate_to_chars("A long title here", 8), "A lon...");
    assert_eq!(truncate_to_chars("Anything", 2), "..");
    assert_eq!(truncate_to_chars("Anything", 0), "");
    assert_eq!(truncate_to_chars("Grüße aus Köln", 7), "Grüß...");
}

#[test]
fn counts_and_decimals() {
    assert_eq!(decimal_string(0), "0");
    assert_eq!(decimal_string(1_234_567), "1234567");
    assert_eq!(decimal_string(u64::MAX), "18446744073709551615");
    assert_eq!(format_count(1, "PDF"), "1 PDF");
    assert_eq!(format_count(0, "PDF"), "0 PDFs");
    assert_eq!(format_count(12, "PDF"), "12 PDFs");
}

#[test]
fn character_helpers() {
    assert!(str_eq("abc", "abc"));
    assert!(!str_eq("abc", "abd"));
    assert!(eq_ignore_ascii_case("KdL", "kdl"));
    assert!(!eq_ignore_ascii_case("kd", "kdl"));
    assert_eq!(remove_controls("a\u{0007}b\u{009F}c\n"), "abc");
    assert_eq!(take_chars("abcdef", 3), "abc");
    assert_eq!(take_chars("ab", 3), "ab");
}
