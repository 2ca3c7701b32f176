//! The entries of each application menu: their labels (after the style
//! book's overrides), shortcut hints, when they are enabled, and the
//! action each launches.

use vstd::prelude::*;

use crate::labels::{app_menu_action_label, label_lookup, label_text, AppLabelTokens, AppMenu, LabelSection, ViewMenuFlyout};
use crate::menu::AppMenuAction;
use crate::model::LibrarySortMode;
use crate::state::{AppMode, AppTheme};
use crate::text::{trim, trim_spec};

verus! {

/// One entry of a menu.
#[derive(Debug)]
pub enum AppMenuEntry {
    /// An item that launches an action.
    Item { label: String, shortcut: &'static str, enabled: bool, action: AppMenuAction },
    Separator,
    /// An item that opens a flyout; its current value is shown beside it.
    Submenu { label: String, flyout: ViewMenuFlyout, enabled: bool, open: bool },
    /// One of the library's sort orders, marked when it is the current one.
    SortOption { mode: LibrarySortMode, detail: String, enabled: bool },
    /// A line of information.
    Static { label: String, detail: String },
}

/// The plain content of a menu entry.
pub enum MenuEntryView {
    Item { label: Seq<char>, shortcut: Seq<char>, enabled: bool, action: AppMenuAction },
    Separator,
    Submenu { label: Seq<char>, flyout: ViewMenuFlyout, enabled: bool, open: bool },
    SortOption { mode: LibrarySortMode, detail: Seq<char>, enabled: bool },
    Static { label: Seq<char>, detail: Seq<char> },
}

/// The plain content of `entry`.
pub open spec fn entry_view(entry: AppMenuEntry) -> MenuEntryView {
    match entry {
        AppMenuEntry::Item { label, shortcut, enabled, action } => MenuEntryView::Item {
            label: label@,
            shortcut: shortcut@,
            enabled,
            action,
        },
        AppMenuEntry::Separator => MenuEntryView::Separator,
        AppMenuEntry::Submenu { label, flyout, enabled, open } => MenuEntryView::Submenu {
            label: label@,
            flyout,
            enabled,
            open,
        },
        AppMenuEntry::SortOption { mode, detail, enabled } => MenuEntryView::SortOption { mode, detail: detail@, enabled },
        AppMenuEntry::Static { label, detail } => MenuEntryView::Static { label: label@, detail: detail@ },
    }
}

/// What the menus read of the shell's state.
#[derive(Debug, Clone, Copy)]
pub struct MenuBarFacts {
    pub mode: AppMode,
    pub selection_count: usize,
    /// A folder is open in the library.
    pub has_active_folder: bool,
    pub compact_view_mode: bool,
    pub theme: AppTheme,
    pub toc_open: bool,
    pub open_flyout: Option<ViewMenuFlyout>,
    pub sort_mode: LibrarySortMode,
}

/// An action item labelled by the override for `key`, or `fallback`.
pub open spec fn act(
    labels: AppLabelTokens,
    key: Seq<char>,
    fallback: Seq<char>,
    shortcut: Seq<char>,
    enabled: bool,
    action: AppMenuAction,
) -> MenuEntryView {
    MenuEntryView::Item {
        label: label_lookup(labels.overrides@, LabelSection::AppMenuAction, key, fallback),
        shortcut,
        enabled,
        action,
    }
}

/// The item that shows or hides the table of contents.
pub open spec fn toc_item(labels: AppLabelTokens, f: MenuBarFacts) -> MenuEntryView {
    if f.toc_open {
        act(labels, "ToggleTocHide"@, "Hide Table of Contents"@, ""@, f.mode == AppMode::Viewer, AppMenuAction::ToggleToc)
    } else {
        act(labels, "ToggleTocShow"@, "Show Table of Contents"@, ""@, f.mode == AppMode::Viewer, AppMenuAction::ToggleToc)
    }
}

/// The three zoom items, enabled in the viewer.
pub open spec fn zoom_items(labels: AppLabelTokens, f: MenuBarFacts) -> Seq<MenuEntryView> {
    let viewer = f.mode == AppMode::Viewer;
    seq![
        act(labels, "ZoomIn"@, "Zoom In"@, "Ctrl++"@, viewer, AppMenuAction::ZoomIn),
        act(labels, "ZoomOut"@, "Zoom Out"@, "Ctrl+-"@, viewer, AppMenuAction::ZoomOut),
        act(labels, "ResetZoom"@, "Reset Zoom"@, "Ctrl+0"@, viewer, AppMenuAction::ResetZoom),
    ]
}

/// The library's sort orders, in menu order.
pub open spec fn sort_options() -> Seq<LibrarySortMode> {
    seq![
        LibrarySortMode::Manual,
        LibrarySortMode::TitleAsc,
        LibrarySortMode::TitleDesc,
        LibrarySortMode::AuthorAsc,
        LibrarySortMode::AuthorDesc,
        LibrarySortMode::RecentlyAdded,
        LibrarySortMode::RecentlyOpened,
        LibrarySortMode::ReadingProgress,
        LibrarySortMode::PageCount,
        LibrarySortMode::MissingFiles,
    ]
}

/// The entry of sort order `mode`: marked "Selected" (or its override) when
/// current, enabled in the library.
pub open spec fn sort_entry(labels: AppLabelTokens, f: MenuBarFacts, mode: LibrarySortMode) -> MenuEntryView {
    MenuEntryView::SortOption {
        mode,
        detail: if f.sort_mode == mode {
            label_lookup(labels.overrides@, LabelSection::Text, "sort_selected"@, "Selected"@)
        } else {
            ""@
        },
        enabled: f.mode == AppMode::Library,
    }
}

/// The entries of `menu`; `bulk_tag` is the bulk tag field.
pub open spec fn menu_entries(menu: AppMenu, labels: AppLabelTokens, f: MenuBarFacts, bulk_tag: Seq<char>) -> Seq<MenuEntryView> {
    let library = f.mode == AppMode::Library;
    let viewer = f.mode == AppMode::Viewer;
    let has_selection = f.selection_count > 0;
    match menu {
        AppMenu::File => seq![
            act(labels, "OpenFile"@, "Open PDF..."@, "Ctrl+O"@, true, AppMenuAction::OpenFile),
            act(labels, "ImportFolder"@, "Import Folder..."@, ""@, library, AppMenuAction::ImportFolder),
            MenuEntryView::Separator,
            act(labels, "RefreshLibrary"@, "Refresh Library"@, "F5"@, library, AppMenuAction::RefreshLibrary),
            act(labels, "BackToLibrary"@, "Back to Library"@, "Esc"@, viewer, AppMenuAction::BackToLibrary),
        ],
        AppMenu::Edit => {
            let single = f.selection_count == 1;
            let has_bulk_tag = has_selection && trim_spec(bulk_tag).len() > 0;
            seq![
                act(labels, "SelectAllVisible"@, "Select All Visible PDFs"@, "Ctrl+A"@, library, AppMenuAction::SelectAllVisible),
                act(labels, "ClearSelection"@, "Clear Selection"@, "Esc"@, has_selection, AppMenuAction::ClearSelection),
                MenuEntryView::Separator,
                act(labels, "SaveDetails"@, "Save Details"@, "Enter"@, single, AppMenuAction::SaveDetails),
                act(labels, "ResetDetails"@, "Reset Details..."@, ""@, single, AppMenuAction::ResetDetails),
                MenuEntryView::Separator,
                act(labels, "AddTag"@, "Add Typed Tag"@, ""@, has_bulk_tag, AppMenuAction::AddTag),
                act(labels, "RemoveTag"@, "Remove Typed Tag"@, ""@, has_bulk_tag, AppMenuAction::RemoveTag),
                act(labels, "DeleteFromLibrary"@, "Delete From Library..."@, "Delete"@, has_selection, AppMenuAction::DeleteFromLibrary),
            ]
        },
        AppMenu::View => seq![
            if f.compact_view_mode {
                act(labels, "ToggleLayoutGrid"@, "Switch to Grid"@, ""@, true, AppMenuAction::ToggleLayout)
            } else {
                act(labels, "ToggleLayoutList"@, "Switch to List"@, ""@, true, AppMenuAction::ToggleLayout)
            },
            match f.theme {
                AppTheme::Light => act(labels, "ToggleThemeDark"@, "Switch to Dark Theme"@, ""@, true, AppMenuAction::ToggleTheme),
                AppTheme::Dark => act(labels, "ToggleThemeLight"@, "Switch to Light Theme"@, ""@, true, AppMenuAction::ToggleTheme),
            },
            act(labels, "ReloadStyles"@, "Reload Styles"@, ""@, true, AppMenuAction::ReloadStyles),
            MenuEntryView::Separator,
            toc_item(labels, f),
            MenuEntryView::Separator,
            MenuEntryView::Submenu {
                label: label_lookup(labels.overrides@, LabelSection::AppMenuAction, "ViewerScrolling"@, "Scrolling"@),
                flyout: ViewMenuFlyout::Scrolling,
                enabled: viewer,
                open: f.open_flyout == Some(ViewMenuFlyout::Scrolling),
            },
            MenuEntryView::Submenu {
                label: label_lookup(labels.overrides@, LabelSection::AppMenuAction, "ViewerSpreads"@, "Spreads"@),
                flyout: ViewMenuFlyout::Spreads,
                enabled: viewer,
                open: f.open_flyout == Some(ViewMenuFlyout::Spreads),
            },
            MenuEntryView::Separator,
        ] + zoom_items(labels, f),
        AppMenu::Document => seq![
            act(labels, "JumpToPage"@, "Jump to Page..."@, "Ctrl+G"@, viewer, AppMenuAction::JumpToPage),
            act(labels, "FindInDocument"@, "Find in Document"@, "Ctrl+F"@, viewer, AppMenuAction::FindInDocument),
            toc_item(labels, f),
            MenuEntryView::Separator,
        ] + zoom_items(labels, f),
        AppMenu::Library => {
            let into_folder = has_selection && f.has_active_folder;
            seq![
                act(labels, "ImportFolder"@, "Import Folder..."@, ""@, library, AppMenuAction::ImportFolder),
                act(labels, "RefreshLibrary"@, "Refresh Library"@, "F5"@, library, AppMenuAction::RefreshLibrary),
                act(labels, "CreateFolder"@, "New Folder..."@, ""@, library, AppMenuAction::CreateFolder),
                MenuEntryView::Separator,
                act(labels, "AddToFolder"@, "Add Selection to Current Folder"@, ""@, into_folder, AppMenuAction::AddToFolder),
                act(labels, "RemoveFromFolder"@, "Remove Selection from Current Folder"@, ""@, into_folder, AppMenuAction::RemoveFromFolder),
                MenuEntryView::Separator,
            ] + sort_options().map_values(|mode: LibrarySortMode| sort_entry(labels, f, mode))
        },
        AppMenu::Tools => seq![
            act(labels, "SortTitles"@, "Apply Title Sort Cleanup"@, ""@, has_selection, AppMenuAction::SortTitles),
            act(labels, "RefreshMetadata"@, "Refresh PDF Metadata"@, ""@, has_selection, AppMenuAction::RefreshMetadata),
            act(labels, "ResetMetadata"@, "Reset Display Metadata..."@, ""@, has_selection, AppMenuAction::ResetMetadata),
            MenuEntryView::Separator,
            act(labels, "RebuildThumbnails"@, "Rebuild Thumbnails"@, ""@, has_selection, AppMenuAction::RebuildThumbnails),
            act(labels, "Reindex"@, "Reindex Full Text"@, ""@, has_selection, AppMenuAction::Reindex),
        ],
        AppMenu::Help => seq![
            MenuEntryView::Static {
                label: label_lookup(labels.overrides@, LabelSection::Text, "help_product_name"@, "PDF-Folio"@),
                detail: label_lookup(labels.overrides@, LabelSection::Text, "help_product_detail"@, "Local PDF library and reader"@),
            },
            MenuEntryView::Static {
                label: label_lookup(labels.overrides@, LabelSection::Text, "help_status_label"@, "Status"@),
                detail: label_lookup(labels.overrides@, LabelSection::Text, "help_status_detail"@, "No help actions available yet"@),
            },
        ],
    }
}

fn item(labels: &AppLabelTokens, key: &str, fallback: &str, shortcut: &'static str, enabled: bool, action: AppMenuAction) -> (e: AppMenuEntry)
    ensures
        entry_view(e) == act(*labels, key@, fallback@, shortcut@, enabled, action),
{
    AppMenuEntry::Item { label: app_menu_action_label(labels, key, fallback).to_owned(), shortcut, enabled, action }
}

fn toc_entry(labels: &AppLabelTokens, f: MenuBarFacts) -> (e: AppMenuEntry)
    ensures
        entry_view(e) == toc_item(*labels, f),
{
    if f.toc_open {
        item(labels, "ToggleTocHide", "Hide Table of Contents", "", f.mode == AppMode::Viewer, AppMenuAction::ToggleToc)
    } else {
        item(labels, "ToggleTocShow", "Show Table of Contents", "", f.mode == AppMode::Viewer, AppMenuAction::ToggleToc)
    }
}

fn push_zoom_items(entries: &mut Vec<AppMenuEntry>, labels: &AppLabelTokens, f: MenuBarFacts)
    ensures
        final(entries)@.map_values(|e: AppMenuEntry| entry_view(e)) == old(entries)@.map_values(|e: AppMenuEntry| entry_view(e))
            + zoom_items(*labels, f),
{
    let viewer = f.mode == AppMode::Viewer;
    let ghost before = entries@.map_values(|e: AppMenuEntry| entry_view(e));
    entries.push(item(labels, "ZoomIn", "Zoom In", "Ctrl++", viewer, AppMenuAction::ZoomIn));
    entries.push(item(labels, "ZoomOut", "Zoom Out", "Ctrl+-", viewer, AppMenuAction::ZoomOut));
    entries.push(item(labels, "ResetZoom", "Reset Zoom", "Ctrl+0", viewer, AppMenuAction::ResetZoom));
    assert(entries@.map_values(|e: AppMenuEntry| entry_view(e)) =~= before + zoom_items(*labels, f));
}

fn sort_option(labels: &AppLabelTokens, f: MenuBarFacts, mode: LibrarySortMode) -> (e: AppMenuEntry)
    ensures
        entry_view(e) == sort_entry(*labels, f, mode),
{
    proof {
        reveal_strlit("");
    }
    let detail = if f.sort_mode == mode { label_text(labels, "sort_selected", "Selected") } else { "" };
    AppMenuEntry::SortOption { mode, detail: detail.to_owned(), enabled: f.mode == AppMode::Library }
}

/// The entries of `menu`, given the style book's labels, the shell's state
/// and the bulk tag field.
pub fn app_menu_entries(menu: AppMenu, labels: &AppLabelTokens, f: MenuBarFacts, bulk_tag: &str) -> (entries: Vec<AppMenuEntry>)
    ensures
        entries@.map_values(|e: AppMenuEntry| entry_view(e)) == menu_entries(menu, *labels, f, bulk_tag@),
{
    let library = f.mode == AppMode::Library;
    let viewer = f.mode == AppMode::Viewer;
    let has_selection = f.selection_count > 0;
    let mut entries: Vec<AppMenuEntry> = Vec::new();
    match menu {
        AppMenu::File => {
            entries.push(item(labels, "OpenFile", "Open PDF...", "Ctrl+O", true, AppMenuAction::OpenFile));
            entries.push(item(labels, "ImportFolder", "Import Folder...", "", library, AppMenuAction::ImportFolder));
            entries.push(AppMenuEntry::Separator);
            entries.push(item(labels, "RefreshLibrary", "Refresh Library", "F5", library, AppMenuAction::RefreshLibrary));
            entries.push(item(labels, "BackToLibrary", "Back to Library", "Esc", viewer, AppMenuAction::BackToLibrary));
            assert(entries@.map_values(|e: AppMenuEntry| entry_view(e)) =~= menu_entries(menu, *labels, f, bulk_tag@));
        },
        AppMenu::Edit => {
            let single = f.selection_count == 1;
            let has_bulk_tag = has_selection && trim(bulk_tag).unicode_len() > 0;
            entries.push(item(labels, "SelectAllVisible", "Select All Visible PDFs", "Ctrl+A", library, AppMenuAction::SelectAllVisible));
            entries.push(item(labels, "ClearSelection", "Clear Selection", "Esc", has_selection, AppMenuAction::ClearSelection));
            entries.push(AppMenuEntry::Separator);
            entries.push(item(labels, "SaveDetails", "Save Details", "Enter", single, AppMenuAction::SaveDetails));
            entries.push(item(labels, "ResetDetails", "Reset Details...", "", single, AppMenuAction::ResetDetails));
            entries.push(AppMenuEntry::Separator);
            entries.push(item(labels, "AddTag", "Add Typed Tag", "", has_bulk_tag, AppMenuAction::AddTag));
            entries.push(item(labels, "RemoveTag", "Remove Typed Tag", "", has_bulk_tag, AppMenuAction::RemoveTag));
            entries.push(item(labels, "DeleteFromLibrary", "Delete From Library...", "Delete", has_selection, AppMenuAction::DeleteFromLibrary));
            assert(entries@.map_values(|e: AppMenuEntry| entry_view(e)) =~= menu_entries(menu, *labels, f, bulk_tag@));
        },
        AppMenu::View => {
            if f.compact_view_mode {
                entries.push(item(labels, "ToggleLayoutGrid", "Switch to Grid", "", true, AppMenuAction::ToggleLayout));
            } else {
                entries.push(item(labels, "ToggleLayoutList", "Switch to List", "", true, AppMenuAction::ToggleLayout));
            }
            match f.theme {
                AppTheme::Light => entries.push(item(labels, "ToggleThemeDark", "Switch to Dark Theme", "", true, AppMenuAction::ToggleTheme)),
                AppTheme::Dark => entries.push(item(labels, "ToggleThemeLight", "Switch to Light Theme", "", true, AppMenuAction::ToggleTheme)),
            }
            entries.push(item(labels, "ReloadStyles", "Reload Styles", "", true, AppMenuAction::ReloadStyles));
            entries.push(AppMenuEntry::Separator);
            entries.push(toc_entry(labels, f));
            entries.push(AppMenuEntry::Separator);
            entries.push(AppMenuEntry::Submenu {
                label: app_menu_action_label(labels, "ViewerScrolling", "Scrolling").to_owned(),
                flyout: ViewMenuFlyout::Scrolling,
                enabled: viewer,
                open: f.open_flyout == Some(ViewMenuFlyout::Scrolling),
            });
            entries.push(AppMenuEntry::Submenu {
                label: app_menu_action_label(labels, "ViewerSpreads", "Spreads").to_owned(),
                flyout: ViewMenuFlyout::Spreads,
                enabled: viewer,
                open: f.open_flyout == Some(ViewMenuFlyout::Spreads),
            });
            entries.push(AppMenuEntry::Separator);
            push_zoom_items(&mut entries, labels, f);
            assert(entries@.map_values(|e: AppMenuEntry| entry_view(e)) =~= menu_entries(menu, *labels, f, bulk_tag@));
        },
        AppMenu::Document => {
            entries.push(item(labels, "JumpToPage", "Jump to Page...", "Ctrl+G", viewer, AppMenuAction::JumpToPage));
            entries.push(item(labels, "FindInDocument", "Find in Document", "Ctrl+F", viewer, AppMenuAction::FindInDocument));
            entries.push(toc_entry(labels, f));
            entries.push(AppMenuEntry::Separator);
            push_zoom_items(&mut entries, labels, f);
            assert(entries@.map_values(|e: AppMenuEntry| entry_view(e)) =~= menu_entries(menu, *labels, f, bulk_tag@));
        },
        AppMenu::Library => {
            let into_folder = has_selection && f.has_active_folder;
            entries.push(item(labels, "ImportFolder", "Import Folder...", "", library, AppMenuAction::ImportFolder));
            entries.push(item(labels, "RefreshLibrary", "Refresh Library", "F5", library, AppMenuAction::RefreshLibrary));
            entries.push(item(labels, "CreateFolder", "New Folder...", "", library, AppMenuAction::CreateFolder));
            entries.push(AppMenuEntry::Separator);
            entries.push(item(labels, "AddToFolder", "Add Selection to Current Folder", "", into_folder, AppMenuAction::AddToFolder));
            entries.push(item(labels, "RemoveFromFolder", "Remove Selection from Current Folder", "", into_folder, AppMenuAction::RemoveFromFolder));
            entries.push(AppMenuEntry::Separator);
            entries.push(sort_option(labels, f, LibrarySortMode::Manual));
            entries.push(sort_option(labels, f, LibrarySortMode::TitleAsc));
            entries.push(sort_option(labels, f, LibrarySortMode::TitleDesc));
            entries.push(sort_option(labels, f, LibrarySortMode::AuthorAsc));
            entries.push(sort_option(labels, f, LibrarySortMode::AuthorDesc));
            entries.push(sort_option(labels, f, LibrarySortMode::RecentlyAdded));
            entries.push(sort_option(labels, f, LibrarySortMode::RecentlyOpened));
            entries.push(sort_option(labels, f, LibrarySortMode::ReadingProgress));
            entries.push(sort_option(labels, f, LibrarySortMode::PageCount));
            entries.push(sort_option(labels, f, LibrarySortMode::MissingFiles));
            assert(entries@.map_values(|e: AppMenuEntry| entry_view(e)) =~= menu_entries(menu, *labels, f, bulk_tag@));
        },
        AppMenu::Tools => {
            entries.push(item(labels, "SortTitles", "Apply Title Sort Cleanup", "", has_selection, AppMenuAction::SortTitles));
            entries.push(item(labels, "RefreshMetadata", "Refresh PDF Metadata", "", has_selection, AppMenuAction::RefreshMetadata));
            entries.push(item(labels, "ResetMetadata", "Reset Display Metadata...", "", has_selection, AppMenuAction::ResetMetadata));
            entries.push(AppMenuEntry::Separator);
            entries.push(item(labels, "RebuildThumbnails", "Rebuild Thumbnails", "", has_selection, AppMenuAction::RebuildThumbnails));
            entries.push(item(labels, "Reindex", "Reindex Full Text", "", has_selection, AppMenuAction::Reindex));
            assert(entries@.map_values(|e: AppMenuEntry| entry_view(e)) =~= menu_entries(menu, *labels, f, bulk_tag@));
        },
        AppMenu::Help => {
            entries.push(AppMenuEntry::Static {
                label: label_text(labels, "help_product_name", "PDF-Folio").to_owned(),
                detail: label_text(labels, "help_product_detail", "Local PDF library and reader").to_owned(),
            });
            entries.push(AppMenuEntry::Static {
                label: label_text(labels, "help_status_label", "Status").to_owned(),
                detail: label_text(labels, "help_status_detail", "No help actions available yet").to_owned(),
            });
            assert(entries@.map_values(|e: AppMenuEntry| entry_view(e)) =~= menu_entries(menu, *labels, f, bulk_tag@));
        },
    }
    entries
}

} // verus!
