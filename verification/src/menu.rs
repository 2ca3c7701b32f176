//! The application menu bar: its actions and the command each issues.

use vstd::prelude::*;

use crate::model::{ConfirmationAction, EntryId, LibrarySortMode};
use crate::shortcuts::ViewerScrollMode;

verus! {

/// How the viewer pairs pages into spreads.
#[derive(Debug, Clone, Copy, PartialEq, Eq, Structural)]
pub enum ViewerSpreadMode {
    Single,
    Odd,
    Even,
}

/// Actions launched from the application menu bar.
#[derive(Debug, Clone, Copy, PartialEq, Eq, Structural)]
pub enum AppMenuAction {
    OpenFile,
    ImportFolder,
    ImportPdf,
    ImportRaindrop,
    BackToLibrary,
    RefreshLibrary,
    SelectAllVisible,
    ClearSelection,
    UndoLibraryAction,
    RedoLibraryAction,
    CutLibrarySelection,
    CopyLibrarySelection,
    PasteLibraryClipboard,
    SaveDetails,
    ResetDetails,
    AddTag,
    RemoveTag,
    AddToFolder,
    RemoveFromFolder,
    MoveTo,
    DeleteFromLibrary,
    ToggleLayout,
    ToggleTheme,
    ReloadStyles,
    ToggleToc,
    JumpToPage,
    FindInDocument,
    ZoomIn,
    ZoomOut,
    ResetZoom,
    SetViewerScrollMode(ViewerScrollMode),
    SetViewerSpreadMode(ViewerSpreadMode),
    SortLibrary(LibrarySortMode),
    ToggleMissingFiles,
    CreateFolder,
    ResetMetadata,
    SortTitles,
    RefreshMetadata,
    RebuildThumbnails,
    Reindex,
    RestoreTagPillView,
}

/// The commands the menu bar issues directly.
#[derive(Debug, PartialEq, Eq)]
pub enum MenuCommand {
    OpenFileDialog,
    ImportFolderDialog,
    BackToLibrary,
    LibraryRefresh,
    SelectAllVisibleLibraryEntries,
    ClearLibrarySelection,
    SaveDetailsMetadata,
    RequestConfirmation(ConfirmationAction),
    BulkAddTag,
    BulkRemoveTag,
    BulkAddToCurrentFolder,
    BulkRemoveFromCurrentFolder,
    ToggleViewMode,
    ThemeToggled,
    ReloadStyles,
    ToggleSidebar,
    OpenJumpDialog,
    OpenViewerFind,
    ZoomIn,
    ZoomOut,
    ResetZoom,
    LibrarySortChanged(LibrarySortMode),
    OpenCreateFolderDialog,
    BulkApplyTitleSortCleanup,
    BulkRefreshPdfMetadata,
    BulkRebuildThumbnails,
    BulkReindex,
}

/// The command a menu action issues; `None` for the actions the menu
/// handles itself (scroll and spread modes, imports, undo and redo, the
/// clipboard, moving, the missing-files filter and tag pill restore), and
/// for resetting details when no entry is in the details panel.
pub open spec fn menu_command_spec(action: AppMenuAction, details_entry_id: Option<EntryId>) -> Option<MenuCommand> {
    match action {
        AppMenuAction::OpenFile => Some(MenuCommand::OpenFileDialog),
        AppMenuAction::ImportFolder => Some(MenuCommand::ImportFolderDialog),
        AppMenuAction::BackToLibrary => Some(MenuCommand::BackToLibrary),
        AppMenuAction::RefreshLibrary => Some(MenuCommand::LibraryRefresh),
        AppMenuAction::SelectAllVisible => Some(MenuCommand::SelectAllVisibleLibraryEntries),
        AppMenuAction::ClearSelection => Some(MenuCommand::ClearLibrarySelection),
        AppMenuAction::SaveDetails => Some(MenuCommand::SaveDetailsMetadata),
        AppMenuAction::ResetDetails => match details_entry_id {
            Some(id) => Some(MenuCommand::RequestConfirmation(ConfirmationAction::ResetDetailsMetadata(id))),
            None => None,
        },
        AppMenuAction::AddTag => Some(MenuCommand::BulkAddTag),
        AppMenuAction::RemoveTag => Some(MenuCommand::BulkRemoveTag),
        AppMenuAction::AddToFolder => Some(MenuCommand::BulkAddToCurrentFolder),
        AppMenuAction::RemoveFromFolder => Some(MenuCommand::BulkRemoveFromCurrentFolder),
        AppMenuAction::DeleteFromLibrary => Some(MenuCommand::RequestConfirmation(ConfirmationAction::BulkDeleteFromLibrary)),
        AppMenuAction::ToggleLayout => Some(MenuCommand::ToggleViewMode),
        AppMenuAction::ToggleTheme => Some(MenuCommand::ThemeToggled),
        AppMenuAction::ReloadStyles => Some(MenuCommand::ReloadStyles),
        AppMenuAction::ToggleToc => Some(MenuCommand::ToggleSidebar),
        AppMenuAction::JumpToPage => Some(MenuCommand::OpenJumpDialog),
        AppMenuAction::FindInDocument => Some(MenuCommand::OpenViewerFind),
        AppMenuAction::ZoomIn => Some(MenuCommand::ZoomIn),
        AppMenuAction::ZoomOut => Some(MenuCommand::ZoomOut),
        AppMenuAction::ResetZoom => Some(MenuCommand::ResetZoom),
        AppMenuAction::SortLibrary(mode) => Some(MenuCommand::LibrarySortChanged(mode)),
        AppMenuAction::CreateFolder => Some(MenuCommand::OpenCreateFolderDialog),
        AppMenuAction::ResetMetadata => Some(MenuCommand::RequestConfirmation(ConfirmationAction::BulkResetDisplayMetadata)),
        AppMenuAction::SortTitles => Some(MenuCommand::BulkApplyTitleSortCleanup),
        AppMenuAction::RefreshMetadata => Some(MenuCommand::BulkRefreshPdfMetadata),
        AppMenuAction::RebuildThumbnails => Some(MenuCommand::BulkRebuildThumbnails),
        AppMenuAction::Reindex => Some(MenuCommand::BulkReindex),
        _ => None,
    }
}

/// The command a menu action issues.
pub fn app_menu_action_message(action: AppMenuAction, details_entry_id: Option<EntryId>) -> (command: Option<MenuCommand>)
    ensures
        command == menu_command_spec(action, details_entry_id),
{
    match action {
        AppMenuAction::OpenFile => Some(MenuCommand::OpenFileDialog),
        AppMenuAction::ImportFolder => Some(MenuCommand::ImportFolderDialog),
        AppMenuAction::BackToLibrary => Some(MenuCommand::BackToLibrary),
        AppMenuAction::RefreshLibrary => Some(MenuCommand::LibraryRefresh),
        AppMenuAction::SelectAllVisible => Some(MenuCommand::SelectAllVisibleLibraryEntries),
        AppMenuAction::ClearSelection => Some(MenuCommand::ClearLibrarySelection),
        AppMenuAction::SaveDetails => Some(MenuCommand::SaveDetailsMetadata),
        AppMenuAction::ResetDetails => match details_entry_id {
            Some(id) => Some(MenuCommand::RequestConfirmation(ConfirmationAction::ResetDetailsMetadata(id))),
            None => None,
        },
        AppMenuAction::AddTag => Some(MenuCommand::BulkAddTag),
        AppMenuAction::RemoveTag => Some(MenuCommand::BulkRemoveTag),
        AppMenuAction::AddToFolder => Some(MenuCommand::BulkAddToCurrentFolder),
        AppMenuAction::RemoveFromFolder => Some(MenuCommand::BulkRemoveFromCurrentFolder),
        AppMenuAction::DeleteFromLibrary => Some(MenuCommand::RequestConfirmation(ConfirmationAction::BulkDeleteFromLibrary)),
        AppMenuAction::ToggleLayout => Some(MenuCommand::ToggleViewMode),
        AppMenuAction::ToggleTheme => Some(MenuCommand::ThemeToggled),
        AppMenuAction::ReloadStyles => Some(MenuCommand::ReloadStyles),
        AppMenuAction::ToggleToc => Some(MenuCommand::ToggleSidebar),
        AppMenuAction::JumpToPage => Some(MenuCommand::OpenJumpDialog),
        AppMenuAction::FindInDocument => Some(MenuCommand::OpenViewerFind),
        AppMenuAction::ZoomIn => Some(MenuCommand::ZoomIn),
        AppMenuAction::ZoomOut => Some(MenuCommand::ZoomOut),
        AppMenuAction::ResetZoom => Some(MenuCommand::ResetZoom),
        AppMenuAction::SortLibrary(mode) => Some(MenuCommand::LibrarySortChanged(mode)),
        AppMenuAction::CreateFolder => Some(MenuCommand::OpenCreateFolderDialog),
        AppMenuAction::ResetMetadata => Some(MenuCommand::RequestConfirmation(ConfirmationAction::BulkResetDisplayMetadata)),
        AppMenuAction::SortTitles => Some(MenuCommand::BulkApplyTitleSortCleanup),
        AppMenuAction::RefreshMetadata => Some(MenuCommand::BulkRefreshPdfMetadata),
        AppMenuAction::RebuildThumbnails => Some(MenuCommand::BulkRebuildThumbnails),
        AppMenuAction::Reindex => Some(MenuCommand::BulkReindex),
        _ => None,
    }
}

} // verus!
