//! How the window is layered: the screen underneath, at most one open menu
//! over it, at most one dialog or drag preview over that, a loading layer,
//! and the spinner shown while an undo or redo is restored.

use vstd::prelude::*;

use crate::state::AppMode;

verus! {

/// The screen underneath everything.
#[derive(Debug, Clone, Copy, PartialEq, Eq, Structural)]
pub enum BaseScreen {
    LibrarySwitcher,
    /// The open document.
    Viewer,
    Library,
}

/// The menu drawn over the screen.
#[derive(Debug, Clone, Copy, PartialEq, Eq, Structural)]
pub enum MenuLayer {
    NoMenu,
    AppMenu,
    SelectionMenu,
    ZoomMenu,
    ContextMenu,
}

/// The dialog or drag preview drawn over the menus.
#[derive(Debug, Clone, Copy, PartialEq, Eq, Structural)]
pub enum DialogLayer {
    NoDialog,
    LibraryName,
    Confirmation,
    CreateFolder,
    MovePicker,
    RaindropConnect,
    RaindropImport,
    RaindropImportProgress,
    FolderDragPreview,
    LibraryDragPreview,
}

/// The loading layer drawn over everything but the undo spinner.
#[derive(Debug, Clone, Copy, PartialEq, Eq, Structural)]
pub enum LoadingLayer {
    NotLoading,
    /// The library is loading at startup.
    Startup,
    /// A document is opening.
    Document,
}

/// What the layering reads of the shell's state.
#[derive(Debug, Clone, Copy)]
pub struct ScreenInputs {
    pub mode: AppMode,
    pub has_document: bool,
    pub app_menu_open: bool,
    pub selection_menu_open: bool,
    pub zoom_menu_open: bool,
    pub context_menu_open: bool,
    pub library_name_dialog_open: bool,
    pub confirmation_pending: bool,
    pub create_folder_dialog_open: bool,
    pub move_picker_open: bool,
    pub raindrop_connect_dialog_open: bool,
    pub raindrop_import_dialog_open: bool,
    pub raindrop_import_running: bool,
    pub folder_drag_preview: bool,
    pub library_drag_preview: bool,
    pub startup_loading: bool,
    pub document_opening: bool,
    pub history_restoring: bool,
}

/// The window's layers.
#[derive(Debug, Clone, Copy)]
pub struct ScreenLayers {
    pub base: BaseScreen,
    pub menu: MenuLayer,
    pub dialog: DialogLayer,
    pub loading: LoadingLayer,
    pub history_spinner: bool,
}

/// The screen underneath: the switcher in its mode, the viewer when a
/// document is open in the viewer mode, the library otherwise.
pub open spec fn base_screen(i: ScreenInputs) -> BaseScreen {
    if i.mode == AppMode::LibrarySwitcher {
        BaseScreen::LibrarySwitcher
    } else if i.mode == AppMode::Viewer && i.has_document {
        BaseScreen::Viewer
    } else {
        BaseScreen::Library
    }
}

/// The menu drawn: the first open of the app menu, the selection menu, the
/// zoom menu and the context menu.
pub open spec fn menu_layer(i: ScreenInputs) -> MenuLayer {
    if i.app_menu_open {
        MenuLayer::AppMenu
    } else if i.selection_menu_open {
        MenuLayer::SelectionMenu
    } else if i.zoom_menu_open {
        MenuLayer::ZoomMenu
    } else if i.context_menu_open {
        MenuLayer::ContextMenu
    } else {
        MenuLayer::NoMenu
    }
}

/// The dialog drawn: the first open in this order, then a drag preview.
pub open spec fn dialog_layer(i: ScreenInputs) -> DialogLayer {
    if i.library_name_dialog_open {
        DialogLayer::LibraryName
    } else if i.confirmation_pending {
        DialogLayer::Confirmation
    } else if i.create_folder_dialog_open {
        DialogLayer::CreateFolder
    } else if i.move_picker_open {
        DialogLayer::MovePicker
    } else if i.raindrop_connect_dialog_open {
        DialogLayer::RaindropConnect
    } else if i.raindrop_import_dialog_open {
        DialogLayer::RaindropImport
    } else if i.raindrop_import_running {
        DialogLayer::RaindropImportProgress
    } else if i.folder_drag_preview {
        DialogLayer::FolderDragPreview
    } else if i.library_drag_preview {
        DialogLayer::LibraryDragPreview
    } else {
        DialogLayer::NoDialog
    }
}

/// The loading layer: startup loading first, then an opening document.
pub open spec fn loading_layer(i: ScreenInputs) -> LoadingLayer {
    if i.startup_loading {
        LoadingLayer::Startup
    } else if i.document_opening {
        LoadingLayer::Document
    } else {
        LoadingLayer::NotLoading
    }
}

/// The window's layers in the state `inputs` describes.
pub fn screen_layers(inputs: ScreenInputs) -> (layers: ScreenLayers)
    ensures
        layers.base == base_screen(inputs),
        layers.menu == menu_layer(inputs),
        layers.dialog == dialog_layer(inputs),
        layers.loading == loading_layer(inputs),
        layers.history_spinner == inputs.history_restoring,
{
    let base = if inputs.mode == AppMode::LibrarySwitcher {
        BaseScreen::LibrarySwitcher
    } else if inputs.mode == AppMode::Viewer && inputs.has_document {
        BaseScreen::Viewer
    } else {
        BaseScreen::Library
    };
    let menu = if inputs.app_menu_open {
        MenuLayer::AppMenu
    } else if inputs.selection_menu_open {
        MenuLayer::SelectionMenu
    } else if inputs.zoom_menu_open {
        MenuLayer::ZoomMenu
    } else if inputs.context_menu_open {
        MenuLayer::ContextMenu
    } else {
        MenuLayer::NoMenu
    };
    let dialog = if inputs.library_name_dialog_open {
        DialogLayer::LibraryName
    } else if inputs.confirmation_pending {
        DialogLayer::Confirmation
    } else if inputs.create_folder_dialog_open {
        DialogLayer::CreateFolder
    } else if inputs.move_picker_open {
        DialogLayer::MovePicker
    } else if inputs.raindrop_connect_dialog_open {
        DialogLayer::RaindropConnect
    } else if inputs.raindrop_import_dialog_open {
        DialogLayer::RaindropImport
    } else if inputs.raindrop_import_running {
        DialogLayer::RaindropImportProgress
    } else if inputs.folder_drag_preview {
        DialogLayer::FolderDragPreview
    } else if inputs.library_drag_preview {
        DialogLayer::LibraryDragPreview
    } else {
        DialogLayer::NoDialog
    };
    let loading = if inputs.startup_loading {
        LoadingLayer::Startup
    } else if inputs.document_opening {
        LoadingLayer::Document
    } else {
        LoadingLayer::NotLoading
    };
    ScreenLayers { base, menu, dialog, loading, history_spinner: inputs.history_restoring }
}

} // verus!
