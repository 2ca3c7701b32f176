//! The overlays that float over the library and the viewer: which one
//! Escape closes, and how the command palette's highlighted row moves.

use vstd::prelude::*;

verus! {

/// An overlay that Escape can close, listed from the topmost down; the
/// document outline closes when nothing else is open.
#[derive(Debug, Clone, Copy, PartialEq, Eq, Structural)]
pub enum Overlay {
    CommandPalette,
    LibraryNameDialog,
    LibraryCardMenu,
    LibrarySwitcher,
    JumpDialog,
    PageInput,
    ViewerFind,
    CreateFolderDialog,
    MovePicker,
    ImportMenu,
    RaindropConnectDialog,
    RaindropImportDialog,
    ImportReview,
    TagManager,
    ExportPanel,
    Confirmation,
    ContextMenu,
    Outline,
}

/// Which overlays are open.
#[derive(Debug, Clone, Copy)]
pub struct OpenOverlays {
    pub command_palette: bool,
    pub library_name_dialog: bool,
    pub library_card_menu: bool,
    /// The library switcher is the current mode.
    pub library_switcher: bool,
    pub jump_dialog: bool,
    /// The page number field is being edited.
    pub page_input: bool,
    pub viewer_find: bool,
    pub create_folder_dialog: bool,
    pub move_picker: bool,
    pub import_menu: bool,
    pub raindrop_connect_dialog: bool,
    pub raindrop_import_dialog: bool,
    pub import_review: bool,
    pub tag_manager: bool,
    /// The export dialog, its progress or its summary is shown.
    pub export_panel: bool,
    pub confirmation: bool,
    pub context_menu: bool,
}

/// The place of an overlay in the closing order, topmost first.
pub open spec fn closing_rank(which: Overlay) -> nat {
    match which {
        Overlay::CommandPalette => 0,
        Overlay::LibraryNameDialog => 1,
        Overlay::LibraryCardMenu => 2,
        Overlay::LibrarySwitcher => 3,
        Overlay::JumpDialog => 4,
        Overlay::PageInput => 5,
        Overlay::ViewerFind => 6,
        Overlay::CreateFolderDialog => 7,
        Overlay::MovePicker => 8,
        Overlay::ImportMenu => 9,
        Overlay::RaindropConnectDialog => 10,
        Overlay::RaindropImportDialog => 11,
        Overlay::ImportReview => 12,
        Overlay::TagManager => 13,
        Overlay::ExportPanel => 14,
        Overlay::Confirmation => 15,
        Overlay::ContextMenu => 16,
        Overlay::Outline => 17,
    }
}

/// Whether `which` is open; the outline counts as closed, since it is what
/// Escape closes when nothing else is open.
pub open spec fn is_open(open: OpenOverlays, which: Overlay) -> bool {
    match which {
        Overlay::CommandPalette => open.command_palette,
        Overlay::LibraryNameDialog => open.library_name_dialog,
        Overlay::LibraryCardMenu => open.library_card_menu,
        Overlay::LibrarySwitcher => open.library_switcher,
        Overlay::JumpDialog => open.jump_dialog,
        Overlay::PageInput => open.page_input,
        Overlay::ViewerFind => open.viewer_find,
        Overlay::CreateFolderDialog => open.create_folder_dialog,
        Overlay::MovePicker => open.move_picker,
        Overlay::ImportMenu => open.import_menu,
        Overlay::RaindropConnectDialog => open.raindrop_connect_dialog,
        Overlay::RaindropImportDialog => open.raindrop_import_dialog,
        Overlay::ImportReview => open.import_review,
        Overlay::TagManager => open.tag_manager,
        Overlay::ExportPanel => open.export_panel,
        Overlay::Confirmation => open.confirmation,
        Overlay::ContextMenu => open.context_menu,
        Overlay::Outline => false,
    }
}

/// Whether any overlay is open.
pub open spec fn any_open(open: OpenOverlays) -> bool {
    exists|which: Overlay| is_open(open, which)
}

/// The overlay that Escape closes: the topmost open one, or the document
/// outline when none is open.
pub fn overlay_to_close(open: &OpenOverlays) -> (which: Overlay)
    ensures
        is_open(*open, which) || (which == Overlay::Outline && !any_open(*open)),
        forall|other: Overlay| is_open(*open, other) ==> closing_rank(which) <= closing_rank(other),
{
    let which = if open.command_palette {
        Overlay::CommandPalette
    } else if open.library_name_dialog {
        Overlay::LibraryNameDialog
    } else if open.library_card_menu {
        Overlay::LibraryCardMenu
    } else if open.library_switcher {
        Overlay::LibrarySwitcher
    } else if open.jump_dialog {
        Overlay::JumpDialog
    } else if open.page_input {
        Overlay::PageInput
    } else if open.viewer_find {
        Overlay::ViewerFind
    } else if open.create_folder_dialog {
        Overlay::CreateFolderDialog
    } else if open.move_picker {
        Overlay::MovePicker
    } else if open.import_menu {
        Overlay::ImportMenu
    } else if open.raindrop_connect_dialog {
        Overlay::RaindropConnectDialog
    } else if open.raindrop_import_dialog {
        Overlay::RaindropImportDialog
    } else if open.import_review {
        Overlay::ImportReview
    } else if open.tag_manager {
        Overlay::TagManager
    } else if open.export_panel {
        Overlay::ExportPanel
    } else if open.confirmation {
        Overlay::Confirmation
    } else if open.context_menu {
        Overlay::ContextMenu
    } else {
        Overlay::Outline
    };
    proof {
        assert forall|other: Overlay| is_open(*open, other) implies closing_rank(which) <= closing_rank(other) by {
            match other {
                Overlay::CommandPalette => {},
                Overlay::LibraryNameDialog => {},
                Overlay::LibraryCardMenu => {},
                Overlay::LibrarySwitcher => {},
                Overlay::JumpDialog => {},
                Overlay::PageInput => {},
                Overlay::ViewerFind => {},
                Overlay::CreateFolderDialog => {},
                Overlay::MovePicker => {},
                Overlay::ImportMenu => {},
                Overlay::RaindropConnectDialog => {},
                Overlay::RaindropImportDialog => {},
                Overlay::ImportReview => {},
                Overlay::TagManager => {},
                Overlay::ExportPanel => {},
                Overlay::Confirmation => {},
                Overlay::ContextMenu => {},
                Overlay::Outline => {},
            }
        }
        if which == Overlay::Outline {
            assert forall|other: Overlay| !is_open(*open, other) by {
                match other {
                    Overlay::CommandPalette => {},
                    Overlay::LibraryNameDialog => {},
                    Overlay::LibraryCardMenu => {},
                    Overlay::LibrarySwitcher => {},
                    Overlay::JumpDialog => {},
                    Overlay::PageInput => {},
                    Overlay::ViewerFind => {},
                    Overlay::CreateFolderDialog => {},
                    Overlay::MovePicker => {},
                    Overlay::ImportMenu => {},
                    Overlay::RaindropConnectDialog => {},
                    Overlay::RaindropImportDialog => {},
                    Overlay::ImportReview => {},
                    Overlay::TagManager => {},
                    Overlay::ExportPanel => {},
                    Overlay::Confirmation => {},
                    Overlay::ContextMenu => {},
                    Overlay::Outline => {},
                }
            }
        }
    }
    which
}

/// The command palette's highlighted row after moving it by `delta` among
/// `visible_count` rows, wrapping around at either end; unchanged when no
/// row is shown.
pub fn palette_selection_after_move(current: usize, delta: i32, visible_count: usize) -> (next: usize)
    requires
        current <= i32::MAX,
        visible_count <= i32::MAX,
        i32::MIN <= current + delta <= i32::MAX,
    ensures
        visible_count == 0 ==> next == current,
        visible_count > 0 ==> next as int == (current + delta) % (visible_count as int),
{
    if visible_count == 0 {
        return current;
    }
    let target: i64 = current as i64 + delta as i64;
    let count: i64 = visible_count as i64;
    if target >= 0 {
        let r = (target as u64) % (count as u64);
        r as usize
    } else {
        let m = ((-target) as u64) % (count as u64);
        let ghost t = target as int;
        let ghost c = count as int;
        proof {
            let q = (-t) / c;
            assert((-t) == q * c + (m as int)) by (nonlinear_arith)
                requires
                    c > 0,
                    -t > 0,
                    q == (-t) / c,
                    m as int == (-t) % c,
            ;
            if m == 0 {
                assert(t % c == 0) by (nonlinear_arith)
                    requires
                        c > 0,
                        -t == q * c,
                ;
            } else {
                assert(t == (-q - 1) * c + (c - m)) by (nonlinear_arith)
                    requires
                        -t == q * c + (m as int),
                ;
                assert(t % c == c - m) by (nonlinear_arith)
                    requires
                        c > 0,
                        0 < m < c,
                        t == (-q - 1) * c + (c - m),
                ;
            }
        }
        if m == 0 {
            0
        } else {
            (count as u64 - m) as usize
        }
    }
}

} // verus!
