//! Right-click menus: which items each target offers and when they are
//! enabled, and which command each chosen item issues.

use vstd::prelude::*;

use crate::model::{ConfirmationAction, EntryId, ExportSource, FolderId, LibrarySortMode};
use crate::seqs::vec_contains_u64;

verus! {

/// Actions offered by right-click menus.
#[derive(Debug, Clone, Copy, PartialEq, Eq, Structural)]
pub enum ContextMenuAction {
    Open,
    SelectOnly,
    AddToSelection,
    ClearSelection,
    AddTag,
    MoveTo,
    Export,
    RevealInFileManager,
    OpenContainingFolder,
    RelinkMissingFile,
    SaveDetails,
    ResetDetails,
    RefreshMetadata,
    ResetMetadata,
    RebuildThumbnails,
    Reindex,
    DeleteFromLibrary,
    SelectFolder,
    NewFolder,
    RenameFolder,
    RenameTag,
    DeleteTag,
    MoveFolderTo,
    MoveFolderToRoot,
    MoveFolderUp,
    MoveFolderEarlier,
    MoveFolderLater,
    DeleteFolder,
    ImportFolder,
    RefreshLibrary,
    ToggleLayout,
    SortManual,
    SortTitleAsc,
    CopyViewerSelection,
    FindInDocument,
    JumpToPage,
    ZoomIn,
    ZoomOut,
    ResetZoom,
    ToggleToc,
    BackToLibrary,
}

/// What was right-clicked.
#[derive(Debug)]
pub enum ContextMenuTarget {
    LibraryEntry(EntryId),
    /// A library folder, or the library root when `None`.
    Folder(Option<FolderId>),
    Tag(String),
    LibraryBackground,
    ViewerCanvas,
}

/// One menu item: its label, its shortcut hint, whether it can be chosen,
/// whether it is shown as destructive, and its action.
#[derive(Debug, Clone, Copy)]
pub struct ContextMenuItemSpec {
    pub label: &'static str,
    pub detail: &'static str,
    pub enabled: bool,
    pub destructive: bool,
    pub action: ContextMenuAction,
}

/// The plain content of a menu item.
pub struct ItemView {
    pub label: Seq<char>,
    pub detail: Seq<char>,
    pub enabled: bool,
    pub destructive: bool,
    pub action: ContextMenuAction,
}

/// A plain menu item.
pub open spec fn item(label: Seq<char>, detail: Seq<char>, enabled: bool, action: ContextMenuAction) -> ItemView {
    ItemView { label, detail, enabled, destructive: false, action }
}

/// A destructive menu item.
pub open spec fn destructive_item(label: Seq<char>, detail: Seq<char>, enabled: bool, action: ContextMenuAction) -> ItemView {
    ItemView { label, detail, enabled, destructive: true, action }
}

/// The plain content of menu groups.
pub open spec fn groups_view(groups: Seq<Vec<ContextMenuItemSpec>>) -> Seq<Seq<ItemView>> {
    groups.map_values(|g: Vec<ContextMenuItemSpec>| g@.map_values(|i: ContextMenuItemSpec|
        ItemView { label: i.label@, detail: i.detail@, enabled: i.enabled, destructive: i.destructive, action: i.action }))
}

/// A plain menu item.
pub fn spec(label: &'static str, detail: &'static str, enabled: bool, action: ContextMenuAction) -> (i: ContextMenuItemSpec)
    ensures
        i.label@ == label@,
        i.detail@ == detail@,
        i.enabled == enabled,
        !i.destructive,
        i.action == action,
{
    ContextMenuItemSpec { label, detail, enabled, destructive: false, action }
}

/// A destructive menu item.
pub fn destructive_spec(label: &'static str, detail: &'static str, enabled: bool, action: ContextMenuAction) -> (i: ContextMenuItemSpec)
    ensures
        i.label@ == label@,
        i.detail@ == detail@,
        i.enabled == enabled,
        i.destructive,
        i.action == action,
{
    ContextMenuItemSpec { label, detail, enabled, destructive: true, action }
}

/// The menu of a PDF entry.
pub open spec fn library_entry_groups_spec(in_selection: bool, selection_count: nat, missing: bool) -> Seq<Seq<ItemView>> {
    let has_selection = selection_count > 0;
    let multi = selection_count > 1;
    seq![
        seq![
            item("Open PDF"@, "Enter"@, true, ContextMenuAction::Open),
            item("Select Only"@, ""@, true, ContextMenuAction::SelectOnly),
            item(if in_selection { "Remove From Selection"@ } else { "Add To Selection"@ }, ""@, has_selection, ContextMenuAction::AddToSelection),
            item("Clear Selection"@, "Esc"@, has_selection, ContextMenuAction::ClearSelection),
        ],
        seq![
            item("Add Tag..."@, ""@, true, ContextMenuAction::AddTag),
            item("Move To..."@, ""@, has_selection, ContextMenuAction::MoveTo),
            item("Export..."@, ""@, true, ContextMenuAction::Export),
            item("Save Details"@, "Enter"@, !multi, ContextMenuAction::SaveDetails),
            item("Reset Details..."@, ""@, !multi, ContextMenuAction::ResetDetails),
        ],
        seq![
            item("Reveal in File Manager"@, ""@, true, ContextMenuAction::RevealInFileManager),
            item("Open Containing Folder"@, ""@, true, ContextMenuAction::OpenContainingFolder),
            item("Relink Missing File..."@, ""@, missing, ContextMenuAction::RelinkMissingFile),
        ],
        seq![
            item("Refresh Metadata"@, ""@, true, ContextMenuAction::RefreshMetadata),
            item("Reset Metadata..."@, ""@, true, ContextMenuAction::ResetMetadata),
            item("Rebuild Thumbnail"@, ""@, true, ContextMenuAction::RebuildThumbnails),
            item("Reindex Full Text"@, ""@, true, ContextMenuAction::Reindex),
            item("Move to Trash..."@, "Del"@, true, ContextMenuAction::DeleteFromLibrary),
        ],
    ]
}

/// In a PDF entry's menu, the items that act on the selection (adding to or
/// removing from it, clearing it, moving it) are enabled exactly when at
/// least one PDF is selected; saving or resetting details exactly when at
/// most one is; relinking exactly when the file is missing; and the menu
/// offers Move To.
pub proof fn law_entry_menu_enablement(in_selection: bool, selection_count: nat, missing: bool)
    ensures
        ({
            let groups = library_entry_groups_spec(in_selection, selection_count, missing);
            &&& exists|g: int, k: int|
                0 <= g < groups.len() && 0 <= k < groups[g].len() && (#[trigger] groups[g][k]).action == ContextMenuAction::MoveTo
            &&& forall|g: int, k: int| 0 <= g < groups.len() && 0 <= k < groups[g].len() ==> {
                let it = #[trigger] groups[g][k];
                &&& (it.action == ContextMenuAction::MoveTo || it.action == ContextMenuAction::AddToSelection
                    || it.action == ContextMenuAction::ClearSelection) ==> it.enabled == (selection_count > 0)
                &&& (it.action == ContextMenuAction::SaveDetails || it.action == ContextMenuAction::ResetDetails)
                    ==> it.enabled == (selection_count <= 1)
                &&& it.action == ContextMenuAction::RelinkMissingFile ==> it.enabled == missing
            }
        }),
{
    let groups = library_entry_groups_spec(in_selection, selection_count, missing);
    assert(groups[1][1].action == ContextMenuAction::MoveTo);
    assert forall|g: int, k: int| 0 <= g < groups.len() && 0 <= k < groups[g].len() implies {
        let it = #[trigger] groups[g][k];
        &&& (it.action == ContextMenuAction::MoveTo || it.action == ContextMenuAction::AddToSelection
            || it.action == ContextMenuAction::ClearSelection) ==> it.enabled == (selection_count > 0)
        &&& (it.action == ContextMenuAction::SaveDetails || it.action == ContextMenuAction::ResetDetails)
            ==> it.enabled == (selection_count <= 1)
        &&& it.action == ContextMenuAction::RelinkMissingFile ==> it.enabled == missing
    } by {
        if g == 0 {
            assert(k == 0 || k == 1 || k == 2 || k == 3);
        } else if g == 1 {
            assert(k == 0 || k == 1 || k == 2 || k == 3 || k == 4);
        } else if g == 2 {
            assert(k == 0 || k == 1 || k == 2);
        } else {
            assert(k == 0 || k == 1 || k == 2 || k == 3 || k == 4);
        }
    }
}

fn group_of(items: Vec<ContextMenuItemSpec>) -> (g: Vec<ContextMenuItemSpec>)
    ensures
        g@ == items@,
{
    items
}

/// The menu of a PDF entry: `in_selection` tells whether the entry is
/// selected, `selection_count` how many are, `missing` whether its file is
/// missing.
pub fn library_entry_context_groups(in_selection: bool, selection_count: usize, missing: bool) -> (groups: Vec<Vec<ContextMenuItemSpec>>)
    ensures
        groups_view(groups@) == library_entry_groups_spec(in_selection, selection_count as nat, missing),
{
    let has_selection = selection_count > 0;
    let multi = selection_count > 1;
    let groups = vec![
        vec![
            spec("Open PDF", "Enter", true, ContextMenuAction::Open),
            spec("Select Only", "", true, ContextMenuAction::SelectOnly),
            spec(if in_selection { "Remove From Selection" } else { "Add To Selection" }, "", has_selection, ContextMenuAction::AddToSelection),
            spec("Clear Selection", "Esc", has_selection, ContextMenuAction::ClearSelection),
        ],
        vec![
            spec("Add Tag...", "", true, ContextMenuAction::AddTag),
            spec("Move To...", "", has_selection, ContextMenuAction::MoveTo),
            spec("Export...", "", true, ContextMenuAction::Export),
            spec("Save Details", "Enter", !multi, ContextMenuAction::SaveDetails),
            spec("Reset Details...", "", !multi, ContextMenuAction::ResetDetails),
        ],
        vec![
            spec("Reveal in File Manager", "", true, ContextMenuAction::RevealInFileManager),
            spec("Open Containing Folder", "", true, ContextMenuAction::OpenContainingFolder),
            spec("Relink Missing File...", "", missing, ContextMenuAction::RelinkMissingFile),
        ],
        vec![
            spec("Refresh Metadata", "", true, ContextMenuAction::RefreshMetadata),
            spec("Reset Metadata...", "", true, ContextMenuAction::ResetMetadata),
            spec("Rebuild Thumbnail", "", true, ContextMenuAction::RebuildThumbnails),
            spec("Reindex Full Text", "", true, ContextMenuAction::Reindex),
            spec("Move to Trash...", "Del", true, ContextMenuAction::DeleteFromLibrary),
        ],
    ];
    assert(groups_view(groups@) =~= library_entry_groups_spec(in_selection, selection_count as nat, missing)) by {
        let g = groups_view(groups@);
        let s = library_entry_groups_spec(in_selection, selection_count as nat, missing);
        assert(g[0] =~= s[0]);
        assert(g[1] =~= s[1]);
        assert(g[2] =~= s[2]);
        assert(g[3] =~= s[3]);
    }
    groups
}

} // verus!

verus! {

/// The menu of a folder (or of the library root): `has_folder` tells
/// whether a folder was clicked; the move items depend on where the folder
/// shown in the details panel sits.
pub open spec fn folder_groups_spec(
    has_folder: bool,
    has_parent: bool,
    has_grandparent: bool,
    can_move_earlier: bool,
    can_move_later: bool,
) -> Seq<Seq<ItemView>> {
    seq![
        seq![
            item(if has_folder { "Open Folder"@ } else { "Open Library"@ }, ""@, true, ContextMenuAction::SelectFolder),
            item("New Folder..."@, ""@, true, ContextMenuAction::NewFolder),
            item("Refresh Library"@, "F5"@, true, ContextMenuAction::RefreshLibrary),
        ],
        seq![
            item("Rename Folder"@, "Enter"@, has_folder, ContextMenuAction::RenameFolder),
            item("Move To..."@, ""@, has_folder, ContextMenuAction::MoveFolderTo),
            item("Export Folder..."@, ""@, has_folder, ContextMenuAction::Export),
            item("Move To Root"@, ""@, has_parent, ContextMenuAction::MoveFolderToRoot),
            item("Move Up"@, ""@, has_grandparent, ContextMenuAction::MoveFolderUp),
            item("Move Earlier"@, ""@, can_move_earlier, ContextMenuAction::MoveFolderEarlier),
            item("Move Later"@, ""@, can_move_later, ContextMenuAction::MoveFolderLater),
            item("Move Folder to Trash..."@, ""@, has_folder, ContextMenuAction::DeleteFolder),
        ],
    ]
}

/// In the library background's menu, moving and exporting the selection
/// are enabled exactly when PDFs are selected.
pub proof fn law_background_menu_enablement(has_selection: bool, compact_view_mode: bool)
    ensures
        ({
            let groups = background_groups_spec(has_selection, compact_view_mode);
            forall|g: int, k: int| 0 <= g < groups.len() && 0 <= k < groups[g].len() ==> {
                let it = #[trigger] groups[g][k];
                (it.action == ContextMenuAction::MoveTo || it.action == ContextMenuAction::Export) ==> it.enabled == has_selection
            }
        }),
{
    let groups = background_groups_spec(has_selection, compact_view_mode);
    assert forall|g: int, k: int| 0 <= g < groups.len() && 0 <= k < groups[g].len() implies {
        let it = #[trigger] groups[g][k];
        (it.action == ContextMenuAction::MoveTo || it.action == ContextMenuAction::Export) ==> it.enabled == has_selection
    } by {
        assert(0 <= k < groups[g].len());
    }
}

/// The menu of a folder.
pub fn folder_context_groups(
    has_folder: bool,
    has_parent: bool,
    has_grandparent: bool,
    can_move_earlier: bool,
    can_move_later: bool,
) -> (groups: Vec<Vec<ContextMenuItemSpec>>)
    ensures
        groups_view(groups@) == folder_groups_spec(has_folder, has_parent, has_grandparent, can_move_earlier, can_move_later),
{
    let groups = vec![
        vec![
            spec(if has_folder { "Open Folder" } else { "Open Library" }, "", true, ContextMenuAction::SelectFolder),
            spec("New Folder...", "", true, ContextMenuAction::NewFolder),
            spec("Refresh Library", "F5", true, ContextMenuAction::RefreshLibrary),
        ],
        vec![
            spec("Rename Folder", "Enter", has_folder, ContextMenuAction::RenameFolder),
            spec("Move To...", "", has_folder, ContextMenuAction::MoveFolderTo),
            spec("Export Folder...", "", has_folder, ContextMenuAction::Export),
            spec("Move To Root", "", has_parent, ContextMenuAction::MoveFolderToRoot),
            spec("Move Up", "", has_grandparent, ContextMenuAction::MoveFolderUp),
            spec("Move Earlier", "", can_move_earlier, ContextMenuAction::MoveFolderEarlier),
            spec("Move Later", "", can_move_later, ContextMenuAction::MoveFolderLater),
            spec("Move Folder to Trash...", "", has_folder, ContextMenuAction::DeleteFolder),
        ],
    ];
    assert(groups_view(groups@) =~= folder_groups_spec(has_folder, has_parent, has_grandparent, can_move_earlier, can_move_later)) by {
        let g = groups_view(groups@);
        let s = folder_groups_spec(has_folder, has_parent, has_grandparent, can_move_earlier, can_move_later);
        assert(g[0] =~= s[0]);
        assert(g[1] =~= s[1]);
    }
    groups
}

/// The menu of the library's empty space.
pub open spec fn background_groups_spec(has_selection: bool, compact_view_mode: bool) -> Seq<Seq<ItemView>> {
    seq![
        seq![
            item("Import Folder..."@, ""@, true, ContextMenuAction::ImportFolder),
            item("New Folder..."@, ""@, true, ContextMenuAction::NewFolder),
            item("Refresh Library"@, "F5"@, true, ContextMenuAction::RefreshLibrary),
        ],
        seq![
            item("Move To..."@, ""@, has_selection, ContextMenuAction::MoveTo),
            item("Export Selection..."@, ""@, has_selection, ContextMenuAction::Export),
            item(if compact_view_mode { "Switch To Grid"@ } else { "Switch To List"@ }, ""@, true, ContextMenuAction::ToggleLayout),
            item("Sort Manually"@, ""@, true, ContextMenuAction::SortManual),
            item("Sort By Title"@, ""@, true, ContextMenuAction::SortTitleAsc),
        ],
    ]
}

/// The menu of the library's empty space.
pub fn library_background_context_groups(has_selection: bool, compact_view_mode: bool) -> (groups: Vec<Vec<ContextMenuItemSpec>>)
    ensures
        groups_view(groups@) == background_groups_spec(has_selection, compact_view_mode),
{
    let groups = vec![
        vec![
            spec("Import Folder...", "", true, ContextMenuAction::ImportFolder),
            spec("New Folder...", "", true, ContextMenuAction::NewFolder),
            spec("Refresh Library", "F5", true, ContextMenuAction::RefreshLibrary),
        ],
        vec![
            spec("Move To...", "", has_selection, ContextMenuAction::MoveTo),
            spec("Export Selection...", "", has_selection, ContextMenuAction::Export),
            spec(if compact_view_mode { "Switch To Grid" } else { "Switch To List" }, "", true, ContextMenuAction::ToggleLayout),
            spec("Sort Manually", "", true, ContextMenuAction::SortManual),
            spec("Sort By Title", "", true, ContextMenuAction::SortTitleAsc),
        ],
    ];
    assert(groups_view(groups@) =~= background_groups_spec(has_selection, compact_view_mode)) by {
        let g = groups_view(groups@);
        let s = background_groups_spec(has_selection, compact_view_mode);
        assert(g[0] =~= s[0]);
        assert(g[1] =~= s[1]);
    }
    groups
}

/// The menu of a tag in the sidebar; its items need the tag to exist.
pub open spec fn tag_groups_spec(exists_: bool) -> Seq<Seq<ItemView>> {
    seq![
        seq![
            item("Export Tagged PDFs..."@, ""@, exists_, ContextMenuAction::Export),
            item("Rename Tag"@, ""@, exists_, ContextMenuAction::RenameTag),
            destructive_item("Delete Tag"@, ""@, exists_, ContextMenuAction::DeleteTag),
        ],
    ]
}

/// The menu of a tag.
pub fn tag_context_groups(tag_exists: bool) -> (groups: Vec<Vec<ContextMenuItemSpec>>)
    ensures
        groups_view(groups@) == tag_groups_spec(tag_exists),
{
    let groups = vec![
        vec![
            spec("Export Tagged PDFs...", "", tag_exists, ContextMenuAction::Export),
            spec("Rename Tag", "", tag_exists, ContextMenuAction::RenameTag),
            destructive_spec("Delete Tag", "", tag_exists, ContextMenuAction::DeleteTag),
        ],
    ];
    assert(groups_view(groups@) =~= tag_groups_spec(tag_exists)) by {
        assert(groups_view(groups@)[0] =~= tag_groups_spec(tag_exists)[0]);
    }
    groups
}

/// The menu of the open document.
pub open spec fn viewer_groups_spec(has_text_selection: bool, toc_open: bool) -> Seq<Seq<ItemView>> {
    seq![
        seq![
            item("Copy Selection"@, "Ctrl+C"@, has_text_selection, ContextMenuAction::CopyViewerSelection),
            item("Find In Document"@, "Ctrl+F"@, true, ContextMenuAction::FindInDocument),
            item("Jump To Page..."@, "Ctrl+G"@, true, ContextMenuAction::JumpToPage),
        ],
        seq![
            item("Zoom In"@, "Ctrl++"@, true, ContextMenuAction::ZoomIn),
            item("Zoom Out"@, "Ctrl+-"@, true, ContextMenuAction::ZoomOut),
            item("Reset Zoom"@, "Ctrl+0"@, true, ContextMenuAction::ResetZoom),
        ],
        seq![
            item(if toc_open { "Hide Table Of Contents"@ } else { "Show Table Of Contents"@ }, ""@, true, ContextMenuAction::ToggleToc),
            item("Back To Library"@, "Esc"@, true, ContextMenuAction::BackToLibrary),
        ],
    ]
}

/// The menu of the open document.
pub fn viewer_context_groups(has_text_selection: bool, toc_open: bool) -> (groups: Vec<Vec<ContextMenuItemSpec>>)
    ensures
        groups_view(groups@) == viewer_groups_spec(has_text_selection, toc_open),
{
    let groups = vec![
        vec![
            spec("Copy Selection", "Ctrl+C", has_text_selection, ContextMenuAction::CopyViewerSelection),
            spec("Find In Document", "Ctrl+F", true, ContextMenuAction::FindInDocument),
            spec("Jump To Page...", "Ctrl+G", true, ContextMenuAction::JumpToPage),
        ],
        vec![
            spec("Zoom In", "Ctrl++", true, ContextMenuAction::ZoomIn),
            spec("Zoom Out", "Ctrl+-", true, ContextMenuAction::ZoomOut),
            spec("Reset Zoom", "Ctrl+0", true, ContextMenuAction::ResetZoom),
        ],
        vec![
            spec(if toc_open { "Hide Table Of Contents" } else { "Show Table Of Contents" }, "", true, ContextMenuAction::ToggleToc),
            spec("Back To Library", "Esc", true, ContextMenuAction::BackToLibrary),
        ],
    ];
    assert(groups_view(groups@) =~= viewer_groups_spec(has_text_selection, toc_open)) by {
        let g = groups_view(groups@);
        let s = viewer_groups_spec(has_text_selection, toc_open);
        assert(g[0] =~= s[0]);
        assert(g[1] =~= s[1]);
        assert(g[2] =~= s[2]);
    }
    groups
}

} // verus!

verus! {

/// Where the folder shown in the details panel sits, as the folder menu
/// needs it.
#[derive(Debug, Clone, Copy, PartialEq, Eq, Structural)]
pub struct FolderMenuFacts {
    pub has_parent: bool,
    pub has_grandparent: bool,
    pub can_move_earlier: bool,
    pub can_move_later: bool,
}

/// Computes the folder menu's facts: whether the details folder has a
/// parent (among the folders in view), whether that parent has a parent
/// (in the library's folders), and whether it can move earlier or later
/// among its siblings.
pub fn folder_menu_facts(
    active_folders: &Vec<crate::model::Folder>,
    library_folders: &Vec<crate::model::Folder>,
    details_folder_id: Option<FolderId>,
) -> (facts: FolderMenuFacts)
    ensures
        ({
            let details = match details_folder_id {
                None => None,
                Some(id) => crate::folders::find_folder(active_folders@, id),
            };
            &&& facts.has_parent == (details.is_some() && details.unwrap().parent_id.is_some())
            &&& facts.has_grandparent == (details.is_some() && details.unwrap().parent_id.is_some()
                && crate::folders::find_folder(library_folders@, details.unwrap().parent_id.unwrap()).is_some()
                && crate::folders::find_folder(library_folders@, details.unwrap().parent_id.unwrap()).unwrap().parent_id.is_some())
            &&& details.is_none() ==> !facts.can_move_earlier && !facts.can_move_later
            &&& details.is_some() ==> exists|parent: Option<FolderId>, ids: Seq<FolderId>, index: int|
                #[trigger] crate::folders::sibling_order_of(active_folders@, details_folder_id.unwrap(), parent, ids, index)
                    && facts.can_move_earlier == (index > 0) && facts.can_move_later == (index + 1 < ids.len())
        }),
{
    let details = crate::folders::selected_folder(active_folders, details_folder_id);
    let parent = match details {
        None => None,
        Some(folder) => folder.parent_id,
    };
    let has_parent = parent.is_some();
    let has_grandparent = match parent {
        None => false,
        Some(parent_id) => match crate::folders::find_folder_index(library_folders, parent_id) {
            None => false,
            Some(i) => library_folders[i].parent_id.is_some(),
        },
    };
    let order = crate::folders::selected_folder_sibling_order(active_folders, details_folder_id);
    let (can_move_earlier, can_move_later) = match &order {
        None => (false, false),
        Some((_, ids, index)) => (*index > 0, *index < ids.len() && ids.len() - *index > 1),
    };
    proof {
        if order.is_some() {
            let (p, ids, index) = order.unwrap();
            assert(crate::folders::sibling_order_of(active_folders@, details_folder_id.unwrap(), p, ids@, index as int));
        }
    }
    FolderMenuFacts { has_parent, has_grandparent, can_move_earlier, can_move_later }
}

/// The commands a menu item can issue.
#[derive(Debug, PartialEq, Eq)]
pub enum ContextCommand {
    OpenLibraryEntry(EntryId),
    FolderSelected(Option<FolderId>),
    EntryCheckboxToggled(EntryId),
    ClearLibrarySelection,
    StartTagEntry(EntryId),
    OpenMoveSelectionDialog,
    OpenExportDialog(ExportSource),
    RevealEntryInFileManager(EntryId),
    OpenEntryContainingFolder(EntryId),
    RelinkMissingEntry(EntryId),
    SaveDetailsMetadata,
    RequestConfirmation(ConfirmationAction),
    BulkRefreshPdfMetadata,
    BulkRebuildThumbnails,
    BulkReindex,
    OpenCreateFolderDialog,
    RenameSelectedFolder,
    StartTagRename(String),
    OpenMoveSelectedFolderDialog,
    MoveSelectedFolderToRoot,
    MoveSelectedFolderUp,
    MoveSelectedFolderEarlier,
    MoveSelectedFolderLater,
    RequestDeleteSelectedFolder,
    ImportFolderDialog,
    LibraryRefresh,
    ToggleViewMode,
    LibrarySortChanged(LibrarySortMode),
    CopyViewerTextSelection,
    OpenViewerFind,
    OpenJumpDialog,
    ZoomIn,
    ZoomOut,
    ResetZoom,
    ToggleSidebar,
    BackToLibrary,
}

/// The command a chosen item issues for the menu's target; `None` when
/// the action does not apply to that target. Export of an entry exports
/// the whole selection when the entry is part of a larger selection.
pub open spec fn context_command_spec(
    action: ContextMenuAction,
    target: ContextMenuTarget,
    selected: Seq<EntryId>,
    details_entry_id: Option<EntryId>,
) -> Option<ContextCommand> {
    match action {
        ContextMenuAction::Open => match target {
            ContextMenuTarget::LibraryEntry(id) => Some(ContextCommand::OpenLibraryEntry(id)),
            ContextMenuTarget::Folder(f) => Some(ContextCommand::FolderSelected(f)),
            _ => None,
        },
        ContextMenuAction::SelectOnly => None,
        ContextMenuAction::AddToSelection => match target {
            ContextMenuTarget::LibraryEntry(id) => Some(ContextCommand::EntryCheckboxToggled(id)),
            _ => None,
        },
        ContextMenuAction::ClearSelection => Some(ContextCommand::ClearLibrarySelection),
        ContextMenuAction::AddTag => match target {
            ContextMenuTarget::LibraryEntry(id) => Some(ContextCommand::StartTagEntry(id)),
            _ => None,
        },
        ContextMenuAction::MoveTo => Some(ContextCommand::OpenMoveSelectionDialog),
        ContextMenuAction::Export => match target {
            ContextMenuTarget::LibraryEntry(id) => if selected.len() > 1 && selected.contains(id) {
                Some(ContextCommand::OpenExportDialog(ExportSource::SelectedEntries))
            } else {
                Some(ContextCommand::OpenExportDialog(ExportSource::SingleEntry(id)))
            },
            ContextMenuTarget::Folder(Some(f)) => Some(ContextCommand::OpenExportDialog(ExportSource::Folder(f))),
            ContextMenuTarget::Tag(tag) => Some(ContextCommand::OpenExportDialog(ExportSource::Tag(tag))),
            ContextMenuTarget::LibraryBackground => if selected.len() > 0 {
                Some(ContextCommand::OpenExportDialog(ExportSource::SelectedEntries))
            } else {
                None
            },
            _ => None,
        },
        ContextMenuAction::RevealInFileManager => match target {
            ContextMenuTarget::LibraryEntry(id) => Some(ContextCommand::RevealEntryInFileManager(id)),
            _ => None,
        },
        ContextMenuAction::OpenContainingFolder => match target {
            ContextMenuTarget::LibraryEntry(id) => Some(ContextCommand::OpenEntryContainingFolder(id)),
            _ => None,
        },
        ContextMenuAction::RelinkMissingFile => match target {
            ContextMenuTarget::LibraryEntry(id) => Some(ContextCommand::RelinkMissingEntry(id)),
            _ => None,
        },
        ContextMenuAction::SaveDetails => Some(ContextCommand::SaveDetailsMetadata),
        ContextMenuAction::ResetDetails => match details_entry_id {
            Some(id) => Some(ContextCommand::RequestConfirmation(ConfirmationAction::ResetDetailsMetadata(id))),
            None => None,
        },
        ContextMenuAction::RefreshMetadata => Some(ContextCommand::BulkRefreshPdfMetadata),
        ContextMenuAction::ResetMetadata => Some(ContextCommand::RequestConfirmation(ConfirmationAction::BulkResetDisplayMetadata)),
        ContextMenuAction::RebuildThumbnails => Some(ContextCommand::BulkRebuildThumbnails),
        ContextMenuAction::Reindex => Some(ContextCommand::BulkReindex),
        ContextMenuAction::DeleteFromLibrary => Some(ContextCommand::RequestConfirmation(ConfirmationAction::BulkDeleteFromLibrary)),
        ContextMenuAction::SelectFolder => match target {
            ContextMenuTarget::Folder(f) => Some(ContextCommand::FolderSelected(f)),
            _ => None,
        },
        ContextMenuAction::NewFolder => Some(ContextCommand::OpenCreateFolderDialog),
        ContextMenuAction::RenameFolder => Some(ContextCommand::RenameSelectedFolder),
        ContextMenuAction::RenameTag => match target {
            ContextMenuTarget::Tag(tag) => Some(ContextCommand::StartTagRename(tag)),
            _ => None,
        },
        ContextMenuAction::DeleteTag => match target {
            ContextMenuTarget::Tag(tag) => Some(ContextCommand::RequestConfirmation(ConfirmationAction::DeleteTag(tag))),
            _ => None,
        },
        ContextMenuAction::MoveFolderTo => Some(ContextCommand::OpenMoveSelectedFolderDialog),
        ContextMenuAction::MoveFolderToRoot => Some(ContextCommand::MoveSelectedFolderToRoot),
        ContextMenuAction::MoveFolderUp => Some(ContextCommand::MoveSelectedFolderUp),
        ContextMenuAction::MoveFolderEarlier => Some(ContextCommand::MoveSelectedFolderEarlier),
        ContextMenuAction::MoveFolderLater => Some(ContextCommand::MoveSelectedFolderLater),
        ContextMenuAction::DeleteFolder => Some(ContextCommand::RequestDeleteSelectedFolder),
        ContextMenuAction::ImportFolder => Some(ContextCommand::ImportFolderDialog),
        ContextMenuAction::RefreshLibrary => Some(ContextCommand::LibraryRefresh),
        ContextMenuAction::ToggleLayout => Some(ContextCommand::ToggleViewMode),
        ContextMenuAction::SortManual => Some(ContextCommand::LibrarySortChanged(LibrarySortMode::Manual)),
        ContextMenuAction::SortTitleAsc => Some(ContextCommand::LibrarySortChanged(LibrarySortMode::TitleAsc)),
        ContextMenuAction::CopyViewerSelection => Some(ContextCommand::CopyViewerTextSelection),
        ContextMenuAction::FindInDocument => Some(ContextCommand::OpenViewerFind),
        ContextMenuAction::JumpToPage => Some(ContextCommand::OpenJumpDialog),
        ContextMenuAction::ZoomIn => Some(ContextCommand::ZoomIn),
        ContextMenuAction::ZoomOut => Some(ContextCommand::ZoomOut),
        ContextMenuAction::ResetZoom => Some(ContextCommand::ResetZoom),
        ContextMenuAction::ToggleToc => Some(ContextCommand::ToggleSidebar),
        ContextMenuAction::BackToLibrary => Some(ContextCommand::BackToLibrary),
    }
}

/// The command a chosen item issues; `None` when no menu is open or the
/// action does not apply to the menu's target.
pub fn context_menu_action_message(
    action: ContextMenuAction,
    open_menu_target: Option<&ContextMenuTarget>,
    selected: &Vec<EntryId>,
    details_entry_id: Option<EntryId>,
) -> (command: Option<ContextCommand>)
    ensures
        open_menu_target.is_none() ==> command.is_none(),
        open_menu_target.is_some() ==> command == context_command_spec(action, *open_menu_target.unwrap(), selected@, details_entry_id),
{
    let target = match open_menu_target {
        None => return None,
        Some(t) => t,
    };
    match action {
        ContextMenuAction::Open => match target {
            ContextMenuTarget::LibraryEntry(id) => Some(ContextCommand::OpenLibraryEntry(*id)),
            ContextMenuTarget::Folder(f) => Some(ContextCommand::FolderSelected(*f)),
            _ => None,
        },
        ContextMenuAction::SelectOnly => None,
        ContextMenuAction::AddToSelection => match target {
            ContextMenuTarget::LibraryEntry(id) => Some(ContextCommand::EntryCheckboxToggled(*id)),
            _ => None,
        },
        ContextMenuAction::ClearSelection => Some(ContextCommand::ClearLibrarySelection),
        ContextMenuAction::AddTag => match target {
            ContextMenuTarget::LibraryEntry(id) => Some(ContextCommand::StartTagEntry(*id)),
            _ => None,
        },
        ContextMenuAction::MoveTo => Some(ContextCommand::OpenMoveSelectionDialog),
        ContextMenuAction::Export => match target {
            ContextMenuTarget::LibraryEntry(id) => if selected.len() > 1 && vec_contains_u64(selected, *id) {
                Some(ContextCommand::OpenExportDialog(ExportSource::SelectedEntries))
            } else {
                Some(ContextCommand::OpenExportDialog(ExportSource::SingleEntry(*id)))
            },
            ContextMenuTarget::Folder(Some(f)) => Some(ContextCommand::OpenExportDialog(ExportSource::Folder(*f))),
            ContextMenuTarget::Tag(tag) => Some(ContextCommand::OpenExportDialog(ExportSource::Tag(tag.clone()))),
            ContextMenuTarget::LibraryBackground => if selected.len() > 0 {
                Some(ContextCommand::OpenExportDialog(ExportSource::SelectedEntries))
            } else {
                None
            },
            _ => None,
        },
        ContextMenuAction::RevealInFileManager => match target {
            ContextMenuTarget::LibraryEntry(id) => Some(ContextCommand::RevealEntryInFileManager(*id)),
            _ => None,
        },
        ContextMenuAction::OpenContainingFolder => match target {
            ContextMenuTarget::LibraryEntry(id) => Some(ContextCommand::OpenEntryContainingFolder(*id)),
            _ => None,
        },
        ContextMenuAction::RelinkMissingFile => match target {
            ContextMenuTarget::LibraryEntry(id) => Some(ContextCommand::RelinkMissingEntry(*id)),
            _ => None,
        },
        ContextMenuAction::SaveDetails => Some(ContextCommand::SaveDetailsMetadata),
        ContextMenuAction::ResetDetails => match details_entry_id {
            Some(id) => Some(ContextCommand::RequestConfirmation(ConfirmationAction::ResetDetailsMetadata(id))),
            None => None,
        },
        ContextMenuAction::RefreshMetadata => Some(ContextCommand::BulkRefreshPdfMetadata),
        ContextMenuAction::ResetMetadata => Some(ContextCommand::RequestConfirmation(ConfirmationAction::BulkResetDisplayMetadata)),
        ContextMenuAction::RebuildThumbnails => Some(ContextCommand::BulkRebuildThumbnails),
        ContextMenuAction::Reindex => Some(ContextCommand::BulkReindex),
        ContextMenuAction::DeleteFromLibrary => Some(ContextCommand::RequestConfirmation(ConfirmationAction::BulkDeleteFromLibrary)),
        ContextMenuAction::SelectFolder => match target {
            ContextMenuTarget::Folder(f) => Some(ContextCommand::FolderSelected(*f)),
            _ => None,
        },
        ContextMenuAction::NewFolder => Some(ContextCommand::OpenCreateFolderDialog),
        ContextMenuAction::RenameFolder => Some(ContextCommand::RenameSelectedFolder),
        ContextMenuAction::RenameTag => match target {
            ContextMenuTarget::Tag(tag) => Some(ContextCommand::StartTagRename(tag.clone())),
            _ => None,
        },
        ContextMenuAction::DeleteTag => match target {
            ContextMenuTarget::Tag(tag) => Some(ContextCommand::RequestConfirmation(ConfirmationAction::DeleteTag(tag.clone()))),
            _ => None,
        },
        ContextMenuAction::MoveFolderTo => Some(ContextCommand::OpenMoveSelectedFolderDialog),
        ContextMenuAction::MoveFolderToRoot => Some(ContextCommand::MoveSelectedFolderToRoot),
        ContextMenuAction::MoveFolderUp => Some(ContextCommand::MoveSelectedFolderUp),
        ContextMenuAction::MoveFolderEarlier => Some(ContextCommand::MoveSelectedFolderEarlier),
        ContextMenuAction::MoveFolderLater => Some(ContextCommand::MoveSelectedFolderLater),
        ContextMenuAction::DeleteFolder => Some(ContextCommand::RequestDeleteSelectedFolder),
        ContextMenuAction::ImportFolder => Some(ContextCommand::ImportFolderDialog),
        ContextMenuAction::RefreshLibrary => Some(ContextCommand::LibraryRefresh),
        ContextMenuAction::ToggleLayout => Some(ContextCommand::ToggleViewMode),
        ContextMenuAction::SortManual => Some(ContextCommand::LibrarySortChanged(LibrarySortMode::Manual)),
        ContextMenuAction::SortTitleAsc => Some(ContextCommand::LibrarySortChanged(LibrarySortMode::TitleAsc)),
        ContextMenuAction::CopyViewerSelection => Some(ContextCommand::CopyViewerTextSelection),
        ContextMenuAction::FindInDocument => Some(ContextCommand::OpenViewerFind),
        ContextMenuAction::JumpToPage => Some(ContextCommand::OpenJumpDialog),
        ContextMenuAction::ZoomIn => Some(ContextCommand::ZoomIn),
        ContextMenuAction::ZoomOut => Some(ContextCommand::ZoomOut),
        ContextMenuAction::ResetZoom => Some(ContextCommand::ResetZoom),
        ContextMenuAction::ToggleToc => Some(ContextCommand::ToggleSidebar),
        ContextMenuAction::BackToLibrary => Some(ContextCommand::BackToLibrary),
    }
}

} // verus!

verus! {

/// What the menus read of the library and the viewer when they open.
#[derive(Debug, Clone, Copy)]
pub struct MenuFacts {
    /// The right-clicked entry is among the selected ones.
    pub entry_in_selection: bool,
    pub selection_count: usize,
    /// The right-clicked entry's file is missing.
    pub entry_missing: bool,
    pub folder: FolderMenuFacts,
    /// The right-clicked tag exists.
    pub tag_exists: bool,
    pub has_selection: bool,
    pub compact_view_mode: bool,
    pub has_text_selection: bool,
    pub toc_open: bool,
}

/// The menu of whatever was right-clicked.
pub open spec fn menu_groups_spec(target: ContextMenuTarget, facts: MenuFacts) -> Seq<Seq<ItemView>> {
    match target {
        ContextMenuTarget::LibraryEntry(_) => library_entry_groups_spec(
            facts.entry_in_selection,
            facts.selection_count as nat,
            facts.entry_missing,
        ),
        ContextMenuTarget::Folder(folder_id) => folder_groups_spec(
            folder_id.is_some(),
            facts.folder.has_parent,
            facts.folder.has_grandparent,
            facts.folder.can_move_earlier,
            facts.folder.can_move_later,
        ),
        ContextMenuTarget::Tag(_) => tag_groups_spec(facts.tag_exists),
        ContextMenuTarget::LibraryBackground => background_groups_spec(facts.has_selection, facts.compact_view_mode),
        ContextMenuTarget::ViewerCanvas => viewer_groups_spec(facts.has_text_selection, facts.toc_open),
    }
}

/// The menu groups for `target`.
pub fn context_menu_groups(target: &ContextMenuTarget, facts: MenuFacts) -> (groups: Vec<Vec<ContextMenuItemSpec>>)
    ensures
        groups_view(groups@) == menu_groups_spec(*target, facts),
{
    match target {
        ContextMenuTarget::LibraryEntry(_) => library_entry_context_groups(
            facts.entry_in_selection,
            facts.selection_count,
            facts.entry_missing,
        ),
        ContextMenuTarget::Folder(folder_id) => folder_context_groups(
            folder_id.is_some(),
            facts.folder.has_parent,
            facts.folder.has_grandparent,
            facts.folder.can_move_earlier,
            facts.folder.can_move_later,
        ),
        ContextMenuTarget::Tag(_) => tag_context_groups(facts.tag_exists),
        ContextMenuTarget::LibraryBackground => library_background_context_groups(facts.has_selection, facts.compact_view_mode),
        ContextMenuTarget::ViewerCanvas => viewer_context_groups(facts.has_text_selection, facts.toc_open),
    }
}

} // verus!
