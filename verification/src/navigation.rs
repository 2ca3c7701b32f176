//! Moving around the folder tree: showing a folder's details, selecting it
//! in the tree, opening it, and right-clicking entries and folders.

use vstd::prelude::*;

use crate::folders::find_folder;
use crate::model::{EntryId, Folder, FolderId, LibraryEntry};
use crate::selection::{details_after, LibrarySelection};
use crate::seqs::vec_contains_u64;

verus! {

/// The folder details panel.
#[derive(Debug)]
pub struct FolderPanel {
    pub details_folder_id: Option<FolderId>,
    pub folder_details_sidebar_open: bool,
    pub folder_rename_input: String,
}

/// The rename field of the details panel: the shown folder's name, or
/// empty when none is shown or it is unknown.
pub open spec fn rename_input_for(folders: Seq<Folder>, details_folder_id: Option<FolderId>) -> Seq<char> {
    match details_folder_id {
        None => Seq::empty(),
        Some(id) => match find_folder(folders, id) {
            None => Seq::empty(),
            Some(f) => f.name@,
        },
    }
}

impl FolderPanel {
    /// Fills the rename field from the folder shown.
    pub fn sync_folder_rename_input(&mut self, folders: &Vec<Folder>)
        ensures
            final(self).folder_rename_input@ == rename_input_for(folders@, old(self).details_folder_id),
            final(self).details_folder_id == old(self).details_folder_id,
            final(self).folder_details_sidebar_open == old(self).folder_details_sidebar_open,
    {
        self.folder_rename_input = match crate::folders::selected_folder_name(folders, self.details_folder_id) {
            None => String::new(),
            Some(name) => name,
        };
    }
}

/// Entries unselected and the details editor emptied.
pub open spec fn selection_cleared(selection: LibrarySelection) -> bool {
    &&& selection.selected_library_entries@.len() == 0
    &&& selection.library_selection_anchor.is_none()
    &&& selection.details_entry_id.is_none()
    &&& selection.details_title_input@.len() == 0
    &&& selection.details_author_input@.len() == 0
}

fn clear_entries(selection: &mut LibrarySelection)
    ensures
        selection_cleared(*final(selection)),
{
    selection.selected_library_entries = Vec::new();
    selection.library_selection_anchor = None;
    selection.details_entry_id = None;
    selection.details_title_input = String::new();
    selection.details_author_input = String::new();
}

/// Shows a folder (or the root, for `None`) in the details panel, which
/// opens; the entry selection is cleared.
pub fn select_folder_for_details(selection: &mut LibrarySelection, panel: &mut FolderPanel, folder_id: Option<FolderId>, folders: &Vec<Folder>)
    ensures
        selection_cleared(*final(selection)),
        final(panel).details_folder_id == folder_id,
        final(panel).folder_details_sidebar_open,
        final(panel).folder_rename_input@ == rename_input_for(folders@, folder_id),
{
    clear_entries(selection);
    panel.details_folder_id = folder_id;
    panel.folder_details_sidebar_open = true;
    panel.sync_folder_rename_input(folders);
}

/// Selects a folder in the tree: leaves the Trash Can, clears the entry
/// selection and shows the folder in a closed details panel.
pub fn select_folder_in_tree(
    selection: &mut LibrarySelection,
    panel: &mut FolderPanel,
    trash_view_active: &mut bool,
    folder_id: Option<FolderId>,
    folders: &Vec<Folder>,
)
    ensures
        !*final(trash_view_active),
        selection_cleared(*final(selection)),
        final(panel).details_folder_id == folder_id,
        !final(panel).folder_details_sidebar_open,
        final(panel).folder_rename_input@ == rename_input_for(folders@, folder_id),
{
    *trash_view_active = false;
    clear_entries(selection);
    panel.details_folder_id = folder_id;
    panel.folder_details_sidebar_open = false;
    panel.sync_folder_rename_input(folders);
}

/// Opens a folder from the tree: it becomes the folder shown in the
/// library and is selected in the tree.
pub fn open_folder_from_tree(
    selection: &mut LibrarySelection,
    panel: &mut FolderPanel,
    trash_view_active: &mut bool,
    selected_folder: &mut Option<FolderId>,
    folder_id: Option<FolderId>,
    folders: &Vec<Folder>,
)
    ensures
        *final(selected_folder) == folder_id,
        !*final(trash_view_active),
        selection_cleared(*final(selection)),
        final(panel).details_folder_id == folder_id,
        !final(panel).folder_details_sidebar_open,
        final(panel).folder_rename_input@ == rename_input_for(folders@, folder_id),
{
    *selected_folder = folder_id;
    select_folder_in_tree(selection, panel, trash_view_active, folder_id, folders);
}

/// Closes the sidebar details: the entry selection is cleared and no
/// folder is shown.
pub fn clear_library_sidebar_details(selection: &mut LibrarySelection, panel: &mut FolderPanel, entries: &Vec<LibraryEntry>)
    ensures
        final(selection).selected_library_entries@.len() == 0,
        final(selection).library_selection_anchor.is_none(),
        final(selection).details_entry_id.is_none(),
        final(panel).details_folder_id.is_none(),
        !final(panel).folder_details_sidebar_open,
        final(panel).folder_rename_input@.len() == 0,
{
    selection.clear_library_selection(entries);
    panel.details_folder_id = None;
    panel.folder_details_sidebar_open = false;
    panel.folder_rename_input = String::new();
}

/// Right-clicking an entry: an entry outside the selection becomes the
/// selection as a click would make it; an entry inside it is shown in the
/// details editor.
pub fn select_for_context_menu(
    selection: &mut LibrarySelection,
    entry_id: EntryId,
    shift: bool,
    ctrl: bool,
    visible: &Vec<EntryId>,
    entries: &Vec<LibraryEntry>,
)
    requires
        old(selection).wf(),
    ensures
        final(selection).wf(),
        old(selection).selected_library_entries@.contains(entry_id) ==> {
            &&& final(selection).selected_library_entries@ == old(selection).selected_library_entries@
            &&& final(selection).library_selection_anchor == old(selection).library_selection_anchor
            &&& final(selection).details_view() == details_after(
                old(selection).selected_library_entries@,
                entries@,
                (Some(entry_id), old(selection).details_title_input@, old(selection).details_author_input@),
            )
        },
        !old(selection).selected_library_entries@.contains(entry_id) ==> {
            let clicked = crate::selection::click_spec(Seq::empty(), None, entry_id, shift, ctrl, visible@);
            (final(selection).selected_library_entries@, final(selection).library_selection_anchor)
                == crate::selection::prune_spec(clicked.0, clicked.1, visible@)
        },
{
    if !vec_contains_u64(&selection.selected_library_entries, entry_id) {
        selection.clear_library_selection(entries);
        assert(selection.selected_library_entries@ =~= Seq::<EntryId>::empty());
        selection.select_library_entry(entry_id, shift, ctrl, visible, entries);
    } else {
        selection.details_entry_id = Some(entry_id);
        selection.sync_details_editor_to_selection(entries);
    }
}

} // verus!

verus! {

/// `id` names a folder that `folders` lacks.
pub open spec fn vanished(folders: Seq<Folder>, id: Option<FolderId>) -> bool {
    id matches Some(f) && find_folder(folders, f).is_none()
}

fn is_vanished(folders: &Vec<Folder>, id: Option<FolderId>) -> (gone: bool)
    ensures
        gone == vanished(folders@, id),
{
    match id {
        None => false,
        Some(f) => crate::folders::find_folder_index(folders, f).is_none(),
    }
}

/// After the library's folders are loaded again. Outside the Trash Can, an
/// open folder that no longer exists gives way to the root and the
/// preferences are to be saved (the result says so); otherwise a folder
/// shown in the details panel that no longer exists leaves it. The rename
/// field then follows the folders in view.
pub fn library_folders_loaded(
    library_folders: &Vec<Folder>,
    trash_folders: &Vec<Folder>,
    trash_view_active: bool,
    selected_folder: &mut Option<FolderId>,
    panel: &mut FolderPanel,
) -> (save_preferences: bool)
    ensures
        save_preferences == (!trash_view_active && vanished(library_folders@, *old(selected_folder))),
        *final(selected_folder) == (if save_preferences { None } else { *old(selected_folder) }),
        final(panel).details_folder_id == (if !save_preferences && !trash_view_active && vanished(
            library_folders@,
            old(panel).details_folder_id,
        ) {
            None
        } else {
            old(panel).details_folder_id
        }),
        final(panel).folder_details_sidebar_open == old(panel).folder_details_sidebar_open,
        final(panel).folder_rename_input@ == rename_input_for(
            if trash_view_active { trash_folders@ } else { library_folders@ },
            final(panel).details_folder_id,
        ),
{
    let active = crate::folders::active_library_folders(trash_view_active, library_folders, trash_folders);
    if !trash_view_active && is_vanished(library_folders, *selected_folder) {
        *selected_folder = None;
        panel.sync_folder_rename_input(active);
        return true;
    }
    if !trash_view_active && is_vanished(library_folders, panel.details_folder_id) {
        panel.details_folder_id = None;
    }
    panel.sync_folder_rename_input(active);
    false
}

/// After the Trash Can's folders are loaded again: while it is shown, an
/// open folder or a folder in the details panel that no longer exists goes.
/// The rename field then follows the folders in view.
pub fn trash_folders_loaded(
    library_folders: &Vec<Folder>,
    trash_folders: &Vec<Folder>,
    trash_view_active: bool,
    selected_folder: &mut Option<FolderId>,
    panel: &mut FolderPanel,
)
    ensures
        *final(selected_folder) == (if trash_view_active && vanished(trash_folders@, *old(selected_folder)) {
            None
        } else {
            *old(selected_folder)
        }),
        final(panel).details_folder_id == (if trash_view_active && vanished(trash_folders@, old(panel).details_folder_id) {
            None
        } else {
            old(panel).details_folder_id
        }),
        final(panel).folder_details_sidebar_open == old(panel).folder_details_sidebar_open,
        final(panel).folder_rename_input@ == rename_input_for(
            if trash_view_active { trash_folders@ } else { library_folders@ },
            final(panel).details_folder_id,
        ),
{
    let active = crate::folders::active_library_folders(trash_view_active, library_folders, trash_folders);
    if trash_view_active && is_vanished(trash_folders, *selected_folder) {
        *selected_folder = None;
    }
    if trash_view_active && is_vanished(trash_folders, panel.details_folder_id) {
        panel.details_folder_id = None;
    }
    panel.sync_folder_rename_input(active);
}

} // verus!
