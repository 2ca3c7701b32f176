//! The "Move to folder" picker: what it moves, the destination chosen, the
//! folders opened in its tree, and the move it asks for when confirmed.

use vstd::prelude::*;

use crate::folders::{
    folder_can_move_into, in_subtree, move_picker_expanded_folders, parent_directory_folder_id,
    parent_directory_folder_spec,
};
use crate::model::{EntryId, Folder, FolderId};
use crate::seqs::{vec_contains_u64, vec_copy_u64};

verus! {

/// What the picker moves.
#[derive(Debug, Clone, Copy, PartialEq, Eq, Structural)]
pub enum LibraryMoveTarget {
    /// The selected entries.
    SelectedEntries,
    /// One folder.
    Folder(FolderId),
}

/// The move picker: its target, the destination chosen (the library root
/// for `None`) and the folders open in its tree.
#[derive(Debug)]
pub struct LibraryMovePicker {
    pub target: LibraryMoveTarget,
    pub selected_destination: Option<FolderId>,
    pub expanded_folders: Vec<FolderId>,
}

/// The move that confirming the picker asks for.
#[derive(Debug, PartialEq, Eq)]
pub enum MoveRequest {
    /// Move these entries into `destination`.
    MoveEntries { entry_ids: Vec<EntryId>, destination: Option<FolderId> },
    /// Move the folder under `destination`.
    MoveFolder { folder_id: FolderId, destination: Option<FolderId> },
    /// Nothing to move.
    Nothing,
}

/// The folders a picker opens with: those of the library not collapsed in
/// its tree.
pub open spec fn opens_expanded(expanded: Seq<FolderId>, folders: Seq<Folder>, collapsed: Seq<FolderId>) -> bool {
    forall|x: FolderId| expanded.contains(x) <==> (!collapsed.contains(x)
        && exists|i: int| 0 <= i < folders.len() && (#[trigger] folders[i]).id == x)
}

/// Opens the picker for the selected entries, starting at the folder shown;
/// `None` when nothing is selected.
pub fn open_for_selection(
    selected_entries: &Vec<EntryId>,
    selected_folder: Option<FolderId>,
    folders: &Vec<Folder>,
    collapsed: &Vec<FolderId>,
) -> (picker: Option<LibraryMovePicker>)
    ensures
        picker.is_some() == (selected_entries@.len() > 0),
        picker matches Some(p) ==> p.target == LibraryMoveTarget::SelectedEntries
            && p.selected_destination == selected_folder
            && opens_expanded(p.expanded_folders@, folders@, collapsed@),
{
    if selected_entries.len() == 0 {
        return None;
    }
    Some(LibraryMovePicker {
        target: LibraryMoveTarget::SelectedEntries,
        selected_destination: selected_folder,
        expanded_folders: move_picker_expanded_folders(folders, collapsed),
    })
}

/// Opens the picker for the folder shown in the details panel, starting at
/// its parent; `None` when no folder is shown.
pub fn open_for_folder(
    details_folder_id: Option<FolderId>,
    folders: &Vec<Folder>,
    collapsed: &Vec<FolderId>,
) -> (picker: Option<LibraryMovePicker>)
    ensures
        picker.is_some() == details_folder_id.is_some(),
        picker matches Some(p) ==> p.target == LibraryMoveTarget::Folder(details_folder_id.unwrap())
            && p.selected_destination == parent_directory_folder_spec(folders@, details_folder_id)
            && opens_expanded(p.expanded_folders@, folders@, collapsed@),
{
    match details_folder_id {
        None => None,
        Some(folder_id) => Some(LibraryMovePicker {
            target: LibraryMoveTarget::Folder(folder_id),
            selected_destination: parent_directory_folder_id(folders, details_folder_id),
            expanded_folders: move_picker_expanded_folders(folders, collapsed),
        }),
    }
}

/// Whether the picker refuses `destination`: a folder cannot move into
/// itself or below itself.
pub open spec fn destination_refused(target: LibraryMoveTarget, folders: Seq<Folder>, destination: Option<FolderId>) -> bool {
    match (target, destination) {
        (LibraryMoveTarget::Folder(folder_id), Some(d)) => in_subtree(folders, folder_id, d),
        _ => false,
    }
}

/// The folders open in the tree after toggling `folder_id`.
pub open spec fn toggled_open(expanded: Seq<FolderId>, folder_id: FolderId, x: FolderId) -> bool {
    if expanded.contains(folder_id) {
        x != folder_id && expanded.contains(x)
    } else {
        expanded.contains(x) || x == folder_id
    }
}

impl LibraryMovePicker {
    /// Chooses `destination`, unless the picker refuses it; says whether it
    /// was taken.
    pub fn select_destination(&mut self, folders: &Vec<Folder>, destination: Option<FolderId>) -> (taken: bool)
        ensures
            taken == !destination_refused(old(self).target, folders@, destination),
            final(self).selected_destination == (if taken { destination } else { old(self).selected_destination }),
            final(self).target == old(self).target,
            final(self).expanded_folders@ == old(self).expanded_folders@,
    {
        if let LibraryMoveTarget::Folder(folder_id) = self.target {
            if let Some(d) = destination {
                proof {
                    crate::folders::lemma_in_subtree_root(folders@, folder_id);
                }
                if d == folder_id || !folder_can_move_into(folders, folder_id, d) {
                    return false;
                }
            }
        }
        self.selected_destination = destination;
        true
    }

    /// Opens `folder_id` in the picker's tree, or closes it when open.
    pub fn toggle_expanded(&mut self, folder_id: FolderId)
        ensures
            forall|x: FolderId| final(self).expanded_folders@.contains(x) == toggled_open(old(self).expanded_folders@, folder_id, x),
            final(self).target == old(self).target,
            final(self).selected_destination == old(self).selected_destination,
    {
        if vec_contains_u64(&self.expanded_folders, folder_id) {
            let mut kept: Vec<FolderId> = Vec::new();
            let mut i: usize = 0;
            while i < self.expanded_folders.len()
                invariant
                    i <= self.expanded_folders@.len(),
                    forall|x: FolderId| kept@.contains(x) == (x != folder_id && exists|j: int| 0 <= j < i && self.expanded_folders@[j] == x),
                decreases self.expanded_folders@.len() - i,
            {
                let id = self.expanded_folders[i];
                let ghost before = kept@;
                if id != folder_id {
                    kept.push(id);
                }
                proof {
                    assert forall|x: FolderId| kept@.contains(x) == (x != folder_id && exists|j: int| 0 <= j < i + 1 && self.expanded_folders@[j] == x) by {
                        if kept@.contains(x) && x != id {
                            let t = kept@.index_of(x);
                            assert(before[t] == x);
                        }
                        if before.contains(x) {
                            let t = before.index_of(x);
                            assert(kept@[t] == x);
                        }
                        if x == id && x != folder_id {
                            assert(kept@[kept@.len() - 1] == x);
                        }
                    }
                }
                i = i + 1;
            }
            proof {
                assert forall|x: FolderId| (exists|j: int| 0 <= j < self.expanded_folders@.len() && self.expanded_folders@[j] == x)
                    == self.expanded_folders@.contains(x) by {
                    if self.expanded_folders@.contains(x) {
                        let j = self.expanded_folders@.index_of(x);
                        assert(self.expanded_folders@[j] == x);
                    }
                }
            }
            self.expanded_folders = kept;
        } else {
            let ghost before = self.expanded_folders@;
            self.expanded_folders.push(folder_id);
            proof {
                assert forall|x: FolderId| self.expanded_folders@.contains(x) == (before.contains(x) || x == folder_id) by {
                    if before.contains(x) {
                        let t = before.index_of(x);
                        assert(self.expanded_folders@[t] == x);
                    }
                    if self.expanded_folders@.contains(x) && x != folder_id {
                        let t = self.expanded_folders@.index_of(x);
                        assert(before[t] == x);
                    }
                    if x == folder_id {
                        assert(self.expanded_folders@[before.len() as int] == x);
                    }
                }
            }
        }
    }

    /// The move that confirming the picker asks for: the selected entries,
    /// in selection order, into the destination (nothing when none is
    /// selected), or the folder under the destination.
    pub fn confirm(&self, selected_entries: &Vec<EntryId>) -> (request: MoveRequest)
        ensures
            match self.target {
                LibraryMoveTarget::SelectedEntries => if selected_entries@.len() == 0 {
                    request == MoveRequest::Nothing
                } else {
                    request matches MoveRequest::MoveEntries { entry_ids, destination }
                        && entry_ids@ == selected_entries@ && destination == self.selected_destination
                },
                LibraryMoveTarget::Folder(folder_id) => request == (MoveRequest::MoveFolder {
                    folder_id,
                    destination: self.selected_destination,
                }),
            },
    {
        match self.target {
            LibraryMoveTarget::SelectedEntries => {
                if selected_entries.len() == 0 {
                    MoveRequest::Nothing
                } else {
                    MoveRequest::MoveEntries {
                        entry_ids: vec_copy_u64(selected_entries),
                        destination: self.selected_destination,
                    }
                }
            },
            LibraryMoveTarget::Folder(folder_id) => MoveRequest::MoveFolder {
                folder_id,
                destination: self.selected_destination,
            },
        }
    }
}

/// Toggling a folder twice in the picker's tree leaves the same folders
/// open.
pub proof fn law_toggle_expanded_twice(expanded: Seq<FolderId>, middle: Seq<FolderId>, folder_id: FolderId, x: FolderId)
    requires
        forall|y: FolderId| middle.contains(y) == toggled_open(expanded, folder_id, y),
    ensures
        toggled_open(middle, folder_id, x) == expanded.contains(x),
{
    assert(middle.contains(folder_id) == toggled_open(expanded, folder_id, folder_id));
    assert(middle.contains(x) == toggled_open(expanded, folder_id, x));
}

/// The picker never lets a folder be moved into itself or below itself.
pub proof fn law_picker_never_moves_a_folder_into_itself(
    before: LibraryMovePicker,
    after: LibraryMovePicker,
    folders: Seq<Folder>,
    destination: Option<FolderId>,
    taken: bool,
)
    requires
        taken == !destination_refused(before.target, folders, destination),
        after.selected_destination == (if taken { destination } else { before.selected_destination }),
        after.target == before.target,
        before.target matches LibraryMoveTarget::Folder(f) ==> (before.selected_destination matches Some(d)
            ==> !in_subtree(folders, f, d)),
    ensures
        after.target matches LibraryMoveTarget::Folder(f) ==> (after.selected_destination matches Some(d)
            ==> !in_subtree(folders, f, d)),
{
}

} // verus!
