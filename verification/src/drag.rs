//! Drag and drop in the library: what a drag carries, and what dropping
//! PDFs or a folder does.

use vstd::prelude::*;

use crate::folders::{folder_can_move_into, folder_drag_manual_reorder, in_subtree, reorder_before_target_spec, ids_sorted_by_order_and_name, children_of, find_folder};
use crate::model::{EntryId, Folder, FolderId, LibrarySortMode};
use crate::seqs::{position_of, lemma_position_of, lemma_position_of_is, vec_contains_u64, vec_position_u64, vec_eq_u64};
use crate::text::{format_count, format_count_spec, trim, trim_spec};

verus! {

/// PDFs can be reordered by dragging only in manual order, with no search,
/// tag filter or open folder narrowing the list.
pub open spec fn can_drag_reorder_spec(
    sort_mode: LibrarySortMode,
    search_query: Seq<char>,
    has_search_results: bool,
    has_tag_filter: bool,
    has_selected_folder: bool,
) -> bool {
    sort_mode == LibrarySortMode::Manual && trim_spec(search_query).len() == 0 && !has_search_results && !has_tag_filter
        && !has_selected_folder
}

/// Whether dragging PDFs reorders them.
pub fn can_drag_reorder_library(
    sort_mode: LibrarySortMode,
    search_query: &str,
    has_search_results: bool,
    has_tag_filter: bool,
    has_selected_folder: bool,
) -> (can: bool)
    ensures
        can == can_drag_reorder_spec(sort_mode, search_query@, has_search_results, has_tag_filter, has_selected_folder),
{
    sort_mode == LibrarySortMode::Manual && trim(search_query).unicode_len() == 0 && !has_search_results && !has_tag_filter
        && !has_selected_folder
}

/// A drag of PDFs in progress.
#[derive(Debug)]
pub struct LibraryDragState {
    /// The entry the drag started on.
    pub entry_id: EntryId,
    /// The entries carried, in list order.
    pub entry_ids: Vec<EntryId>,
    pub source_index: usize,
    /// Whether a multi-selection is carried.
    pub multi: bool,
    /// Whether the pointer moved far enough to count as a drag.
    pub active: bool,
    /// Whether the pointer is over the parent-folder drop box.
    pub parent_drop_target: bool,
    /// The folder the pointer rests on, if any.
    pub drop_target: Option<FolderId>,
    /// Where the carried entries would land among the others.
    pub target_index: usize,
}

/// The entries a drag starting on `entry_id` carries: the visible selected
/// entries in list order when the entry is part of a larger selection,
/// else the entry alone.
pub open spec fn dragged_entries_spec(entry_id: EntryId, visible: Seq<EntryId>, selected: Seq<EntryId>) -> (Seq<EntryId>, bool) {
    let multi = selected.len() > 1 && selected.contains(entry_id);
    if multi {
        (visible.filter(|id: EntryId| selected.contains(id)), true)
    } else {
        (seq![entry_id], false)
    }
}

/// Starts dragging PDFs from `entry_id`; `None` when the entry is not
/// visible.
pub fn begin_library_drag(entry_id: EntryId, visible: &Vec<EntryId>, selected: &Vec<EntryId>) -> (drag: Option<LibraryDragState>)
    ensures
        position_of(visible@, entry_id) < 0 ==> drag.is_none(),
        position_of(visible@, entry_id) >= 0 ==> drag.is_some() && {
            let d = drag.unwrap();
            let (ids, multi) = dragged_entries_spec(entry_id, visible@, selected@);
            &&& d.entry_id == entry_id
            &&& d.entry_ids@ == ids
            &&& d.multi == multi
            &&& d.source_index == position_of(visible@, entry_id)
            &&& !d.active && !d.parent_drop_target && d.drop_target.is_none()
            &&& d.target_index == d.source_index
        },
{
    proof {
        lemma_position_of(visible@, entry_id);
    }
    let source_index = match vec_position_u64(visible, entry_id) {
        None => return None,
        Some(i) => i,
    };
    proof {
        lemma_position_of_is(visible@, entry_id, source_index as int);
    }
    let multi = selected.len() > 1 && vec_contains_u64(selected, entry_id);
    let entry_ids = if multi {
        let ghost pred = |id: EntryId| selected@.contains(id);
        let mut ids: Vec<EntryId> = Vec::new();
        let mut i: usize = 0;
        while i < visible.len()
            invariant
                pred == |id: EntryId| selected@.contains(id),
                i <= visible@.len(),
                ids@ == visible@.take(i as int).filter(pred),
            decreases visible@.len() - i,
        {
            let id = visible[i];
            proof {
                assert(visible@.take(i as int + 1) =~= visible@.take(i as int).push(id));
                visible@.take(i as int).lemma_filter_push(id, pred);
            }
            if vec_contains_u64(selected, id) {
                ids.push(id);
            }
            i = i + 1;
        }
        assert(visible@.take(visible@.len() as int) =~= visible@);
        ids
    } else {
        let mut ids: Vec<EntryId> = Vec::new();
        ids.push(entry_id);
        assert(ids@ =~= seq![entry_id]);
        ids
    };
    Some(LibraryDragState {
        entry_id,
        entry_ids,
        source_index,
        multi,
        active: false,
        parent_drop_target: false,
        drop_target: None,
        target_index: source_index,
    })
}

/// The list order after dropping the dragged entries at `target_index`:
/// the other entries keep their order and the dragged ones are placed,
/// in their own order, before the `target_index`-th of them (at the end
/// when there are fewer).
pub open spec fn reorder_for_drag_spec(ids: Seq<EntryId>, dragged: Seq<EntryId>, target_index: nat) -> Seq<EntryId> {
    let rest = ids.filter(|id: EntryId| !dragged.contains(id));
    let at = if target_index <= rest.len() { target_index as int } else { rest.len() as int };
    rest.take(at) + dragged + rest.skip(at)
}

/// The list order after dropping the dragged entries.
pub fn reorder_entry_ids_for_drag(ids: &Vec<EntryId>, dragged: &Vec<EntryId>, target_index: usize) -> (order: Vec<EntryId>)
    ensures
        order@ == reorder_for_drag_spec(ids@, dragged@, target_index as nat),
{
    let ghost pred = |id: EntryId| !dragged@.contains(id);
    let mut rest: Vec<EntryId> = Vec::new();
    let mut i: usize = 0;
    while i < ids.len()
        invariant
            pred == |id: EntryId| !dragged@.contains(id),
            i <= ids@.len(),
            rest@ == ids@.take(i as int).filter(pred),
        decreases ids@.len() - i,
    {
        let id = ids[i];
        proof {
            assert(ids@.take(i as int + 1) =~= ids@.take(i as int).push(id));
            ids@.take(i as int).lemma_filter_push(id, pred);
        }
        if !vec_contains_u64(dragged, id) {
            rest.push(id);
        }
        i = i + 1;
    }
    assert(ids@.take(ids@.len() as int) =~= ids@);
    let at = if target_index <= rest.len() { target_index } else { rest.len() };
    let mut order: Vec<EntryId> = Vec::new();
    let mut k: usize = 0;
    while k < at
        invariant
            k <= at <= rest@.len(),
            order@ == rest@.take(k as int),
        decreases at - k,
    {
        order.push(rest[k]);
        k = k + 1;
        assert(order@ =~= rest@.take(k as int));
    }
    let mut d: usize = 0;
    while d < dragged.len()
        invariant
            d <= dragged@.len(),
            at <= rest@.len(),
            order@ == rest@.take(at as int) + dragged@.take(d as int),
        decreases dragged@.len() - d,
    {
        order.push(dragged[d]);
        d = d + 1;
        assert(order@ =~= rest@.take(at as int) + dragged@.take(d as int));
    }
    assert(dragged@.take(dragged@.len() as int) =~= dragged@);
    let mut k2: usize = at;
    while k2 < rest.len()
        invariant
            at <= k2 <= rest@.len(),
            order@ == rest@.take(at as int) + dragged@ + rest@.subrange(at as int, k2 as int),
        decreases rest@.len() - k2,
    {
        order.push(rest[k2]);
        k2 = k2 + 1;
        assert(order@ =~= rest@.take(at as int) + dragged@ + rest@.subrange(at as int, k2 as int));
    }
    assert(rest@.subrange(at as int, rest@.len() as int) =~= rest@.skip(at as int));
    order
}

} // verus!

verus! {

/// What dropping dragged PDFs does.
#[derive(Debug)]
pub enum LibraryDropOutcome {
    /// The pointer never moved far enough: it was a click on the entry.
    Click(EntryId),
    /// Nothing changes; the view keeps its scroll position.
    KeepScroll,
    /// Nothing happens.
    Nothing,
    /// Put the entries into `folder`, with the status to show.
    MoveToFolder { entry_ids: Vec<EntryId>, folder: FolderId, status: String },
    /// Take the entries out of `folder` (to the library root).
    RemoveFromFolder { entry_ids: Vec<EntryId>, folder: FolderId, status: String },
    /// Save this manual order of the entries.
    SaveOrder { order: Vec<EntryId>, status: String },
}

/// The outcome of a PDF drop and whether folders opened during the drag
/// close again.
#[derive(Debug)]
pub struct LibraryDrop {
    pub outcome: LibraryDropOutcome,
    pub collapse_expanded: bool,
}

/// The status shown while dropped PDFs move to the parent folder.
pub open spec fn status_to_parent(count: nat) -> Seq<char> {
    "Moving "@ + format_count_spec(count, "PDF"@) + " to parent folder..."@
}

/// The status shown while dropped PDFs move to the library root.
pub open spec fn status_to_root(count: nat) -> Seq<char> {
    "Moving "@ + format_count_spec(count, "PDF"@) + " to library root..."@
}

/// The status shown while dropped PDFs are added to a folder.
pub open spec fn status_to_folder(count: nat) -> Seq<char> {
    "Adding "@ + format_count_spec(count, "PDF"@) + " to folder..."@
}

/// The status shown while a new manual order is saved.
pub open spec fn status_saving_order(multi: bool, count: nat) -> Seq<char> {
    if multi {
        "Saving manual order for "@ + crate::text::decimal(count) + " PDFs..."@
    } else {
        "Saving manual PDF order..."@
    }
}

fn status_with_count(prefix: &str, count: usize, suffix: &str) -> (status: String)
    ensures
        status@ == prefix@ + format_count_spec(count as nat, "PDF"@) + suffix@,
{
    let mut status = prefix.to_owned();
    let counted = format_count(count, "PDF");
    status.append(counted.as_str());
    status.append(suffix);
    status
}

/// Decides what dropping dragged PDFs does; `folders` is the library's
/// folder tree, `visible` the entries in view in their order. A drag that
/// never started is a click. On the parent-folder box, the PDFs go to the
/// open folder's parent, or out of the open folder when it sits at the
/// root. On a folder, they are added to it unless it is the open folder.
/// Elsewhere they are reordered, when reordering is possible and changes
/// the order.
pub fn finish_library_drag(
    drag: LibraryDragState,
    selected_folder: Option<FolderId>,
    folders: &Vec<Folder>,
    can_reorder: bool,
    visible: &Vec<EntryId>,
) -> (result: LibraryDrop)
    ensures
        !drag.active ==> result.collapse_expanded && result.outcome == LibraryDropOutcome::Click(drag.entry_id),
        drag.active && drag.parent_drop_target ==> result.collapse_expanded && match selected_folder {
            None => result.outcome == LibraryDropOutcome::KeepScroll,
            Some(current) => if drag.entry_ids@.len() == 0 {
                result.outcome == LibraryDropOutcome::Nothing
            } else {
                let parent = crate::folders::parent_directory_folder_spec(folders@, selected_folder);
                match parent {
                    Some(p) => match result.outcome {
                        LibraryDropOutcome::MoveToFolder { entry_ids, folder, status } => entry_ids@ == drag.entry_ids@
                            && folder == p && status@ == status_to_parent(drag.entry_ids@.len()),
                        _ => false,
                    },
                    None => match result.outcome {
                        LibraryDropOutcome::RemoveFromFolder { entry_ids, folder, status } => entry_ids@ == drag.entry_ids@
                            && folder == current && status@ == status_to_root(drag.entry_ids@.len()),
                        _ => false,
                    },
                }
            },
        },
        drag.active && !drag.parent_drop_target && drag.drop_target.is_some() ==> {
            let target = drag.drop_target.unwrap();
            if selected_folder == Some(target) {
                result.collapse_expanded && result.outcome == LibraryDropOutcome::KeepScroll
            } else if drag.entry_ids@.len() == 0 {
                !result.collapse_expanded && result.outcome == LibraryDropOutcome::Nothing
            } else {
                !result.collapse_expanded && match result.outcome {
                    LibraryDropOutcome::MoveToFolder { entry_ids, folder, status } => entry_ids@ == drag.entry_ids@
                        && folder == target && status@ == status_to_folder(drag.entry_ids@.len()),
                    _ => false,
                }
            }
        },
        drag.active && !drag.parent_drop_target && drag.drop_target.is_none() ==> result.collapse_expanded && {
            let next = reorder_for_drag_spec(visible@, drag.entry_ids@, drag.target_index as nat);
            if !can_reorder || next == visible@ {
                result.outcome == LibraryDropOutcome::KeepScroll
            } else if next.len() != visible@.len() {
                result.outcome == LibraryDropOutcome::Nothing
            } else {
                match result.outcome {
                    LibraryDropOutcome::SaveOrder { order, status } => order@ == next
                        && status@ == status_saving_order(drag.multi, drag.entry_ids@.len()),
                    _ => false,
                }
            }
        },
{
    if !drag.active {
        return LibraryDrop { outcome: LibraryDropOutcome::Click(drag.entry_id), collapse_expanded: true };
    }
    let count = drag.entry_ids.len();
    if drag.parent_drop_target {
        let current = match selected_folder {
            None => return LibraryDrop { outcome: LibraryDropOutcome::KeepScroll, collapse_expanded: true },
            Some(current) => current,
        };
        if count == 0 {
            return LibraryDrop { outcome: LibraryDropOutcome::Nothing, collapse_expanded: true };
        }
        return match crate::folders::parent_directory_folder_id(folders, selected_folder) {
            Some(parent) => LibraryDrop {
                outcome: LibraryDropOutcome::MoveToFolder {
                    entry_ids: drag.entry_ids,
                    folder: parent,
                    status: status_with_count("Moving ", count, " to parent folder..."),
                },
                collapse_expanded: true,
            },
            None => LibraryDrop {
                outcome: LibraryDropOutcome::RemoveFromFolder {
                    entry_ids: drag.entry_ids,
                    folder: current,
                    status: status_with_count("Moving ", count, " to library root..."),
                },
                collapse_expanded: true,
            },
        };
    }
    if let Some(target) = drag.drop_target {
        if selected_folder == Some(target) {
            return LibraryDrop { outcome: LibraryDropOutcome::KeepScroll, collapse_expanded: true };
        }
        if count == 0 {
            return LibraryDrop { outcome: LibraryDropOutcome::Nothing, collapse_expanded: false };
        }
        return LibraryDrop {
            outcome: LibraryDropOutcome::MoveToFolder {
                entry_ids: drag.entry_ids,
                folder: target,
                status: status_with_count("Adding ", count, " to folder..."),
            },
            collapse_expanded: false,
        };
    }
    if !can_reorder {
        return LibraryDrop { outcome: LibraryDropOutcome::KeepScroll, collapse_expanded: true };
    }
    let next = reorder_entry_ids_for_drag(visible, &drag.entry_ids, drag.target_index);
    if vec_eq_u64(&next, visible) {
        return LibraryDrop { outcome: LibraryDropOutcome::KeepScroll, collapse_expanded: true };
    }
    if next.len() != visible.len() {
        return LibraryDrop { outcome: LibraryDropOutcome::Nothing, collapse_expanded: true };
    }
    let status = if drag.multi {
        let mut s = "Saving manual order for ".to_owned();
        let number = crate::text::decimal_string(count as u64);
        s.append(number.as_str());
        s.append(" PDFs...");
        s
    } else {
        "Saving manual PDF order...".to_owned()
    };
    LibraryDrop { outcome: LibraryDropOutcome::SaveOrder { order: next, status }, collapse_expanded: true }
}

} // verus!

verus! {

/// A drag of a folder in progress.
#[derive(Debug)]
pub struct FolderDragState {
    pub folder_id: FolderId,
    /// Whether the pointer moved far enough to count as a drag.
    pub active: bool,
    /// Whether the pointer is over the parent-folder drop box.
    pub parent_drop_target: bool,
    /// The folder to move into, once the pointer rested on it long enough.
    pub drop_target: Option<FolderId>,
    /// The sibling the pointer is over, before which the folder would be
    /// placed.
    pub pending_drop_target: Option<FolderId>,
}

/// What dropping a dragged folder does.
#[derive(Debug)]
pub enum FolderDropOutcome {
    /// The pointer never moved far enough: a click on the folder, in the
    /// tree or in the grid.
    Click { folder_id: FolderId, in_tree: bool },
    /// Move the folder under `parent` (the root when `None`).
    MoveFolder { folder_id: FolderId, parent: Option<FolderId>, status: String },
    /// Move the folder into `target`, which flashes.
    MoveInto { folder_id: FolderId, target: FolderId, status: String },
    /// The move is refused with this error.
    Refused { error: String },
    /// Save this manual order of the siblings under `parent`.
    SaveFolderOrder { parent: Option<FolderId>, order: Vec<FolderId>, status: String },
    Nothing,
}

/// The outcome of a folder drop and whether folders opened during the drag
/// close again.
#[derive(Debug)]
pub struct FolderDrop {
    pub outcome: FolderDropOutcome,
    pub collapse_expanded: bool,
}

/// The folder moves under `parent`.
pub open spec fn is_move_folder(o: FolderDropOutcome, folder_id: FolderId, parent: Option<FolderId>) -> bool {
    match o {
        FolderDropOutcome::MoveFolder { folder_id: f, parent: p, status } => f == folder_id && p == parent
            && status@ == "Moving folder..."@,
        _ => false,
    }
}

/// The folder moves into `target`.
pub open spec fn is_move_into(o: FolderDropOutcome, folder_id: FolderId, target: FolderId) -> bool {
    match o {
        FolderDropOutcome::MoveInto { folder_id: f, target: t, status } => f == folder_id && t == target
            && status@ == "Moving folder..."@,
        _ => false,
    }
}

/// The move is refused.
pub open spec fn is_refused_move(o: FolderDropOutcome) -> bool {
    match o {
        FolderDropOutcome::Refused { error } => error@ == "That folder cannot be moved there."@,
        _ => false,
    }
}

/// Dropping the folder on sibling `target` either saves the sibling order
/// with the folder placed before `target`, or does nothing when the two are
/// not siblings, are the same folder, or the order would not change.
pub open spec fn is_folder_reorder(o: FolderDropOutcome, folders: Seq<Folder>, folder_id: FolderId, target: FolderId) -> bool {
    let folder = find_folder(folders, folder_id);
    let target_folder = find_folder(folders, target);
    let not_siblings = folder.is_none() || target_folder.is_none() || folder.unwrap().parent_id != target_folder.unwrap().parent_id
        || folder.unwrap().id == target_folder.unwrap().id;
    match o {
        FolderDropOutcome::SaveFolderOrder { parent, order, status } => status@ == "Saving manual folder order..."@
            && !not_siblings
            && exists|ids: Seq<FolderId>|
                #[trigger] ids_sorted_by_order_and_name(ids, children_of(folders, folder.unwrap().parent_id))
                    && reorder_before_target_spec(ids, folder_id, target) == Some(order@)
                    && order@ != ids
                    && parent == folder.unwrap().parent_id,
        FolderDropOutcome::Nothing => not_siblings || exists|ids: Seq<FolderId>|
            #[trigger] ids_sorted_by_order_and_name(ids, children_of(folders, folder.unwrap().parent_id))
                && (reorder_before_target_spec(ids, folder_id, target).is_none()
                    || reorder_before_target_spec(ids, folder_id, target) == Some(ids)),
        _ => false,
    }
}

/// Decides what dropping a dragged folder does. A drag that never started
/// is a click. On the parent-folder box the folder moves to the open
/// folder's parent. On a folder it moves into it, unless that is the
/// folder itself or lies below it. On a sibling it is placed before it.
pub fn finish_folder_drag(
    drag: FolderDragState,
    started_in_tree: bool,
    selected_folder: Option<FolderId>,
    folders: &Vec<Folder>,
) -> (result: FolderDrop)
    ensures
        !drag.active ==> result.collapse_expanded
            && result.outcome == (FolderDropOutcome::Click { folder_id: drag.folder_id, in_tree: started_in_tree }),
        drag.active && drag.parent_drop_target ==> result.collapse_expanded
            && is_move_folder(result.outcome, drag.folder_id, crate::folders::parent_directory_folder_spec(folders@, selected_folder)),
        drag.active && !drag.parent_drop_target && drag.drop_target.is_some()
            && in_subtree(folders@, drag.folder_id, drag.drop_target.unwrap())
            ==> result.collapse_expanded && is_refused_move(result.outcome),
        drag.active && !drag.parent_drop_target && drag.drop_target.is_some()
            && !in_subtree(folders@, drag.folder_id, drag.drop_target.unwrap())
            ==> !result.collapse_expanded && is_move_into(result.outcome, drag.folder_id, drag.drop_target.unwrap()),
        drag.active && !drag.parent_drop_target && drag.drop_target.is_none() && drag.pending_drop_target.is_none()
            ==> result.collapse_expanded && result.outcome == FolderDropOutcome::Nothing,
        drag.active && !drag.parent_drop_target && drag.drop_target.is_none() && drag.pending_drop_target.is_some()
            ==> result.collapse_expanded
            && is_folder_reorder(result.outcome, folders@, drag.folder_id, drag.pending_drop_target.unwrap()),
{
    if !drag.active {
        return FolderDrop {
            outcome: FolderDropOutcome::Click { folder_id: drag.folder_id, in_tree: started_in_tree },
            collapse_expanded: true,
        };
    }
    if drag.parent_drop_target {
        let parent = crate::folders::parent_directory_folder_id(folders, selected_folder);
        return FolderDrop {
            outcome: FolderDropOutcome::MoveFolder { folder_id: drag.folder_id, parent, status: "Moving folder...".to_owned() },
            collapse_expanded: true,
        };
    }
    if let Some(target) = drag.drop_target {
        if !folder_can_move_into(folders, drag.folder_id, target) {
            return FolderDrop {
                outcome: FolderDropOutcome::Refused { error: "That folder cannot be moved there.".to_owned() },
                collapse_expanded: true,
            };
        }
        return FolderDrop {
            outcome: FolderDropOutcome::MoveInto { folder_id: drag.folder_id, target, status: "Moving folder...".to_owned() },
            collapse_expanded: false,
        };
    }
    let target = match drag.pending_drop_target {
        None => return FolderDrop { outcome: FolderDropOutcome::Nothing, collapse_expanded: true },
        Some(target) => target,
    };
    match folder_drag_manual_reorder(folders, drag.folder_id, target) {
        None => FolderDrop { outcome: FolderDropOutcome::Nothing, collapse_expanded: true },
        Some((parent, order)) => FolderDrop {
            outcome: FolderDropOutcome::SaveFolderOrder { parent, order, status: "Saving manual folder order...".to_owned() },
            collapse_expanded: true,
        },
    }
}

} // verus!

verus! {

/// Starts dragging folder `folder_id`; `None` when the library has no
/// such folder.
pub fn begin_folder_drag(folder_id: FolderId, library_folders: &Vec<Folder>) -> (drag: Option<FolderDragState>)
    ensures
        drag.is_some() == find_folder(library_folders@, folder_id).is_some(),
        drag.is_some() ==> ({
            let d = drag.unwrap();
            d.folder_id == folder_id && !d.active && !d.parent_drop_target && d.drop_target.is_none()
                && d.pending_drop_target.is_none()
        }),
{
    match crate::folders::find_folder_index(library_folders, folder_id) {
        None => None,
        Some(_) => Some(FolderDragState {
            folder_id,
            active: false,
            parent_drop_target: false,
            drop_target: None,
            pending_drop_target: None,
        }),
    }
}

} // verus!
