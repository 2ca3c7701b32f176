//! Queries over the folder tree: lookups, subtrees, where a folder may
//! move, breadcrumbs, and the ordering of sibling folders.

use vstd::prelude::*;

use crate::model::{entry_in_progress, Folder, FolderId, FolderView, LibraryEntry};
use crate::order::{stable_order, stably_sorted};
use crate::seqs::{lemma_distinct_within_bound, lemma_position_of, lemma_position_of_is, position_of, vec_contains_u64};
use crate::text::{lowercase, to_lowercase};

verus! {

/// The first folder in `folders` with the given id.
pub open spec fn find_folder(folders: Seq<Folder>, id: FolderId) -> Option<Folder>
    decreases folders.len(),
{
    if folders.len() == 0 {
        None
    } else if folders[0].id == id {
        Some(folders[0])
    } else {
        find_folder(folders.drop_first(), id)
    }
}

proof fn lemma_find_folder_skip(folders: Seq<Folder>, id: FolderId, i: int)
    requires
        0 <= i <= folders.len(),
        forall|j: int| 0 <= j < i ==> (#[trigger] folders[j]).id != id,
    ensures
        find_folder(folders, id) == find_folder(folders.skip(i), id),
    decreases i,
{
    if i == 0 {
        assert(folders.skip(0) =~= folders);
    } else {
        assert(folders[0].id != id);
        let rest = folders.drop_first();
        assert forall|j: int| 0 <= j < i - 1 implies (#[trigger] rest[j]).id != id by {
            assert(rest[j] == folders[j + 1]);
        }
        lemma_find_folder_skip(rest, id, i - 1);
        assert(rest.skip(i - 1) =~= folders.skip(i));
    }
}

proof fn lemma_find_folder_found(folders: Seq<Folder>, id: FolderId)
    ensures
        match find_folder(folders, id) {
            Some(f) => f.id == id && exists|i: int| 0 <= i < folders.len() && folders[i] == f,
            None => forall|i: int| 0 <= i < folders.len() ==> (#[trigger] folders[i]).id != id,
        },
    decreases folders.len(),
{
    if folders.len() > 0 {
        let rest = folders.drop_first();
        lemma_find_folder_found(rest, id);
        if folders[0].id != id {
            match find_folder(rest, id) {
                Some(f) => {
                    let i = choose|i: int| 0 <= i < rest.len() && rest[i] == f;
                    assert(folders[i + 1] == f);
                },
                None => {
                    assert forall|i: int| 0 <= i < folders.len() implies (#[trigger] folders[i]).id != id by {
                        if i > 0 {
                            assert(folders[i] == rest[i - 1]);
                        }
                    }
                },
            }
        } else {
            assert(folders[0] == folders[0]);
        }
    }
}

/// The position of the first folder with the given id.
pub fn find_folder_index(folders: &Vec<Folder>, id: FolderId) -> (index: Option<usize>)
    ensures
        index.is_some() == find_folder(folders@, id).is_some(),
        index.is_some() ==> index.unwrap() < folders@.len() && folders@[index.unwrap() as int] == find_folder(folders@, id).unwrap()
            && folders@[index.unwrap() as int].id == id,
        index.is_some() ==> forall|j: int| 0 <= j < index.unwrap() ==> (#[trigger] folders@[j]).id != id,
{
    let mut i: usize = 0;
    while i < folders.len()
        invariant
            i <= folders@.len(),
            forall|j: int| 0 <= j < i ==> (#[trigger] folders@[j]).id != id,
        decreases folders@.len() - i,
    {
        if folders[i].id == id {
            proof {
                lemma_find_folder_skip(folders@, id, i as int);
            }
            return Some(i);
        }
        i = i + 1;
    }
    proof {
        lemma_find_folder_skip(folders@, id, i as int);
    }
    None
}

/// The folder list in view: the Trash Can's folders while it is shown,
/// the library's otherwise.
pub fn active_library_folders<'a>(
    trash_view_active: bool,
    library_folders: &'a Vec<Folder>,
    library_trash_folders: &'a Vec<Folder>,
) -> (folders: &'a Vec<Folder>)
    ensures
        folders@ == (if trash_view_active { library_trash_folders@ } else { library_folders@ }),
{
    if trash_view_active {
        library_trash_folders
    } else {
        library_folders
    }
}

/// The folder with id `selected`, if one is selected and exists.
pub fn selected_folder<'a>(folders: &'a Vec<Folder>, selected: Option<FolderId>) -> (folder: Option<&'a Folder>)
    ensures
        folder.is_some() == (selected.is_some() && find_folder(folders@, selected.unwrap()).is_some()),
        folder.is_some() ==> *folder.unwrap() == find_folder(folders@, selected.unwrap()).unwrap(),
{
    match selected {
        None => None,
        Some(id) => match find_folder_index(folders, id) {
            None => None,
            Some(i) => Some(&folders[i]),
        },
    }
}

/// The name of the selected folder, if one is selected and exists.
pub fn selected_folder_name(folders: &Vec<Folder>, selected: Option<FolderId>) -> (name: Option<String>)
    ensures
        name.is_some() == (selected.is_some() && find_folder(folders@, selected.unwrap()).is_some()),
        name.is_some() ==> name.unwrap()@ == find_folder(folders@, selected.unwrap()).unwrap().name@,
{
    match selected_folder(folders, selected) {
        None => None,
        Some(folder) => Some(folder.name.clone()),
    }
}

/// Whether some folder has `folder_id` as its parent.
pub fn folder_has_children(folders: &Vec<Folder>, folder_id: FolderId) -> (has: bool)
    ensures
        has == exists|i: int| 0 <= i < folders@.len() && (#[trigger] folders@[i]).parent_id == Some(folder_id),
{
    let mut i: usize = 0;
    while i < folders.len()
        invariant
            i <= folders@.len(),
            forall|j: int| 0 <= j < i ==> (#[trigger] folders@[j]).parent_id != Some(folder_id),
        decreases folders@.len() - i,
    {
        if folders[i].parent_id == Some(folder_id) {
            return true;
        }
        i = i + 1;
    }
    false
}

/// The parent of the selected folder: `None` when nothing is selected, the
/// selected folder is unknown, or it sits at the library root.
pub open spec fn parent_directory_folder_spec(folders: Seq<Folder>, selected: Option<FolderId>) -> Option<FolderId> {
    match selected {
        None => None,
        Some(id) => match find_folder(folders, id) {
            None => None,
            Some(f) => f.parent_id,
        },
    }
}

/// The parent of the selected folder.
pub fn parent_directory_folder_id(folders: &Vec<Folder>, selected: Option<FolderId>) -> (parent: Option<FolderId>)
    ensures
        parent == parent_directory_folder_spec(folders@, selected),
{
    match selected_folder(folders, selected) {
        None => None,
        Some(folder) => folder.parent_id,
    }
}

/// `child` is the id of a folder whose parent is `parent`.
pub open spec fn parent_of(folders: Seq<Folder>, child: FolderId, parent: FolderId) -> bool {
    exists|i: int| 0 <= i < folders.len() && (#[trigger] folders[i]).id == child && folders[i].parent_id == Some(parent)
}

/// `x` is `root`, or reaches `root` by at most `n` steps from a folder to
/// its parent.
pub open spec fn descends_within(folders: Seq<Folder>, x: FolderId, root: FolderId, n: nat) -> bool
    decreases n,
{
    if n == 0 {
        x == root
    } else {
        x == root || exists|p: FolderId| #[trigger] parent_of(folders, x, p) && descends_within(folders, p, root, (n - 1) as nat)
    }
}

/// `x` is `root` or one of its descendants.
pub open spec fn in_subtree(folders: Seq<Folder>, root: FolderId, x: FolderId) -> bool {
    exists|n: nat| #[trigger] descends_within(folders, x, root, n)
}

pub proof fn lemma_in_subtree_root(folders: Seq<Folder>, root: FolderId)
    ensures
        in_subtree(folders, root, root),
{
    assert(descends_within(folders, root, root, 0));
}

proof fn lemma_in_subtree_child(folders: Seq<Folder>, root: FolderId, p: FolderId, k: int)
    requires
        in_subtree(folders, root, p),
        0 <= k < folders.len(),
        folders[k].parent_id == Some(p),
    ensures
        in_subtree(folders, root, folders[k].id),
{
    let n = choose|n: nat| #[trigger] descends_within(folders, p, root, n);
    assert(parent_of(folders, folders[k].id, p));
    assert(descends_within(folders, folders[k].id, root, n + 1));
}

proof fn lemma_closed_set_holds_subtree(folders: Seq<Folder>, root: FolderId, ids: Seq<FolderId>, x: FolderId, n: nat)
    requires
        ids.contains(root),
        forall|j: int, k: int| 0 <= j < ids.len() && 0 <= k < folders.len() && folders[k].parent_id == Some(#[trigger] ids[j])
            ==> ids.contains(#[trigger] folders[k].id),
        descends_within(folders, x, root, n),
    ensures
        ids.contains(x),
    decreases n,
{
    if n > 0 && x != root {
        let p = choose|p: FolderId| #[trigger] parent_of(folders, x, p) && descends_within(folders, p, root, (n - 1) as nat);
        lemma_closed_set_holds_subtree(folders, root, ids, p, (n - 1) as nat);
        let k = choose|k: int| 0 <= k < folders.len() && (#[trigger] folders[k]).id == x && folders[k].parent_id == Some(p);
        let j = ids.index_of(p);
        assert(ids[j] == p);
    }
}

/// The ids of `folder_id` and of all folders below it, each once.
pub fn folder_subtree_ids(folders: &Vec<Folder>, folder_id: FolderId) -> (ids: Vec<FolderId>)
    ensures
        ids@.no_duplicates(),
        forall|x: FolderId| ids@.contains(x) <==> in_subtree(folders@, folder_id, x),
{
    let ghost universe = Seq::new((folders@.len() + 1) as nat, |t: int| if t == 0 { folder_id } else { folders@[t - 1].id });
    let mut ids: Vec<FolderId> = Vec::new();
    ids.push(folder_id);
    proof {
        lemma_in_subtree_root(folders@, folder_id);
        assert(universe[0] == folder_id);
    }
    let mut i: usize = 0;
    while i < ids.len()
        invariant
            universe == Seq::new((folders@.len() + 1) as nat, |t: int| if t == 0 { folder_id } else { folders@[t - 1].id }),
            ids@.len() >= 1,
            ids@[0] == folder_id,
            i <= ids@.len(),
            ids@.no_duplicates(),
            forall|j: int| 0 <= j < ids@.len() ==> in_subtree(folders@, folder_id, #[trigger] ids@[j]),
            forall|j: int| 0 <= j < ids@.len() ==> universe.contains(#[trigger] ids@[j]),
            forall|j: int, k: int| 0 <= j < i && 0 <= k < folders@.len() && folders@[k].parent_id == Some(#[trigger] ids@[j])
                ==> ids@.contains(#[trigger] folders@[k].id),
        decreases folders@.len() + 1 - i,
    {
        proof {
            lemma_distinct_within_bound(ids@, universe);
        }
        let parent = ids[i];
        let mut k: usize = 0;
        while k < folders.len()
            invariant
                universe == Seq::new((folders@.len() + 1) as nat, |t: int| if t == 0 { folder_id } else { folders@[t - 1].id }),
                ids@.len() >= 1,
                ids@[0] == folder_id,
                i < ids@.len(),
                parent == ids@[i as int],
                k <= folders@.len(),
                ids@.no_duplicates(),
                forall|j: int| 0 <= j < ids@.len() ==> in_subtree(folders@, folder_id, #[trigger] ids@[j]),
                forall|j: int| 0 <= j < ids@.len() ==> universe.contains(#[trigger] ids@[j]),
                forall|j: int, k2: int| 0 <= j < i && 0 <= k2 < folders@.len() && folders@[k2].parent_id == Some(#[trigger] ids@[j])
                    ==> ids@.contains(#[trigger] folders@[k2].id),
                forall|k2: int| 0 <= k2 < k && folders@[k2].parent_id == Some(parent) ==> ids@.contains(#[trigger] folders@[k2].id),
            decreases folders@.len() - k,
        {
            let child = &folders[k];
            if child.parent_id == Some(parent) && !vec_contains_u64(&ids, child.id) {
                let ghost before = ids@;
                ids.push(child.id);
                proof {
                    assert(ids@[ids@.len() - 1] == child.id);
                    assert forall|a: int, b: int| 0 <= a < b < ids@.len() implies ids@[a] != ids@[b] by {
                        if b == ids@.len() - 1 {
                            assert(ids@[a] == before[a]);
                        }
                    }
                    lemma_in_subtree_child(folders@, folder_id, parent, k as int);
                    assert(universe[k + 1] == child.id);
                    assert forall|x: u64| before.contains(x) implies ids@.contains(x) by {
                        let t = before.index_of(x);
                        assert(ids@[t] == x);
                    }
                }
            }
            k = k + 1;
        }
        i = i + 1;
    }
    proof {
        assert forall|x: FolderId| ids@.contains(x) <==> in_subtree(folders@, folder_id, x) by {
            if in_subtree(folders@, folder_id, x) {
                let n = choose|n: nat| #[trigger] descends_within(folders@, x, folder_id, n);
                assert(ids@[0] == folder_id);
                lemma_closed_set_holds_subtree(folders@, folder_id, ids@, x, n);
            }
            if ids@.contains(x) {
                let j = ids@.index_of(x);
                assert(ids@[j] == x);
            }
        }
    }
    ids
}

/// A folder may move into `destination` unless that is the folder itself
/// or lies below it.
pub fn folder_can_move_into(folders: &Vec<Folder>, folder_id: FolderId, destination: FolderId) -> (can: bool)
    ensures
        can == !in_subtree(folders@, folder_id, destination),
{
    let subtree = folder_subtree_ids(folders, folder_id);
    !vec_contains_u64(&subtree, destination)
}

} // verus!

verus! {

/// The folders whose parent is `parent`, in list order.
pub open spec fn children_of(folders: Seq<Folder>, parent: Option<FolderId>) -> Seq<Folder>
    decreases folders.len(),
{
    if folders.len() == 0 {
        Seq::empty()
    } else {
        let rest = children_of(folders.drop_last(), parent);
        if folders.last().parent_id == parent {
            rest.push(folders.last())
        } else {
            rest
        }
    }
}

/// The manual order of each folder.
pub open spec fn folder_ranks(folders: Seq<Folder>) -> Seq<i64> {
    folders.map_values(|f: Folder| f.manual_order)
}

/// The lowercase name of each folder.
pub open spec fn folder_sort_names(folders: Seq<Folder>) -> Seq<Seq<char>> {
    folders.map_values(|f: Folder| lowercase(f.name@))
}

/// `sorted` holds the folders of `input`, ordered by manual order and then
/// lowercase name, folders that tie keeping their relative order.
pub open spec fn sorted_by_order_and_name(sorted: Seq<FolderView>, input: Seq<Folder>) -> bool {
    exists|order: Seq<usize>|
        #![trigger stably_sorted(folder_ranks(input), folder_sort_names(input), order, input.len() as int)]
        stably_sorted(folder_ranks(input), folder_sort_names(input), order, input.len() as int)
        && sorted.len() == input.len()
        && forall|i: int| 0 <= i < sorted.len() ==> #[trigger] sorted[i] == input[order[i] as int]@
}

/// Copies of the folders whose parent is `parent`, in list order.
fn collect_children(folders: &Vec<Folder>, parent: Option<FolderId>) -> (children: Vec<Folder>)
    ensures
        children@.map_values(|f: Folder| f@) == children_of(folders@, parent).map_values(|f: Folder| f@),
{
    let mut children: Vec<Folder> = Vec::new();
    let mut i: usize = 0;
    while i < folders.len()
        invariant
            i <= folders@.len(),
            children@.map_values(|f: Folder| f@) == children_of(folders@.take(i as int), parent).map_values(|f: Folder| f@),
        decreases folders@.len() - i,
    {
        assert(folders@.take(i as int + 1).drop_last() =~= folders@.take(i as int));
        assert(folders@.take(i as int + 1).last() == folders@[i as int]);
        if folders[i].parent_id == parent {
            let copy = folders[i].duplicate();
            let ghost before = children@;
            children.push(copy);
            assert(children@.map_values(|f: Folder| f@) =~= before.map_values(|f: Folder| f@).push(folders@[i as int]@));
            assert(children_of(folders@.take(i as int), parent).push(folders@[i as int]).map_values(|f: Folder| f@)
                =~= children_of(folders@.take(i as int), parent).map_values(|f: Folder| f@).push(folders@[i as int]@));
        }
        i = i + 1;
    }
    assert(folders@.take(folders@.len() as int) =~= folders@);
    children
}

/// The folders whose parent is `parent`, ordered by manual order and then
/// lowercase name; folders that tie keep their list order.
pub fn sorted_sibling_folders(folders: &Vec<Folder>, parent: Option<FolderId>) -> (sorted: Vec<Folder>)
    ensures
        sorted_by_order_and_name(sorted@.map_values(|f: Folder| f@), children_of(folders@, parent)),
{
    let children = collect_children(folders, parent);
    let ghost input = children_of(folders@, parent);
    let mut ranks: Vec<i64> = Vec::new();
    let mut names: Vec<String> = Vec::new();
    let mut i: usize = 0;
    proof {
        assert(children@.len() == input.len()) by {
            assert(children@.map_values(|f: Folder| f@).len() == input.map_values(|f: Folder| f@).len());
        }
    }
    while i < children.len()
        invariant
            children@.len() == input.len(),
            children@.map_values(|f: Folder| f@) == input.map_values(|f: Folder| f@),
            i <= children@.len(),
            ranks@ == folder_ranks(input).take(i as int),
            names@.map_values(|s: String| s@) == folder_sort_names(input).take(i as int),
        decreases children@.len() - i,
    {
        assert(children@.map_values(|f: Folder| f@)[i as int] == input.map_values(|f: Folder| f@)[i as int]);
        ranks.push(children[i].manual_order);
        let lower = to_lowercase(children[i].name.as_str());
        let ghost before = names@;
        names.push(lower);
        assert(ranks@ =~= folder_ranks(input).take(i as int + 1));
        assert(names@.map_values(|s: String| s@) =~= before.map_values(|s: String| s@).push(lower@));
        assert(folder_sort_names(input).take(i as int + 1) =~= folder_sort_names(input).take(i as int).push(lower@));
        i = i + 1;
    }
    assert(ranks@ =~= folder_ranks(input));
    assert(names@.map_values(|s: String| s@) =~= folder_sort_names(input));
    let order = stable_order(&ranks, &names);
    let mut sorted: Vec<Folder> = Vec::new();
    let mut j: usize = 0;
    while j < order.len()
        invariant
            children@.len() == input.len(),
            children@.map_values(|f: Folder| f@) == input.map_values(|f: Folder| f@),
            stably_sorted(folder_ranks(input), folder_sort_names(input), order@, input.len() as int),
            j <= order@.len(),
            sorted@.len() == j,
            forall|t: int| 0 <= t < j ==> #[trigger] sorted@[t]@ == input[order@[t] as int]@,
        decreases order@.len() - j,
    {
        let p = order[j];
        assert(children@.map_values(|f: Folder| f@)[p as int] == input.map_values(|f: Folder| f@)[p as int]);
        sorted.push(children[p].duplicate());
        j = j + 1;
    }
    assert(stably_sorted(folder_ranks(input), folder_sort_names(input), order@, input.len() as int));
    let ghost views = sorted@.map_values(|f: Folder| f@);
    assert forall|t: int| 0 <= t < views.len() implies #[trigger] views[t] == input[order@[t] as int]@ by {
        assert(sorted@[t]@ == input[order@[t] as int]@);
    }
    sorted
}

/// The folders shown inside the selected folder (or at the root), in
/// manual order and then by lowercase name; none while a tag filter is on.
pub fn child_folders(folders: &Vec<Folder>, selected_folder: Option<FolderId>, tag_filter_active: bool) -> (children: Vec<Folder>)
    ensures
        tag_filter_active ==> children@.len() == 0,
        !tag_filter_active ==> sorted_by_order_and_name(children@.map_values(|f: Folder| f@), children_of(folders@, selected_folder)),
{
    if tag_filter_active {
        return Vec::new();
    }
    sorted_sibling_folders(folders, selected_folder)
}

} // verus!

verus! {

proof fn lemma_children_of_holds(folders: Seq<Folder>, parent: Option<FolderId>, k: int)
    requires
        0 <= k < folders.len(),
        folders[k].parent_id == parent,
    ensures
        exists|j: int| 0 <= j < children_of(folders, parent).len() && children_of(folders, parent)[j] == folders[k],
    decreases folders.len(),
{
    let rest = children_of(folders.drop_last(), parent);
    if k == folders.len() - 1 {
        assert(children_of(folders, parent)[rest.len() as int] == folders[k]);
    } else {
        lemma_children_of_holds(folders.drop_last(), parent, k);
        let j = choose|j: int| 0 <= j < rest.len() && rest[j] == folders.drop_last()[k];
        assert(folders.drop_last()[k] == folders[k]);
        assert(children_of(folders, parent)[j] == rest[j]);
    }
}

/// `ids` are the ids of the folders of `input`, ordered by manual order and
/// then lowercase name, folders that tie keeping their relative order.
pub open spec fn ids_sorted_by_order_and_name(ids: Seq<FolderId>, input: Seq<Folder>) -> bool {
    exists|order: Seq<usize>|
        #![trigger stably_sorted(folder_ranks(input), folder_sort_names(input), order, input.len() as int)]
        stably_sorted(folder_ranks(input), folder_sort_names(input), order, input.len() as int)
        && ids.len() == input.len()
        && forall|i: int| 0 <= i < ids.len() ==> #[trigger] ids[i] == input[order[i] as int].id
}

/// The ids of the folders whose parent is `parent`, in sibling order.
fn sorted_sibling_ids(folders: &Vec<Folder>, parent: Option<FolderId>) -> (ids: Vec<FolderId>)
    ensures
        ids_sorted_by_order_and_name(ids@, children_of(folders@, parent)),
{
    let sorted = sorted_sibling_folders(folders, parent);
    let ghost views = sorted@.map_values(|f: Folder| f@);
    let ghost input = children_of(folders@, parent);
    let mut ids: Vec<FolderId> = Vec::new();
    let mut i: usize = 0;
    while i < sorted.len()
        invariant
            views == sorted@.map_values(|f: Folder| f@),
            i <= sorted@.len(),
            ids@.len() == i,
            forall|t: int| 0 <= t < i ==> #[trigger] ids@[t] == views[t].id,
        decreases sorted@.len() - i,
    {
        ids.push(sorted[i].id);
        i = i + 1;
    }
    let ghost order = choose|order: Seq<usize>|
        #![trigger stably_sorted(folder_ranks(input), folder_sort_names(input), order, input.len() as int)]
        stably_sorted(folder_ranks(input), folder_sort_names(input), order, input.len() as int)
        && views.len() == input.len()
        && forall|t: int| 0 <= t < views.len() ==> #[trigger] views[t] == input[order[t] as int]@;
    assert(stably_sorted(folder_ranks(input), folder_sort_names(input), order, input.len() as int));
    assert forall|t: int| 0 <= t < ids@.len() implies #[trigger] ids@[t] == input[order[t] as int].id by {
        assert(views[t] == input[order[t] as int]@);
    }
    ids
}

proof fn lemma_sorted_ids_hold_child(ids: Seq<FolderId>, input: Seq<Folder>, j: int)
    requires
        ids_sorted_by_order_and_name(ids, input),
        ids.len() <= usize::MAX,
        0 <= j < input.len(),
    ensures
        ids.contains(input[j].id),
{
    let order = choose|order: Seq<usize>|
        #![trigger stably_sorted(folder_ranks(input), folder_sort_names(input), order, input.len() as int)]
        stably_sorted(folder_ranks(input), folder_sort_names(input), order, input.len() as int)
        && ids.len() == input.len()
        && forall|i: int| 0 <= i < ids.len() ==> #[trigger] ids[i] == input[order[i] as int].id;
    crate::order::lemma_stably_sorted_is_permutation(folder_ranks(input), folder_sort_names(input), order, input.len() as int);
    assert(order.contains(j as usize));
    let t = order.index_of(j as usize);
    assert(ids[t] == input[j].id);
}

/// The sibling order of folder `folder_id`: `parent` is its parent, `ids`
/// its siblings' ids in order (itself included), `index` its position.
pub open spec fn sibling_order_of(folders: Seq<Folder>, folder_id: FolderId, parent: Option<FolderId>, ids: Seq<FolderId>, index: int) -> bool {
    let folder = find_folder(folders, folder_id).unwrap();
    &&& find_folder(folders, folder_id).is_some()
    &&& parent == folder.parent_id
    &&& ids_sorted_by_order_and_name(ids, children_of(folders, folder.parent_id))
    &&& 0 <= index < ids.len()
    &&& ids[index] == folder.id
    &&& forall|j: int| 0 <= j < index ==> ids[j] != folder.id
}

/// The sibling order around the folder shown in the details panel: its
/// parent, its siblings' ids in order (itself included) and its position.
pub fn selected_folder_sibling_order(folders: &Vec<Folder>, details_folder_id: Option<FolderId>) -> (result: Option<(Option<FolderId>, Vec<FolderId>, usize)>)
    ensures
        result.is_some() == (details_folder_id.is_some() && find_folder(folders@, details_folder_id.unwrap()).is_some()),
        result.is_some() ==> sibling_order_of(folders@, details_folder_id.unwrap(), result.unwrap().0, result.unwrap().1@, result.unwrap().2 as int),
{
    let folder_id = match details_folder_id {
        None => return None,
        Some(id) => id,
    };
    let index = match find_folder_index(folders, folder_id) {
        None => return None,
        Some(i) => i,
    };
    let parent = folders[index].parent_id;
    let ids = sorted_sibling_ids(folders, parent);
    let count = ids.len();
    proof {
        lemma_find_folder_found(folders@, folder_id);
        lemma_children_of_holds(folders@, parent, index as int);
        let input = children_of(folders@, parent);
        let j = choose|j: int| 0 <= j < input.len() && input[j] == folders@[index as int];
        lemma_sorted_ids_hold_child(ids@, input, j);
    }
    match crate::seqs::vec_position_u64(&ids, folder_id) {
        None => None,
        Some(position) => Some((parent, ids, position)),
    }
}

/// The sibling order after moving the details folder `direction` places
/// (negative: earlier), or `None` when that leaves the sibling list.
pub fn selected_folder_manual_reorder(folders: &Vec<Folder>, details_folder_id: Option<FolderId>, direction: isize) -> (result: Option<(Option<FolderId>, Vec<FolderId>)>)
    ensures
        !(details_folder_id.is_some() && find_folder(folders@, details_folder_id.unwrap()).is_some()) ==> result.is_none(),
        details_folder_id.is_some() && find_folder(folders@, details_folder_id.unwrap()).is_some() ==> exists|parent: Option<FolderId>, ids: Seq<FolderId>, index: int|
            #[trigger] sibling_order_of(folders@, details_folder_id.unwrap(), parent, ids, index) && {
                let next = index + direction;
                if 0 <= next < ids.len() {
                    result.is_some() && result.unwrap().0 == parent
                        && result.unwrap().1@ == ids.update(index, ids[next]).update(next, ids[index])
                } else {
                    result.is_none()
                }
            },
{
    let order = selected_folder_sibling_order(folders, details_folder_id);
    let (parent, mut ids, index) = match order {
        None => return None,
        Some(found) => found,
    };
    let ghost old_ids = ids@;
    let len = ids.len();
    assert(sibling_order_of(folders@, details_folder_id.unwrap(), parent, old_ids, index as int));
    let next = match index.checked_add_signed(direction) {
        None => {
            assert(!(0 <= index + direction < old_ids.len()));
            return None;
        },
        Some(next) => next,
    };
    if next >= len {
        return None;
    }
    let a = ids[index];
    let b = ids[next];
    ids.set(index, b);
    ids.set(next, a);
    Some((parent, ids))
}

} // verus!

verus! {

/// `ids` with `folder_id` moved to stand just before `target_id`; `None`
/// when either is missing or they are the same folder.
pub open spec fn reorder_before_target_spec(ids: Seq<FolderId>, folder_id: FolderId, target_id: FolderId) -> Option<Seq<FolderId>> {
    let from = position_of(ids, folder_id);
    if folder_id == target_id || from < 0 || position_of(ids, target_id) < 0 {
        None
    } else {
        let rest = ids.remove(from);
        let to = position_of(rest, target_id);
        if to < 0 {
            None
        } else {
            Some(rest.insert(to, folder_id))
        }
    }
}

/// Moves `folder_id` to stand just before `target_id` in a sibling order.
pub fn reorder_folder_ids_before_target(ids: &Vec<FolderId>, folder_id: FolderId, target_id: FolderId) -> (next: Option<Vec<FolderId>>)
    ensures
        next.is_some() == reorder_before_target_spec(ids@, folder_id, target_id).is_some(),
        next.is_some() ==> next.unwrap()@ == reorder_before_target_spec(ids@, folder_id, target_id).unwrap(),
{
    if folder_id == target_id {
        return None;
    }
    proof {
        lemma_position_of(ids@, folder_id);
        lemma_position_of(ids@, target_id);
    }
    let from = match crate::seqs::vec_position_u64(ids, folder_id) {
        None => return None,
        Some(i) => i,
    };
    proof {
        lemma_position_of_is(ids@, folder_id, from as int);
    }
    match crate::seqs::vec_position_u64(ids, target_id) {
        None => return None,
        Some(t) => {
            proof {
                lemma_position_of_is(ids@, target_id, t as int);
            }
        },
    }
    let mut rest = crate::seqs::vec_copy_u64(ids);
    rest.remove(from);
    proof {
        lemma_position_of(rest@, target_id);
    }
    let to = match crate::seqs::vec_position_u64(&rest, target_id) {
        None => return None,
        Some(i) => i,
    };
    proof {
        lemma_position_of_is(rest@, target_id, to as int);
    }
    rest.insert(to, folder_id);
    Some(rest)
}

/// The sibling order after dropping folder `folder_id` onto its sibling
/// `target_id` to place it just before that sibling; `None` when either is
/// unknown, they differ in parent, they are the same folder, or the order
/// would not change.
pub fn folder_drag_manual_reorder(folders: &Vec<Folder>, folder_id: FolderId, target_id: FolderId) -> (result: Option<(Option<FolderId>, Vec<FolderId>)>)
    ensures
        ({
            let folder = find_folder(folders@, folder_id);
            let target = find_folder(folders@, target_id);
            folder.is_none() || target.is_none() || folder.unwrap().parent_id != target.unwrap().parent_id
                || folder.unwrap().id == target.unwrap().id
        }) ==> result.is_none(),
        result.is_some() ==> exists|ids: Seq<FolderId>|
            #[trigger] ids_sorted_by_order_and_name(ids, children_of(folders@, find_folder(folders@, folder_id).unwrap().parent_id))
                && reorder_before_target_spec(ids, folder_id, target_id) == Some(result.unwrap().1@)
                && result.unwrap().1@ != ids
                && result.unwrap().0 == find_folder(folders@, folder_id).unwrap().parent_id,
        ({
            let folder = find_folder(folders@, folder_id);
            let target = find_folder(folders@, target_id);
            folder.is_some() && target.is_some() && folder.unwrap().parent_id == target.unwrap().parent_id
                && folder.unwrap().id != target.unwrap().id
        }) && result.is_none() ==> exists|ids: Seq<FolderId>|
            #[trigger] ids_sorted_by_order_and_name(ids, children_of(folders@, find_folder(folders@, folder_id).unwrap().parent_id))
                && (reorder_before_target_spec(ids, folder_id, target_id).is_none()
                    || reorder_before_target_spec(ids, folder_id, target_id) == Some(ids)),
{
    let fi = match find_folder_index(folders, folder_id) {
        None => return None,
        Some(i) => i,
    };
    let ti = match find_folder_index(folders, target_id) {
        None => return None,
        Some(i) => i,
    };
    let parent = folders[fi].parent_id;
    if parent != folders[ti].parent_id || folders[fi].id == folders[ti].id {
        return None;
    }
    let ids = sorted_sibling_ids(folders, parent);
    let next = match reorder_folder_ids_before_target(&ids, folder_id, target_id) {
        None => return None,
        Some(next) => next,
    };
    if crate::seqs::vec_eq_u64(&next, &ids) {
        return None;
    }
    Some((parent, next))
}

} // verus!

verus! {

/// The folders met walking up from `current` through parents, nearest
/// first, as (name, id); the walk stops at the root, at an unknown folder,
/// or on reaching a folder already met (a cycle), and takes at most `fuel`
/// steps.
pub open spec fn ancestor_walk(folders: Seq<Folder>, current: Option<FolderId>, seen: Seq<FolderId>, fuel: nat) -> Seq<(Seq<char>, FolderId)>
    decreases fuel,
{
    if fuel == 0 {
        Seq::empty()
    } else {
        match current {
            None => Seq::empty(),
            Some(id) => if seen.contains(id) {
                Seq::empty()
            } else {
                match find_folder(folders, id) {
                    None => Seq::empty(),
                    Some(f) => seq![(f.name@, id)] + ancestor_walk(folders, f.parent_id, seen.push(id), (fuel - 1) as nat),
                }
            },
        }
    }
}

/// The breadcrumb trail: the library (or Trash Can) root, then each folder
/// from the top of the tree down to `selected`. The walk is given one step
/// more than there are folders, so it always ends by itself.
pub open spec fn breadcrumbs_spec(folders: Seq<Folder>, selected: Option<FolderId>, trash: bool) -> Seq<(Seq<char>, Option<FolderId>)> {
    let walk = ancestor_walk(folders, selected, Seq::empty(), (folders.len() + 1) as nat);
    seq![(if trash { "Trash Can"@ } else { "Library"@ }, None::<FolderId>)]
        + Seq::new(walk.len(), |i: int| (walk[walk.len() - 1 - i].0, Some(walk[walk.len() - 1 - i].1)))
}

/// The plain content of a breadcrumb trail.
pub open spec fn crumbs_view(crumbs: Seq<(String, Option<FolderId>)>) -> Seq<(Seq<char>, Option<FolderId>)> {
    Seq::new(crumbs.len(), |i: int| (crumbs[i].0@, crumbs[i].1))
}

/// The breadcrumb trail from the library root down to the selected folder.
pub fn folder_breadcrumbs(folders: &Vec<Folder>, selected: Option<FolderId>, trash_view_active: bool) -> (crumbs: Vec<(String, Option<FolderId>)>)
    ensures
        crumbs_view(crumbs@) == breadcrumbs_spec(folders@, selected, trash_view_active),
{
    let ghost fuel0 = (folders@.len() + 1) as nat;
    let ghost full = ancestor_walk(folders@, selected, Seq::empty(), fuel0);
    let ghost universe = folders@.map_values(|f: Folder| f.id);
    let mut current = selected;
    let mut seen: Vec<FolderId> = Vec::new();
    let mut names: Vec<String> = Vec::new();
    let mut path: Vec<FolderId> = Vec::new();
    loop
        invariant
            fuel0 == folders@.len() + 1,
            universe == folders@.map_values(|f: Folder| f.id),
            seen@.no_duplicates(),
            forall|j: int| 0 <= j < seen@.len() ==> universe.contains(#[trigger] seen@[j]),
            seen@.len() <= folders@.len(),
            path@ == seen@,
            names@.len() == path@.len(),
            full == Seq::new(path@.len(), |i: int| (names@[i]@, path@[i]))
                + ancestor_walk(folders@, current, seen@, (fuel0 - seen@.len()) as nat),
        ensures
            ancestor_walk(folders@, current, seen@, (fuel0 - seen@.len()) as nat) =~= Seq::<(Seq<char>, FolderId)>::empty(),
        decreases folders@.len() - seen@.len(),
    {
        let id = match current {
            None => break,
            Some(id) => id,
        };
        if vec_contains_u64(&seen, id) {
            break;
        }
        let index = match find_folder_index(folders, id) {
            None => break,
            Some(i) => i,
        };
        let ghost fuel = (fuel0 - seen@.len()) as nat;
        let ghost prefix = Seq::new(path@.len(), |i: int| (names@[i]@, path@[i]));
        let ghost step = seq![(folders@[index as int].name@, id)];
        proof {
            assert(fuel > 0);
            assert(ancestor_walk(folders@, current, seen@, fuel)
                == step + ancestor_walk(folders@, folders@[index as int].parent_id, seen@.push(id), (fuel - 1) as nat));
            assert(universe[index as int] == id);
        }
        let ghost seen_before = seen@;
        seen.push(id);
        path.push(id);
        names.push(folders[index].name.clone());
        current = folders[index].parent_id;
        proof {
            assert forall|a: int, b: int| 0 <= a < b < seen@.len() implies seen@[a] != seen@[b] by {
                if b == seen@.len() - 1 {
                    assert(seen@[a] == seen_before[a]);
                }
            }
            assert(seen@.len() <= folders@.len()) by {
                lemma_distinct_within_bound(seen@, universe);
            }
            assert(Seq::new(path@.len(), |i: int| (names@[i]@, path@[i])) =~= prefix + step);
            assert((prefix + step) + ancestor_walk(folders@, current, seen@, (fuel - 1) as nat)
                =~= prefix + (step + ancestor_walk(folders@, current, seen@, (fuel - 1) as nat)));
        }
    }
    proof {
        assert(full =~= Seq::new(path@.len(), |i: int| (names@[i]@, path@[i])));
    }
    let mut crumbs: Vec<(String, Option<FolderId>)> = Vec::new();
    let root = if trash_view_active { "Trash Can".to_owned() } else { "Library".to_owned() };
    crumbs.push((root, None));
    let mut k: usize = path.len();
    while k > 0
        invariant
            k <= path@.len(),
            names@.len() == path@.len(),
            full == Seq::new(path@.len(), |i: int| (names@[i]@, path@[i])),
            crumbs@.len() == 1 + path@.len() - k,
            crumbs@[0].0@ == (if trash_view_active { "Trash Can"@ } else { "Library"@ }),
            crumbs@[0].1 == None::<FolderId>,
            forall|t: int| 1 <= t < crumbs@.len() ==> (#[trigger] crumbs@[t]).0@ == full[full.len() - t].0
                && crumbs@[t].1 == Some(full[full.len() - t].1),
        decreases k,
    {
        k = k - 1;
        crumbs.push((names[k].clone(), Some(path[k])));
    }
    assert(crumbs_view(crumbs@) =~= breadcrumbs_spec(folders@, selected, trash_view_active));
    crumbs
}

/// The ids of the folders that are not collapsed in the tree, as the move
/// picker opens them.
pub fn move_picker_expanded_folders(folders: &Vec<Folder>, collapsed: &Vec<FolderId>) -> (expanded: Vec<FolderId>)
    ensures
        forall|x: FolderId| expanded@.contains(x) <==> (!collapsed@.contains(x)
            && exists|i: int| 0 <= i < folders@.len() && (#[trigger] folders@[i]).id == x),
{
    let mut expanded: Vec<FolderId> = Vec::new();
    let mut i: usize = 0;
    while i < folders.len()
        invariant
            i <= folders@.len(),
            forall|x: FolderId| expanded@.contains(x) <==> (!collapsed@.contains(x)
                && exists|j: int| 0 <= j < i && (#[trigger] folders@[j]).id == x),
        decreases folders@.len() - i,
    {
        let id = folders[i].id;
        let ghost before = expanded@;
        if !vec_contains_u64(collapsed, id) {
            expanded.push(id);
        }
        proof {
            assert forall|x: FolderId| expanded@.contains(x) <==> (!collapsed@.contains(x)
                && exists|j: int| 0 <= j < i + 1 && (#[trigger] folders@[j]).id == x) by {
                if expanded@.contains(x) && x != id {
                    let t = expanded@.index_of(x);
                    assert(before[t] == x);
                }
                if before.contains(x) {
                    let t = before.index_of(x);
                    assert(expanded@[t] == x);
                }
                if x == id && !collapsed@.contains(x) {
                    assert(expanded@[expanded@.len() - 1] == x);
                }
            }
        }
        i = i + 1;
    }
    expanded
}

} // verus!

verus! {

/// Entry counts shown beside a folder: all PDFs in its subtree, those in
/// progress, and those whose file is missing.
#[derive(Debug, Clone, Copy, PartialEq, Eq, Structural, Default)]
pub struct FolderSmartCounts {
    pub total: usize,
    pub in_progress: usize,
    pub missing: usize,
}

/// Whether an entry counts for `scope`: every entry counts for the whole
/// library (`None`); for a folder, entries in it or in a folder below it.
pub open spec fn entry_in_scope(entry: LibraryEntry, folders: Seq<Folder>, scope: Option<FolderId>) -> bool {
    match scope {
        None => true,
        Some(root) => exists|k: int| 0 <= k < entry.folders@.len() && in_subtree(folders, root, #[trigger] entry.folders@[k]),
    }
}

/// How many entries satisfy `pred`.
pub open spec fn count_where(entries: Seq<LibraryEntry>, pred: spec_fn(LibraryEntry) -> bool) -> nat
    decreases entries.len(),
{
    if entries.len() == 0 {
        0
    } else {
        count_where(entries.drop_last(), pred) + if pred(entries.last()) { 1nat } else { 0nat }
    }
}

proof fn lemma_count_where_bound(entries: Seq<LibraryEntry>, pred: spec_fn(LibraryEntry) -> bool)
    ensures
        count_where(entries, pred) <= entries.len(),
    decreases entries.len(),
{
    if entries.len() > 0 {
        lemma_count_where_bound(entries.drop_last(), pred);
    }
}

/// Whether any of the entry's folders is in `ids`.
fn entry_in_any(entry: &LibraryEntry, ids: &Vec<FolderId>) -> (found: bool)
    ensures
        found == exists|k: int| 0 <= k < entry.folders@.len() && ids@.contains(#[trigger] entry.folders@[k]),
{
    let mut k: usize = 0;
    while k < entry.folders.len()
        invariant
            k <= entry.folders@.len(),
            forall|j: int| 0 <= j < k ==> !ids@.contains(#[trigger] entry.folders@[j]),
        decreases entry.folders@.len() - k,
    {
        if vec_contains_u64(ids, entry.folders[k]) {
            return true;
        }
        k = k + 1;
    }
    false
}

/// The counts for the subtree of `folder_id` (the whole library for
/// `None`) over the given entries and folder tree.
pub fn folder_smart_counts_for(entries: &Vec<LibraryEntry>, folders: &Vec<Folder>, folder_id: Option<FolderId>) -> (counts: FolderSmartCounts)
    ensures
        counts.total == count_where(entries@, |e: LibraryEntry| entry_in_scope(e, folders@, folder_id)),
        counts.missing == count_where(entries@, |e: LibraryEntry| entry_in_scope(e, folders@, folder_id) && e.missing),
        counts.in_progress == count_where(entries@, |e: LibraryEntry| entry_in_scope(e, folders@, folder_id) && entry_in_progress(e)),
{
    let ghost all = |e: LibraryEntry| entry_in_scope(e, folders@, folder_id);
    let ghost missing = |e: LibraryEntry| entry_in_scope(e, folders@, folder_id) && e.missing;
    let ghost progress = |e: LibraryEntry| entry_in_scope(e, folders@, folder_id) && entry_in_progress(e);
    let subtree = match folder_id {
        None => Vec::new(),
        Some(id) => folder_subtree_ids(folders, id),
    };
    let mut counts = FolderSmartCounts { total: 0, in_progress: 0, missing: 0 };
    let mut i: usize = 0;
    while i < entries.len()
        invariant
            i <= entries@.len(),
            folder_id.is_some() ==> forall|x: FolderId| subtree@.contains(x) <==> in_subtree(folders@, folder_id.unwrap(), x),
            counts.total == count_where(entries@.take(i as int), all),
            counts.missing == count_where(entries@.take(i as int), missing),
            counts.in_progress == count_where(entries@.take(i as int), progress),
            all == |e: LibraryEntry| entry_in_scope(e, folders@, folder_id),
            missing == |e: LibraryEntry| entry_in_scope(e, folders@, folder_id) && e.missing,
            progress == |e: LibraryEntry| entry_in_scope(e, folders@, folder_id) && entry_in_progress(e),
        decreases entries@.len() - i,
    {
        let entry = &entries[i];
        let ghost prefix = entries@.take(i as int + 1);
        proof {
            assert(prefix.drop_last() =~= entries@.take(i as int));
            assert(prefix.last() == *entry);
            lemma_count_where_bound(entries@.take(i as int), all);
            lemma_count_where_bound(entries@.take(i as int), missing);
            lemma_count_where_bound(entries@.take(i as int), progress);
        }
        let in_scope = match folder_id {
            None => true,
            Some(_) => entry_in_any(entry, &subtree),
        };
        assert(in_scope == entry_in_scope(*entry, folders@, folder_id));
        if in_scope {
            counts.total = counts.total + 1;
            if entry.missing {
                counts.missing = counts.missing + 1;
            }
            let started = match entry.page_count {
                Some(count) => count > 0 && (entry.last_page as u64) + 1 < count as u64,
                None => false,
            };
            if started {
                counts.in_progress = counts.in_progress + 1;
            }
        }
        i = i + 1;
    }
    assert(entries@.take(entries@.len() as int) =~= entries@);
    counts
}

} // verus!

verus! {

/// A folder can never be moved into itself or into a folder below it.
pub proof fn law_no_move_into_own_subtree(folders: Seq<Folder>, folder_id: FolderId, k: int)
    requires
        0 <= k < folders.len(),
        folders[k].parent_id == Some(folder_id),
    ensures
        in_subtree(folders, folder_id, folder_id),
        in_subtree(folders, folder_id, folders[k].id),
{
    lemma_in_subtree_root(folders, folder_id);
    lemma_in_subtree_child(folders, folder_id, folder_id, k);
}

/// Placing a folder before a sibling keeps the same siblings, puts the
/// folder immediately before that sibling, and leaves the others in order.
pub proof fn law_reorder_before_target_places_folder(ids: Seq<FolderId>, folder_id: FolderId, target_id: FolderId)
    requires
        ids.no_duplicates(),
        reorder_before_target_spec(ids, folder_id, target_id).is_some(),
    ensures
        ({
            let next = reorder_before_target_spec(ids, folder_id, target_id).unwrap();
            &&& next.to_multiset() == ids.to_multiset()
            &&& next.len() == ids.len()
            &&& exists|t: int| 0 <= t && t + 1 < next.len() && next[t] == folder_id && #[trigger] next[t + 1] == target_id
        }),
{
    broadcast use vstd::seq_lib::group_to_multiset_ensures;
    lemma_position_of(ids, folder_id);
    lemma_position_of(ids, target_id);
    let from = position_of(ids, folder_id);
    let rest = ids.remove(from);
    lemma_position_of(rest, target_id);
    let to = position_of(rest, target_id);
    let next = rest.insert(to, folder_id);
    rest.insert_ensures(to, folder_id);
    assert(next.remove(to) =~= rest);
    assert(next.to_multiset().remove(folder_id) =~= rest.to_multiset());
    assert(next.to_multiset().count(folder_id) > 0);
    assert(next.to_multiset() =~= rest.to_multiset().insert(folder_id));
    assert(ids.to_multiset().remove(folder_id) =~= rest.to_multiset());
    assert(ids.to_multiset().count(folder_id) > 0);
    assert(ids.to_multiset() =~= rest.to_multiset().insert(folder_id));
    assert(next[to] == folder_id);
    assert(next[to + 1] == rest[to]);
    assert(rest[to] == target_id);
    assert(next.to_multiset() == ids.to_multiset());
    assert(next.len() == ids.len());
    assert(0 <= to && to + 1 < next.len() && next[to] == folder_id && next[to + 1] == target_id);
}

/// The breadcrumb trail starts at the root and, when the selected folder
/// exists, ends at it.
pub proof fn law_breadcrumbs_end_at_selection(folders: Seq<Folder>, selected: FolderId, trash: bool)
    requires
        find_folder(folders, selected).is_some(),
    ensures
        breadcrumbs_spec(folders, Some(selected), trash)[0].1 == None::<FolderId>,
        breadcrumbs_spec(folders, Some(selected), trash).last().1 == Some(selected),
        breadcrumbs_spec(folders, Some(selected), trash).last().0 == find_folder(folders, selected).unwrap().name@,
{
    let fuel = (folders.len() + 1) as nat;
    let walk = ancestor_walk(folders, Some(selected), Seq::empty(), fuel);
    let f = find_folder(folders, selected).unwrap();
    assert(walk == seq![(f.name@, selected)] + ancestor_walk(folders, f.parent_id, seq![selected], (fuel - 1) as nat)) by {
        assert(Seq::<FolderId>::empty().push(selected) =~= seq![selected]);
    }
    assert(walk[0] == (f.name@, selected));
}

} // verus!

verus! {

/// The order of sibling folders is determined: two sequences that both list
/// the same folders by manual order and lowercase name, ties in list order,
/// are equal.
pub proof fn law_sibling_order_is_determined(a: Seq<FolderView>, b: Seq<FolderView>, input: Seq<Folder>)
    requires
        sorted_by_order_and_name(a, input),
        sorted_by_order_and_name(b, input),
    ensures
        a == b,
{
    let ranks = folder_ranks(input);
    let names = folder_sort_names(input);
    let n = input.len() as int;
    let oa = choose|order: Seq<usize>|
        #![trigger stably_sorted(ranks, names, order, n)]
        stably_sorted(ranks, names, order, n)
        && a.len() == input.len()
        && forall|i: int| 0 <= i < a.len() ==> #[trigger] a[i] == input[order[i] as int]@;
    let ob = choose|order: Seq<usize>|
        #![trigger stably_sorted(ranks, names, order, n)]
        stably_sorted(ranks, names, order, n)
        && b.len() == input.len()
        && forall|i: int| 0 <= i < b.len() ==> #[trigger] b[i] == input[order[i] as int]@;
    crate::order::lemma_stable_order_unique(ranks, names, oa, ob, n);
    assert forall|i: int| 0 <= i < a.len() implies a[i] == b[i] by {
        assert(a[i] == input[oa[i] as int]@);
        assert(b[i] == input[ob[i] as int]@);
    }
    assert(a =~= b);
}

} // verus!
