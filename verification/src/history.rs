//! The library's undo history: a tree of organization snapshots in which
//! undo walks to the parent, redo walks to the newest child, and a new edit
//! after an undo opens a branch instead of discarding the old future.

use vstd::prelude::*;

verus! {

/// A captured arrangement of the library (folder membership, folder tree
/// and manual orders), held in the encoded form the database restores.
#[derive(Debug)]
pub struct LibraryOrganizationSnapshot {
    pub encoded: Vec<u64>,
}

impl LibraryOrganizationSnapshot {
    /// A copy holding the same encoded arrangement.
    pub fn duplicate(&self) -> (copy: Self)
        ensures
            copy.encoded@ == self.encoded@,
    {
        let mut encoded: Vec<u64> = Vec::new();
        let mut i: usize = 0;
        while i < self.encoded.len()
            invariant
                i <= self.encoded@.len(),
                encoded@ == self.encoded@.subrange(0, i as int),
            decreases self.encoded@.len() - i,
        {
            encoded.push(self.encoded[i]);
            i = i + 1;
        }
        assert(encoded@ =~= self.encoded@);
        LibraryOrganizationSnapshot { encoded }
    }

    /// Whether two snapshots capture the same arrangement.
    pub fn same_as(&self, other: &Self) -> (same: bool)
        ensures
            same == (self.encoded@ == other.encoded@),
    {
        if self.encoded.len() != other.encoded.len() {
            return false;
        }
        let mut i: usize = 0;
        while i < self.encoded.len()
            invariant
                i <= self.encoded@.len(),
                self.encoded@.len() == other.encoded@.len(),
                forall|j: int| 0 <= j < i ==> self.encoded@[j] == other.encoded@[j],
            decreases self.encoded@.len() - i,
        {
            if self.encoded[i] != other.encoded[i] {
                return false;
            }
            i = i + 1;
        }
        assert(self.encoded@ =~= other.encoded@);
        true
    }
}

/// One undoable library edit: its label and the arrangement before and
/// after it.
#[derive(Debug)]
pub struct LibraryHistoryAction {
    pub label: String,
    pub before: LibraryOrganizationSnapshot,
    pub after: LibraryOrganizationSnapshot,
    pub refresh_search_on_restore: bool,
}

/// The plain content of a history action.
pub struct ActionView {
    pub label: Seq<char>,
    pub before: Seq<u64>,
    pub after: Seq<u64>,
    pub refresh_search_on_restore: bool,
}

impl LibraryHistoryAction {
    /// The action's content as plain values.
    pub open spec fn view(&self) -> ActionView {
        ActionView {
            label: self.label@,
            before: self.before.encoded@,
            after: self.after.encoded@,
            refresh_search_on_restore: self.refresh_search_on_restore,
        }
    }

    /// A copy with the same content.
    pub fn duplicate(&self) -> (copy: Self)
        ensures
            copy@ == self@,
    {
        LibraryHistoryAction {
            label: self.label.clone(),
            before: self.before.duplicate(),
            after: self.after.duplicate(),
            refresh_search_on_restore: self.refresh_search_on_restore,
        }
    }
}

/// A node of the history tree: the root holds no action; every other node
/// holds the edit that leads from its parent to it.
#[derive(Debug)]
pub struct LibraryHistoryNode {
    pub parent: Option<usize>,
    pub children: Vec<usize>,
    pub action: Option<LibraryHistoryAction>,
}

/// The undo tree and the node the library currently shows.
#[derive(Debug)]
pub struct LibraryHistory {
    pub nodes: Vec<LibraryHistoryNode>,
    pub current: usize,
}

impl Default for LibraryHistory {
    /// A history holding only the root, which is current.
    fn default() -> (history: Self)
        ensures
            history.wf(),
            history.nodes@.len() == 1,
            history.current == 0,
            history.nodes@[0].children@.len() == 0,
    {
        let mut nodes: Vec<LibraryHistoryNode> = Vec::new();
        nodes.push(LibraryHistoryNode { parent: None, children: Vec::new(), action: None });
        LibraryHistory { nodes, current: 0 }
    }
}

impl LibraryHistory {
    /// The tree is well formed: node 0 is the root and holds no action;
    /// every other node has an older parent and an action; children are
    /// later nodes listed in the order they were made, each pointing back;
    /// and `current` names a node.
    pub open spec fn wf(&self) -> bool {
        &&& self.nodes@.len() >= 1
        &&& self.current < self.nodes@.len()
        &&& self.nodes@[0].parent.is_none()
        &&& self.nodes@[0].action.is_none()
        &&& forall|i: int| 0 < i < self.nodes@.len() ==> {
            &&& (#[trigger] self.nodes@[i]).parent.is_some()
            &&& self.nodes@[i].parent.unwrap() < i
            &&& self.nodes@[i].action.is_some()
        }
        &&& forall|i: int, k: int| 0 <= i < self.nodes@.len() && 0 <= k < self.nodes@[i].children@.len() ==> {
            &&& i < #[trigger] self.nodes@[i].children@[k] < self.nodes@.len()
            &&& self.nodes@[self.nodes@[i].children@[k] as int].parent == Some(i as usize)
        }
        &&& forall|i: int, k: int, l: int| #![trigger self.nodes@[i].children@[k], self.nodes@[i].children@[l]]
            0 <= i < self.nodes@.len() && 0 <= k < l < self.nodes@[i].children@.len() ==>
            self.nodes@[i].children@[k] < self.nodes@[i].children@[l]
    }

    /// The node the library shows.
    pub open spec fn current_node(&self) -> LibraryHistoryNode {
        self.nodes@[self.current as int]
    }

    /// Where undo leads from the current node, with the edit it reverts.
    pub open spec fn undo_spec(&self) -> Option<(usize, ActionView)> {
        let node = self.current_node();
        if node.parent.is_some() && node.action.is_some() {
            Some((node.parent.unwrap(), node.action.unwrap()@))
        } else {
            None
        }
    }

    /// Where redo leads from the current node (its newest child), with the
    /// edit it replays.
    pub open spec fn redo_spec(&self) -> Option<(usize, ActionView)> {
        let node = self.current_node();
        if node.children@.len() > 0 {
            let child = node.children@.last();
            if child < self.nodes@.len() && self.nodes@[child as int].action.is_some() {
                Some((child, self.nodes@[child as int].action.unwrap()@))
            } else {
                None
            }
        } else {
            None
        }
    }

    /// Whether there is an edit to undo.
    pub fn can_undo(&self) -> (can: bool)
        requires
            self.wf(),
        ensures
            can == self.current_node().parent.is_some(),
            can == self.undo_spec().is_some(),
    {
        self.nodes[self.current].parent.is_some()
    }

    /// Whether there is an edit to redo.
    pub fn can_redo(&self) -> (can: bool)
        requires
            self.wf(),
        ensures
            can == (self.current_node().children@.len() > 0),
            can == self.redo_spec().is_some(),
    {
        let node = &self.nodes[self.current];
        proof {
            if node.children@.len() > 0 {
                let k = node.children@.len() - 1;
                assert(self.nodes@[self.current as int].children@[k] == node.children@.last());
            }
        }
        !node.children.is_empty()
    }

    /// The node undo leads to and the edit it reverts, if any.
    pub fn undo_target(&self) -> (target: Option<(usize, LibraryHistoryAction)>)
        requires
            self.wf(),
        ensures
            target.is_some() == self.undo_spec().is_some(),
            target.is_some() ==> target.unwrap().0 == self.undo_spec().unwrap().0
                && target.unwrap().1@ == self.undo_spec().unwrap().1,
    {
        let node = &self.nodes[self.current];
        match node.parent {
            None => None,
            Some(parent) => match &node.action {
                None => None,
                Some(action) => Some((parent, action.duplicate())),
            },
        }
    }

    /// The node redo leads to and the edit it replays, if any.
    pub fn redo_target(&self) -> (target: Option<(usize, LibraryHistoryAction)>)
        requires
            self.wf(),
        ensures
            target.is_some() == self.redo_spec().is_some(),
            target.is_some() ==> target.unwrap().0 == self.redo_spec().unwrap().0
                && target.unwrap().1@ == self.redo_spec().unwrap().1,
    {
        let node = &self.nodes[self.current];
        let count = node.children.len();
        if count == 0 {
            return None;
        }
        let child = node.children[count - 1];
        if child >= self.nodes.len() {
            return None;
        }
        match &self.nodes[child].action {
            None => None,
            Some(action) => Some((child, action.duplicate())),
        }
    }

    /// Records an edit as a new child of the current node and makes it
    /// current; an edit that changes nothing is not recorded.
    pub fn push(&mut self, action: LibraryHistoryAction)
        requires
            old(self).wf(),
            old(self).nodes@.len() < usize::MAX,
        ensures
            final(self).wf(),
            action.before.encoded@ == action.after.encoded@ ==> final(self).nodes@ == old(self).nodes@
                && final(self).current == old(self).current,
            action.before.encoded@ != action.after.encoded@ ==> {
                &&& final(self).nodes@.len() == old(self).nodes@.len() + 1
                &&& final(self).current == old(self).nodes@.len()
                &&& final(self).current_node().parent == Some(old(self).current)
                &&& final(self).current_node().children@.len() == 0
                &&& final(self).current_node().action == Some(action)
                &&& final(self).nodes@[old(self).current as int].children@
                    == old(self).current_node().children@.push(old(self).nodes@.len() as usize)
                &&& final(self).nodes@[old(self).current as int].parent == old(self).current_node().parent
                &&& final(self).nodes@[old(self).current as int].action == old(self).current_node().action
                &&& forall|i: int| 0 <= i < old(self).nodes@.len() && i != old(self).current
                    ==> #[trigger] final(self).nodes@[i] == old(self).nodes@[i]
            },
    {
        if action.before.same_as(&action.after) {
            return;
        }
        let index = self.nodes.len();
        let current = self.current;
        let ghost old_nodes = self.nodes@;
        self.nodes.push(LibraryHistoryNode { parent: Some(current), children: Vec::new(), action: Some(action) });
        let mut node = self.nodes.remove(current);
        node.children.push(index);
        self.nodes.insert(current, node);
        self.current = index;
        proof {
            assert forall|i: int| 0 <= i < old_nodes.len() && i != current implies #[trigger] self.nodes@[i] == old_nodes[i] by {}
            assert forall|i: int, k: int| 0 <= i < self.nodes@.len() && 0 <= k < self.nodes@[i].children@.len() implies {
                &&& i < #[trigger] self.nodes@[i].children@[k] < self.nodes@.len()
                &&& self.nodes@[self.nodes@[i].children@[k] as int].parent == Some(i as usize)
            } by {
                if i != current && i < old_nodes.len() {
                    assert(self.nodes@[i] == old_nodes[i]);
                }
            }
        }
    }

    /// Makes `index` current when it names a node; otherwise nothing
    /// changes.
    pub fn set_current(&mut self, index: usize)
        requires
            old(self).wf(),
        ensures
            final(self).wf(),
            final(self).nodes@ == old(self).nodes@,
            final(self).current == (if index < old(self).nodes@.len() { index } else { old(self).current }),
    {
        if index < self.nodes.len() {
            self.current = index;
        }
    }
}

/// Undo after an edit leads back to the node the library showed before the
/// edit and reverts exactly that edit.
pub proof fn law_undo_reverts_last_push(before: LibraryHistory, after: LibraryHistory, action: LibraryHistoryAction)
    requires
        before.wf(),
        action.before.encoded@ != action.after.encoded@,
        after.nodes@.len() == before.nodes@.len() + 1,
        after.current == before.nodes@.len(),
        after.current_node().parent == Some(before.current),
        after.current_node().action == Some(action),
    ensures
        after.undo_spec() == Some((before.current, action@)),
{
}

/// Undoing an edit and then redoing replays that same edit and returns to
/// the node it made, and the undo leaves the library where it was before
/// the edit, with the same undo still available there.
pub proof fn law_redo_after_undo_replays_push(
    before: LibraryHistory,
    pushed: LibraryHistory,
    undone: LibraryHistory,
    action: LibraryHistoryAction,
)
    requires
        before.wf(),
        pushed.wf(),
        action.before.encoded@ != action.after.encoded@,
        pushed.nodes@.len() == before.nodes@.len() + 1,
        pushed.current == before.nodes@.len(),
        pushed.current_node().parent == Some(before.current),
        pushed.current_node().action == Some(action),
        pushed.nodes@[before.current as int].children@ == before.current_node().children@.push(before.nodes@.len() as usize),
        pushed.nodes@[before.current as int].parent == before.current_node().parent,
        pushed.nodes@[before.current as int].action == before.current_node().action,
        undone.nodes@ == pushed.nodes@,
        undone.current == pushed.undo_spec().unwrap().0,
    ensures
        undone.current == before.current,
        undone.redo_spec() == Some((before.nodes@.len() as usize, action@)),
        undone.undo_spec() == before.undo_spec(),
{
}

} // verus!
