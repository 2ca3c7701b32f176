//! Selection of library entries: click, ctrl-click and shift-click rules,
//! pruning to what is visible, and the details editor that follows a
//! single selected entry.

use vstd::prelude::*;

use crate::metadata::{entry_author, entry_author_spec, entry_title, entry_title_spec};
use crate::model::{EntryId, LibraryEntry};
use crate::seqs::{distinct_items, distinct_range, lemma_distinct_items, lemma_position_of, lemma_position_of_is, position_of, vec_contains_u64, vec_position_u64};

verus! {

/// The state of the header checkbox that selects all visible entries.
#[derive(Debug, Clone, Copy, PartialEq, Eq, Structural)]
pub enum MasterCheckboxState {
    Unchecked,
    Partial,
    Checked,
}

/// The checkbox state for `selected` selected out of `total` visible
/// entries: unchecked when none is, checked when all are, partial between.
pub open spec fn master_checkbox_spec(selected: nat, total: nat) -> MasterCheckboxState {
    if selected == 0 {
        MasterCheckboxState::Unchecked
    } else if selected >= total {
        MasterCheckboxState::Checked
    } else {
        MasterCheckboxState::Partial
    }
}

/// The checkbox state for the given counts.
pub fn master_checkbox_state_for_counts(selected: usize, total: usize) -> (state: MasterCheckboxState)
    ensures
        state == master_checkbox_spec(selected as nat, total as nat),
{
    if selected == 0 {
        MasterCheckboxState::Unchecked
    } else if selected >= total {
        MasterCheckboxState::Checked
    } else {
        MasterCheckboxState::Partial
    }
}

/// How many of `visible` are in `selected`.
pub open spec fn count_selected(visible: Seq<EntryId>, selected: Seq<EntryId>) -> nat
    decreases visible.len(),
{
    if visible.len() == 0 {
        0
    } else {
        count_selected(visible.drop_last(), selected) + if selected.contains(visible.last()) { 1nat } else { 0nat }
    }
}

/// The header checkbox state for the visible entries: unchecked when there
/// are none.
pub open spec fn master_state(visible: Seq<EntryId>, selected: Seq<EntryId>) -> MasterCheckboxState {
    if visible.len() == 0 {
        MasterCheckboxState::Unchecked
    } else {
        master_checkbox_spec(count_selected(visible, selected), visible.len())
    }
}

/// The header checkbox state for the visible entries.
pub fn master_checkbox_state(visible: &Vec<EntryId>, selected: &Vec<EntryId>) -> (state: MasterCheckboxState)
    ensures
        state == master_state(visible@, selected@),
{
    if visible.len() == 0 {
        return MasterCheckboxState::Unchecked;
    }
    let mut count: usize = 0;
    let mut i: usize = 0;
    while i < visible.len()
        invariant
            i <= visible@.len(),
            count == count_selected(visible@.take(i as int), selected@),
            count <= i,
        decreases visible@.len() - i,
    {
        assert(visible@.take(i as int + 1).drop_last() =~= visible@.take(i as int));
        if vec_contains_u64(selected, visible[i]) {
            count = count + 1;
        }
        i = i + 1;
    }
    assert(visible@.take(visible@.len() as int) =~= visible@);
    master_checkbox_state_for_counts(count, visible.len())
}

/// `s` holds each item at most once and exactly the items of `set`.
pub open spec fn same_set(s: Seq<EntryId>, set: Set<EntryId>) -> bool {
    &&& s.no_duplicates()
    &&& forall|x: EntryId| s.contains(x) <==> set.contains(x)
}

/// The entry the details editor shows: the one selected entry, when
/// exactly one is selected and it is among `entries`.
pub open spec fn primary_of(selected: Seq<EntryId>, entries: Seq<LibraryEntry>) -> Option<LibraryEntry> {
    if selected.len() == 1 {
        find_entry(entries, selected[0])
    } else {
        None
    }
}

/// The details editor after following `selected` from `prior`: empty
/// without a primary entry; unchanged when it already shows it; otherwise
/// loaded with the primary entry's title and author.
pub open spec fn details_after(
    selected: Seq<EntryId>,
    entries: Seq<LibraryEntry>,
    prior: (Option<EntryId>, Seq<char>, Seq<char>),
) -> (Option<EntryId>, Seq<char>, Seq<char>) {
    match primary_of(selected, entries) {
        None => (None, Seq::empty(), Seq::empty()),
        Some(entry) => if prior.0 == Some(entry.id) {
            prior
        } else {
            (Some(entry.id), entry_title_spec(entry), entry_author_spec(entry))
        },
    }
}

/// `selected` without the entries that are not visible; an anchor that is
/// no longer visible moves to the first remaining selected entry.
pub open spec fn prune_spec(selected: Seq<EntryId>, anchor: Option<EntryId>, visible: Seq<EntryId>) -> (Seq<EntryId>, Option<EntryId>) {
    let kept = selected.filter(|id: EntryId| visible.contains(id));
    let next_anchor = match anchor {
        Some(a) => if visible.contains(a) {
            anchor
        } else if kept.len() > 0 {
            Some(kept[0])
        } else {
            None
        },
        None => None,
    };
    (kept, next_anchor)
}

/// `selected` with `id` added when absent and removed when present.
pub open spec fn toggle_spec(selected: Seq<EntryId>, id: EntryId) -> Seq<EntryId> {
    if selected.contains(id) {
        selected.remove(position_of(selected, id))
    } else {
        selected.push(id)
    }
}

/// Shift-click: the visible entries from the anchor through `entry_id`.
/// The anchor is the current one, else the first selected entry, else the
/// clicked entry; when the anchor is not visible the click selects only
/// the clicked entry; when the clicked entry is not visible nothing
/// changes.
pub open spec fn range_spec(selected: Seq<EntryId>, anchor: Option<EntryId>, entry_id: EntryId, visible: Seq<EntryId>) -> (Seq<EntryId>, Option<EntryId>) {
    let a = match anchor {
        Some(a) => a,
        None => if selected.len() > 0 { selected[0] } else { entry_id },
    };
    let ai = position_of(visible, a);
    let ei = position_of(visible, entry_id);
    if ai < 0 {
        (seq![entry_id], Some(entry_id))
    } else if ei < 0 {
        (selected, anchor)
    } else {
        let lo = if ai <= ei { ai } else { ei };
        let hi = if ai <= ei { ei } else { ai };
        (distinct_items(visible.subrange(lo, hi + 1)), Some(a))
    }
}

/// A click on `entry_id`: shift extends a range, ctrl toggles the entry,
/// a plain click selects only it.
pub open spec fn click_spec(
    selected: Seq<EntryId>,
    anchor: Option<EntryId>,
    entry_id: EntryId,
    shift: bool,
    ctrl: bool,
    visible: Seq<EntryId>,
) -> (Seq<EntryId>, Option<EntryId>) {
    if shift {
        range_spec(selected, anchor, entry_id, visible)
    } else if ctrl {
        (toggle_spec(selected, entry_id), Some(entry_id))
    } else {
        (seq![entry_id], Some(entry_id))
    }
}

/// Which entries are selected, the anchor of range selection, and the
/// details editor that shows the one selected entry.
#[derive(Debug)]
pub struct LibrarySelection {
    /// The selected entries, each once.
    pub selected_library_entries: Vec<EntryId>,
    pub library_selection_anchor: Option<EntryId>,
    pub details_entry_id: Option<EntryId>,
    pub details_title_input: String,
    pub details_author_input: String,
}

/// The first entry of `entries` with the given id.
pub open spec fn find_entry(entries: Seq<LibraryEntry>, id: EntryId) -> Option<LibraryEntry>
    decreases entries.len(),
{
    if entries.len() == 0 {
        None
    } else if entries[0].id == id {
        Some(entries[0])
    } else {
        find_entry(entries.drop_first(), id)
    }
}

proof fn lemma_find_entry_skip(entries: Seq<LibraryEntry>, id: EntryId, i: int)
    requires
        0 <= i <= entries.len(),
        forall|j: int| 0 <= j < i ==> (#[trigger] entries[j]).id != id,
    ensures
        find_entry(entries, id) == find_entry(entries.skip(i), id),
    decreases i,
{
    if i == 0 {
        assert(entries.skip(0) =~= entries);
    } else {
        assert(entries[0].id != id);
        let rest = entries.drop_first();
        assert forall|j: int| 0 <= j < i - 1 implies (#[trigger] rest[j]).id != id by {
            assert(rest[j] == entries[j + 1]);
        }
        lemma_find_entry_skip(rest, id, i - 1);
        assert(rest.skip(i - 1) =~= entries.skip(i));
    }
}

/// The position of the first entry with the given id.
pub fn find_entry_index(entries: &Vec<LibraryEntry>, id: EntryId) -> (index: Option<usize>)
    ensures
        index.is_some() == find_entry(entries@, id).is_some(),
        index.is_some() ==> index.unwrap() < entries@.len() && entries@[index.unwrap() as int] == find_entry(entries@, id).unwrap()
            && entries@[index.unwrap() as int].id == id,
{
    let mut i: usize = 0;
    while i < entries.len()
        invariant
            i <= entries@.len(),
            forall|j: int| 0 <= j < i ==> (#[trigger] entries@[j]).id != id,
        decreases entries@.len() - i,
    {
        if entries[i].id == id {
            proof {
                lemma_find_entry_skip(entries@, id, i as int);
            }
            return Some(i);
        }
        i = i + 1;
    }
    proof {
        lemma_find_entry_skip(entries@, id, i as int);
    }
    None
}

impl LibrarySelection {
    /// Nothing selected, no anchor, an empty details editor.
    pub fn new() -> (selection: Self)
        ensures
            selection.selected_library_entries@.len() == 0,
            selection.library_selection_anchor.is_none(),
            selection.details_entry_id.is_none(),
            selection.details_title_input@.len() == 0,
            selection.details_author_input@.len() == 0,
    {
        LibrarySelection {
            selected_library_entries: Vec::new(),
            library_selection_anchor: None,
            details_entry_id: None,
            details_title_input: String::new(),
            details_author_input: String::new(),
        }
    }

    /// Nothing is selected, there is no anchor and the details editor is
    /// empty.
    pub open spec fn is_cleared(&self) -> bool {
        &&& self.selected_library_entries@.len() == 0
        &&& self.library_selection_anchor.is_none()
        &&& self.details_entry_id.is_none()
        &&& self.details_title_input@.len() == 0
        &&& self.details_author_input@.len() == 0
    }

    /// The selection holds each entry at most once.
    pub open spec fn wf(&self) -> bool {
        self.selected_library_entries@.no_duplicates()
    }

    /// The selected entries as a set.
    pub open spec fn selected_set(&self) -> Set<EntryId> {
        self.selected_library_entries@.to_set()
    }

    /// The entry shown by the details editor.
    pub open spec fn primary_spec(&self, entries: Seq<LibraryEntry>) -> Option<LibraryEntry> {
        primary_of(self.selected_library_entries@, entries)
    }

    /// The details editor's content: the entry it shows, its title input
    /// and its author input.
    pub open spec fn details_view(&self) -> (Option<EntryId>, Seq<char>, Seq<char>) {
        (self.details_entry_id, self.details_title_input@, self.details_author_input@)
    }

    /// The entry shown by the details editor, if exactly one entry is
    /// selected and it exists.
    pub fn primary_selected_entry<'a>(&self, entries: &'a Vec<LibraryEntry>) -> (entry: Option<&'a LibraryEntry>)
        ensures
            entry.is_some() == self.primary_spec(entries@).is_some(),
            entry.is_some() ==> *entry.unwrap() == self.primary_spec(entries@).unwrap(),
    {
        if self.selected_library_entries.len() != 1 {
            return None;
        }
        match find_entry_index(entries, self.selected_library_entries[0]) {
            None => None,
            Some(i) => Some(&entries[i]),
        }
    }

    /// Points the details editor at the selection's primary entry.
    pub fn sync_details_editor_to_selection(&mut self, entries: &Vec<LibraryEntry>)
        ensures
            final(self).selected_library_entries@ == old(self).selected_library_entries@,
            final(self).library_selection_anchor == old(self).library_selection_anchor,
            final(self).details_view() == details_after(old(self).selected_library_entries@, entries@, old(self).details_view()),
    {
        let primary = match self.primary_selected_entry(entries) {
            None => {
                self.details_entry_id = None;
                self.details_title_input = String::new();
                self.details_author_input = String::new();
                return;
            },
            Some(entry) => entry,
        };
        if self.details_entry_id == Some(primary.id) {
            return;
        }
        self.details_title_input = entry_title(primary);
        self.details_author_input = entry_author(primary);
        self.details_entry_id = Some(primary.id);
    }

    /// The selected entries among `entries`, in list order.
    pub fn selected_entries(&self, entries: &Vec<LibraryEntry>) -> (chosen: Vec<EntryId>)
        ensures
            chosen@ == entries@.map_values(|e: LibraryEntry| e.id).filter(|id: EntryId| self.selected_library_entries@.contains(id)),
    {
        let ghost pred = |id: EntryId| self.selected_library_entries@.contains(id);
        let ghost ids = entries@.map_values(|e: LibraryEntry| e.id);
        let mut chosen: Vec<EntryId> = Vec::new();
        let mut i: usize = 0;
        while i < entries.len()
            invariant
                pred == |id: EntryId| self.selected_library_entries@.contains(id),
                ids == entries@.map_values(|e: LibraryEntry| e.id),
                i <= entries@.len(),
                chosen@ == ids.take(i as int).filter(pred),
            decreases entries@.len() - i,
        {
            let id = entries[i].id;
            proof {
                assert(ids.take(i as int + 1) =~= ids.take(i as int).push(id));
                ids.take(i as int).lemma_filter_push(id, pred);
            }
            if vec_contains_u64(&self.selected_library_entries, id) {
                chosen.push(id);
            }
            i = i + 1;
        }
        assert(ids.take(entries@.len() as int) =~= ids);
        chosen
    }
}

} // verus!

verus! {

impl LibrarySelection {
    /// Drops the entries that are not visible from the selection, moves an
    /// anchor that is no longer visible, and refreshes the details editor.
    pub fn prune_selection_to_visible_entries(&mut self, visible: &Vec<EntryId>, entries: &Vec<LibraryEntry>)
        requires
            old(self).wf(),
        ensures
            final(self).wf(),
            (final(self).selected_library_entries@, final(self).library_selection_anchor)
                == prune_spec(old(self).selected_library_entries@, old(self).library_selection_anchor, visible@),
            final(self).details_view() == details_after(final(self).selected_library_entries@, entries@, old(self).details_view()),
    {
        let ghost pred = |id: EntryId| visible@.contains(id);
        let ghost old_sel = self.selected_library_entries@;
        let mut kept: Vec<EntryId> = Vec::new();
        let mut i: usize = 0;
        while i < self.selected_library_entries.len()
            invariant
                pred == |id: EntryId| visible@.contains(id),
                old_sel == self.selected_library_entries@,
                old_sel.no_duplicates(),
                i <= old_sel.len(),
                kept@ == old_sel.take(i as int).filter(pred),
                kept@.no_duplicates(),
                forall|x: EntryId| kept@.contains(x) ==> old_sel.take(i as int).contains(x),
            decreases old_sel.len() - i,
        {
            let id = self.selected_library_entries[i];
            let ghost before = kept@;
            proof {
                assert(old_sel.take(i as int + 1) =~= old_sel.take(i as int).push(id));
                old_sel.take(i as int).lemma_filter_push(id, pred);
                if old_sel.take(i as int).contains(id) {
                    let j = old_sel.take(i as int).index_of(id);
                    assert(old_sel[j] == old_sel[i as int]);
                }
            }
            if vec_contains_u64(visible, id) {
                kept.push(id);
                proof {
                    assert forall|a: int, b: int| 0 <= a < b < kept@.len() implies kept@[a] != kept@[b] by {
                        if b == kept@.len() - 1 {
                            assert(before.contains(kept@[a]));
                        }
                    }
                }
            }
            proof {
                assert forall|x: EntryId| kept@.contains(x) implies old_sel.take(i as int + 1).contains(x) by {
                    if x != id {
                        assert(before.contains(x)) by {
                            let t = kept@.index_of(x);
                            if t < before.len() {
                                assert(before[t] == x);
                            }
                        }
                        assert(old_sel.take(i as int).contains(x));
                        let u = old_sel.take(i as int).index_of(x);
                        assert(0 <= u < i);
                        assert(old_sel.take(i as int)[u] == x);
                        assert(old_sel.take(i as int + 1)[u] == old_sel[u]);
                    } else {
                        assert(old_sel.take(i as int + 1)[i as int] == x);
                    }
                }
            }
            i = i + 1;
        }
        proof {
            assert(old_sel.take(old_sel.len() as int) =~= old_sel);
        }
        self.selected_library_entries = kept;
        if let Some(anchor) = self.library_selection_anchor {
            if !vec_contains_u64(visible, anchor) {
                self.library_selection_anchor = if self.selected_library_entries.len() > 0 {
                    Some(self.selected_library_entries[0])
                } else {
                    None
                };
            }
        }
        self.sync_details_editor_to_selection(entries);
    }
}

} // verus!

verus! {

/// `selected` with `id` added when absent and removed when present.
fn toggled(selected: &Vec<EntryId>, id: EntryId) -> (next: Vec<EntryId>)
    requires
        selected@.no_duplicates(),
    ensures
        next@ == toggle_spec(selected@, id),
        next@.no_duplicates(),
{
    let mut next = crate::seqs::vec_copy_u64(selected);
    proof {
        lemma_position_of(selected@, id);
    }
    match vec_position_u64(selected, id) {
        Some(i) => {
            proof {
                lemma_position_of_is(selected@, id, i as int);
            }
            next.remove(i);
            proof {
                assert forall|a: int, b: int| 0 <= a < b < next@.len() implies next@[a] != next@[b] by {
                    let a2 = if a < i { a } else { a + 1 };
                    let b2 = if b < i { b } else { b + 1 };
                    assert(next@[a] == selected@[a2]);
                    assert(next@[b] == selected@[b2]);
                }
            }
        },
        None => {
            next.push(id);
            proof {
                assert forall|a: int, b: int| 0 <= a < b < next@.len() implies next@[a] != next@[b] by {
                    if b == next@.len() - 1 {
                        assert(selected@.contains(next@[a]));
                    }
                }
            }
        },
    }
    next
}

/// The shift-click selection.
fn range_selection(selected: &Vec<EntryId>, anchor: Option<EntryId>, entry_id: EntryId, visible: &Vec<EntryId>) -> (result: (Vec<EntryId>, Option<EntryId>))
    ensures
        (result.0@, result.1) == range_spec(selected@, anchor, entry_id, visible@),
        selected@.no_duplicates() ==> result.0@.no_duplicates(),
{
    let a = match anchor {
        Some(a) => a,
        None => if selected.len() > 0 { selected[0] } else { entry_id },
    };
    proof {
        lemma_position_of(visible@, a);
        lemma_position_of(visible@, entry_id);
    }
    let ai = match vec_position_u64(visible, a) {
        None => {
            let mut only: Vec<EntryId> = Vec::new();
            only.push(entry_id);
            assert(only@ =~= seq![entry_id]);
            return (only, Some(entry_id));
        },
        Some(i) => i,
    };
    proof {
        lemma_position_of_is(visible@, a, ai as int);
    }
    let ei = match vec_position_u64(visible, entry_id) {
        None => return (crate::seqs::vec_copy_u64(selected), anchor),
        Some(i) => i,
    };
    proof {
        lemma_position_of_is(visible@, entry_id, ei as int);
    }
    let lo = if ai <= ei { ai } else { ei };
    let hi = if ai <= ei { ei } else { ai };
    let n = visible.len();
    assert(hi < n);
    let items = distinct_range(visible, lo, hi + 1);
    proof {
        lemma_distinct_items(visible@.subrange(lo as int, hi as int + 1));
    }
    (items, Some(a))
}

impl LibrarySelection {
    /// Handles a click on an entry: shift selects the visible range from the
    /// anchor, ctrl toggles the entry, a plain click selects only it; the
    /// selection is then pruned to the visible entries and the details
    /// editor follows it.
    pub fn select_library_entry(&mut self, entry_id: EntryId, shift: bool, ctrl: bool, visible: &Vec<EntryId>, entries: &Vec<LibraryEntry>)
        requires
            old(self).wf(),
        ensures
            final(self).wf(),
            ({
                let clicked = click_spec(old(self).selected_library_entries@, old(self).library_selection_anchor, entry_id, shift, ctrl, visible@);
                (final(self).selected_library_entries@, final(self).library_selection_anchor) == prune_spec(clicked.0, clicked.1, visible@)
            }),
            final(self).details_view() == details_after(final(self).selected_library_entries@, entries@, old(self).details_view()),
    {
        if shift {
            let (items, anchor) = range_selection(&self.selected_library_entries, self.library_selection_anchor, entry_id, visible);
            self.selected_library_entries = items;
            self.library_selection_anchor = anchor;
        } else if ctrl {
            self.selected_library_entries = toggled(&self.selected_library_entries, entry_id);
            self.library_selection_anchor = Some(entry_id);
        } else {
            let mut only: Vec<EntryId> = Vec::new();
            only.push(entry_id);
            assert(only@ =~= seq![entry_id]);
            self.selected_library_entries = only;
            self.library_selection_anchor = Some(entry_id);
        }
        self.prune_selection_to_visible_entries(visible, entries);
        self.sync_details_editor_to_selection(entries);
    }

    /// Toggles an entry's checkbox: the entry joins or leaves the selection
    /// and becomes the anchor; the selection is then pruned to the visible
    /// entries and the details editor follows it.
    pub fn toggle_library_entry_selection(&mut self, entry_id: EntryId, visible: &Vec<EntryId>, entries: &Vec<LibraryEntry>)
        requires
            old(self).wf(),
        ensures
            final(self).wf(),
            (final(self).selected_library_entries@, final(self).library_selection_anchor)
                == prune_spec(toggle_spec(old(self).selected_library_entries@, entry_id), Some(entry_id), visible@),
            final(self).details_view() == details_after(final(self).selected_library_entries@, entries@, old(self).details_view()),
    {
        self.selected_library_entries = toggled(&self.selected_library_entries, entry_id);
        self.library_selection_anchor = Some(entry_id);
        self.prune_selection_to_visible_entries(visible, entries);
    }

    /// Selects every visible entry, anchors the first, and refreshes the
    /// details editor.
    pub fn select_all_visible_library_entries(&mut self, visible: &Vec<EntryId>, entries: &Vec<LibraryEntry>)
        ensures
            final(self).wf(),
            final(self).selected_library_entries@ == distinct_items(visible@),
            final(self).library_selection_anchor == (if visible@.len() > 0 { Some(visible@[0]) } else { None }),
            final(self).details_view() == details_after(final(self).selected_library_entries@, entries@, old(self).details_view()),
    {
        let items = distinct_range(visible, 0, visible.len());
        proof {
            assert(visible@.subrange(0, visible@.len() as int) =~= visible@);
            lemma_distinct_items(visible@);
        }
        self.selected_library_entries = items;
        self.library_selection_anchor = if visible.len() > 0 { Some(visible[0]) } else { None };
        self.sync_details_editor_to_selection(entries);
    }

    /// A click on the header checkbox: clears the selection when every
    /// visible entry is selected, else selects them all.
    pub fn master_checkbox_clicked(&mut self, visible: &Vec<EntryId>, entries: &Vec<LibraryEntry>)
        ensures
            final(self).wf(),
            master_state(visible@, old(self).selected_library_entries@) == MasterCheckboxState::Checked ==> {
                &&& final(self).selected_library_entries@.len() == 0
                &&& final(self).library_selection_anchor.is_none()
                &&& final(self).details_view() == (None::<EntryId>, Seq::<char>::empty(), Seq::<char>::empty())
            },
            master_state(visible@, old(self).selected_library_entries@) != MasterCheckboxState::Checked ==> {
                &&& final(self).selected_library_entries@ == distinct_items(visible@)
                &&& final(self).library_selection_anchor == (if visible@.len() > 0 { Some(visible@[0]) } else { None })
                &&& final(self).details_view() == details_after(final(self).selected_library_entries@, entries@, old(self).details_view())
            },
    {
        if master_checkbox_state(visible, &self.selected_library_entries) == MasterCheckboxState::Checked {
            self.clear_library_selection(entries);
        } else {
            self.select_all_visible_library_entries(visible, entries);
        }
    }

    /// Clears the selection and its anchor, which empties the details
    /// editor.
    pub fn clear_library_selection(&mut self, entries: &Vec<LibraryEntry>)
        ensures
            final(self).wf(),
            final(self).selected_library_entries@.len() == 0,
            final(self).library_selection_anchor.is_none(),
            final(self).details_view() == (None::<EntryId>, Seq::<char>::empty(), Seq::<char>::empty()),
    {
        self.selected_library_entries = Vec::new();
        self.library_selection_anchor = None;
        self.sync_details_editor_to_selection(entries);
    }
}

} // verus!

verus! {

proof fn lemma_count_selected_all(visible: Seq<EntryId>, selected: Seq<EntryId>)
    requires
        forall|i: int| 0 <= i < visible.len() ==> selected.contains(#[trigger] visible[i]),
    ensures
        count_selected(visible, selected) == visible.len(),
    decreases visible.len(),
{
    if visible.len() > 0 {
        let rest = visible.drop_last();
        assert forall|i: int| 0 <= i < rest.len() implies selected.contains(#[trigger] rest[i]) by {
            assert(rest[i] == visible[i]);
        }
        lemma_count_selected_all(rest, selected);
        assert(selected.contains(visible[visible.len() - 1]));
    }
}

proof fn lemma_count_selected_none(visible: Seq<EntryId>, selected: Seq<EntryId>)
    requires
        selected.len() == 0,
    ensures
        count_selected(visible, selected) == 0,
    decreases visible.len(),
{
    if visible.len() > 0 {
        lemma_count_selected_none(visible.drop_last(), selected);
    }
}

/// After selecting every visible entry, the header checkbox shows all
/// selected (as long as something is visible).
pub proof fn law_select_all_checks_master(visible: Seq<EntryId>)
    requires
        visible.len() > 0,
    ensures
        master_checkbox_spec(count_selected(visible, distinct_items(visible)), visible.len()) == MasterCheckboxState::Checked,
{
    lemma_distinct_items(visible);
    assert forall|i: int| 0 <= i < visible.len() implies distinct_items(visible).contains(#[trigger] visible[i]) by {
        assert(visible.contains(visible[i]));
    }
    lemma_count_selected_all(visible, distinct_items(visible));
}

/// After clearing the selection, the header checkbox shows nothing
/// selected.
pub proof fn law_clear_unchecks_master(visible: Seq<EntryId>)
    ensures
        master_checkbox_spec(count_selected(visible, Seq::empty()), visible.len()) == MasterCheckboxState::Unchecked,
{
    lemma_count_selected_none(visible, Seq::empty());
}

/// A click on the header checkbox never leaves it partly checked.
pub proof fn law_master_click_never_partial(visible: Seq<EntryId>, selected: Seq<EntryId>)
    ensures
        master_state(
            visible,
            if master_state(visible, selected) == MasterCheckboxState::Checked { Seq::empty() } else { distinct_items(visible) },
        ) != MasterCheckboxState::Partial,
{
    if visible.len() > 0 {
        if master_state(visible, selected) == MasterCheckboxState::Checked {
            law_clear_unchecks_master(visible);
        } else {
            law_select_all_checks_master(visible);
        }
    }
}

/// Ctrl-clicking the same entry twice leaves the same entries selected.
pub proof fn law_toggle_twice_restores(selected: Seq<EntryId>, id: EntryId)
    requires
        selected.no_duplicates(),
    ensures
        forall|x: EntryId| toggle_spec(toggle_spec(selected, id), id).contains(x) <==> selected.contains(x),
{
    lemma_position_of(selected, id);
    if selected.contains(id) {
        let p = position_of(selected, id);
        let once = selected.remove(p);
        assert forall|x: EntryId| once.contains(x) <==> (selected.contains(x) && x != id) by {
            if once.contains(x) {
                let k = once.index_of(x);
                let k2 = if k < p { k } else { k + 1 };
                assert(selected[k2] == once[k]);
                assert(x != id) by {
                    if x == id {
                        assert(selected[k2] == selected[p]);
                    }
                }
            }
            if selected.contains(x) && x != id {
                let k = selected.index_of(x);
                if k < p {
                    assert(once[k] == x);
                } else {
                    assert(k != p);
                    assert(once[k - 1] == x);
                }
            }
        }
        assert(!once.contains(id));
        assert forall|x: EntryId| toggle_spec(once, id).contains(x) <==> selected.contains(x) by {
            assert(toggle_spec(once, id) == once.push(id));
            if once.push(id).contains(x) && x != id {
                let k = once.push(id).index_of(x);
                assert(once[k] == x);
            }
            if x == id {
                assert(once.push(id)[once.len() as int] == id);
                assert(selected[p] == id);
            }
            if selected.contains(x) && x != id {
                let k = once.index_of(x);
                assert(once.push(id)[k] == x);
            }
        }
    } else {
        let once = selected.push(id);
        assert(once.contains(id)) by {
            assert(once[selected.len() as int] == id);
        }
        lemma_position_of(once, id);
        let p = position_of(once, id);
        assert(p == selected.len()) by {
            if p < selected.len() {
                assert(once[p] == selected[p]);
            }
        }
        assert(once.remove(p) =~= selected);
    }
}

/// Pruning to the visible entries a second time changes nothing.
pub proof fn law_prune_is_idempotent(selected: Seq<EntryId>, anchor: Option<EntryId>, visible: Seq<EntryId>)
    ensures
        prune_spec(prune_spec(selected, anchor, visible).0, prune_spec(selected, anchor, visible).1, visible)
            == prune_spec(selected, anchor, visible),
{
    let pred = |id: EntryId| visible.contains(id);
    let kept = selected.filter(pred);
    assert(kept.filter(pred) =~= kept) by {
        broadcast use vstd::seq_lib::group_filter_ensures;
        lemma_filter_all_kept(kept, pred);
    }
    let a1 = prune_spec(selected, anchor, visible).1;
    if a1.is_some() {
        if anchor.is_some() && visible.contains(anchor.unwrap()) {
        } else {
            assert(kept.len() > 0);
            assert(pred(kept[0]));
        }
    }
}

/// A shift-click on a visible entry with a visible anchor selects exactly
/// the visible entries from the anchor through the clicked entry, in either
/// direction, each once, both ends included, and keeps the anchor.
pub proof fn law_shift_click_selects_range(selected: Seq<EntryId>, a: EntryId, entry_id: EntryId, ctrl: bool, visible: Seq<EntryId>)
    requires
        visible.contains(a),
        visible.contains(entry_id),
    ensures
        ({
            let clicked = click_spec(selected, Some(a), entry_id, true, ctrl, visible);
            let after = prune_spec(clicked.0, clicked.1, visible);
            let i = position_of(visible, a);
            let e = position_of(visible, entry_id);
            &&& after.1 == Some(a)
            &&& after.0.contains(entry_id)
            &&& after.0.contains(a)
            &&& after.0.no_duplicates()
            &&& forall|x: EntryId|
                after.0.contains(x) <==> exists|j: int| (i <= j <= e || e <= j <= i) && #[trigger] visible[j] == x
        }),
{
    lemma_position_of(visible, a);
    lemma_position_of(visible, entry_id);
    let i = position_of(visible, a);
    let e = position_of(visible, entry_id);
    let lo = if i <= e { i } else { e };
    let hi = if i <= e { e } else { i };
    let sub = visible.subrange(lo, hi + 1);
    let range = distinct_items(sub);
    lemma_distinct_items(sub);
    let pred = |id: EntryId| visible.contains(id);
    assert forall|k: int| 0 <= k < range.len() implies pred(#[trigger] range[k]) by {
        assert(range.contains(range[k]));
        assert(sub.contains(range[k]));
        let m = choose|m: int| 0 <= m < sub.len() && sub[m] == range[k];
        assert(visible[lo + m] == range[k]);
    }
    lemma_filter_all_kept(range, pred);
    assert forall|x: EntryId| range.contains(x) <==> exists|j: int| (i <= j <= e || e <= j <= i) && #[trigger] visible[j] == x by {
        if sub.contains(x) {
            let m = choose|m: int| 0 <= m < sub.len() && sub[m] == x;
            assert(visible[lo + m] == x);
        }
        if exists|j: int| (i <= j <= e || e <= j <= i) && #[trigger] visible[j] == x {
            let j = choose|j: int| (i <= j <= e || e <= j <= i) && #[trigger] visible[j] == x;
            assert(sub[j - lo] == x);
            assert(sub.contains(x));
        }
    }
    assert(visible[e] == entry_id);
    assert(visible[i] == a);
}

proof fn lemma_filter_all_kept(s: Seq<EntryId>, pred: spec_fn(EntryId) -> bool)
    requires
        forall|i: int| 0 <= i < s.len() ==> pred(#[trigger] s[i]),
    ensures
        s.filter(pred) == s,
    decreases s.len(),
{
    reveal(Seq::filter);
    if s.len() > 0 {
        let rest = s.drop_last();
        assert forall|i: int| 0 <= i < rest.len() implies pred(#[trigger] rest[i]) by {
            assert(rest[i] == s[i]);
        }
        lemma_filter_all_kept(rest, pred);
        assert(pred(s.last()));
        assert(rest.push(s.last()) =~= s);
    } else {
        assert(s.filter(pred) =~= s);
    }
}

} // verus!

verus! {

/// Whatever the click, the selection afterwards holds only visible entries,
/// and a remaining anchor is visible too.
pub proof fn law_selection_stays_visible(selected: Seq<EntryId>, anchor: Option<EntryId>, visible: Seq<EntryId>)
    requires
        anchor.is_some() ==> selected.contains(anchor.unwrap()) || visible.contains(anchor.unwrap()),
    ensures
        forall|x: EntryId| #[trigger] prune_spec(selected, anchor, visible).0.contains(x) ==> visible.contains(x),
        prune_spec(selected, anchor, visible).1.is_some() ==> visible.contains(prune_spec(selected, anchor, visible).1.unwrap()),
{
    let pred = |id: EntryId| visible.contains(id);
    let kept = selected.filter(pred);
    assert forall|x: EntryId| kept.contains(x) implies visible.contains(x) by {
        let i = kept.index_of(x);
        selected.lemma_filter_pred(pred, i);
    }
    if kept.len() > 0 {
        assert(kept.contains(kept[0]));
    }
}

} // verus!
