//! Which library entries are in view under the current filters, and in what
//! order.

use vstd::prelude::*;

use std::collections::HashMap;

use crate::model::EntryId;
use crate::tags::{contains_tag, has_tag};
use crate::text::{decimal, decimal_string, lowercase, to_lowercase, trim, trim_spec};

verus! {

/// What the view filters read of one entry.
#[derive(Debug)]
pub struct EntryViewFacts {
    pub tags: Vec<String>,
    /// The entry lies within the folder shown.
    pub in_folder_scope: bool,
    /// The entry's reading state is the one the reading filter asks for;
    /// true while no reading filter is set.
    pub passes_reading_filter: bool,
    /// When the entry was last opened, if ever.
    pub opened_at: Option<i64>,
    /// The entry's place in the hand-made order.
    pub manual_order: i64,
    /// The entry's file is missing.
    pub missing: bool,
}

/// The filters of the library view that decide what is shown.
#[derive(Debug)]
pub struct EntryFilters {
    /// Only entries with this tag; while set, the folder shown does not
    /// narrow the view.
    pub tag: Option<String>,
    /// Only entries opened before, most recently opened first.
    pub recently_opened: bool,
    /// Only entries whose file is missing.
    pub missing_only: bool,
}

/// `e` is in view under `f`.
pub open spec fn in_view(e: EntryViewFacts, f: EntryFilters) -> bool {
    &&& match f.tag {
        Some(t) => has_tag(e.tags@, t@),
        None => e.in_folder_scope,
    }
    &&& e.passes_reading_filter
    &&& (f.recently_opened ==> e.opened_at.is_some())
    &&& (f.missing_only ==> e.missing)
}

/// The positions, in order, of the entries in view.
pub open spec fn positions_in_view(entries: Seq<EntryViewFacts>, f: EntryFilters) -> Seq<int>
    decreases entries.len(),
{
    if entries.len() == 0 {
        Seq::empty()
    } else {
        let before = positions_in_view(entries.drop_last(), f);
        if in_view(entries.last(), f) {
            before.push(entries.len() - 1)
        } else {
            before
        }
    }
}

/// `a` was opened after `b` (an entry never opened comes last).
pub open spec fn opened_after(a: Option<i64>, b: Option<i64>) -> bool {
    match (a, b) {
        (Some(x), Some(y)) => x > y,
        (Some(_), None) => true,
        _ => false,
    }
}

/// In the recently-opened order the entry at `p` comes before the one at
/// `q`: opened later, or opened at the same time and earlier in the
/// hand-made order, or tied on both and earlier in the list.
pub open spec fn recent_before(entries: Seq<EntryViewFacts>, p: int, q: int) -> bool {
    let a = entries[p];
    let b = entries[q];
    ||| opened_after(a.opened_at, b.opened_at)
    ||| a.opened_at == b.opened_at && a.manual_order < b.manual_order
    ||| a.opened_at == b.opened_at && a.manual_order == b.manual_order && p < q
}

/// `order` holds position `p`.
pub open spec fn lists(order: Seq<usize>, p: int) -> bool {
    exists|i: int| 0 <= i < order.len() && order[i] as int == p
}

/// `order` lists entries in view, each once, in recently-opened order.
pub open spec fn recent_sorted(entries: Seq<EntryViewFacts>, order: Seq<usize>) -> bool {
    forall|i: int, j: int| 0 <= i < j < order.len() ==> recent_before(entries, #[trigger] order[i] as int, #[trigger] order[j] as int)
}

proof fn lemma_recent_before_transitive(entries: Seq<EntryViewFacts>, p: int, q: int, r: int)
    requires
        recent_before(entries, p, q),
        recent_before(entries, q, r),
    ensures
        recent_before(entries, p, r),
{
}

proof fn lemma_recent_before_total(entries: Seq<EntryViewFacts>, p: int, q: int)
    requires
        p != q,
    ensures
        recent_before(entries, p, q) || recent_before(entries, q, p),
        !recent_before(entries, p, p),
{
}

/// Whether `e` is in view under `f`.
fn entry_in_view(e: &EntryViewFacts, f: &EntryFilters) -> (shown: bool)
    ensures
        shown == in_view(*e, *f),
{
    let scoped = match &f.tag {
        Some(t) => contains_tag(&e.tags, t.as_str()),
        None => e.in_folder_scope,
    };
    scoped && e.passes_reading_filter && (!f.recently_opened || e.opened_at.is_some()) && (!f.missing_only || e.missing)
}

fn comes_before(entries: &Vec<EntryViewFacts>, p: usize, q: usize) -> (before: bool)
    requires
        p < entries@.len(),
        q < entries@.len(),
    ensures
        before == recent_before(entries@, p as int, q as int),
{
    let a = &entries[p];
    let b = &entries[q];
    let after = match (a.opened_at, b.opened_at) {
        (Some(x), Some(y)) => x > y,
        (Some(_), None) => true,
        _ => false,
    };
    let same_time = match (a.opened_at, b.opened_at) {
        (Some(x), Some(y)) => x == y,
        (None, None) => true,
        _ => false,
    };
    after || (same_time && a.manual_order < b.manual_order) || (same_time && a.manual_order == b.manual_order && p < q)
}

/// The positions of the entries in view under `filters`, in list order; with
/// the recently-opened filter on, sorted most recently opened first, then by
/// the hand-made order, ties keeping list order.
pub fn visible_entry_positions(entries: &Vec<EntryViewFacts>, filters: &EntryFilters) -> (order: Vec<usize>)
    ensures
        order.len() == positions_in_view(entries@, *filters).len(),
        !filters.recently_opened ==> forall|i: int|
            0 <= i < order.len() ==> #[trigger] order@[i] as int == positions_in_view(entries@, *filters)[i],
        filters.recently_opened ==> {
            &&& forall|i: int| 0 <= i < order.len() ==> positions_in_view(entries@, *filters).contains(#[trigger] order@[i] as int)
            &&& forall|j: int|
                0 <= j < order.len() ==> lists(order@, #[trigger] positions_in_view(entries@, *filters)[j])
            &&& recent_sorted(entries@, order@)
        },
{
    let shown = in_view_positions(entries, filters);
    if !filters.recently_opened {
        return shown;
    }
    let ghost fp = positions_in_view(entries@, *filters);
    let mut order: Vec<usize> = Vec::new();
    let mut k: usize = 0;
    while k < shown.len()
        invariant
            fp == positions_in_view(entries@, *filters),
            shown.len() == fp.len(),
            forall|i: int| 0 <= i < shown.len() ==> #[trigger] shown@[i] as int == fp[i],
            forall|i: int| 0 <= i < shown.len() ==> #[trigger] shown@[i] < entries@.len(),
            k <= shown.len(),
            order.len() == k,
            forall|i: int| 0 <= i < k ==> fp.take(k as int).contains(#[trigger] order@[i] as int),
            forall|i: int| 0 <= i < k ==> #[trigger] order@[i] < entries@.len(),
            forall|j: int| 0 <= j < k ==> lists(order@, #[trigger] fp[j]),
            recent_sorted(entries@, order@),
        decreases shown.len() - k,
    {
        let x = shown[k];
        let mut pos: usize = 0;
        while pos < order.len()
            invariant
                order.len() == k,
                x < entries@.len(),
                pos <= k,
                forall|i: int| 0 <= i < k ==> #[trigger] order@[i] < entries@.len(),
                forall|i: int| 0 <= i < pos ==> recent_before(entries@, #[trigger] order@[i] as int, x as int),
            ensures
                pos <= k,
                forall|i: int| 0 <= i < pos ==> recent_before(entries@, #[trigger] order@[i] as int, x as int),
                pos < k ==> !recent_before(entries@, order@[pos as int] as int, x as int),
            decreases k - pos,
        {
            if !comes_before(entries, order[pos], x) {
                break;
            }
            pos = pos + 1;
        }
        let ghost before = order@;
        proof {
            assert(fp.take(k as int + 1) == fp.take(k as int).push(fp[k as int]));
            // x is new: every position listed so far lies before it in the list.
            if pos < k {
                let p = before[pos as int] as int;
                assert(fp.take(k as int).contains(order@[pos as int] as int));
                assert(p != x as int) by {
                    let w = choose|w: int| 0 <= w < fp.take(k as int).len() && fp.take(k as int)[w] == p;
                    assert(fp.take(k as int)[w] == fp[w]);
                    lemma_positions_increasing(entries@, *filters, w, k as int);
                }
                lemma_recent_before_total(entries@, p, x as int);
                assert forall|j: int| pos <= j < k implies recent_before(entries@, x as int, #[trigger] before[j] as int) by {
                    if j > pos {
                        lemma_recent_before_transitive(entries@, x as int, p, before[j] as int);
                    }
                }
            }
        }
        order.insert(pos, x);
        proof {
            assert forall|i: int| 0 <= i < k + 1 implies fp.take(k as int + 1).contains(#[trigger] order@[i] as int) by {
                if i < pos {
                    assert(order@[i] == before[i]);
                    let w = choose|w: int| 0 <= w < k && fp.take(k as int)[w] == before[i] as int;
                    assert(fp.take(k as int + 1)[w] == before[i] as int);
                } else if i == pos {
                    assert(fp.take(k as int + 1)[k as int] == x as int);
                } else {
                    assert(order@[i] == before[i - 1]);
                    let w = choose|w: int| 0 <= w < k && fp.take(k as int)[w] == before[i - 1] as int;
                    assert(fp.take(k as int + 1)[w] == before[i - 1] as int);
                }
            }
            assert forall|j: int| 0 <= j < k + 1 implies lists(order@, #[trigger] fp[j]) by {
                if j < k {
                    let i = choose|i: int| 0 <= i < before.len() && before[i] as int == fp[j];
                    if i < pos {
                        assert(order@[i] == before[i]);
                    } else {
                        assert(order@[i + 1] == before[i]);
                    }
                } else {
                    assert(order@[pos as int] == x);
                }
            }
            assert forall|i: int, j: int| 0 <= i < j < k + 1 implies recent_before(entries@, #[trigger] order@[i] as int, #[trigger] order@[j] as int) by {
                if i < pos && j < pos {
                    assert(order@[i] == before[i] && order@[j] == before[j]);
                } else if i < pos && j == pos {
                } else if i < pos && j > pos {
                    assert(order@[j] == before[j - 1]);
                    assert(order@[i] == before[i]);
                } else if i == pos {
                    assert(order@[j] == before[j - 1]);
                } else {
                    assert(order@[i] == before[i - 1] && order@[j] == before[j - 1]);
                }
            }
        }
        k = k + 1;
    }
    proof {
        assert(fp.take(fp.len() as int) =~= fp);
    }
    order
}

proof fn lemma_positions_exact(entries: Seq<EntryViewFacts>, f: EntryFilters)
    ensures
        forall|k: int|
            0 <= k < positions_in_view(entries, f).len() ==> {
                let p = #[trigger] positions_in_view(entries, f)[k];
                0 <= p < entries.len() && in_view(entries[p], f)
            },
        forall|p: int| 0 <= p < entries.len() && in_view(entries[p], f) ==> #[trigger] positions_in_view(entries, f).contains(p),
    decreases entries.len(),
{
    if entries.len() > 0 {
        let rest = entries.drop_last();
        lemma_positions_exact(rest, f);
        let before = positions_in_view(rest, f);
        assert forall|k: int| 0 <= k < positions_in_view(entries, f).len() implies {
            let p = #[trigger] positions_in_view(entries, f)[k];
            0 <= p < entries.len() && in_view(entries[p], f)
        } by {
            if k < before.len() {
                assert(positions_in_view(entries, f)[k] == before[k]);
                assert(entries[before[k]] == rest[before[k]]);
            }
        }
        assert forall|p: int| 0 <= p < entries.len() && in_view(entries[p], f) implies #[trigger] positions_in_view(entries, f).contains(p) by {
            if p < entries.len() - 1 {
                assert(rest[p] == entries[p]);
                assert(before.contains(p));
                let k = choose|k: int| 0 <= k < before.len() && before[k] == p;
                assert(positions_in_view(entries, f)[k] == p);
            } else {
                let all = positions_in_view(entries, f);
                assert(all[all.len() - 1] == p);
            }
        }
    }
}

/// The entries in view are exactly those that pass every filter: the tag,
/// when one is chosen, else the folder shown; the reading filter; with the
/// recently-opened filter, having been opened; with the missing-files
/// filter, a missing file, whatever the other filters.
pub proof fn law_entries_in_view_pass_every_filter(entries: Seq<EntryViewFacts>, f: EntryFilters, p: int)
    requires
        0 <= p < entries.len(),
    ensures
        positions_in_view(entries, f).contains(p) <==> {
            &&& (f.tag.is_some() ==> has_tag(entries[p].tags@, f.tag.unwrap()@))
            &&& (f.tag.is_none() ==> entries[p].in_folder_scope)
            &&& entries[p].passes_reading_filter
            &&& (f.recently_opened ==> entries[p].opened_at.is_some())
            &&& (f.missing_only ==> entries[p].missing)
        },
        forall|k: int| 0 <= k < positions_in_view(entries, f).len() ==> 0 <= #[trigger] positions_in_view(entries, f)[k] < entries.len(),
{
    lemma_positions_exact(entries, f);
    if positions_in_view(entries, f).contains(p) {
        let k = choose|k: int| 0 <= k < positions_in_view(entries, f).len() && positions_in_view(entries, f)[k] == p;
        assert(in_view(entries[positions_in_view(entries, f)[k]], f));
    }
}

/// The positions in view are increasing.
proof fn lemma_positions_increasing(entries: Seq<EntryViewFacts>, f: EntryFilters, a: int, b: int)
    requires
        0 <= a < b < positions_in_view(entries, f).len(),
    ensures
        positions_in_view(entries, f)[a] < positions_in_view(entries, f)[b],
        positions_in_view(entries, f)[b] < entries.len(),
    decreases entries.len(),
{
    let rest = entries.drop_last();
    let before = positions_in_view(rest, f);
    lemma_positions_bounded(rest, f);
    if in_view(entries.last(), f) && b == before.len() {
    } else {
        lemma_positions_increasing(rest, f, a, b);
    }
}

proof fn lemma_positions_bounded(entries: Seq<EntryViewFacts>, f: EntryFilters)
    ensures
        positions_in_view(entries, f).len() <= entries.len(),
        forall|i: int|
            0 <= i < positions_in_view(entries, f).len() ==> 0 <= #[trigger] positions_in_view(entries, f)[i] < entries.len(),
    decreases entries.len(),
{
    if entries.len() > 0 {
        lemma_positions_bounded(entries.drop_last(), f);
    }
}

/// The positions of the entries in view, in list order.
fn in_view_positions(entries: &Vec<EntryViewFacts>, filters: &EntryFilters) -> (shown: Vec<usize>)
    ensures
        shown.len() == positions_in_view(entries@, *filters).len(),
        forall|i: int| 0 <= i < shown.len() ==> #[trigger] shown@[i] as int == positions_in_view(entries@, *filters)[i],
        forall|i: int| 0 <= i < shown.len() ==> #[trigger] shown@[i] < entries@.len(),
{
    let mut shown: Vec<usize> = Vec::new();
    let mut i: usize = 0;
    while i < entries.len()
        invariant
            i <= entries.len(),
            shown.len() == positions_in_view(entries@.take(i as int), *filters).len(),
            forall|k: int|
                0 <= k < shown.len() ==> #[trigger] shown@[k] as int == positions_in_view(entries@.take(i as int), *filters)[k],
            forall|k: int| 0 <= k < shown.len() ==> #[trigger] shown@[k] < i,
        decreases entries.len() - i,
    {
        let ghost before = entries@.take(i as int);
        let ghost after = entries@.take(i as int + 1);
        proof {
            assert(after.drop_last() =~= before);
            assert(after.last() == entries@[i as int]);
        }
        if entry_in_view(&entries[i], filters) {
            shown.push(i);
            proof {
                assert(positions_in_view(after, *filters) == positions_in_view(before, *filters).push(i as int));
                assert forall|k: int| 0 <= k < shown.len() implies #[trigger] shown@[k] as int == positions_in_view(after, *filters)[k] by {
                    if k < shown.len() - 1 {
                        assert(positions_in_view(after, *filters)[k] == positions_in_view(before, *filters)[k]);
                    }
                }
            }
        } else {
            proof {
                assert(positions_in_view(after, *filters) == positions_in_view(before, *filters));
            }
        }
        i = i + 1;
    }
    proof {
        assert(entries@.take(entries@.len() as int) =~= entries@);
    }
    shown
}

/// The characters of an optional string.
pub open spec fn text_of(s: Option<String>) -> Option<Seq<char>> {
    match s {
        Some(t) => Some(t@),
        None => None,
    }
}

/// The note under an entry found by a search for `query`: none without a
/// query; the page of a hit in the text where there is one; else the note
/// that says which field matched, `field_label`.
pub open spec fn search_match_label_spec(
    query: Seq<char>,
    hit_pages: Map<EntryId, u16>,
    entry_id: EntryId,
    field_label: Option<Seq<char>>,
) -> Option<Seq<char>> {
    if lowercase(trim_spec(query)).len() == 0 {
        None
    } else if hit_pages.contains_key(entry_id) {
        Some("Match on page "@ + decimal(hit_pages[entry_id] as nat + 1))
    } else {
        field_label
    }
}

/// The note under entry `entry_id` in the search results for `query`;
/// `hit_pages` holds the page, counted from zero, of each entry's hit in the
/// text, and `field_label` the note on which field matched, where one did.
pub fn search_match_label(
    query: &str,
    hit_pages: &HashMap<EntryId, u16>,
    entry_id: EntryId,
    field_label: Option<String>,
) -> (label: Option<String>)
    ensures
        label.is_some() == search_match_label_spec(query@, hit_pages@, entry_id, text_of(field_label)).is_some(),
        label.is_some() ==> label.unwrap()@ == search_match_label_spec(query@, hit_pages@, entry_id, text_of(field_label)).unwrap(),
{
    broadcast use vstd::std_specs::hash::group_hash_axioms;
    let trimmed = trim(query);
    let lowered = to_lowercase(trimmed.as_str());
    if lowered.unicode_len() == 0 {
        return None;
    }
    match hit_pages.get(&entry_id) {
        Some(page) => {
            proof {
                reveal_strlit("Match on page ");
            }
            let mut label = "Match on page ".to_owned();
            let number = decimal_string(*page as u64 + 1);
            label.append(number.as_str());
            Some(label)
        },
        None => field_label,
    }
}

} // verus!
