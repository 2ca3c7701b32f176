//! Facts about sequences that the collection code relies on.

use vstd::prelude::*;
use vstd::seq_lib::*;
use vstd::set_lib::*;

verus! {

/// A sequence without repeats whose items all occur in `universe` is no
/// longer than `universe`.
pub proof fn lemma_distinct_within_bound<A>(s: Seq<A>, universe: Seq<A>)
    requires
        s.no_duplicates(),
        forall|i: int| 0 <= i < s.len() ==> universe.contains(#[trigger] s[i]),
    ensures
        s.len() <= universe.len(),
{
    s.unique_seq_to_set();
    universe.lemma_cardinality_of_set();
    assert(s.to_set().subset_of(universe.to_set())) by {
        assert forall|x: A| s.to_set().contains(x) implies universe.to_set().contains(x) by {
            let i = s.index_of(x);
            assert(s[i] == x);
        }
    }
    lemma_len_subset(s.to_set(), universe.to_set());
}

} // verus!

verus! {

/// Whether `v` holds `x`.
pub fn vec_contains_u64(v: &Vec<u64>, x: u64) -> (found: bool)
    ensures
        found == v@.contains(x),
{
    let mut i: usize = 0;
    while i < v.len()
        invariant
            i <= v@.len(),
            forall|j: int| 0 <= j < i ==> v@[j] != x,
        decreases v@.len() - i,
    {
        if v[i] == x {
            assert(v@[i as int] == x);
            return true;
        }
        i = i + 1;
    }
    false
}

/// The position of the first `x` in `v`, if any.
pub fn vec_position_u64(v: &Vec<u64>, x: u64) -> (position: Option<usize>)
    ensures
        match position {
            Some(i) => i < v@.len() && v@[i as int] == x && forall|j: int| 0 <= j < i ==> v@[j] != x,
            None => !v@.contains(x),
        },
{
    let mut i: usize = 0;
    while i < v.len()
        invariant
            i <= v@.len(),
            forall|j: int| 0 <= j < i ==> v@[j] != x,
        decreases v@.len() - i,
    {
        if v[i] == x {
            return Some(i);
        }
        i = i + 1;
    }
    None
}

} // verus!

verus! {

/// Whether two vectors hold the same items in the same order.
pub fn vec_eq_u64(a: &Vec<u64>, b: &Vec<u64>) -> (equal: bool)
    ensures
        equal == (a@ == b@),
{
    if a.len() != b.len() {
        return false;
    }
    let mut i: usize = 0;
    while i < a.len()
        invariant
            i <= a@.len(),
            a@.len() == b@.len(),
            forall|j: int| 0 <= j < i ==> a@[j] == b@[j],
        decreases a@.len() - i,
    {
        if a[i] != b[i] {
            return false;
        }
        i = i + 1;
    }
    assert(a@ =~= b@);
    true
}

} // verus!

verus! {

/// The position of the first `x` in `s`, or -1 when `x` does not occur.
pub open spec fn position_of(s: Seq<u64>, x: u64) -> int
    decreases s.len(),
{
    if s.len() == 0 {
        -1
    } else if s[0] == x {
        0
    } else {
        let rest = position_of(s.drop_first(), x);
        if rest < 0 {
            -1
        } else {
            rest + 1
        }
    }
}

/// `position_of` finds the first occurrence, and -1 exactly when there is
/// none.
pub proof fn lemma_position_of(s: Seq<u64>, x: u64)
    ensures
        -1 <= position_of(s, x) < s.len(),
        position_of(s, x) >= 0 ==> s[position_of(s, x)] == x && forall|j: int| 0 <= j < position_of(s, x) ==> s[j] != x,
        position_of(s, x) < 0 ==> !s.contains(x),
    decreases s.len(),
{
    if s.len() > 0 {
        let rest = s.drop_first();
        lemma_position_of(rest, x);
        if s[0] != x {
            let r = position_of(rest, x);
            if r >= 0 {
                assert(s[r + 1] == rest[r]);
                assert forall|j: int| 0 <= j < r + 1 implies s[j] != x by {
                    if j > 0 {
                        assert(s[j] == rest[j - 1]);
                    }
                }
            } else {
                assert forall|j: int| 0 <= j < s.len() implies s[j] != x by {
                    if j > 0 {
                        assert(s[j] == rest[j - 1]);
                    }
                }
            }
        }
    }
}

/// A first occurrence found by search is the one `position_of` names.
pub proof fn lemma_position_of_is(s: Seq<u64>, x: u64, i: int)
    requires
        0 <= i < s.len(),
        s[i] == x,
        forall|j: int| 0 <= j < i ==> s[j] != x,
    ensures
        position_of(s, x) == i,
{
    lemma_position_of(s, x);
    let p = position_of(s, x);
    if p < 0 {
        assert(s.contains(x));
    }
}

} // verus!

verus! {

/// A copy of `v`.
pub fn vec_copy_u64(v: &Vec<u64>) -> (copy: Vec<u64>)
    ensures
        copy@ == v@,
{
    let mut copy: Vec<u64> = Vec::new();
    let mut i: usize = 0;
    while i < v.len()
        invariant
            i <= v@.len(),
            copy@ == v@.take(i as int),
        decreases v@.len() - i,
    {
        copy.push(v[i]);
        i = i + 1;
        assert(copy@ =~= v@.take(i as int));
    }
    assert(v@.take(v@.len() as int) =~= v@);
    copy
}

} // verus!

verus! {

/// The items of `s` in order of first occurrence, each once.
pub open spec fn distinct_items(s: Seq<u64>) -> Seq<u64>
    decreases s.len(),
{
    if s.len() == 0 {
        s
    } else {
        let d = distinct_items(s.drop_last());
        if d.contains(s.last()) {
            d
        } else {
            d.push(s.last())
        }
    }
}

/// `distinct_items` keeps exactly the items of `s`, each once.
pub proof fn lemma_distinct_items(s: Seq<u64>)
    ensures
        distinct_items(s).no_duplicates(),
        forall|x: u64| distinct_items(s).contains(x) <==> s.contains(x),
    decreases s.len(),
{
    if s.len() > 0 {
        let rest = s.drop_last();
        lemma_distinct_items(rest);
        let d = distinct_items(rest);
        assert forall|x: u64| distinct_items(s).contains(x) <==> s.contains(x) by {
            if rest.contains(x) {
                let i = rest.index_of(x);
                assert(s[i] == x);
            }
            if s.contains(x) && x != s.last() {
                let i = s.index_of(x);
                assert(i < s.len() - 1);
                assert(rest[i] == x);
            }
            if !d.contains(s.last()) {
                assert(d.push(s.last())[d.len() as int] == s.last());
                if d.push(s.last()).contains(x) && x != s.last() {
                    let i = d.push(s.last()).index_of(x);
                    assert(d[i] == x);
                }
                if d.contains(x) {
                    let i = d.index_of(x);
                    assert(d.push(s.last())[i] == x);
                }
            }
        }
    }
}

/// The items of `v[lo..hi]` in order of first occurrence, each once.
pub fn distinct_range(v: &Vec<u64>, lo: usize, hi: usize) -> (items: Vec<u64>)
    requires
        lo <= hi <= v@.len(),
    ensures
        items@ == distinct_items(v@.subrange(lo as int, hi as int)),
{
    let mut items: Vec<u64> = Vec::new();
    let mut i: usize = lo;
    while i < hi
        invariant
            lo <= i <= hi <= v@.len(),
            items@ == distinct_items(v@.subrange(lo as int, i as int)),
        decreases hi - i,
    {
        assert(v@.subrange(lo as int, i as int + 1).drop_last() =~= v@.subrange(lo as int, i as int));
        if !vec_contains_u64(&items, v[i]) {
            items.push(v[i]);
        }
        i = i + 1;
    }
    items
}

} // verus!
