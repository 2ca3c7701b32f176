//! Orders used for sorting: lexicographic order of character sequences,
//! and a stable sort of positions by a (rank, name) key.

use vstd::prelude::*;

verus! {

/// Lexicographic order on character sequences by code point, as `String`
/// orders its contents (a proper prefix comes first).
pub open spec fn chars_lt(a: Seq<char>, b: Seq<char>) -> bool
    decreases a.len(),
{
    if a.len() == 0 {
        b.len() > 0
    } else if b.len() == 0 {
        false
    } else if a[0] != b[0] {
        (a[0] as int) < (b[0] as int)
    } else {
        chars_lt(a.drop_first(), b.drop_first())
    }
}

pub proof fn lemma_chars_lt_irreflexive(a: Seq<char>)
    ensures
        !chars_lt(a, a),
    decreases a.len(),
{
    if a.len() > 0 {
        lemma_chars_lt_irreflexive(a.drop_first());
    }
}

pub proof fn lemma_chars_lt_total(a: Seq<char>, b: Seq<char>)
    ensures
        a != b ==> chars_lt(a, b) || chars_lt(b, a),
        !(chars_lt(a, b) && chars_lt(b, a)),
    decreases a.len(),
{
    if a.len() > 0 && b.len() > 0 {
        lemma_chars_lt_total(a.drop_first(), b.drop_first());
        if a[0] == b[0] && a.drop_first() == b.drop_first() {
            assert forall|i: int| 0 <= i < a.len() implies a[i] == b[i] by {
                if i > 0 {
                    assert(a[i] == a.drop_first()[i - 1]);
                    assert(b[i] == b.drop_first()[i - 1]);
                }
            }
            assert(a =~= b);
        }
    } else if a.len() == 0 && b.len() == 0 {
        assert(a =~= b);
    }
}

pub proof fn lemma_chars_lt_transitive(a: Seq<char>, b: Seq<char>, c: Seq<char>)
    requires
        chars_lt(a, b),
        chars_lt(b, c),
    ensures
        chars_lt(a, c),
    decreases a.len(),
{
    if a.len() > 0 && b.len() > 0 && c.len() > 0 {
        if a[0] == b[0] && b[0] == c[0] {
            lemma_chars_lt_transitive(a.drop_first(), b.drop_first(), c.drop_first());
        }
    }
}

proof fn lemma_chars_lt_skip(a: Seq<char>, b: Seq<char>, i: int)
    requires
        0 <= i < a.len(),
        i < b.len(),
        a[i] == b[i],
    ensures
        chars_lt(a.skip(i), b.skip(i)) == chars_lt(a.skip(i + 1), b.skip(i + 1)),
{
    assert(a.skip(i).drop_first() =~= a.skip(i + 1));
    assert(b.skip(i).drop_first() =~= b.skip(i + 1));
}

/// Whether `a` comes before `b` in lexicographic order.
pub fn str_lt(a: &str, b: &str) -> (lt: bool)
    ensures
        lt == chars_lt(a@, b@),
{
    let n = a.unicode_len();
    let m = b.unicode_len();
    let mut i: usize = 0;
    assert(a@.skip(0) =~= a@);
    assert(b@.skip(0) =~= b@);
    while i < n && i < m
        invariant
            n == a@.len(),
            m == b@.len(),
            i <= n,
            i <= m,
            chars_lt(a@, b@) == chars_lt(a@.skip(i as int), b@.skip(i as int)),
        decreases n - i,
    {
        let x = a.get_char(i);
        let y = b.get_char(i);
        if x != y {
            assert(a@.skip(i as int)[0] == x);
            assert(b@.skip(i as int)[0] == y);
            return (x as u32) < (y as u32);
        }
        proof {
            lemma_chars_lt_skip(a@, b@, i as int);
        }
        i = i + 1;
    }
    i < m
}

/// The sort key of position `p`: rank first, then name, then position.
pub open spec fn key_lt(ranks: Seq<i64>, names: Seq<Seq<char>>, p: int, q: int) -> bool {
    ||| ranks[p] < ranks[q]
    ||| ranks[p] == ranks[q] && chars_lt(names[p], names[q])
    ||| ranks[p] == ranks[q] && names[p] == names[q] && p < q
}

/// `order` lists each of the positions `0..n` once, sorted by rank, then
/// name, with ties kept in their input order.
pub open spec fn stably_sorted(ranks: Seq<i64>, names: Seq<Seq<char>>, order: Seq<usize>, n: int) -> bool {
    &&& order.len() == n
    &&& forall|i: int| 0 <= i < n ==> 0 <= #[trigger] order[i] < n
    &&& forall|i: int, j: int| 0 <= i < j < n ==> key_lt(ranks, names, #[trigger] order[i] as int, #[trigger] order[j] as int)
}

proof fn lemma_key_lt_transitive(ranks: Seq<i64>, names: Seq<Seq<char>>, p: int, q: int, r: int)
    requires
        key_lt(ranks, names, p, q),
        key_lt(ranks, names, q, r),
    ensures
        key_lt(ranks, names, p, r),
{
    if ranks[p] == ranks[q] && ranks[q] == ranks[r] {
        if chars_lt(names[p], names[q]) && chars_lt(names[q], names[r]) {
            lemma_chars_lt_transitive(names[p], names[q], names[r]);
        }
    }
}

proof fn lemma_key_lt_total(ranks: Seq<i64>, names: Seq<Seq<char>>, p: int, q: int)
    requires
        p != q,
    ensures
        key_lt(ranks, names, p, q) || key_lt(ranks, names, q, p),
        !(key_lt(ranks, names, p, q) && key_lt(ranks, names, q, p)),
{
    lemma_chars_lt_total(names[p], names[q]);
    lemma_chars_lt_irreflexive(names[p]);
}

/// The positions `0..names.len()` in stable order of (rank, name).
pub fn stable_order(ranks: &Vec<i64>, names: &Vec<String>) -> (order: Vec<usize>)
    requires
        ranks@.len() == names@.len(),
    ensures
        stably_sorted(ranks@, names@.map_values(|s: String| s@), order@, names@.len() as int),
{
    let ghost keys = names@.map_values(|s: String| s@);
    let n = names.len();
    let mut order: Vec<usize> = Vec::new();
    let mut k: usize = 0;
    while k < n
        invariant
            n == names@.len(),
            n == ranks@.len(),
            keys == names@.map_values(|s: String| s@),
            k <= n,
            order@.len() == k,
            forall|i: int| 0 <= i < k ==> 0 <= #[trigger] order@[i] < k,
            forall|i: int, j: int| 0 <= i < j < k ==> key_lt(ranks@, keys, #[trigger] order@[i] as int, #[trigger] order@[j] as int),
        decreases n - k,
    {
        // Find the first position whose key is greater than position k's.
        let mut pos: usize = 0;
        while pos < order.len()
            invariant
                n == names@.len(),
                n == ranks@.len(),
                keys == names@.map_values(|s: String| s@),
                k < n,
                order@.len() == k,
                pos <= k,
                forall|i: int| 0 <= i < k ==> 0 <= #[trigger] order@[i] < k,
                forall|i: int| 0 <= i < pos ==> key_lt(ranks@, keys, #[trigger] order@[i] as int, k as int),
            ensures
                pos <= k,
                forall|i: int| 0 <= i < pos ==> key_lt(ranks@, keys, #[trigger] order@[i] as int, k as int),
                pos < k ==> key_lt(ranks@, keys, k as int, order@[pos as int] as int),
            decreases k - pos,
        {
            let p = order[pos];
            let greater = if ranks[p] != ranks[k] {
                ranks[p] > ranks[k]
            } else {
                str_lt(names[k].as_str(), names[p].as_str())
            };
            proof {
                assert(keys[p as int] == names@[p as int]@);
                assert(keys[k as int] == names@[k as int]@);
                lemma_key_lt_total(ranks@, keys, p as int, k as int);
                lemma_chars_lt_total(keys[p as int], keys[k as int]);
            }
            if greater {
                break;
            }
            pos = pos + 1;
        }
        proof {
            if pos < k {
                let p = order@[pos as int];
                assert forall|j: int| pos <= j < k implies key_lt(ranks@, keys, k as int, #[trigger] order@[j] as int) by {
                    if j > pos {
                        lemma_key_lt_transitive(ranks@, keys, k as int, p as int, order@[j] as int);
                    }
                }
            }
        }
        let ghost before = order@;
        order.insert(pos, k);
        proof {
            assert forall|i: int, j: int| 0 <= i < j < k + 1 implies key_lt(ranks@, keys, #[trigger] order@[i] as int, #[trigger] order@[j] as int) by {
                if i < pos && j < pos {
                    assert(order@[i] == before[i] && order@[j] == before[j]);
                } else if i < pos && j == pos {
                } else if i < pos && j > pos {
                    assert(order@[j] == before[j - 1]);
                    assert(order@[i] == before[i]);
                } else if i == pos {
                    assert(order@[j] == before[j - 1]);
                } else {
                    assert(order@[i] == before[i - 1] && order@[j] == before[j - 1]);
                }
            }
        }
        k = k + 1;
    }
    order
}

} // verus!

verus! {

/// A stable order lists every position exactly once.
pub proof fn lemma_stably_sorted_is_permutation(ranks: Seq<i64>, names: Seq<Seq<char>>, order: Seq<usize>, n: int)
    requires
        stably_sorted(ranks, names, order, n),
    ensures
        order.no_duplicates(),
        forall|v: usize| v < n ==> #[trigger] order.contains(v),
{
    assert forall|a: int, b: int| 0 <= a < order.len() && 0 <= b < order.len() && a != b implies order[a] != order[b] by {
        let (x, y) = if a < b { (a, b) } else { (b, a) };
        assert(key_lt(ranks, names, order[x] as int, order[y] as int));
        lemma_chars_lt_irreflexive(names[order[x] as int]);
    }
    assert forall|v: usize| v < n implies #[trigger] order.contains(v) by {
        if !order.contains(v) {
            let universe = Seq::new((n - 1) as nat, |t: int| if t < v { t as usize } else { (t + 1) as usize });
            assert forall|i: int| 0 <= i < order.len() implies universe.contains(#[trigger] order[i]) by {
                let w = order[i] as int;
                assert(w != v as int);
                if w < v {
                    assert(universe[w] == order[i]);
                } else {
                    assert(universe[w - 1] == order[i]);
                }
            }
            crate::seqs::lemma_distinct_within_bound(order, universe);
        }
    }
}

} // verus!

verus! {

proof fn lemma_stable_orders_agree_upto(ranks: Seq<i64>, names: Seq<Seq<char>>, a: Seq<usize>, b: Seq<usize>, n: int, i: int)
    requires
        stably_sorted(ranks, names, a, n),
        stably_sorted(ranks, names, b, n),
        0 <= i < n,
    ensures
        forall|t: int| 0 <= t <= i ==> a[t] == b[t],
    decreases i,
{
    if i > 0 {
        lemma_stable_orders_agree_upto(ranks, names, a, b, n, i - 1);
    }
    lemma_stably_sorted_is_permutation(ranks, names, a, n);
    lemma_stably_sorted_is_permutation(ranks, names, b, n);
    if a[i] != b[i] {
        assert(b.contains(a[i]));
        let j = b.index_of(a[i]);
        assert(a.contains(b[i]));
        let k = a.index_of(b[i]);
        if j < i {
            assert(a[j] == b[j]);
            assert(false);
        }
        if k < i {
            assert(a[k] == b[k]);
            assert(false);
        }
        assert(key_lt(ranks, names, b[i] as int, b[j] as int));
        assert(key_lt(ranks, names, a[i] as int, a[k] as int));
        lemma_key_lt_total(ranks, names, a[i] as int, b[i] as int);
    }
}

/// Two stable orders of the same keys are the same order.
pub proof fn lemma_stable_order_unique(ranks: Seq<i64>, names: Seq<Seq<char>>, a: Seq<usize>, b: Seq<usize>, n: int)
    requires
        stably_sorted(ranks, names, a, n),
        stably_sorted(ranks, names, b, n),
    ensures
        a == b,
{
    if n > 0 {
        lemma_stable_orders_agree_upto(ranks, names, a, b, n, n - 1);
    }
    assert(a =~= b);
}

} // verus!
