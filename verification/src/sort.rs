//! The chronological merger: orders the collected entries by author
//! timestamp, ascending or descending per user flag, with a stable order —
//! entries with equal timestamps keep their original relative order.

use vstd::prelude::*;
use vstd::multiset::Multiset;
use vstd::seq_lib::group_to_multiset_ensures;
use vstd::seq_lib::lemma_multiset_commutative;

use crate::entry::Item;

verus! {

/// The sole sort key of an entry: its author timestamp.
pub open spec fn key_of(it: Item) -> int {
    it.entry.author_time as int
}

/// `a` may stand no later than `b` in the chosen direction.
pub open spec fn in_order(a: Item, b: Item, ascending: bool) -> bool {
    if ascending {
        key_of(a) <= key_of(b)
    } else {
        key_of(a) >= key_of(b)
    }
}

/// `a` must stand strictly before `b` in the chosen direction; entries with
/// equal keys are free to stand either way, and stability decides for them.
pub open spec fn strictly_before(a: Item, b: Item, ascending: bool) -> bool {
    if ascending {
        key_of(a) < key_of(b)
    } else {
        key_of(a) > key_of(b)
    }
}

/// The whole sequence is ordered in the chosen direction.
pub open spec fn sorted_by_time(s: Seq<Item>, ascending: bool) -> bool {
    forall|i: int, j: int| 0 <= i < j < s.len() ==> in_order(s[i], s[j], ascending)
}

/// The subsequence of entries whose key is `t`, in order.
pub open spec fn key_filter(s: Seq<Item>, t: int) -> Seq<Item> {
    s.filter(|it: Item| key_of(it) == t)
}

/// Stability: for every timestamp, both sequences list the entries carrying
/// it in the same order.
pub open spec fn stable_wrt(a: Seq<Item>, b: Seq<Item>) -> bool {
    forall|t: int| #[trigger] key_filter(a, t) == key_filter(b, t)
}

/// A filter keeps nothing of a sequence none of whose elements satisfy it.
proof fn lemma_filter_all_false(s: Seq<Item>, pred: spec_fn(Item) -> bool)
    requires
        forall|i: int| 0 <= i < s.len() ==> !pred(s[i]),
    ensures
        s.filter(pred) == Seq::<Item>::empty(),
    decreases s.len(),
{
    reveal(Seq::filter);
    if s.len() > 0 {
        assert(forall|i: int| 0 <= i < s.drop_last().len() ==> s.drop_last()[i] == s[i]);
        lemma_filter_all_false(s.drop_last(), pred);
    }
}

/// A filter of a single element keeps it or drops it.
proof fn lemma_filter_singleton(x: Item, pred: spec_fn(Item) -> bool)
    ensures
        pred(x) ==> seq![x].filter(pred) == seq![x],
        !pred(x) ==> seq![x].filter(pred) == Seq::<Item>::empty(),
{
    reveal_with_fuel(Seq::filter, 2);
    assert(seq![x].drop_last() =~= Seq::<Item>::empty());
    assert(seq![x].last() == x);
    if pred(x) {
        assert(seq![x].filter(pred) =~= Seq::<Item>::empty().push(x));
        assert(Seq::<Item>::empty().push(x) =~= seq![x]);
    }
}

/// Inserting one entry into an ordered sequence, directly after the entries
/// that must stand before it: keeps the order, adds the entry to the
/// contents, and places it ahead of the entries sharing its key.
fn insert_in_order(out: &mut Vec<Item>, x: Item, ascending: bool)
    requires
        sorted_by_time(old(out)@, ascending),
    ensures
        final(out)@.len() == old(out)@.len() + 1,
        sorted_by_time(final(out)@, ascending),
        final(out)@.to_multiset() == old(out)@.to_multiset().insert(x),
        forall|t: int| #[trigger] key_filter(final(out)@, t) == key_filter(seq![x], t)
            + key_filter(old(out)@, t),
{
    let ghost s = out@;
    let mut p: usize = 0;
    while p < out.len() && strictly_before_ex(&out[p], &x, ascending)
        invariant
            out@ == s,
            p <= s.len(),
            forall|i: int| 0 <= i < p ==> strictly_before(s[i], x, ascending),
        decreases s.len() - p,
    {
        p = p + 1;
    }
    let ghost pp = p as int;
    let ghost n = s.len() as int;
    assert(pp < n ==> !strictly_before(s[pp], x, ascending));
    out.insert(p, x);
    proof {
        let s2 = out@;
        assert(s2 == s.insert(pp, x));
        s.insert_ensures(pp, x);
        // Every entry at or past the insertion point comes no earlier than x.
        assert forall|j: int| pp <= j < n implies in_order(x, #[trigger] s[j], ascending) by {
            if j > pp {
                assert(in_order(s[pp], s[j], ascending));
            }
        }
        assert forall|i: int, j: int| 0 <= i < j < s2.len() implies in_order(
            s2[i],
            s2[j],
            ascending,
        ) by {
            if i < pp && j == pp {
                assert(s2[i] == s[i]);
            } else if i < pp && j > pp {
                assert(s2[i] == s[i] && s2[j] == s[j - 1]);
            } else if i == pp {
                assert(s2[j] == s[j - 1]);
            } else if i > pp {
                assert(s2[i] == s[i - 1] && s2[j] == s[j - 1]);
            }
        }
        // Contents: exactly x is added.
        vstd::seq_lib::to_multiset_insert(s, pp, x);
        // Stability: x stands before every kept entry of its own key, and the
        // rest are untouched.
        let sub1 = s.subrange(0, pp);
        let sub2 = s.subrange(pp, n);
        assert(s =~= sub1 + sub2);
        assert(s2 =~= (sub1 + seq![x]) + sub2);
        assert forall|t: int| #[trigger] key_filter(s2, t) == key_filter(seq![x], t) + key_filter(
            s,
            t,
        ) by {
            let pred = |it: Item| key_of(it) == t;
            Seq::filter_distributes_over_add(sub1 + seq![x], sub2, pred);
            Seq::filter_distributes_over_add(sub1, seq![x], pred);
            Seq::filter_distributes_over_add(sub1, sub2, pred);
            lemma_filter_singleton(x, pred);
            if t == key_of(x) {
                assert(forall|i: int| 0 <= i < sub1.len() ==> !pred(sub1[i]));
                lemma_filter_all_false(sub1, pred);
                assert(key_filter(s2, t) =~= seq![x] + key_filter(s, t));
                assert(key_filter(seq![x], t) == seq![x]);
            } else {
                assert(key_filter(s2, t) =~= key_filter(s, t));
                assert(key_filter(seq![x], t) =~= Seq::<Item>::empty());
                assert(key_filter(seq![x], t) + key_filter(s, t) =~= key_filter(s, t));
            }
        }
    }
}

/// Whether `a` must stand strictly before `b` in the chosen direction.
fn strictly_before_ex(a: &Item, b: &Item, ascending: bool) -> (r: bool)
    ensures
        r == strictly_before(*a, *b, ascending),
{
    if ascending {
        a.entry.author_time < b.entry.author_time
    } else {
        a.entry.author_time > b.entry.author_time
    }
}

/// Orders the collected entries chronologically: ascending by author
/// timestamp when `ascending` is set, descending otherwise. The result holds
/// exactly the given entries, and the sort is stable: entries with equal
/// timestamps keep their original relative order.
pub fn sort_entries(items: Vec<Item>, ascending: bool) -> (r: Vec<Item>)
    ensures
        r@.len() == items@.len(),
        sorted_by_time(r@, ascending),
        r@.to_multiset() == items@.to_multiset(),
        stable_wrt(r@, items@),
{
    let ghost all = items@;
    let ghost total = all.len() as int;
    let mut src = items;
    let mut out: Vec<Item> = Vec::new();
    proof {
        broadcast use group_to_multiset_ensures;

        assert(all.subrange(total, total) =~= Seq::<Item>::empty());
        assert forall|t: int| #[trigger] key_filter(out@, t) == key_filter(
            all.subrange(total, total),
            t,
        ) by {
            lemma_filter_all_false(Seq::<Item>::empty(), |it: Item| key_of(it) == t);
        }
    }
    while src.len() > 0
        invariant
            total == all.len(),
            src@ == all.subrange(0, src@.len() as int),
            out@.len() + src@.len() == all.len(),
            sorted_by_time(out@, ascending),
            out@.to_multiset() == all.subrange(src@.len() as int, total).to_multiset(),
            forall|t: int| #[trigger] key_filter(out@, t) == key_filter(
                all.subrange(src@.len() as int, total),
                t,
            ),
        decreases src@.len(),
    {
        let ghost n = src@.len() as int;
        let ghost rest_old = all.subrange(n, total);
        let ghost rest_new = all.subrange(n - 1, total);
        let x = src.pop().unwrap();
        proof {
            assert(x == all[n - 1]);
            assert(src@ =~= all.subrange(0, n - 1));
            assert(rest_new.len() == 1 + rest_old.len());
            assert forall|i: int| 0 <= i < rest_new.len() implies rest_new[i] == (seq![x]
                + rest_old)[i] by {
                assert(rest_new[i] == all[n - 1 + i]);
                if i > 0 {
                    assert((seq![x] + rest_old)[i] == rest_old[i - 1]);
                    assert(rest_old[i - 1] == all[n + (i - 1)]);
                }
            }
            assert(rest_new =~= seq![x] + rest_old);
        }
        let ghost before = out@;
        insert_in_order(&mut out, x, ascending);
        proof {
            broadcast use group_to_multiset_ensures;

            lemma_multiset_commutative(seq![x], rest_old);
            assert(seq![x] =~= Seq::<Item>::empty().push(x));
            assert(seq![x].to_multiset() =~= Multiset::<Item>::empty().insert(x));
            assert(rest_new.to_multiset() =~= before.to_multiset().insert(x));
            assert forall|t: int| #[trigger] key_filter(out@, t) == key_filter(rest_new, t) by {
                let pred = |it: Item| key_of(it) == t;
                Seq::filter_distributes_over_add(seq![x], rest_old, pred);
            }
        }
    }
    proof {
        assert(all.subrange(0, total) =~= all);
    }
    out
}

} // verus!
