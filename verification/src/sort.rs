//! Sorting of planned capture timestamps into non-decreasing order.
//!
//! The sort is pinned down exactly: `spec_sort` is a deterministic (stable)
//! insertion sort at the specification level, and the executable sort is
//! proved to return precisely that sequence, which is a non-decreasing
//! rearrangement of its input.

use vstd::prelude::*;
use vstd::seq_lib::group_to_multiset_ensures;
use vstd::seq_lib::lemma_multiset_commutative;

verus! {

/// A non-decreasing sequence of timestamps.
pub open spec fn sorted(s: Seq<u64>) -> bool {
    forall|i: int, j: int| 0 <= i <= j < s.len() ==> s[i] <= s[j]
}

/// `x` placed after every element not greater than it.
pub open spec fn spec_insert_sorted(s: Seq<u64>, x: u64) -> Seq<u64>
    decreases s.len(),
{
    if s.len() == 0 {
        seq![x]
    } else if x < s[0] {
        seq![x] + s
    } else {
        seq![s[0]] + spec_insert_sorted(s.drop_first(), x)
    }
}

/// The non-decreasing rearrangement of `s`: each element in turn inserted
/// into the sorted prefix.
pub open spec fn spec_sort(s: Seq<u64>) -> Seq<u64>
    decreases s.len(),
{
    if s.len() == 0 {
        Seq::empty()
    } else {
        spec_insert_sorted(spec_sort(s.drop_last()), s.last())
    }
}

/// Inserting `x` adds one element, keeps the sequence sorted, and adds
/// exactly `x` to the multiset of elements.
pub proof fn lemma_insert_sorted_props(s: Seq<u64>, x: u64)
    requires
        sorted(s),
    ensures
        spec_insert_sorted(s, x).len() == s.len() + 1,
        sorted(spec_insert_sorted(s, x)),
        spec_insert_sorted(s, x).to_multiset() == s.to_multiset().insert(x),
    decreases s.len(),
{
    broadcast use group_to_multiset_ensures;

    let r = spec_insert_sorted(s, x);
    if s.len() == 0 {
        assert(r =~= Seq::<u64>::empty().push(x));
        assert(r.to_multiset() =~= s.to_multiset().insert(x));
    } else if x < s[0] {
        lemma_multiset_commutative(seq![x], s);
        assert(seq![x] =~= Seq::<u64>::empty().push(x));
        assert(r.to_multiset() =~= s.to_multiset().insert(x));
    } else {
        let t = s.drop_first();
        assert(sorted(t));
        lemma_insert_sorted_props(t, x);
        let rt = spec_insert_sorted(t, x);
        lemma_multiset_commutative(seq![s[0]], rt);
        lemma_multiset_commutative(seq![s[0]], t);
        assert(s =~= seq![s[0]] + t);
        assert(seq![s[0]] =~= Seq::<u64>::empty().push(s[0]));
        assert(r.to_multiset() =~= s.to_multiset().insert(x)) by {
            assert(r.to_multiset() =~= seq![s[0]].to_multiset().add(rt.to_multiset()));
            assert(rt.to_multiset() =~= t.to_multiset().insert(x));
            assert(s.to_multiset() =~= seq![s[0]].to_multiset().add(t.to_multiset()));
        }
        // Every element of the inserted tail is an element of `t` or is `x`,
        // hence at least `s[0]`.
        assert forall|k: int| 0 <= k < rt.len() implies s[0] <= rt[k] by {
            assert(rt.contains(rt[k]));
            assert(rt.to_multiset().count(rt[k]) > 0);
            if rt[k] != x {
                assert(t.to_multiset().count(rt[k]) > 0);
                assert(t.contains(rt[k]));
            }
        }
        assert(sorted(r));
    }
}

/// Sorting keeps the length and the multiset of elements, and sorts.
pub proof fn lemma_spec_sort_props(s: Seq<u64>)
    ensures
        spec_sort(s).len() == s.len(),
        sorted(spec_sort(s)),
        spec_sort(s).to_multiset() == s.to_multiset(),
    decreases s.len(),
{
    broadcast use group_to_multiset_ensures;

    if s.len() == 0 {
        assert(spec_sort(s).to_multiset() =~= s.to_multiset());
    } else {
        let t = s.drop_last();
        lemma_spec_sort_props(t);
        lemma_insert_sorted_props(spec_sort(t), s.last());
        assert(s =~= t.push(s.last()));
        assert(spec_sort(s).to_multiset() =~= s.to_multiset()) by {
            assert(spec_sort(s).to_multiset() =~= spec_sort(t).to_multiset().insert(s.last()));
            assert(t.push(s.last()).to_multiset() =~= t.to_multiset().insert(s.last()));
        }
    }
}

/// Where the insertion lands: if everything before `j` is at most `x` and
/// the element at `j` (if any) is greater, the insertion splits `s` at `j`.
proof fn lemma_insert_sorted_at(s: Seq<u64>, x: u64, j: int)
    requires
        0 <= j <= s.len(),
        forall|k: int| 0 <= k < j ==> s[k] <= x,
        j < s.len() ==> x < s[j],
    ensures
        spec_insert_sorted(s, x) == s.take(j) + seq![x] + s.skip(j),
    decreases s.len(),
{
    if s.len() == 0 {
        assert(spec_insert_sorted(s, x) =~= s.take(j) + seq![x] + s.skip(j));
    } else if x < s[0] {
        assert(j == 0);
        assert(spec_insert_sorted(s, x) =~= s.take(j) + seq![x] + s.skip(j));
    } else {
        assert(j >= 1);
        let t = s.drop_first();
        lemma_insert_sorted_at(t, x, j - 1);
        assert(spec_insert_sorted(s, x) =~= s.take(j) + seq![x] + s.skip(j)) by {
            assert(spec_insert_sorted(s, x) == seq![s[0]] + (t.take(j - 1) + seq![x] + t.skip(j
                - 1)));
        }
    }
}

/// Inserts `x` into the sorted vector `v`, keeping it sorted.
pub fn insert_into_sorted(v: Vec<u64>, x: u64) -> (r: Vec<u64>)
    ensures
        r@ == spec_insert_sorted(v@, x),
{
    let ghost v0 = v@;
    let mut r = v;
    let mut j: usize = 0;
    while j < r.len() && r[j] <= x
        invariant
            r@ == v0,
            0 <= j <= r@.len(),
            forall|k: int| 0 <= k < j ==> r@[k] <= x,
        decreases r@.len() - j,
    {
        j += 1;
    }
    proof {
        lemma_insert_sorted_at(v0, x, j as int);
        v0.insert_ensures(j as int, x);
    }
    r.insert(j, x);
    proof {
        assert(r@ =~= v0.take(j as int) + seq![x] + v0.skip(j as int));
    }
    r
}

/// Sorts the timestamps into non-decreasing order; the result is exactly the
/// stable insertion sort of the input.
pub fn sort_timestamps(v: &Vec<u64>) -> (r: Vec<u64>)
    ensures
        r@ == spec_sort(v@),
        sorted(r@),
        r@.len() == v@.len(),
        r@.to_multiset() == v@.to_multiset(),
{
    let mut r: Vec<u64> = Vec::new();
    let mut i: usize = 0;
    while i < v.len()
        invariant
            0 <= i <= v@.len(),
            r@ == spec_sort(v@.take(i as int)),
        decreases v@.len() - i,
    {
        r = insert_into_sorted(r, v[i]);
        proof {
            assert(v@.take(i + 1).drop_last() =~= v@.take(i as int));
            assert(v@.take(i + 1).last() == v@[i as int]);
        }
        i += 1;
    }
    proof {
        assert(v@.take(v@.len() as int) =~= v@);
        lemma_spec_sort_props(v@);
    }
    r
}

} // verus!
