use vstd::prelude::*;

use crate::record::{key_eq, same_key_as, Record};

verus! {

broadcast use vstd::seq_lib::group_to_multiset_ensures;

// ---------------------------------------------------------------------------
// Stable sorting by each record's key.
//
// The specification is a right-fold insertion sort: each element is placed
// after every already-placed element whose key is less than or equal to its
// own, which is exactly what stability demands.
// ---------------------------------------------------------------------------

/// Every pair of positions is ordered by key.
pub open spec fn sorted_by_key<T: Record>(s: Seq<T>) -> bool {
    forall|i: int, j: int| 0 <= i < j < s.len() ==> #[trigger] s[i].key_le(#[trigger] s[j])
}

/// `x` inserted into `s` after every trailing element it does not precede.
pub open spec fn insert_ordered<T: Record>(s: Seq<T>, x: T) -> Seq<T>
    decreases s.len(),
{
    if s.len() == 0 {
        seq![x]
    } else if s.last().key_le(x) {
        s.push(x)
    } else {
        insert_ordered(s.drop_last(), x).push(s.last())
    }
}

/// The stable sort of `s`.
pub open spec fn stable_sort_spec<T: Record>(s: Seq<T>) -> Seq<T>
    decreases s.len(),
{
    if s.len() == 0 {
        Seq::<T>::empty()
    } else {
        insert_ordered(stable_sort_spec(s.drop_last()), s.last())
    }
}

pub proof fn lemma_insert_ordered_len<T: Record>(s: Seq<T>, x: T)
    ensures
        insert_ordered(s, x).len() == s.len() + 1,
    decreases s.len(),
{
    if s.len() != 0 && !s.last().key_le(x) {
        lemma_insert_ordered_len(s.drop_last(), x);
    }
}

pub proof fn lemma_stable_sort_len<T: Record>(s: Seq<T>)
    ensures
        stable_sort_spec(s).len() == s.len(),
    decreases s.len(),
{
    if s.len() != 0 {
        lemma_stable_sort_len(s.drop_last());
        lemma_insert_ordered_len(stable_sort_spec(s.drop_last()), s.last());
    }
}

/// Where the insertion lands: if everything from `j` on does not precede
/// `x` and the element just before `j` (if any) does, the insertion puts
/// `x` exactly at position `j`.
pub proof fn lemma_insert_ordered_at<T: Record>(s: Seq<T>, x: T, j: int)
    requires
        0 <= j <= s.len(),
        j > 0 ==> s[j - 1].key_le(x),
        forall|k: int| j <= k < s.len() ==> !(#[trigger] s[k]).key_le(x),
    ensures
        insert_ordered(s, x) =~= s.take(j) + seq![x] + s.skip(j),
    decreases s.len(),
{
    if s.len() == 0 {
        assert(insert_ordered(s, x) =~= seq![x]);
    } else if j == s.len() {
        assert(s.last().key_le(x));
        assert(insert_ordered(s, x) =~= s.take(j) + seq![x] + s.skip(j));
    } else {
        assert(!s[s.len() - 1].key_le(x));
        let dl = s.drop_last();
        assert(forall|k: int| j <= k < dl.len() ==> !(#[trigger] dl[k]).key_le(x));
        lemma_insert_ordered_at(dl, x, j);
        assert(insert_ordered(s, x) == insert_ordered(dl, x).push(s.last()));
        assert(insert_ordered(s, x) =~= s.take(j) + seq![x] + s.skip(j));
    }
}

/// Inserting preserves the contents, counted with multiplicity.
pub proof fn lemma_insert_ordered_multiset<T: Record>(s: Seq<T>, x: T)
    ensures
        insert_ordered(s, x).to_multiset() =~= s.to_multiset().insert(x),
    decreases s.len(),
{
    if s.len() == 0 {
        assert(seq![x] =~= Seq::<T>::empty().push(x));
        assert(Seq::<T>::empty().push(x).to_multiset() =~= Seq::<T>::empty().to_multiset().insert(
            x,
        ));
    } else if s.last().key_le(x) {
        assert(s.push(x).to_multiset() =~= s.to_multiset().insert(x));
    } else {
        let dl = s.drop_last();
        lemma_insert_ordered_multiset(dl, x);
        assert(insert_ordered(dl, x).push(s.last()).to_multiset() =~= insert_ordered(
            dl,
            x,
        ).to_multiset().insert(s.last()));
        assert(dl.push(s.last()) =~= s);
        assert(s.to_multiset() =~= dl.to_multiset().insert(s.last()));
        assert(insert_ordered(s, x).to_multiset() =~= s.to_multiset().insert(x));
    }
}

/// Sorting preserves the contents, counted with multiplicity.
pub proof fn lemma_stable_sort_multiset<T: Record>(s: Seq<T>)
    ensures
        stable_sort_spec(s).to_multiset() =~= s.to_multiset(),
    decreases s.len(),
{
    if s.len() != 0 {
        let dl = s.drop_last();
        lemma_stable_sort_multiset(dl);
        lemma_insert_ordered_multiset(stable_sort_spec(dl), s.last());
        assert(dl.push(s.last()) =~= s);
        assert(s.to_multiset() =~= dl.to_multiset().insert(s.last()));
    }
}

/// Inserting into a sorted sequence keeps it sorted.
pub proof fn lemma_insert_ordered_sorted<T: Record>(s: Seq<T>, x: T)
    requires
        sorted_by_key(s),
    ensures
        sorted_by_key(insert_ordered(s, x)),
    decreases s.len(),
{
    if s.len() == 0 {
    } else if s.last().key_le(x) {
        let t = s.push(x);
        assert forall|i: int, j: int| 0 <= i < j < t.len() implies #[trigger] t[i].key_le(
            #[trigger] t[j],
        ) by {
            if j == t.len() - 1 {
                if i < s.len() - 1 {
                    T::lemma_key_le_trans(s[i], s[s.len() - 1], x);
                }
            }
        }
    } else {
        let dl = s.drop_last();
        let last = s.last();
        assert(sorted_by_key(dl));
        lemma_insert_ordered_sorted(dl, x);
        lemma_insert_ordered_multiset(dl, x);
        lemma_insert_ordered_len(dl, x);
        let t = insert_ordered(dl, x);
        // every element of `t` precedes `last`
        assert forall|i: int| 0 <= i < t.len() implies #[trigger] t[i].key_le(last) by {
            assert(t.to_multiset().contains(t[i]));
            assert(t.to_multiset() =~= dl.to_multiset().insert(x));
            if t[i] == x {
                T::lemma_key_le_total(last, x);
            } else {
                assert(dl.to_multiset().contains(t[i]));
                assert(dl.contains(t[i]));
                let k = choose|k: int| 0 <= k < dl.len() && dl[k] == t[i];
                if k < dl.len() - 1 {
                    assert(s[k].key_le(s[s.len() - 2]));
                    T::lemma_key_le_trans(s[k], s[s.len() - 2], last);
                }
            }
        }
        assert forall|i: int, j: int| 0 <= i < j < t.push(last).len() implies #[trigger] t.push(
            last,
        )[i].key_le(#[trigger] t.push(last)[j]) by {
            if j < t.len() {
                assert(t[i].key_le(t[j]));
            } else {
                assert(t[i].key_le(last));
            }
        }
    }
}

/// Sorting sorts.
pub proof fn lemma_stable_sort_sorted<T: Record>(s: Seq<T>)
    ensures
        sorted_by_key(stable_sort_spec(s)),
    decreases s.len(),
{
    if s.len() != 0 {
        lemma_stable_sort_sorted(s.drop_last());
        lemma_insert_ordered_sorted(stable_sort_spec(s.drop_last()), s.last());
    }
}

/// Inserting appends to the run of key-equal elements: among the records
/// whose key equals any fixed `r`, the inserted one comes last and the rest
/// keep their order.
pub proof fn lemma_insert_ordered_stable<T: Record>(s: Seq<T>, x: T, r: T)
    ensures
        insert_ordered(s, x).filter(same_key_as(r)) == if key_eq(x, r) {
            s.filter(same_key_as(r)).push(x)
        } else {
            s.filter(same_key_as(r))
        },
    decreases s.len(),
{
    reveal(Seq::filter);
    let p = same_key_as(r);
    assert(p(x) == key_eq(x, r));
    if s.len() == 0 {
        assert(s =~= Seq::<T>::empty());
        assert(insert_ordered(s, x) == seq![x]);
        assert(seq![x].drop_last() =~= s);
        assert(seq![x].last() == x);
        assert(s.filter(p) =~= Seq::<T>::empty());
        assert(seq![x].filter(p) == if p(x) {
            s.filter(p).push(x)
        } else {
            s.filter(p)
        });
    } else if s.last().key_le(x) {
        assert(s.push(x).drop_last() =~= s);
        assert(s.push(x).last() == x);
    } else {
        let dl = s.drop_last();
        let last = s.last();
        lemma_insert_ordered_stable(dl, x, r);
        let t = insert_ordered(dl, x);
        assert(t.push(last).drop_last() =~= t);
        assert(t.push(last).last() == last);
        // at most one of `x`, `last` has key `r`: both would force
        // `last.key_le(x)`, against this branch
        if key_eq(x, r) && key_eq(last, r) {
            T::lemma_key_le_trans(last, r, x);
            assert(false);
        }
        assert(s.drop_last() =~= dl);
        assert(s.filter(p) == if p(last) {
            dl.filter(p).push(last)
        } else {
            dl.filter(p)
        });
        if key_eq(x, r) {
            assert(!p(last));
            assert(t.push(last).filter(p) == t.filter(p));
            assert(t.filter(p) == dl.filter(p).push(x));
        } else {
            assert(t.filter(p) == dl.filter(p));
            if p(last) {
                assert(t.push(last).filter(p) == dl.filter(p).push(last));
            } else {
                assert(t.push(last).filter(p) == dl.filter(p));
            }
        }
    }
}

/// Stability: for any key, the subsequence of records carrying that key is
/// unchanged by sorting — equal-keyed records keep their loaded order.
pub proof fn lemma_stable_sort_stable<T: Record>(s: Seq<T>, r: T)
    ensures
        stable_sort_spec(s).filter(same_key_as(r)) == s.filter(same_key_as(r)),
    decreases s.len(),
{
    reveal(Seq::filter);
    let p = same_key_as(r);
    if s.len() != 0 {
        let dl = s.drop_last();
        let last = s.last();
        lemma_stable_sort_stable(dl, r);
        lemma_insert_ordered_stable(stable_sort_spec(dl), last, r);
        assert(s.filter(p) == if p(last) {
            dl.filter(p).push(last)
        } else {
            dl.filter(p)
        });
        if p(last) {
            assert(key_eq(last, r));
        }
    }
}

/// Sorts `v` by key, stably: the result is exactly the insertion-sort
/// specification of the input.
pub fn sort_records<T: Record>(v: &mut Vec<T>)
    ensures
        final(v)@ == stable_sort_spec(old(v)@),
        sorted_by_key(final(v)@),
        final(v)@.to_multiset() == old(v)@.to_multiset(),
        final(v)@.len() == old(v)@.len(),
{
    let ghost orig = v@;
    let mut i: usize = 1;
    if v.len() == 0 {
        proof {
            assert(v@.take(0) =~= Seq::<T>::empty());
            lemma_stable_sort_multiset(orig);
            lemma_stable_sort_sorted(orig);
            assert(v@ =~= stable_sort_spec(orig));
        }
        return ;
    }
    proof {
        assert(orig.take(1).drop_last() =~= Seq::<T>::empty());
        assert(orig.take(1).last() == orig[0]);
        assert(stable_sort_spec(Seq::<T>::empty()) == Seq::<T>::empty());
        assert(stable_sort_spec(orig.take(1)) == insert_ordered(Seq::<T>::empty(), orig[0]));
        assert(insert_ordered(Seq::<T>::empty(), orig[0]) == seq![orig[0]]);
        assert(v@.take(1) =~= seq![orig[0]]);
        assert(v@.skip(1) =~= orig.skip(1));
    }
    while i < v.len()
        invariant
            1 <= i <= v@.len(),
            v@.len() == orig.len(),
            v@.take(i as int) == stable_sort_spec(orig.take(i as int)),
            v@.skip(i as int) == orig.skip(i as int),
        decreases v@.len() - i,
    {
        let ghost pre = v@;
        let ghost sorted_prefix = v@.take(i as int);
        let ghost x = v@[i as int];
        proof {
            lemma_stable_sort_len(orig.take(i as int));
        }
        // scan left for the insertion point
        let mut j: usize = i;
        while j > 0 && !(v[j - 1].le(&v[i]))
            invariant
                0 <= j <= i < v@.len(),
                v@ == pre,
                forall|k: int| j <= k < i ==> !(#[trigger] v@[k]).key_le(v@[i as int]),
            decreases j,
        {
            j -= 1;
        }
        proof {
            assert(j > 0 ==> sorted_prefix[j - 1].key_le(x));
            assert(forall|k: int|
                j <= k < sorted_prefix.len() ==> !(#[trigger] sorted_prefix[k]).key_le(x));
            lemma_insert_ordered_at(sorted_prefix, x, j as int);
        }
        let x_owned = v.remove(i);
        v.insert(j, x_owned);
        proof {
            assert(v@ == pre.remove(i as int).insert(j as int, x));
            assert(orig.take(i + 1).drop_last() =~= orig.take(i as int));
            assert(orig.take(i + 1).last() == orig[i as int]);
            assert(pre.skip(i as int)[0] == orig[i as int]);
            assert(x == orig[i as int]);
            assert forall|m: int| 0 <= m < v@.len() implies v@[m] == (sorted_prefix.take(
                j as int,
            ) + seq![x] + sorted_prefix.skip(j as int) + pre.skip(i + 1))[m] by {
                assert(pre.remove(i as int) =~= pre.take(i as int) + pre.skip(i + 1));
                assert(v@ =~= pre.remove(i as int).take(j as int).push(x) + pre.remove(
                    i as int,
                ).skip(j as int));
            }
            assert(v@ =~= sorted_prefix.take(j as int) + seq![x] + sorted_prefix.skip(j as int)
                + pre.skip(i + 1));
            assert(v@.take(i + 1) =~= sorted_prefix.take(j as int) + seq![x]
                + sorted_prefix.skip(j as int));
            assert(v@.take(i + 1) == stable_sort_spec(orig.take(i + 1)));
            assert forall|m: int| 0 <= m < v@.len() - (i + 1) implies #[trigger] (v@.skip(i + 1)[m])
                == orig.skip(i + 1)[m] by {
                assert(pre.skip(i as int)[1 + m] == orig.skip(i as int)[1 + m]);
                assert(pre.skip(i as int)[1 + m] == pre[i + 1 + m]);
                assert(orig.skip(i as int)[1 + m] == orig[i + 1 + m]);
                assert(v@[i + 1 + m] == pre[i + 1 + m]);
            }
            assert(v@.skip(i + 1) =~= orig.skip(i + 1));
        }
        i += 1;
    }
    proof {
        assert(orig.take(orig.len() as int) =~= orig);
        assert(v@.take(v@.len() as int) =~= v@);
        assert(v@ == stable_sort_spec(orig));
        lemma_stable_sort_multiset(orig);
        lemma_stable_sort_sorted(orig);
    }
}

} // verus!
