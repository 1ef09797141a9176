use vstd::prelude::*;

use crate::record::Record;

verus! {

// ---------------------------------------------------------------------------
// The filtered view: the positions of the records matching the live search
// query, in their sorted order. Both the table widget and the list picker
// derive their visible rows from this.
// ---------------------------------------------------------------------------

/// The positions, in order, of the records among the first `n` that match
/// the query.
pub open spec fn match_idxs<T: Record>(rows: Seq<T>, q: Seq<char>, n: int) -> Seq<usize>
    decreases n,
{
    if n <= 0 {
        Seq::<usize>::empty()
    } else if rows[n - 1].matches(q) {
        match_idxs(rows, q, n - 1).push((n - 1) as usize)
    } else {
        match_idxs(rows, q, n - 1)
    }
}

/// The rows a list of positions selects.
pub open spec fn rows_of<T: Record>(rows: Seq<T>, idxs: Seq<usize>) -> Seq<T> {
    idxs.map_values(|u: usize| rows[u as int])
}

/// The filtered positions are in range, strictly increasing, select only
/// matching records, and miss none.
pub proof fn lemma_match_idxs_sound<T: Record>(rows: Seq<T>, q: Seq<char>, n: int)
    requires
        0 <= n <= rows.len(),
        n <= usize::MAX,
    ensures
        forall|k: int|
            0 <= k < match_idxs(rows, q, n).len() ==> (#[trigger] match_idxs(rows, q, n)[k])
                < n && rows[match_idxs(rows, q, n)[k] as int].matches(q),
        forall|k1: int, k2: int|
            0 <= k1 < k2 < match_idxs(rows, q, n).len() ==> match_idxs(rows, q, n)[k1] < match_idxs(
                rows,
                q,
                n,
            )[k2],
        forall|i: int|
            0 <= i < n && (#[trigger] rows[i]).matches(q) ==> match_idxs(rows, q, n).contains(
                i as usize,
            ),
    decreases n,
{
    if n > 0 {
        lemma_match_idxs_sound(rows, q, n - 1);
        let prev = match_idxs(rows, q, n - 1);
        let cur = match_idxs(rows, q, n);
        if rows[n - 1].matches(q) {
            assert(cur == prev.push((n - 1) as usize));
            assert(forall|k: int| 0 <= k < prev.len() ==> cur[k] == #[trigger] prev[k]);
            assert(cur[cur.len() - 1] == (n - 1) as usize);
            assert(((n - 1) as usize) as int == n - 1);
            assert forall|k: int| 0 <= k < cur.len() implies (#[trigger] cur[k]) < n
                && rows[cur[k] as int].matches(q) by {
                if k < prev.len() {
                    assert(cur[k] == prev[k]);
                }
            }
            assert forall|i: int| 0 <= i < n && (#[trigger] rows[i]).matches(q) implies cur
                .contains(i as usize) by {
                if i < n - 1 {
                    assert(prev.contains(i as usize));
                    let k = choose|k: int| 0 <= k < prev.len() && prev[k] == i as usize;
                    assert(cur[k] == i as usize);
                } else {
                    assert(cur[cur.len() - 1] == i as usize);
                }
            }
        } else {
            assert(cur == prev);
            assert forall|i: int| 0 <= i < n && (#[trigger] rows[i]).matches(q) implies cur
                .contains(i as usize) by {
                assert(i != n - 1);
                assert(prev.contains(i as usize));
            }
        }
    }
}

/// With an empty query every record matches, so the filtered positions are
/// exactly all positions: clearing the search restores the full view.
pub proof fn lemma_match_idxs_empty_query<T: Record>(rows: Seq<T>, n: int)
    requires
        0 <= n <= rows.len(),
        n <= usize::MAX,
    ensures
        match_idxs(rows, Seq::<char>::empty(), n).len() == n,
        forall|k: int|
            0 <= k < n ==> (#[trigger] match_idxs(rows, Seq::<char>::empty(), n)[k]) == k,
    decreases n,
{
    if n > 0 {
        lemma_match_idxs_empty_query(rows, n - 1);
        T::lemma_matches_empty(rows[n - 1]);
        let prev = match_idxs(rows, Seq::<char>::empty(), n - 1);
        let cur = match_idxs(rows, Seq::<char>::empty(), n);
        assert(cur == prev.push((n - 1) as usize));
        assert(forall|k: int| 0 <= k < prev.len() ==> cur[k] == #[trigger] prev[k]);
        assert(cur[n - 1] == (n - 1) as usize);
        assert(((n - 1) as usize) as int == n - 1);
    }
}

/// Clearing the search restores the original sequence of rows.
pub proof fn lemma_clear_restores<T: Record>(rows: Seq<T>)
    requires
        rows.len() <= usize::MAX,
    ensures
        rows_of(rows, match_idxs(rows, Seq::<char>::empty(), rows.len() as int)) == rows,
{
    lemma_match_idxs_empty_query(rows, rows.len() as int);
    let idxs = match_idxs(rows, Seq::<char>::empty(), rows.len() as int);
    assert(rows_of(rows, idxs) =~= rows);
}

/// The filtered view is exactly the subsequence of matching records, in
/// their original order.
pub proof fn lemma_filtered_rows_are_filter<T: Record>(rows: Seq<T>, q: Seq<char>, n: int)
    requires
        0 <= n <= rows.len(),
        n <= usize::MAX,
    ensures
        rows_of(rows, match_idxs(rows, q, n)) == rows.take(n).filter(
            |r: T| r.matches(q),
        ),
    decreases n,
{
    reveal(Seq::filter);
    let p = |r: T| r.matches(q);
    if n == 0 {
        assert(rows.take(0) =~= Seq::<T>::empty());
        assert(rows_of(rows, match_idxs(rows, q, 0)) =~= Seq::<T>::empty());
        assert(Seq::<T>::empty().filter(p) == Seq::<T>::empty());
    } else {
        lemma_filtered_rows_are_filter(rows, q, n - 1);
        assert(rows.take(n).drop_last() =~= rows.take(n - 1));
        assert(rows.take(n).last() == rows[n - 1]);
        assert(rows.take(n).filter(p) == if p(rows[n - 1]) {
            rows.take(n - 1).filter(p).push(rows[n - 1])
        } else {
            rows.take(n - 1).filter(p)
        });
        if rows[n - 1].matches(q) {
            let prev = match_idxs(rows, q, n - 1);
            let cur = match_idxs(rows, q, n);
            assert(cur == prev.push((n - 1) as usize));
            assert(((n - 1) as usize) as int == n - 1);
            assert forall|k: int| 0 <= k < cur.len() implies #[trigger] rows_of(rows, cur)[k]
                == rows_of(rows, prev).push(rows[n - 1])[k] by {
                if k < prev.len() {
                    assert(cur[k] == prev[k]);
                    assert(rows_of(rows, cur)[k] == rows[prev[k] as int]);
                } else {
                    assert(cur[k] == (n - 1) as usize);
                }
            }
            assert(rows_of(rows, cur) =~= rows_of(rows, prev).push(rows[n - 1]));
        }
    }
}

/// Computes the filtered view: a full linear scan testing every record
/// against the query.
pub fn compute_filter<T: Record>(rows: &Vec<T>, q: &Vec<char>) -> (r: Vec<usize>)
    ensures
        r@ == match_idxs(rows@, q@, rows@.len() as int),
{
    let mut r: Vec<usize> = Vec::new();
    let n = rows.len();
    let mut i: usize = 0;
    while i < n
        invariant
            n == rows@.len(),
            0 <= i <= n,
            r@ == match_idxs(rows@, q@, i as int),
        decreases n - i,
    {
        if rows[i].contains(q) {
            r.push(i);
        }
        i += 1;
    }
    r
}

} // verus!
