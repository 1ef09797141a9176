use vstd::prelude::*;

verus! {

/// The capabilities every entity shares: a total sort key and a substring
/// search predicate. List and table widgets are written once over this
/// interface.
pub trait Record: Sized {
    /// The sort order: `self` comes no later than `other`.
    spec fn key_le(self, other: Self) -> bool;

    /// The search predicate: does this record match the query?
    spec fn matches(self, query: Seq<char>) -> bool;

    /// The sort order is total.
    proof fn lemma_key_le_total(a: Self, b: Self)
        ensures
            a.key_le(b) || b.key_le(a),
    ;

    /// The sort order is transitive.
    proof fn lemma_key_le_trans(a: Self, b: Self, c: Self)
        requires
            a.key_le(b),
            b.key_le(c),
        ensures
            a.key_le(c),
    ;

    /// The empty query matches every record.
    proof fn lemma_matches_empty(self)
        ensures
            self.matches(Seq::<char>::empty()),
    ;

    /// Decides the sort order.
    fn le(&self, other: &Self) -> (r: bool)
        ensures
            r == self.key_le(*other),
    ;

    /// Decides the search predicate.
    fn contains(&self, query: &Vec<char>) -> (r: bool)
        ensures
            r == self.matches(query@),
    ;
}

/// Two records with the same sort key.
pub open spec fn key_eq<T: Record>(a: T, b: T) -> bool {
    a.key_le(b) && b.key_le(a)
}

/// The predicate "has the same sort key as `r`", used to state sort
/// stability.
pub open spec fn same_key_as<T: Record>(r: T) -> spec_fn(T) -> bool {
    |e: T| key_eq(e, r)
}

} // verus!
