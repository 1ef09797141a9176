use vstd::prelude::*;

use crate::record::Record;
use crate::text::{chars_contain, chars_le, chars_of, is_substring, lex_le};

verus! {

/// A city: the one entity with no foreign references. Unsaved cities carry
/// the sentinel identifier 0.
#[derive(Clone, Debug)]
pub struct City {
    pub city_id: i64,
    pub name: String,
}

impl City {
    /// A new, not yet persisted city.
    pub fn new(name: String) -> (r: Self)
        ensures
            r.city_id == 0,
            r.name@ == name@,
    {
        Self { city_id: 0, name }
    }

    /// The display string of this city.
    pub fn label(&self) -> (r: String)
        ensures
            r@ == self.name@,
    {
        self.name.clone()
    }
}

impl Record for City {
    /// Cities sort by name.
    open spec fn key_le(self, other: Self) -> bool {
        lex_le(self.name@, other.name@)
    }

    /// A city matches a query when the query occurs in its name; the search
    /// is case-sensitive here.
    open spec fn matches(self, query: Seq<char>) -> bool {
        query.len() == 0 || is_substring(self.name@, query)
    }

    proof fn lemma_key_le_total(a: Self, b: Self) {
        crate::text::lemma_lex_le_total(a.name@, b.name@);
    }

    proof fn lemma_key_le_trans(a: Self, b: Self, c: Self) {
        crate::text::lemma_lex_le_trans(a.name@, b.name@, c.name@);
    }

    proof fn lemma_matches_empty(self) {
    }

    fn le(&self, other: &Self) -> (r: bool) {
        let a = chars_of(self.name.as_str());
        let b = chars_of(other.name.as_str());
        chars_le(&a, &b)
    }

    fn contains(&self, query: &Vec<char>) -> (r: bool) {
        if query.len() == 0 {
            return true;
        }
        let name = chars_of(self.name.as_str());
        chars_contain(&name, query)
    }
}

} // verus!
