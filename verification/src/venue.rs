use vstd::prelude::*;

use crate::record::Record;
use crate::text::{chars_contain, chars_le, chars_of, is_substring, lex_le, lower_chars, lower_of};

verus! {

/// A venue, referencing its city and carrying that city's name as loaded by
/// the join. Unsaved venues carry the sentinel identifier 0 and no joined
/// name.
#[derive(Clone, Debug)]
pub struct Venue {
    pub venue_id: i64,
    pub name: String,
    pub city_id: i64,
    pub city_name: Option<String>,
}

impl Venue {
    /// A new, not yet persisted venue.
    pub fn new(name: String, city_id: i64) -> (r: Self)
        ensures
            r.venue_id == 0,
            r.name@ == name@,
            r.city_id == city_id,
            r.city_name is None,
    {
        Self { venue_id: 0, name, city_id, city_name: None }
    }

    /// The display string of this venue.
    pub fn label(&self) -> (r: String)
        ensures
            r@ == self.name@,
    {
        self.name.clone()
    }
}

impl Record for Venue {
    /// Venues sort by name.
    open spec fn key_le(self, other: Self) -> bool {
        lex_le(self.name@, other.name@)
    }

    /// A venue matches a query when the query occurs, case-insensitively,
    /// in its name or in its joined city name.
    open spec fn matches(self, query: Seq<char>) -> bool {
        ||| query.len() == 0
        ||| is_substring(lower_of(self.name@), lower_of(query))
        ||| (self.city_name is Some && is_substring(
            lower_of(self.city_name->Some_0@),
            lower_of(query),
        ))
    }

    proof fn lemma_key_le_total(a: Self, b: Self) {
        crate::text::lemma_lex_le_total(a.name@, b.name@);
    }

    proof fn lemma_key_le_trans(a: Self, b: Self, c: Self) {
        crate::text::lemma_lex_le_trans(a.name@, b.name@, c.name@);
    }

    proof fn lemma_matches_empty(self) {
    }

    fn le(&self, other: &Self) -> (r: bool) {
        let a = chars_of(self.name.as_str());
        let b = chars_of(other.name.as_str());
        chars_le(&a, &b)
    }

    fn contains(&self, query: &Vec<char>) -> (r: bool) {
        if query.len() == 0 {
            return true;
        }
        let q = lower_chars(query);
        let name = chars_of(self.name.as_str());
        let lname = lower_chars(&name);
        if chars_contain(&lname, &q) {
            return true;
        }
        match &self.city_name {
            Some(cn) => {
                let city = chars_of(cn.as_str());
                let lcity = lower_chars(&city);
                chars_contain(&lcity, &q)
            },
            None => false,
        }
    }
}

} // verus!
