use vstd::prelude::*;

use crate::act::Act;
use crate::date::{date_le, Date};
use crate::record::Record;
use crate::text::{chars_contain, chars_of, is_substring, lower_chars, lower_of};

verus! {

/// A gig: an artist appearing at a venue on a date in a given role, with
/// the artist and venue names carried along as loaded by the join.
#[derive(Clone, Debug)]
pub struct Gig {
    pub artist_id: i64,
    pub venue_id: i64,
    pub date: Date,
    pub act: Act,
    pub artist_name: Option<String>,
    pub venue_name: Option<String>,
}

impl Gig {
    /// A new, not yet persisted gig.
    pub fn new(artist_id: i64, venue_id: i64, date: Date, act: Act) -> (r: Self)
        ensures
            r.artist_id == artist_id,
            r.venue_id == venue_id,
            r.date == date,
            r.act == act,
            r.artist_name is None,
            r.venue_name is None,
    {
        Self { artist_id, venue_id, date, act, artist_name: None, venue_name: None }
    }
}

impl Record for Gig {
    /// Gigs sort by date, ascending.
    open spec fn key_le(self, other: Self) -> bool {
        date_le(self.date, other.date)
    }

    /// A gig matches a query when the query occurs, case-insensitively, in
    /// its joined artist name or venue name.
    open spec fn matches(self, query: Seq<char>) -> bool {
        ||| query.len() == 0
        ||| (self.artist_name is Some && is_substring(
            lower_of(self.artist_name->Some_0@),
            lower_of(query),
        ))
        ||| (self.venue_name is Some && is_substring(
            lower_of(self.venue_name->Some_0@),
            lower_of(query),
        ))
    }

    proof fn lemma_key_le_total(a: Self, b: Self) {
        crate::date::lemma_date_le_total(a.date, b.date);
    }

    proof fn lemma_key_le_trans(a: Self, b: Self, c: Self) {
        crate::date::lemma_date_le_trans(a.date, b.date, c.date);
    }

    proof fn lemma_matches_empty(self) {
    }

    fn le(&self, other: &Self) -> (r: bool) {
        self.date.le(&other.date)
    }

    fn contains(&self, query: &Vec<char>) -> (r: bool) {
        if query.len() == 0 {
            return true;
        }
        let q = lower_chars(query);
        let hit = match &self.artist_name {
            Some(an) => {
                let a = chars_of(an.as_str());
                let la = lower_chars(&a);
                chars_contain(&la, &q)
            },
            None => false,
        };
        if hit {
            return true;
        }
        match &self.venue_name {
            Some(vn) => {
                let v = chars_of(vn.as_str());
                let lv = lower_chars(&v);
                chars_contain(&lv, &q)
            },
            None => false,
        }
    }
}

} // verus!
