use vstd::prelude::*;

use crate::events::{Key, KeyEvent};
use crate::filter::{compute_filter, match_idxs};
use crate::record::Record;
use crate::sort::{sort_records, sorted_by_key, stable_sort_spec};

verus! {

/// What a list picker reports back to its owning form.
#[derive(Clone, Copy, Debug, PartialEq, Eq, Structural)]
pub enum ListInputEvent {
    Select,
    Escape,
}

/// Where a bounded cursor lands after its list is rebuilt.
pub open spec fn clamped(len: int, c: int) -> int {
    if len == 0 {
        0
    } else if c < len {
        c
    } else {
        len - 1
    }
}

/// A single-select list picker: it wraps the sorted, searchable, filtered
/// view of a record list, and keeps a committed selection distinct from the
/// navigation cursor. The committed selection survives filter changes.
#[derive(Clone, Debug)]
pub struct ListInput<T> {
    pub title: String,
    pub error: Option<String>,
    pub searching: bool,
    pub search: Vec<char>,
    pub focused: bool,
    /// Position of the committed selection within `values`.
    pub committed: Option<usize>,
    /// Cursor over `filtered`.
    pub cursor: usize,
    /// The full dataset, sorted by key.
    pub values: Vec<T>,
    /// Positions into `values` of the records matching `search`, in order.
    pub filtered: Vec<usize>,
}

impl<T: Record> ListInput<T> {
    /// The picker's internal consistency: sorted data, a filtered view that
    /// is exactly the match positions for the live query, and bounded
    /// cursor and selection.
    pub open spec fn wf(self) -> bool {
        &&& sorted_by_key(self.values@)
        &&& self.filtered@ == match_idxs(self.values@, self.search@, self.values@.len() as int)
        &&& (self.committed is Some ==> (self.committed->Some_0 as int) < self.values@.len())
        &&& (if self.filtered@.len() == 0 {
            self.cursor == 0
        } else {
            (self.cursor as int) < self.filtered@.len()
        })
    }

    /// A picker over the given records, sorted on construction, with no
    /// search, no committed selection, and the cursor at the top.
    pub fn new(title: &str, values: Vec<T>) -> (r: Self)
        ensures
            r.wf(),
            r.title@ == title@,
            r.values@ == stable_sort_spec(values@),
            r.search@ == Seq::<char>::empty(),
            !r.searching,
            !r.focused,
            r.error is None,
            r.committed is None,
            r.cursor == 0,
    {
        let mut values = values;
        sort_records(&mut values);
        let search: Vec<char> = Vec::new();
        let filtered = compute_filter(&values, &search);
        Self {
            title: title.to_owned(),
            error: None,
            searching: false,
            search,
            focused: false,
            committed: None,
            cursor: 0,
            values,
            filtered,
        }
    }

    /// Rebuilds the filtered view for the current query and clamps the
    /// cursor to it.
    fn refilter(&mut self)
        ensures
            final(self).filtered@ == match_idxs(
                old(self).values@,
                old(self).search@,
                old(self).values@.len() as int,
            ),
            final(self).cursor == clamped(
                final(self).filtered@.len() as int,
                old(self).cursor as int,
            ),
            final(self).title == old(self).title,
            final(self).error == old(self).error,
            final(self).searching == old(self).searching,
            final(self).search == old(self).search,
            final(self).focused == old(self).focused,
            final(self).committed == old(self).committed,
            final(self).values == old(self).values,
    {
        self.filtered = compute_filter(&self.values, &self.search);
        if self.filtered.len() == 0 {
            self.cursor = 0;
        } else if self.cursor >= self.filtered.len() {
            self.cursor = self.filtered.len() - 1;
        }
    }

    /// The committed record, if any.
    pub fn get_value(&self) -> (r: Option<&T>)
        ensures
            r is Some <==> (self.committed is Some && (self.committed->Some_0 as int)
                < self.values@.len()),
            r is Some ==> *r->Some_0 == self.values@[self.committed->Some_0 as int],
    {
        match self.committed {
            Some(i) => {
                if i < self.values.len() {
                    Some(&self.values[i])
                } else {
                    None
                }
            },
            None => None,
        }
    }

    /// Attaches a validation error to the picker.
    pub fn set_err(&mut self, err: String)
        ensures
            final(self).error == Some(err),
            final(self).title == old(self).title,
            final(self).searching == old(self).searching,
            final(self).search == old(self).search,
            final(self).focused == old(self).focused,
            final(self).committed == old(self).committed,
            final(self).cursor == old(self).cursor,
            final(self).values == old(self).values,
            final(self).filtered == old(self).filtered,
    {
        self.error = Some(err);
    }

    /// Focus restores the cursor to the top when nothing is committed.
    pub fn focus(&mut self)
        ensures
            final(self).focused,
            final(self).cursor == (if old(self).committed is None {
                0
            } else {
                old(self).cursor as int
            }),
            final(self).title == old(self).title,
            final(self).error == old(self).error,
            final(self).searching == old(self).searching,
            final(self).search == old(self).search,
            final(self).committed == old(self).committed,
            final(self).values == old(self).values,
            final(self).filtered == old(self).filtered,
    {
        if self.committed.is_none() {
            self.cursor = 0;
        }
        self.focused = true;
    }

    /// Unfocus only changes styling.
    pub fn unfocus(&mut self)
        ensures
            !final(self).focused,
            final(self).title == old(self).title,
            final(self).error == old(self).error,
            final(self).searching == old(self).searching,
            final(self).search == old(self).search,
            final(self).committed == old(self).committed,
            final(self).cursor == old(self).cursor,
            final(self).values == old(self).values,
            final(self).filtered == old(self).filtered,
    {
        self.focused = false;
    }

    /// Interprets one key. While searching, characters edit the query and
    /// the view follows; outside search, `j`/`k` move the cursor (tracking
    /// the committed selection), Enter commits, and Escape is handed back
    /// to the owning form.
    pub fn handle_key(&mut self, ev: KeyEvent) -> (r: Option<ListInputEvent>)
        requires
            old(self).wf(),
        ensures
            final(self).wf(),
            final(self).title == old(self).title,
            final(self).error == old(self).error,
            final(self).focused == old(self).focused,
            final(self).values == old(self).values,
            match ev.key {
                Key::Esc => if old(self).searching {
                    r is None && !final(self).searching && final(self).search@
                        == Seq::<char>::empty() && final(self).committed == old(self).committed
                        && final(self).cursor == clamped(
                        final(self).filtered@.len() as int,
                        old(self).cursor as int,
                    )
                } else {
                    *final(self) == *old(self) && r == Some(ListInputEvent::Escape)
                },
                Key::Enter => if old(self).searching {
                    r is None && !final(self).searching && final(self).search == old(self).search
                        && final(self).committed == old(self).committed && final(self).cursor
                        == old(self).cursor
                } else {
                    r == Some(ListInputEvent::Select) && final(self).searching == old(self).searching && final(self).search == old(self).search && final(self).cursor
                        == old(self).cursor && final(self).committed == (if old(self).filtered@.len() > 0 {
                        Some(old(self).filtered@[old(self).cursor as int])
                    } else {
                        old(self).committed
                    })
                },
                Key::Char(c) => r is None && (if c == '/' {
                    final(self).searching && final(self).search == old(self).search && final(self).cursor == old(self).cursor && final(self).committed == old(self).committed
                } else if old(self).searching {
                    final(self).searching && final(self).search@ == old(self).search@.push(c)
                        && final(self).committed == old(self).committed && final(self).cursor
                        == clamped(final(self).filtered@.len() as int, old(self).cursor as int)
                } else if c == 'j' || c == 'k' {
                    final(self).searching == old(self).searching && final(self).search == old(self).search && final(self).cursor == (if c == 'j' {
                        if old(self).cursor + 1 < old(self).filtered@.len() {
                            old(self).cursor + 1
                        } else {
                            old(self).cursor as int
                        }
                    } else {
                        if old(self).cursor > 0 {
                            old(self).cursor - 1
                        } else {
                            0
                        }
                    }) && final(self).committed == (if old(self).filtered@.len() > 0 {
                        Some(old(self).filtered@[final(self).cursor as int])
                    } else {
                        old(self).committed
                    })
                } else {
                    *final(self) == *old(self)
                }),
                Key::Backspace => r is None && (if old(self).searching {
                    final(self).searching && final(self).search@ == (if old(self).search@.len()
                        == 0 {
                        old(self).search@
                    } else {
                        old(self).search@.drop_last()
                    }) && final(self).committed == old(self).committed && final(self).cursor
                        == clamped(final(self).filtered@.len() as int, old(self).cursor as int)
                } else {
                    *final(self) == *old(self)
                }),
                Key::Other => *final(self) == *old(self) && r is None,
            },
    {
        // ties the dataset length to a machine integer; the filter lemmas
        // below need it bounded
        let vlen = self.values.len();
        proof {
            assert(self.values@.len() == vlen);
        }
        match ev.key {
            Key::Esc => {
                if self.searching {
                    self.searching = false;
                    self.search = Vec::new();
                    self.refilter();
                    None
                } else {
                    Some(ListInputEvent::Escape)
                }
            },
            Key::Enter => {
                if self.searching {
                    self.searching = false;
                    None
                } else {
                    if self.filtered.len() > 0 {
                        self.committed = Some(self.filtered[self.cursor]);
                        proof {
                            crate::filter::lemma_match_idxs_sound(
                                self.values@,
                                self.search@,
                                self.values@.len() as int,
                            );
                        }
                    }
                    Some(ListInputEvent::Select)
                }
            },
            Key::Char(c) => {
                if c == '/' {
                    self.searching = true;
                } else if self.searching {
                    self.search.push(c);
                    self.refilter();
                } else if c == 'j' {
                    let flen = self.filtered.len();
                    if flen > 0 && self.cursor + 1 < flen {
                        self.cursor = self.cursor + 1;
                    }
                    if self.filtered.len() > 0 {
                        self.committed = Some(self.filtered[self.cursor]);
                        proof {
                            crate::filter::lemma_match_idxs_sound(
                                self.values@,
                                self.search@,
                                self.values@.len() as int,
                            );
                        }
                    }
                } else if c == 'k' {
                    if self.cursor > 0 {
                        self.cursor = self.cursor - 1;
                    }
                    if self.filtered.len() > 0 {
                        self.committed = Some(self.filtered[self.cursor]);
                        proof {
                            crate::filter::lemma_match_idxs_sound(
                                self.values@,
                                self.search@,
                                self.values@.len() as int,
                            );
                        }
                    }
                }
                None
            },
            Key::Backspace => {
                if self.searching {
                    if self.search.len() > 0 {
                        self.search.pop();
                    }
                    self.refilter();
                }
                None
            },
            Key::Other => None,
        }
    }
}

} // verus!
