use vstd::prelude::*;

use crate::events::{Key, KeyEvent};
use crate::filter::{compute_filter, match_idxs};
use crate::listinput::clamped;
use crate::record::Record;
use crate::sort::{sort_records, sorted_by_key, stable_sort_spec};

verus! {

/// Clearing the search restores the full dataset: a consistent table whose
/// query is empty shows every row, in the sorted order it was loaded into.
pub proof fn lemma_empty_search_restores_all<T: Record>(t: DataTable<T>)
    requires
        t.wf(),
        t.search@.len() == 0,
        t.data@.len() <= usize::MAX,
    ensures
        crate::filter::rows_of(t.data@, t.filtered@) == t.data@,
        t.filtered@.len() == t.data@.len(),
{
    assert(t.search@ =~= Seq::<char>::empty());
    crate::filter::lemma_clear_restores(t.data@);
    crate::filter::lemma_match_idxs_empty_query(t.data@, t.data@.len() as int);
}

/// A bordered entity table: the full dataset sorted by key, a live
/// substring search with its filtered view, and a bounded selection cursor
/// that clamps at the ends.
#[derive(Clone, Debug)]
pub struct DataTable<T> {
    pub title: String,
    pub searching: bool,
    pub search: Vec<char>,
    /// The full dataset, sorted by key.
    pub data: Vec<T>,
    /// Positions into `data` of the records matching `search`, in order.
    pub filtered: Vec<usize>,
    pub focused: bool,
    /// Cursor over `filtered`.
    pub cursor: usize,
}

impl<T: Record> DataTable<T> {
    /// The table's internal consistency: sorted data, a filtered view that
    /// is exactly the match positions for the live query, and a bounded
    /// cursor.
    pub open spec fn wf(self) -> bool {
        &&& sorted_by_key(self.data@)
        &&& self.filtered@ == match_idxs(self.data@, self.search@, self.data@.len() as int)
        &&& (if self.filtered@.len() == 0 {
            self.cursor == 0
        } else {
            (self.cursor as int) < self.filtered@.len()
        })
    }

    /// A table over the given records, sorted on construction, with no
    /// search active and the cursor at the top.
    pub fn new(title: &str, data: Vec<T>) -> (r: Self)
        ensures
            r.wf(),
            r.title@ == title@,
            r.data@ == stable_sort_spec(data@),
            r.search@ == Seq::<char>::empty(),
            !r.searching,
            !r.focused,
            r.cursor == 0,
    {
        let mut data = data;
        sort_records(&mut data);
        let search: Vec<char> = Vec::new();
        let filtered = compute_filter(&data, &search);
        Self { title: title.to_owned(), searching: false, search, data, filtered, focused: false, cursor: 0 }
    }

    /// Replaces the dataset wholesale (after a reload), re-sorts it, and
    /// re-applies the current search; the cursor clamps to the new view.
    pub fn reload_data(&mut self, data: Vec<T>)
        ensures
            final(self).wf(),
            final(self).data@ == stable_sort_spec(data@),
            final(self).search == old(self).search,
            final(self).searching == old(self).searching,
            final(self).title == old(self).title,
            final(self).focused == old(self).focused,
            final(self).cursor == clamped(
                final(self).filtered@.len() as int,
                old(self).cursor as int,
            ),
    {
        let mut data = data;
        sort_records(&mut data);
        self.data = data;
        self.refilter();
    }

    /// Rebuilds the filtered view for the current query and clamps the
    /// cursor to it.
    fn refilter(&mut self)
        ensures
            final(self).filtered@ == match_idxs(
                old(self).data@,
                old(self).search@,
                old(self).data@.len() as int,
            ),
            final(self).cursor == clamped(
                final(self).filtered@.len() as int,
                old(self).cursor as int,
            ),
            final(self).title == old(self).title,
            final(self).searching == old(self).searching,
            final(self).search == old(self).search,
            final(self).focused == old(self).focused,
            final(self).data == old(self).data,
    {
        self.filtered = compute_filter(&self.data, &self.search);
        if self.filtered.len() == 0 {
            self.cursor = 0;
        } else if self.cursor >= self.filtered.len() {
            self.cursor = self.filtered.len() - 1;
        }
    }

    /// Focus only changes styling; the selection is untouched.
    pub fn focus(&mut self)
        ensures
            final(self).focused,
            final(self).title == old(self).title,
            final(self).searching == old(self).searching,
            final(self).search == old(self).search,
            final(self).data == old(self).data,
            final(self).filtered == old(self).filtered,
            final(self).cursor == old(self).cursor,
    {
        self.focused = true;
    }

    /// Unfocus only changes styling; the selection is untouched.
    pub fn unfocus(&mut self)
        ensures
            !final(self).focused,
            final(self).title == old(self).title,
            final(self).searching == old(self).searching,
            final(self).search == old(self).search,
            final(self).data == old(self).data,
            final(self).filtered == old(self).filtered,
            final(self).cursor == old(self).cursor,
    {
        self.focused = false;
    }

    /// The record under the cursor, if the filtered view is not empty.
    pub fn selected(&self) -> (r: Option<&T>)
        requires
            self.wf(),
        ensures
            r is Some <==> self.filtered@.len() > 0,
            r is Some ==> *r->Some_0 == self.data@[self.filtered@[self.cursor as int] as int],
    {
        let n = self.data.len();
        if self.filtered.len() > 0 {
            proof {
                assert(self.data@.len() == n);
                crate::filter::lemma_match_idxs_sound(
                    self.data@,
                    self.search@,
                    self.data@.len() as int,
                );
            }
            Some(&self.data[self.filtered[self.cursor]])
        } else {
            None
        }
    }

    /// `post` differs from `pre` at most in its focus styling.
    pub open spec fn same_but_focus(pre: Self, post: Self) -> bool {
        &&& post.title == pre.title
        &&& post.searching == pre.searching
        &&& post.search == pre.search
        &&& post.data == pre.data
        &&& post.filtered == pre.filtered
        &&& post.cursor == pre.cursor
    }

    /// The exact transition `handle_key` makes from `pre` to `post` on one
    /// key event.
    pub open spec fn table_step(pre: Self, post: Self, ev: KeyEvent) -> bool {
        &&& post.title == pre.title
        &&& post.focused == pre.focused
        &&& post.data == pre.data
        &&& (ev.ctrl ==> post == pre)
        &&& (!ev.ctrl ==> match ev.key {
            Key::Backspace => post.searching == pre.searching && post.search@ == (
                if pre.search@.len() == 0 {
                    pre.search@
                } else {
                    pre.search@.drop_last()
                }
            ) && post.cursor == clamped(post.filtered@.len() as int, pre.cursor as int),
            Key::Esc => !post.searching && post.search@ == Seq::<char>::empty() && post.cursor
                == clamped(post.filtered@.len() as int, pre.cursor as int),
            Key::Enter => !post.searching && post.search == pre.search && post.filtered
                == pre.filtered && post.cursor == pre.cursor,
            Key::Char(c) => if c == '/' && !pre.searching {
                post.searching && post.search == pre.search && post.filtered == pre.filtered
                    && post.cursor == pre.cursor
            } else if pre.searching && c != '/' {
                post.searching && post.search@ == pre.search@.push(c) && post.cursor == clamped(
                    post.filtered@.len() as int,
                    pre.cursor as int,
                )
            } else if !pre.searching && c == 'j' {
                post.search == pre.search && post.searching == pre.searching && post.filtered
                    == pre.filtered && post.cursor == (if pre.cursor + 1 < pre.filtered@.len() {
                    pre.cursor + 1
                } else {
                    pre.cursor as int
                })
            } else if !pre.searching && c == 'k' {
                post.search == pre.search && post.searching == pre.searching && post.filtered
                    == pre.filtered && post.cursor == (if pre.cursor > 0 {
                    pre.cursor - 1
                } else {
                    0
                })
            } else {
                post == pre
            },
            Key::Other => post == pre,
        })
    }

    /// Interprets one key. `/` opens the search; while searching,
    /// characters edit the query and the view follows; Escape clears the
    /// search (restoring the full view), Enter closes it keeping the
    /// query; outside search, `j`/`k` move the cursor, clamping at the
    /// ends. Control-modified keys are left for the owning column's chords.
    pub fn handle_key(&mut self, ev: KeyEvent)
        requires
            old(self).wf(),
        ensures
            final(self).wf(),
            Self::table_step(*old(self), *final(self), ev),
            final(self).title == old(self).title,
            final(self).focused == old(self).focused,
            final(self).data == old(self).data,
    {
        if ev.ctrl {
            return ;
        }
        match ev.key {
            Key::Backspace => {
                if self.search.len() > 0 {
                    self.search.pop();
                }
                self.refilter();
            },
            Key::Esc => {
                self.searching = false;
                self.search = Vec::new();
                self.refilter();
            },
            Key::Enter => {
                self.searching = false;
            },
            Key::Char(c) => {
                if c == '/' {
                    if !self.searching {
                        self.searching = true;
                    }
                } else if self.searching {
                    self.search.push(c);
                    self.refilter();
                } else if c == 'j' {
                    let flen = self.filtered.len();
                    if flen > 0 && self.cursor + 1 < flen {
                        self.cursor = self.cursor + 1;
                    }
                } else if c == 'k' {
                    if self.cursor > 0 {
                        self.cursor = self.cursor - 1;
                    }
                }
            },
            Key::Other => {},
        }
    }
}

} // verus!
