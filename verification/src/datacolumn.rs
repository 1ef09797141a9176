use vstd::prelude::*;

use crate::artist::Artist;
use crate::city::City;
use crate::datatable::DataTable;
use crate::events::{Key, KeyEvent};
use crate::gig::Gig;
use crate::nav::{table_next, table_prev, TableName};
use crate::venue::Venue;

verus! {

/// The data column: the four entity tables stacked, exactly one of them
/// focused, with table-switch chords that wrap cyclically.
#[derive(Clone, Debug)]
pub struct DataColumn {
    pub is_focused: bool,
    pub artist_table: DataTable<Artist>,
    pub venue_table: DataTable<Venue>,
    pub gig_table: DataTable<Gig>,
    pub city_table: DataTable<City>,
    pub focused_app: TableName,
}

impl DataColumn {
    /// The column's internal consistency: every table is consistent.
    pub open spec fn wf(self) -> bool {
        self.artist_table.wf() && self.venue_table.wf() && self.gig_table.wf()
            && self.city_table.wf()
    }

    /// A focused column over the given datasets, with the artist table
    /// active.
    pub fn new(artists: Vec<Artist>, venues: Vec<Venue>, gigs: Vec<Gig>, cities: Vec<City>) -> (r:
        Self)
        ensures
            r.wf(),
            r.is_focused,
            r.focused_app == TableName::Artist,
            r.artist_table.data@ == crate::sort::stable_sort_spec(artists@),
            r.venue_table.data@ == crate::sort::stable_sort_spec(venues@),
            r.gig_table.data@ == crate::sort::stable_sort_spec(gigs@),
            r.city_table.data@ == crate::sort::stable_sort_spec(cities@),
            r.artist_table.focused,
            !r.venue_table.focused,
            !r.gig_table.focused,
            !r.city_table.focused,
            r.artist_table.search@ == Seq::<char>::empty(),
            r.venue_table.search@ == Seq::<char>::empty(),
            r.gig_table.search@ == Seq::<char>::empty(),
            r.city_table.search@ == Seq::<char>::empty(),
    {
        let mut artist_table = DataTable::new("Artist", artists);
        artist_table.focus();
        Self {
            is_focused: true,
            artist_table,
            venue_table: DataTable::new("Venue", venues),
            gig_table: DataTable::new("Gig", gigs),
            city_table: DataTable::new("City", cities),
            focused_app: TableName::Artist,
        }
    }

    /// Replaces every table's dataset wholesale after a reload; searches
    /// and focus stay as they were.
    pub fn reload_data(
        &mut self,
        artists: Vec<Artist>,
        venues: Vec<Venue>,
        gigs: Vec<Gig>,
        cities: Vec<City>,
    )
        ensures
            final(self).wf(),
            final(self).is_focused == old(self).is_focused,
            final(self).focused_app == old(self).focused_app,
            final(self).artist_table.data@ == crate::sort::stable_sort_spec(artists@),
            final(self).venue_table.data@ == crate::sort::stable_sort_spec(venues@),
            final(self).gig_table.data@ == crate::sort::stable_sort_spec(gigs@),
            final(self).city_table.data@ == crate::sort::stable_sort_spec(cities@),
            final(self).artist_table.search == old(self).artist_table.search,
            final(self).venue_table.search == old(self).venue_table.search,
            final(self).gig_table.search == old(self).gig_table.search,
            final(self).city_table.search == old(self).city_table.search,
            final(self).artist_table.focused == old(self).artist_table.focused,
            final(self).venue_table.focused == old(self).venue_table.focused,
            final(self).gig_table.focused == old(self).gig_table.focused,
            final(self).city_table.focused == old(self).city_table.focused,
    {
        self.artist_table.reload_data(artists);
        self.venue_table.reload_data(venues);
        self.gig_table.reload_data(gigs);
        self.city_table.reload_data(cities);
    }

    /// Moves table focus to `new_focus` and marks the column focused; only
    /// focus styling changes, never data or selections.
    pub fn focus(&mut self, new_focus: TableName)
        requires
            old(self).wf(),
        ensures
            final(self).wf(),
            final(self).is_focused,
            final(self).focused_app == new_focus,
            final(self).artist_table.focused == (new_focus == TableName::Artist || (old(self).focused_app != TableName::Artist && old(self).artist_table.focused)),
            final(self).venue_table.focused == (new_focus == TableName::Venue || (old(self).focused_app != TableName::Venue && old(self).venue_table.focused)),
            final(self).gig_table.focused == (new_focus == TableName::Gig || (old(self).focused_app != TableName::Gig && old(self).gig_table.focused)),
            final(self).city_table.focused == (new_focus == TableName::City || (old(self).focused_app != TableName::City && old(self).city_table.focused)),
            crate::datatable::DataTable::same_but_focus(
                old(self).artist_table,
                final(self).artist_table,
            ),
            crate::datatable::DataTable::same_but_focus(
                old(self).venue_table,
                final(self).venue_table,
            ),
            crate::datatable::DataTable::same_but_focus(old(self).gig_table, final(self).gig_table),
            crate::datatable::DataTable::same_but_focus(
                old(self).city_table,
                final(self).city_table,
            ),
    {
        self.is_focused = true;
        match self.focused_app {
            TableName::Artist => self.artist_table.unfocus(),
            TableName::Gig => self.gig_table.unfocus(),
            TableName::Venue => self.venue_table.unfocus(),
            TableName::City => self.city_table.unfocus(),
        }
        self.focused_app = new_focus;
        match self.focused_app {
            TableName::Artist => self.artist_table.focus(),
            TableName::Gig => self.gig_table.focus(),
            TableName::Venue => self.venue_table.focus(),
            TableName::City => self.city_table.focus(),
        }
    }

    /// Marks the column unfocused and removes the active table's focus
    /// styling; the active table stays remembered.
    pub fn unfocus(&mut self)
        requires
            old(self).wf(),
        ensures
            final(self).wf(),
            !final(self).is_focused,
            final(self).focused_app == old(self).focused_app,
            crate::datatable::DataTable::same_but_focus(
                old(self).artist_table,
                final(self).artist_table,
            ),
            crate::datatable::DataTable::same_but_focus(
                old(self).venue_table,
                final(self).venue_table,
            ),
            crate::datatable::DataTable::same_but_focus(old(self).gig_table, final(self).gig_table),
            crate::datatable::DataTable::same_but_focus(
                old(self).city_table,
                final(self).city_table,
            ),
            final(self).focused_app == TableName::Artist ==> !final(self).artist_table.focused,
            final(self).focused_app == TableName::Venue ==> !final(self).venue_table.focused,
            final(self).focused_app == TableName::Gig ==> !final(self).gig_table.focused,
            final(self).focused_app == TableName::City ==> !final(self).city_table.focused,
    {
        self.is_focused = false;
        match self.focused_app {
            TableName::Artist => self.artist_table.unfocus(),
            TableName::Gig => self.gig_table.unfocus(),
            TableName::Venue => self.venue_table.unfocus(),
            TableName::City => self.city_table.unfocus(),
        }
    }

    /// The exact transition `handle_key` makes on one key event.
    pub open spec fn column_step(pre: DataColumn, post: DataColumn, ev: KeyEvent) -> bool {
        &&& post.artist_table.data == pre.artist_table.data
        &&& post.venue_table.data == pre.venue_table.data
        &&& post.gig_table.data == pre.gig_table.data
        &&& post.city_table.data == pre.city_table.data
        &&& (if ev.ctrl && (ev.key == Key::Char('j') || ev.key == Key::Char('k')) {
            &&& post.focused_app == (if ev.key == Key::Char('j') {
                table_next(pre.focused_app)
            } else {
                table_prev(pre.focused_app)
            })
            &&& DataTable::same_but_focus(pre.artist_table, post.artist_table)
            &&& DataTable::same_but_focus(pre.venue_table, post.venue_table)
            &&& DataTable::same_but_focus(pre.gig_table, post.gig_table)
            &&& DataTable::same_but_focus(pre.city_table, post.city_table)
        } else if ev.ctrl {
            post == pre
        } else {
            &&& post.focused_app == pre.focused_app
            &&& post.is_focused == pre.is_focused
            &&& match pre.focused_app {
                TableName::Artist => DataTable::table_step(pre.artist_table, post.artist_table, ev)
                    && post.venue_table == pre.venue_table && post.gig_table == pre.gig_table
                    && post.city_table == pre.city_table,
                TableName::Venue => DataTable::table_step(pre.venue_table, post.venue_table, ev)
                    && post.artist_table == pre.artist_table && post.gig_table == pre.gig_table
                    && post.city_table == pre.city_table,
                TableName::Gig => DataTable::table_step(pre.gig_table, post.gig_table, ev)
                    && post.artist_table == pre.artist_table && post.venue_table == pre.venue_table
                    && post.city_table == pre.city_table,
                TableName::City => DataTable::table_step(pre.city_table, post.city_table, ev)
                    && post.artist_table == pre.artist_table && post.venue_table == pre.venue_table
                    && post.gig_table == pre.gig_table,
            }
        })
    }

    /// Interprets one key: the table-switch chords move focus through the
    /// cycle; every other key is delivered to the focused table.
    pub fn handle_key(&mut self, ev: KeyEvent)
        requires
            old(self).wf(),
        ensures
            final(self).wf(),
            Self::column_step(*old(self), *final(self), ev),
    {
        if ev.ctrl {
            if let Key::Char(c) = ev.key {
                if c == 'j' {
                    let nf = self.focused_app.next();
                    self.focus(nf);
                    return ;
                }
                if c == 'k' {
                    let nf = self.focused_app.prev();
                    self.focus(nf);
                    return ;
                }
            }
            return ;
        }
        match self.focused_app {
            TableName::Artist => self.artist_table.handle_key(ev),
            TableName::Venue => self.venue_table.handle_key(ev),
            TableName::City => self.city_table.handle_key(ev),
            TableName::Gig => self.gig_table.handle_key(ev),
        }
    }
}

} // verus!
