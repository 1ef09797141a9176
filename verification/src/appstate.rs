use vstd::prelude::*;

use crate::artist::Artist;
use crate::city::City;
use crate::datacolumn::DataColumn;
use crate::events::{Key, KeyEvent};
use crate::form::{Form, SaveRequest};
use crate::gig::Gig;
use crate::graph::GraphColumn;
use crate::nav::ColumnName;
use crate::venue::Venue;

verus! {

/// What the event loop must do after one key was interpreted: nothing,
/// quit, reload every dataset, or persist one new record (and reload on
/// success).
#[derive(Clone, Debug)]
pub enum AppAction {
    Continue,
    Quit,
    Reload,
    Persist(SaveRequest),
}

pub open spec fn persist_of(a: AppAction) -> Option<SaveRequest> {
    match a {
        AppAction::Persist(req) => Some(req),
        _ => None,
    }
}

/// The top-level router: which column owns input, whether the create-form
/// overlay is open, and the three interactive regions themselves. All
/// keyboard input flows through here; persistence and drawing stay with
/// the caller.
#[derive(Clone, Debug)]
pub struct App {
    pub focused_column: ColumnName,
    pub render_form: bool,
    pub data_column: DataColumn,
    pub graph_column: GraphColumn,
    pub form: Form,
}

impl App {
    /// The router's internal consistency: both composite regions are
    /// consistent.
    pub open spec fn wf(self) -> bool {
        self.data_column.wf() && self.form.wf()
    }

    /// A fresh application over independently loaded datasets: the data
    /// column focused, the overlay closed.
    pub fn new(
        artists: Vec<Artist>,
        venues: Vec<Venue>,
        gigs: Vec<Gig>,
        cities: Vec<City>,
        graph_gigs: Vec<Gig>,
        artist_cities: Vec<City>,
        venue_cities: Vec<City>,
        form_artists: Vec<Artist>,
        form_venues: Vec<Venue>,
    ) -> (r: Self)
        ensures
            r.wf(),
            r.focused_column == ColumnName::Data,
            !r.render_form,
            r.data_column.is_focused,
            !r.graph_column.is_focused,
            r.data_column.artist_table.data@ == crate::sort::stable_sort_spec(artists@),
            r.data_column.venue_table.data@ == crate::sort::stable_sort_spec(venues@),
            r.data_column.gig_table.data@ == crate::sort::stable_sort_spec(gigs@),
            r.data_column.city_table.data@ == crate::sort::stable_sort_spec(cities@),
            r.graph_column.gigs == graph_gigs,
            r.form.current_tab == crate::form::FormTabs::Artist,
            r.form.artist_form.city.values@ == crate::sort::stable_sort_spec(artist_cities@),
            r.form.venue_form.city.values@ == crate::sort::stable_sort_spec(venue_cities@),
            r.form.gig_form.artist_input.values@ == crate::sort::stable_sort_spec(form_artists@),
            r.form.gig_form.venue_input.values@ == crate::sort::stable_sort_spec(form_venues@),
    {
        Self {
            focused_column: ColumnName::Data,
            render_form: false,
            data_column: DataColumn::new(artists, venues, gigs, cities),
            graph_column: GraphColumn::new(graph_gigs),
            form: Form::new(artist_cities, venue_cities, form_artists, form_venues),
        }
    }

    /// Closes the overlay, leaving everything else as it is; the caller
    /// does this after a successful save, together with a reload.
    pub fn close_form(&mut self)
        ensures
            !final(self).render_form,
            final(self).focused_column == old(self).focused_column,
            final(self).data_column == old(self).data_column,
            final(self).graph_column == old(self).graph_column,
            final(self).form == old(self).form,
    {
        self.render_form = false;
    }

    /// The exact transition `handle_key` makes, and the action it asks of
    /// the event loop.
    pub open spec fn app_step(pre: App, post: App, ev: KeyEvent, r: AppAction) -> bool {
        &&& (ev.ctrl && ev.key == Key::Char('c') ==> r == AppAction::Quit && post == pre)
        &&& (!(ev.ctrl && ev.key == Key::Char('c')) && pre.render_form ==> {
            &&& post.focused_column == pre.focused_column
            &&& post.data_column == pre.data_column
            &&& post.graph_column == pre.graph_column
            &&& (if ev.key == Key::Esc && !ev.ctrl {
                !post.render_form && r == AppAction::Reload && post.form == pre.form
            } else {
                &&& post.render_form
                &&& Form::form_step(pre.form, post.form, ev, persist_of(r))
                &&& (r == AppAction::Continue || r is Persist)
            })
        })
        &&& (!(ev.ctrl && ev.key == Key::Char('c')) && !pre.render_form ==> {
            &&& post.form == pre.form
            &&& (r == AppAction::Continue)
            &&& (if ev.key == Key::Char('+') && !ev.ctrl {
                post.render_form && post.focused_column == pre.focused_column
                    && post.data_column == pre.data_column && post.graph_column == pre.graph_column
            } else if ev.key == Key::Char('H') && !ev.ctrl {
                &&& !post.render_form
                &&& (if pre.focused_column == ColumnName::Graph {
                    &&& post.focused_column == ColumnName::Data
                    &&& !post.graph_column.is_focused
                    &&& post.graph_column.gigs == pre.graph_column.gigs
                    &&& post.data_column.is_focused
                    &&& post.data_column.focused_app == pre.data_column.focused_app
                } else {
                    post == pre
                })
            } else if ev.key == Key::Char('L') && !ev.ctrl {
                &&& !post.render_form
                &&& (if pre.focused_column == ColumnName::Data {
                    &&& post.focused_column == ColumnName::Graph
                    &&& post.graph_column.is_focused
                    &&& post.graph_column.gigs == pre.graph_column.gigs
                    &&& !post.data_column.is_focused
                    &&& post.data_column.focused_app == pre.data_column.focused_app
                } else {
                    post == pre
                })
            } else {
                &&& !post.render_form
                &&& post.focused_column == pre.focused_column
                &&& post.graph_column == pre.graph_column
                &&& (if pre.focused_column == ColumnName::Data {
                    DataColumn::column_step(pre.data_column, post.data_column, ev)
                } else {
                    post.data_column == pre.data_column
                })
            })
        })
    }

    /// Interprets one key. Global chords are checked first: quit, open the
    /// overlay, close it (asking for a reload), move between the columns.
    /// While the overlay is open every other key goes to it exclusively;
    /// otherwise keys go to the focused column.
    pub fn handle_key(&mut self, ev: KeyEvent) -> (r: AppAction)
        requires
            old(self).wf(),
        ensures
            final(self).wf(),
            Self::app_step(*old(self), *final(self), ev, r),
    {
        if ev.ctrl {
            if let Key::Char(c) = ev.key {
                if c == 'c' {
                    return AppAction::Quit;
                }
            }
        }
        if self.render_form {
            if !ev.ctrl {
                if let Key::Esc = ev.key {
                    self.render_form = false;
                    return AppAction::Reload;
                }
            }
            match self.form.handle_key(ev) {
                Some(req) => {
                    return AppAction::Persist(req);
                },
                None => {
                    return AppAction::Continue;
                },
            }
        }
        if !ev.ctrl {
            if let Key::Char(c) = ev.key {
                if c == '+' {
                    self.render_form = true;
                    return AppAction::Continue;
                }
                if c == 'H' {
                    if let ColumnName::Graph = self.focused_column {
                        self.focused_column = ColumnName::Data;
                        self.graph_column.unfocus();
                        let t = self.data_column.focused_app;
                        self.data_column.focus(t);
                    }
                    return AppAction::Continue;
                }
                if c == 'L' {
                    if let ColumnName::Data = self.focused_column {
                        self.focused_column = ColumnName::Graph;
                        self.data_column.unfocus();
                        self.graph_column.focus();
                    }
                    return AppAction::Continue;
                }
            }
        }
        if let ColumnName::Data = self.focused_column {
            self.data_column.handle_key(ev);
        }
        AppAction::Continue
    }
}

} // verus!
