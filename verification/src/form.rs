use vstd::prelude::*;

use crate::artist::Artist;
use crate::artistform::ArtistForm;
use crate::city::City;
use crate::cityform::CityForm;
use crate::events::{Key, KeyEvent};
use crate::gig::Gig;
use crate::gigform::GigForm;
use crate::venue::Venue;
use crate::venueform::VenueForm;

verus! {

/// The entity tabs of the create-record overlay, in declared order.
#[derive(Clone, Copy, Debug, PartialEq, Eq, Structural)]
pub enum FormTabs {
    Artist,
    Venue,
    Gig,
    City,
}

pub open spec fn form_tab_index(t: FormTabs) -> int {
    match t {
        FormTabs::Artist => 0,
        FormTabs::Venue => 1,
        FormTabs::Gig => 2,
        FormTabs::City => 3,
    }
}

pub open spec fn form_tab_next(t: FormTabs) -> FormTabs {
    match t {
        FormTabs::Artist => FormTabs::Venue,
        FormTabs::Venue => FormTabs::Gig,
        FormTabs::Gig => FormTabs::City,
        FormTabs::City => FormTabs::City,
    }
}

pub open spec fn form_tab_prev(t: FormTabs) -> FormTabs {
    match t {
        FormTabs::Artist => FormTabs::Artist,
        FormTabs::Venue => FormTabs::Artist,
        FormTabs::Gig => FormTabs::Venue,
        FormTabs::City => FormTabs::Gig,
    }
}

impl FormTabs {
    /// The next tab; saturates at the last one.
    pub fn next(&self) -> (r: Self)
        ensures
            r == form_tab_next(*self),
    {
        match self {
            FormTabs::Artist => FormTabs::Venue,
            FormTabs::Venue => FormTabs::Gig,
            FormTabs::Gig => FormTabs::City,
            FormTabs::City => FormTabs::City,
        }
    }

    /// The previous tab; saturates at the first one.
    pub fn prev(&self) -> (r: Self)
        ensures
            r == form_tab_prev(*self),
    {
        match self {
            FormTabs::Artist => FormTabs::Artist,
            FormTabs::Venue => FormTabs::Artist,
            FormTabs::Gig => FormTabs::Venue,
            FormTabs::City => FormTabs::Gig,
        }
    }

    /// The position of this tab in the header row.
    pub fn index(&self) -> (r: usize)
        ensures
            r == form_tab_index(*self),
    {
        match self {
            FormTabs::Artist => 0,
            FormTabs::Venue => 1,
            FormTabs::Gig => 2,
            FormTabs::City => 3,
        }
    }
}

/// A request to persist one new record, handed back to the event loop.
#[derive(Clone, Debug)]
pub enum SaveRequest {
    Artist(Artist),
    Venue(Venue),
    Gig(Gig),
    City(City),
}

/// A tab-switch chord: Control with `l` or `h`.
pub open spec fn tab_chord(ev: KeyEvent) -> bool {
    ev.ctrl && (ev.key == Key::Char('l') || ev.key == Key::Char('h'))
}

pub open spec fn artist_of(r: Option<SaveRequest>) -> Option<Artist> {
    match r {
        Some(SaveRequest::Artist(a)) => Some(a),
        _ => None,
    }
}

pub open spec fn venue_of(r: Option<SaveRequest>) -> Option<Venue> {
    match r {
        Some(SaveRequest::Venue(v)) => Some(v),
        _ => None,
    }
}

pub open spec fn gig_of(r: Option<SaveRequest>) -> Option<Gig> {
    match r {
        Some(SaveRequest::Gig(g)) => Some(g),
        _ => None,
    }
}

pub open spec fn city_of(r: Option<SaveRequest>) -> Option<City> {
    match r {
        Some(SaveRequest::City(c)) => Some(c),
        _ => None,
    }
}

/// The create-record overlay: one form per entity, selected by tabs; tab
/// chords switch forms, every other key goes to the selected form alone.
#[derive(Clone, Debug)]
pub struct Form {
    pub current_tab: FormTabs,
    pub artist_form: ArtistForm,
    pub venue_form: VenueForm,
    pub gig_form: GigForm,
    pub city_form: CityForm,
}

impl Form {
    /// The overlay's internal consistency: every picker-holding form is
    /// consistent.
    pub open spec fn wf(self) -> bool {
        self.artist_form.wf() && self.venue_form.wf() && self.gig_form.wf()
    }

    /// A fresh overlay on the artist tab, each form idle over its own
    /// independently loaded picker data.
    pub fn new(
        artist_cities: Vec<City>,
        venue_cities: Vec<City>,
        artists: Vec<Artist>,
        venues: Vec<Venue>,
    ) -> (r: Self)
        ensures
            r.wf(),
            r.current_tab == FormTabs::Artist,
            r.artist_form.current_field == crate::artistform::Field::Idle,
            r.artist_form.name.value@ == Seq::<char>::empty(),
            r.artist_form.city.values@ == crate::sort::stable_sort_spec(artist_cities@),
            r.artist_form.city.committed is None,
            r.venue_form.current_field == crate::avfield::AvField::Idle,
            r.venue_form.name.value@ == Seq::<char>::empty(),
            r.venue_form.city.values@ == crate::sort::stable_sort_spec(venue_cities@),
            r.venue_form.city.committed is None,
            r.gig_form.current_field == crate::gigform::GigField::Idle,
            r.gig_form.artist_input.values@ == crate::sort::stable_sort_spec(artists@),
            r.gig_form.venue_input.values@ == crate::sort::stable_sort_spec(venues@),
            r.gig_form.date_input.value@ == Seq::<char>::empty(),
            r.city_form.current_field == crate::cityform::CityField::Idle,
            r.city_form.name.value@ == Seq::<char>::empty(),
    {
        Self {
            current_tab: FormTabs::Artist,
            artist_form: ArtistForm::new(artist_cities),
            venue_form: VenueForm::new(venue_cities),
            gig_form: GigForm::new(artists, venues),
            city_form: CityForm::new(),
        }
    }

    /// Routes a persistence failure to the submit button of the form that
    /// requested the save.
    pub fn save_failed(&mut self, msg: String)
        ensures
            final(self).current_tab == old(self).current_tab,
            match old(self).current_tab {
                FormTabs::Artist => final(self).artist_form.save.error == Some(msg) && final(self).venue_form == old(self).venue_form && final(self).gig_form == old(self).gig_form
                    && final(self).city_form == old(self).city_form,
                FormTabs::Venue => final(self).venue_form.save.error == Some(msg) && final(self).artist_form == old(self).artist_form && final(self).gig_form == old(self).gig_form && final(self).city_form == old(self).city_form,
                FormTabs::Gig => final(self).gig_form.save_button.error == Some(msg) && final(self).artist_form == old(self).artist_form && final(self).venue_form == old(self).venue_form && final(self).city_form == old(self).city_form,
                FormTabs::City => final(self).city_form.save.error == Some(msg) && final(self).artist_form == old(self).artist_form && final(self).venue_form == old(self).venue_form && final(self).gig_form == old(self).gig_form,
            },
    {
        match self.current_tab {
            FormTabs::Artist => self.artist_form.save_failed(msg),
            FormTabs::Venue => self.venue_form.save_failed(msg),
            FormTabs::Gig => self.gig_form.save_failed(msg),
            FormTabs::City => self.city_form.save_failed(msg),
        }
    }

    /// The exact transition `handle_key` makes, and what it returns.
    pub open spec fn form_step(pre: Form, post: Form, ev: KeyEvent, r: Option<SaveRequest>) -> bool {
        &&& (tab_chord(ev) ==> r is None && post.current_tab == (if ev.key == Key::Char('l') {
            form_tab_next(pre.current_tab)
        } else {
            form_tab_prev(pre.current_tab)
        }) && post.artist_form == pre.artist_form && post.venue_form == pre.venue_form
            && post.gig_form == pre.gig_form && post.city_form == pre.city_form)
        &&& (!tab_chord(ev) ==> post.current_tab == pre.current_tab && match pre.current_tab {
            FormTabs::Artist => {
                &&& (r is Some ==> r->Some_0 is Artist)
                &&& ArtistForm::artist_step(pre.artist_form, post.artist_form, ev, artist_of(r))
                &&& post.venue_form == pre.venue_form
                &&& post.gig_form == pre.gig_form
                &&& post.city_form == pre.city_form
            },
            FormTabs::Venue => {
                &&& (r is Some ==> r->Some_0 is Venue)
                &&& VenueForm::venue_step(pre.venue_form, post.venue_form, ev, venue_of(r))
                &&& post.artist_form == pre.artist_form
                &&& post.gig_form == pre.gig_form
                &&& post.city_form == pre.city_form
            },
            FormTabs::Gig => {
                &&& (r is Some ==> r->Some_0 is Gig)
                &&& GigForm::gig_step(pre.gig_form, post.gig_form, ev, gig_of(r))
                &&& post.artist_form == pre.artist_form
                &&& post.venue_form == pre.venue_form
                &&& post.city_form == pre.city_form
            },
            FormTabs::City => {
                &&& (r is Some ==> r->Some_0 is City)
                &&& CityForm::city_step(pre.city_form, post.city_form, ev, city_of(r))
                &&& post.artist_form == pre.artist_form
                &&& post.venue_form == pre.venue_form
                &&& post.gig_form == pre.gig_form
            },
        })
    }

    /// Interprets one key: tab chords switch the selected form, every other
    /// key is delivered to that form alone; a `Some` result is its request
    /// to persist one record.
    pub fn handle_key(&mut self, ev: KeyEvent) -> (r: Option<SaveRequest>)
        requires
            old(self).wf(),
        ensures
            final(self).wf(),
            Self::form_step(*old(self), *final(self), ev, r),
    {
        if ev.ctrl {
            if let Key::Char(c) = ev.key {
                if c == 'l' {
                    self.current_tab = self.current_tab.next();
                    return None;
                }
                if c == 'h' {
                    self.current_tab = self.current_tab.prev();
                    return None;
                }
            }
        }
        match self.current_tab {
            FormTabs::Artist => {
                match self.artist_form.handle_key(ev) {
                    Some(a) => Some(SaveRequest::Artist(a)),
                    None => None,
                }
            },
            FormTabs::Venue => {
                match self.venue_form.handle_key(ev) {
                    Some(v) => Some(SaveRequest::Venue(v)),
                    None => None,
                }
            },
            FormTabs::Gig => {
                match self.gig_form.handle_key(ev) {
                    Some(g) => Some(SaveRequest::Gig(g)),
                    None => None,
                }
            },
            FormTabs::City => {
                match self.city_form.handle_key(ev) {
                    Some(c) => Some(SaveRequest::City(c)),
                    None => None,
                }
            },
        }
    }
}

} // verus!
