use vstd::prelude::*;

use crate::venue::Venue;
use crate::city::City;
use crate::avfield::{av_next, av_prev, AvField};
use crate::cityform::form_chord;
use crate::events::{Key, KeyEvent};
use crate::listinput::{ListInput, ListInputEvent};
use crate::savebutton::{SaveButton, SaveButtonEvent};
use crate::textinput::{TextInput, TextInputEvent};

verus! {

/// The create-venue form: a required name, a required city picked from
/// the loaded city list, and a submit button.
#[derive(Clone, Debug)]
pub struct VenueForm {
    pub current_field: AvField,
    pub name: TextInput,
    pub city: ListInput<City>,
    pub save: SaveButton,
}

impl VenueForm {
    /// The form's internal consistency: its city picker is consistent.
    pub open spec fn wf(self) -> bool {
        self.city.wf()
    }

    /// An idle form over the given city list.
    pub fn new(cities: Vec<City>) -> (r: Self)
        ensures
            r.wf(),
            r.current_field == AvField::Idle,
            r.name.value@ == Seq::<char>::empty(),
            r.name.error is None,
            !r.name.focused,
            r.city.values@ == crate::sort::stable_sort_spec(cities@),
            r.city.committed is None,
            r.city.error is None,
            r.save.error is None,
            !r.save.focused,
    {
        Self {
            current_field: AvField::Idle,
            name: TextInput::new("Name"),
            city: ListInput::new("City", cities),
            save: SaveButton::new(),
        }
    }

    /// Moves focus to `new_focus`, unfocusing the field being left and
    /// focusing the one being entered; buffers, selections and errors are
    /// untouched.
    fn change_focus(&mut self, new_focus: AvField)
        requires
            old(self).wf(),
        ensures
            final(self).wf(),
            final(self).current_field == new_focus,
            final(self).name.value == old(self).name.value,
            final(self).name.error == old(self).name.error,
            final(self).name.title == old(self).name.title,
            final(self).name.focused == (if new_focus == AvField::Name {
                true
            } else if old(self).current_field == AvField::Name {
                false
            } else {
                old(self).name.focused
            }),
            final(self).city.values == old(self).city.values,
            final(self).city.committed == old(self).city.committed,
            final(self).city.error == old(self).city.error,
            final(self).city.search == old(self).city.search,
            final(self).city.searching == old(self).city.searching,
            final(self).city.filtered == old(self).city.filtered,
            final(self).city.focused == (if new_focus == AvField::City {
                true
            } else if old(self).current_field == AvField::City {
                false
            } else {
                old(self).city.focused
            }),
            final(self).save.error == old(self).save.error,
            final(self).save.focused == (if new_focus == AvField::Save {
                true
            } else if old(self).current_field == AvField::Save {
                false
            } else {
                old(self).save.focused
            }),
    {
        match self.current_field {
            AvField::Name => self.name.unfocus(),
            AvField::City => self.city.unfocus(),
            AvField::Save => self.save.unfocus(),
            AvField::Idle => {},
        }
        self.current_field = new_focus;
        match self.current_field {
            AvField::Name => self.name.focus(),
            AvField::City => self.city.focus(),
            AvField::Save => self.save.focus(),
            AvField::Idle => {},
        }
    }

    /// Routes a persistence failure to the submit button's annotation.
    pub fn save_failed(&mut self, msg: String)
        ensures
            final(self).save.error == Some(msg),
            final(self).save.focused == old(self).save.focused,
            final(self).name == old(self).name,
            final(self).city == old(self).city,
            final(self).current_field == old(self).current_field,
    {
        self.save.set_err(msg);
    }

    /// The exact transition `handle_key` makes, and what it returns.
    pub open spec fn venue_step(pre: VenueForm, post: VenueForm, ev: KeyEvent, r: Option<Venue>) -> bool {
        &&& ({
            post.wf()
        })
        &&& ({
            post.name.title == pre.name.title
        })
        &&& ({
            post.city.values == pre.city.values
        })
        &&& ({
            // Enter while idle activates the first field
            (ev.key == Key::Enter && pre.current_field == AvField::Idle) ==> r is None
                && post.current_field == AvField::Name && post.name.focused
                && post.name.value == pre.name.value
                && post.city.committed == pre.city.committed
                && post.save == pre.save
        })
        &&& ({
            // the advance and retreat chords move focus and nothing else
            form_chord(ev) ==> r is None
                && post.current_field == (if ev.key == Key::Char('j') {
                    av_next(pre.current_field)
                } else {
                    av_prev(pre.current_field)
                })
                && post.name.value == pre.name.value
                && post.name.error == pre.name.error
                && post.city.committed == pre.city.committed
                && post.city.error == pre.city.error
                && post.save.error == pre.save.error
        })
        &&& ({
            // with no field active, other keys do nothing
            (pre.current_field == AvField::Idle && ev.key != Key::Enter && !form_chord(ev))
                ==> r is None && post == pre
        })
        &&& ({
            // keys reach only the active name field
            (pre.current_field == AvField::Name && ev.key != Key::Enter && !form_chord(ev))
                ==> r is None && post.current_field == AvField::Name
                && post.city == pre.city && post.save == pre.save
                && post.name.error == pre.name.error
                && match ev.key {
                    Key::Esc => !post.name.focused
                        && post.name.value == pre.name.value,
                    Key::Backspace => post.name.value@ == (
                        if pre.name.value@.len() == 0 {
                            pre.name.value@
                        } else {
                            pre.name.value@.drop_last()
                        }
                    ),
                    Key::Char(c) => post.name.value@ == (if ev.ctrl {
                        pre.name.value@
                    } else {
                        pre.name.value@.push(c)
                    }),
                    _ => post.name == pre.name,
                }
        })
        &&& ({
            // Enter in the name field advances to the city picker
            (pre.current_field == AvField::Name && ev.key == Key::Enter) ==> r is None
                && post.current_field == AvField::City && !post.name.focused
                && post.name.value == pre.name.value
                && post.city.committed == pre.city.committed
                && post.city.focused
        })
        &&& ({
            // keys reach only the active city picker; committing a city
            // there advances to the submit button
            (pre.current_field == AvField::City && !form_chord(ev)) ==> r is None
                && post.name == pre.name
                && post.save.error == pre.save.error
                && post.city.error == pre.city.error
                && (if ev.key == Key::Enter && !pre.city.searching {
                    post.current_field == AvField::Save
                    && post.save.focused
                    && !post.city.focused
                    && post.city.committed == (if pre.city.filtered@.len() > 0 {
                        Some(pre.city.filtered@[pre.city.cursor as int])
                    } else {
                        pre.city.committed
                    })
                } else if ev.key == Key::Esc && !pre.city.searching {
                    post.current_field == AvField::City && !post.city.focused
                        && post.city.committed == pre.city.committed
                        && post.save == pre.save
                } else {
                    post.current_field == AvField::City
                        && post.save == pre.save
                })
        })
        &&& ({
            // Escape on the submit button only unfocuses it
            (pre.current_field == AvField::Save && ev.key == Key::Esc && !form_chord(ev))
                ==> r is None && post.current_field == AvField::Save
                && !post.save.focused && post.name == pre.name
                && post.city == pre.city
        })
        &&& ({
            // submitting with an empty name annotates the name field, keeps
            // the city selection intact, and requests no persistence
            (pre.current_field == AvField::Save && ev.key == Key::Enter
                && pre.name.value@.len() == 0) ==> r is None
                && post.current_field == AvField::Save
                && post.name.error is Some
                && post.name.error->Some_0@ == "Field \"Name\" cannot be empty"@
                && post.name.value == pre.name.value
                && post.city == pre.city
                && post.save == pre.save
        })
        &&& ({
            // submitting without a committed city annotates the picker
            (pre.current_field == AvField::Save && ev.key == Key::Enter
                && pre.name.value@.len() > 0 && pre.city.committed is None)
                ==> r is None && post.current_field == AvField::Save
                && post.city.error is Some
                && post.city.error->Some_0@ == "Field \"City\" cannot be empty"@
                && post.name == pre.name
                && post.city.committed == pre.city.committed
                && post.save == pre.save
        })
        &&& ({
            // submitting with everything filled requests exactly that venue
            (pre.current_field == AvField::Save && ev.key == Key::Enter
                && pre.name.value@.len() > 0 && pre.city.committed is Some)
                ==> post == pre && r is Some
                && r->Some_0.venue_id == 0
                && r->Some_0.name@ == pre.name.value@
                && r->Some_0.city_id
                    == pre.city.values@[pre.city.committed->Some_0 as int].city_id
                && r->Some_0.city_name is None
        })
        &&& ({
            // other keys on the submit button do nothing
            (pre.current_field == AvField::Save && !form_chord(ev) && ev.key != Key::Enter
                && ev.key != Key::Esc) ==> r is None && post == pre
        })
    }

    /// Interprets one key. A `Some` result is a request to persist that
    /// venue; validation failures annotate the offending field, leave the
    /// other entries intact, and request nothing.
    pub fn handle_key(&mut self, ev: KeyEvent) -> (r: Option<Venue>)
        requires
            old(self).wf(),
        ensures
            Self::venue_step(*old(self), *final(self), ev, r),
    {
        match (ev.ctrl, ev.key) {
            (_, Key::Enter) => {
                if let AvField::Idle = self.current_field {
                    let nf = self.current_field.next();
                    self.change_focus(nf);
                    return None;
                }
            },
            (true, Key::Char(c)) => {
                if c == 'j' {
                    let nf = self.current_field.next();
                    self.change_focus(nf);
                    return None;
                }
                if c == 'k' {
                    let nf = self.current_field.prev();
                    self.change_focus(nf);
                    return None;
                }
            },
            _ => {},
        }
        match self.current_field {
            AvField::Name => {
                if let Some(iev) = self.name.handle_key(ev) {
                    match iev {
                        TextInputEvent::Escape => self.name.unfocus(),
                        TextInputEvent::Save => {
                            let nf = self.current_field.next();
                            self.change_focus(nf);
                        },
                    }
                }
                None
            },
            AvField::City => {
                if let Some(lev) = self.city.handle_key(ev) {
                    match lev {
                        ListInputEvent::Escape => self.city.unfocus(),
                        ListInputEvent::Select => {
                            let nf = self.current_field.next();
                            self.change_focus(nf);
                        },
                    }
                }
                None
            },
            AvField::Save => {
                if let Some(sev) = self.save.handle_key(ev) {
                    match sev {
                        SaveButtonEvent::Escape => {
                            self.save.unfocus();
                            None
                        },
                        SaveButtonEvent::Save => {
                            let name = match self.name.get_value() {
                                Some(n) => n,
                                None => {
                                    self.name.set_err(
                                        "Field \"Name\" cannot be empty".to_owned(),
                                    );
                                    return None;
                                },
                            };
                            let city_id = match self.city.get_value() {
                                Some(c) => c.city_id,
                                None => {
                                    self.city.set_err(
                                        "Field \"City\" cannot be empty".to_owned(),
                                    );
                                    return None;
                                },
                            };
                            Some(Venue::new(name, city_id))
                        },
                    }
                } else {
                    None
                }
            },
            AvField::Idle => None,
        }
    }
}

} // verus!
