use vstd::prelude::*;

use crate::artist::Artist;
use crate::city::City;
use crate::cityform::form_chord;
use crate::events::{Key, KeyEvent};
use crate::listinput::{ListInput, ListInputEvent};
use crate::savebutton::{SaveButton, SaveButtonEvent};
use crate::textinput::{TextInput, TextInputEvent};

verus! {

/// The field chain of the artist form: idle, the name field, the city
/// picker, the submit button.
#[derive(Clone, Copy, Debug, PartialEq, Eq, Structural)]
pub enum Field {
    Idle,
    Name,
    City,
    Save,
}

pub open spec fn field_index(f: Field) -> int {
    match f {
        Field::Idle => 0,
        Field::Name => 1,
        Field::City => 2,
        Field::Save => 3,
    }
}

pub open spec fn field_next(f: Field) -> Field {
    match f {
        Field::Idle => Field::Name,
        Field::Name => Field::City,
        Field::City => Field::Save,
        Field::Save => Field::Save,
    }
}

pub open spec fn field_prev(f: Field) -> Field {
    match f {
        Field::Idle => Field::Idle,
        Field::Name => Field::Idle,
        Field::City => Field::Name,
        Field::Save => Field::City,
    }
}

impl Field {
    /// The next field in declared order; saturates at the submit button.
    pub fn next(&self) -> (r: Self)
        ensures
            r == field_next(*self),
    {
        match self {
            Field::Idle => Field::Name,
            Field::Name => Field::City,
            Field::City => Field::Save,
            Field::Save => Field::Save,
        }
    }

    /// The previous field in declared order; saturates at the idle state.
    pub fn prev(&self) -> (r: Self)
        ensures
            r == field_prev(*self),
    {
        match self {
            Field::Idle => Field::Idle,
            Field::Name => Field::Idle,
            Field::City => Field::Name,
            Field::Save => Field::City,
        }
    }
}

/// Advancing visits each field in declared order exactly once from the
/// idle state to the submit button, retreating retraces the same path, and
/// both saturate at their ends.
pub proof fn lemma_field_traversal()
    ensures
        forall|f: Field|
            field_index(#[trigger] field_next(f)) == if field_index(f) < 3 {
                field_index(f) + 1
            } else {
                3
            },
        forall|f: Field|
            field_index(#[trigger] field_prev(f)) == if field_index(f) > 0 {
                field_index(f) - 1
            } else {
                0
            },
        forall|a: Field, b: Field| field_index(a) == field_index(b) ==> a == b,
{
}

/// The create-artist form: a required name, a required city picked from
/// the loaded city list, and a submit button.
#[derive(Clone, Debug)]
pub struct ArtistForm {
    pub current_field: Field,
    pub name: TextInput,
    pub city: ListInput<City>,
    pub save: SaveButton,
}

impl ArtistForm {
    /// The form's internal consistency: its city picker is consistent.
    pub open spec fn wf(self) -> bool {
        self.city.wf()
    }

    /// An idle form over the given city list.
    pub fn new(cities: Vec<City>) -> (r: Self)
        ensures
            r.wf(),
            r.current_field == Field::Idle,
            r.name.value@ == Seq::<char>::empty(),
            r.name.error is None,
            !r.name.focused,
            r.city.values@ == crate::sort::stable_sort_spec(cities@),
            r.city.committed is None,
            r.city.error is None,
            r.save.error is None,
            !r.save.focused,
    {
        Self {
            current_field: Field::Idle,
            name: TextInput::new("Name"),
            city: ListInput::new("City", cities),
            save: SaveButton::new(),
        }
    }

    /// Moves focus to `new_focus`, unfocusing the field being left and
    /// focusing the one being entered; buffers, selections and errors are
    /// untouched.
    fn change_focus(&mut self, new_focus: Field)
        requires
            old(self).wf(),
        ensures
            final(self).wf(),
            final(self).current_field == new_focus,
            final(self).name.value == old(self).name.value,
            final(self).name.error == old(self).name.error,
            final(self).name.title == old(self).name.title,
            final(self).name.focused == (if new_focus == Field::Name {
                true
            } else if old(self).current_field == Field::Name {
                false
            } else {
                old(self).name.focused
            }),
            final(self).city.values == old(self).city.values,
            final(self).city.committed == old(self).city.committed,
            final(self).city.error == old(self).city.error,
            final(self).city.search == old(self).city.search,
            final(self).city.searching == old(self).city.searching,
            final(self).city.filtered == old(self).city.filtered,
            final(self).city.focused == (if new_focus == Field::City {
                true
            } else if old(self).current_field == Field::City {
                false
            } else {
                old(self).city.focused
            }),
            final(self).save.error == old(self).save.error,
            final(self).save.focused == (if new_focus == Field::Save {
                true
            } else if old(self).current_field == Field::Save {
                false
            } else {
                old(self).save.focused
            }),
    {
        match self.current_field {
            Field::Name => self.name.unfocus(),
            Field::City => self.city.unfocus(),
            Field::Save => self.save.unfocus(),
            Field::Idle => {},
        }
        self.current_field = new_focus;
        match self.current_field {
            Field::Name => self.name.focus(),
            Field::City => self.city.focus(),
            Field::Save => self.save.focus(),
            Field::Idle => {},
        }
    }

    /// Routes a persistence failure to the submit button's annotation.
    pub fn save_failed(&mut self, msg: String)
        ensures
            final(self).save.error == Some(msg),
            final(self).save.focused == old(self).save.focused,
            final(self).name == old(self).name,
            final(self).city == old(self).city,
            final(self).current_field == old(self).current_field,
    {
        self.save.set_err(msg);
    }

    /// The exact transition `handle_key` makes, and what it returns.
    pub open spec fn artist_step(pre: ArtistForm, post: ArtistForm, ev: KeyEvent, r: Option<Artist>) -> bool {
        &&& ({
            post.wf()
        })
        &&& ({
            post.name.title == pre.name.title
        })
        &&& ({
            post.city.values == pre.city.values
        })
        &&& ({
            // Enter while idle activates the first field
            (ev.key == Key::Enter && pre.current_field == Field::Idle) ==> r is None
                && post.current_field == Field::Name && post.name.focused
                && post.name.value == pre.name.value
                && post.city.committed == pre.city.committed
                && post.save == pre.save
        })
        &&& ({
            // the advance and retreat chords move focus and nothing else
            form_chord(ev) ==> r is None
                && post.current_field == (if ev.key == Key::Char('j') {
                    field_next(pre.current_field)
                } else {
                    field_prev(pre.current_field)
                })
                && post.name.value == pre.name.value
                && post.name.error == pre.name.error
                && post.city.committed == pre.city.committed
                && post.city.error == pre.city.error
                && post.save.error == pre.save.error
        })
        &&& ({
            // with no field active, other keys do nothing
            (pre.current_field == Field::Idle && ev.key != Key::Enter && !form_chord(ev))
                ==> r is None && post == pre
        })
        &&& ({
            // keys reach only the active name field
            (pre.current_field == Field::Name && ev.key != Key::Enter && !form_chord(ev))
                ==> r is None && post.current_field == Field::Name
                && post.city == pre.city && post.save == pre.save
                && post.name.error == pre.name.error
                && match ev.key {
                    Key::Esc => !post.name.focused
                        && post.name.value == pre.name.value,
                    Key::Backspace => post.name.value@ == (
                        if pre.name.value@.len() == 0 {
                            pre.name.value@
                        } else {
                            pre.name.value@.drop_last()
                        }
                    ),
                    Key::Char(c) => post.name.value@ == (if ev.ctrl {
                        pre.name.value@
                    } else {
                        pre.name.value@.push(c)
                    }),
                    _ => post.name == pre.name,
                }
        })
        &&& ({
            // Enter in the name field advances to the city picker
            (pre.current_field == Field::Name && ev.key == Key::Enter) ==> r is None
                && post.current_field == Field::City && !post.name.focused
                && post.name.value == pre.name.value
                && post.city.committed == pre.city.committed
                && post.city.focused
        })
        &&& ({
            // keys reach only the active city picker; committing a city
            // there advances to the submit button
            (pre.current_field == Field::City && !form_chord(ev)) ==> r is None
                && post.name == pre.name
                && post.save.error == pre.save.error
                && post.city.error == pre.city.error
                && (if ev.key == Key::Enter && !pre.city.searching {
                    post.current_field == Field::Save
                    && post.save.focused
                    && !post.city.focused
                    && post.city.committed == (if pre.city.filtered@.len() > 0 {
                        Some(pre.city.filtered@[pre.city.cursor as int])
                    } else {
                        pre.city.committed
                    })
                } else if ev.key == Key::Esc && !pre.city.searching {
                    post.current_field == Field::City && !post.city.focused
                        && post.city.committed == pre.city.committed
                        && post.save == pre.save
                } else {
                    post.current_field == Field::City
                        && post.save == pre.save
                })
        })
        &&& ({
            // Escape on the submit button only unfocuses it
            (pre.current_field == Field::Save && ev.key == Key::Esc && !form_chord(ev))
                ==> r is None && post.current_field == Field::Save
                && !post.save.focused && post.name == pre.name
                && post.city == pre.city
        })
        &&& ({
            // submitting with an empty name annotates the name field, keeps
            // the city selection intact, and requests no persistence
            (pre.current_field == Field::Save && ev.key == Key::Enter
                && pre.name.value@.len() == 0) ==> r is None
                && post.current_field == Field::Save
                && post.name.error is Some
                && post.name.error->Some_0@ == "Field \"Name\" cannot be empty"@
                && post.name.value == pre.name.value
                && post.city == pre.city
                && post.save == pre.save
        })
        &&& ({
            // submitting without a committed city annotates the picker
            (pre.current_field == Field::Save && ev.key == Key::Enter
                && pre.name.value@.len() > 0 && pre.city.committed is None)
                ==> r is None && post.current_field == Field::Save
                && post.city.error is Some
                && post.city.error->Some_0@ == "Field \"City\" cannot be empty"@
                && post.name == pre.name
                && post.city.committed == pre.city.committed
                && post.save == pre.save
        })
        &&& ({
            // submitting with everything filled requests exactly that artist
            (pre.current_field == Field::Save && ev.key == Key::Enter
                && pre.name.value@.len() > 0 && pre.city.committed is Some)
                ==> post == pre && r is Some
                && r->Some_0.artist_id == 0
                && r->Some_0.name@ == pre.name.value@
                && r->Some_0.city_id
                    == pre.city.values@[pre.city.committed->Some_0 as int].city_id
                && r->Some_0.city_name is None
        })
        &&& ({
            // other keys on the submit button do nothing
            (pre.current_field == Field::Save && !form_chord(ev) && ev.key != Key::Enter
                && ev.key != Key::Esc) ==> r is None && post == pre
        })
    }

    /// Interprets one key. A `Some` result is a request to persist that
    /// artist; validation failures annotate the offending field, leave the
    /// other entries intact, and request nothing.
    pub fn handle_key(&mut self, ev: KeyEvent) -> (r: Option<Artist>)
        requires
            old(self).wf(),
        ensures
            Self::artist_step(*old(self), *final(self), ev, r),
    {
        match (ev.ctrl, ev.key) {
            (_, Key::Enter) => {
                if let Field::Idle = self.current_field {
                    let nf = self.current_field.next();
                    self.change_focus(nf);
                    return None;
                }
            },
            (true, Key::Char(c)) => {
                if c == 'j' {
                    let nf = self.current_field.next();
                    self.change_focus(nf);
                    return None;
                }
                if c == 'k' {
                    let nf = self.current_field.prev();
                    self.change_focus(nf);
                    return None;
                }
            },
            _ => {},
        }
        match self.current_field {
            Field::Name => {
                if let Some(iev) = self.name.handle_key(ev) {
                    match iev {
                        TextInputEvent::Escape => self.name.unfocus(),
                        TextInputEvent::Save => {
                            let nf = self.current_field.next();
                            self.change_focus(nf);
                        },
                    }
                }
                None
            },
            Field::City => {
                if let Some(lev) = self.city.handle_key(ev) {
                    match lev {
                        ListInputEvent::Escape => self.city.unfocus(),
                        ListInputEvent::Select => {
                            let nf = self.current_field.next();
                            self.change_focus(nf);
                        },
                    }
                }
                None
            },
            Field::Save => {
                if let Some(sev) = self.save.handle_key(ev) {
                    match sev {
                        SaveButtonEvent::Escape => {
                            self.save.unfocus();
                            None
                        },
                        SaveButtonEvent::Save => {
                            let name = match self.name.get_value() {
                                Some(n) => n,
                                None => {
                                    self.name.set_err(
                                        "Field \"Name\" cannot be empty".to_owned(),
                                    );
                                    return None;
                                },
                            };
                            let city_id = match self.city.get_value() {
                                Some(c) => c.city_id,
                                None => {
                                    self.city.set_err(
                                        "Field \"City\" cannot be empty".to_owned(),
                                    );
                                    return None;
                                },
                            };
                            Some(Artist::new(name, city_id))
                        },
                    }
                } else {
                    None
                }
            },
            Field::Idle => None,
        }
    }
}

} // verus!
