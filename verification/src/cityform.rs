use vstd::prelude::*;

use crate::city::City;
use crate::events::{Key, KeyEvent};
use crate::savebutton::{SaveButton, SaveButtonEvent};
use crate::textinput::{TextInput, TextInputEvent};

verus! {

/// The field chain of the city form: idle, the name field, the submit
/// button.
#[derive(Clone, Copy, Debug, PartialEq, Eq, Structural)]
pub enum CityField {
    Idle,
    Name,
    Save,
}

pub open spec fn city_field_index(f: CityField) -> int {
    match f {
        CityField::Idle => 0,
        CityField::Name => 1,
        CityField::Save => 2,
    }
}

pub open spec fn city_field_next(f: CityField) -> CityField {
    match f {
        CityField::Idle => CityField::Name,
        CityField::Name => CityField::Save,
        CityField::Save => CityField::Save,
    }
}

pub open spec fn city_field_prev(f: CityField) -> CityField {
    match f {
        CityField::Idle => CityField::Idle,
        CityField::Name => CityField::Idle,
        CityField::Save => CityField::Name,
    }
}

impl CityField {
    /// The next field in declared order; saturates at the submit button.
    pub fn next(&self) -> (r: Self)
        ensures
            r == city_field_next(*self),
    {
        match self {
            CityField::Idle => CityField::Name,
            CityField::Name => CityField::Save,
            CityField::Save => CityField::Save,
        }
    }

    /// The previous field in declared order; saturates at the idle state.
    pub fn prev(&self) -> (r: Self)
        ensures
            r == city_field_prev(*self),
    {
        match self {
            CityField::Idle => CityField::Idle,
            CityField::Name => CityField::Idle,
            CityField::Save => CityField::Name,
        }
    }
}

/// Advancing visits each field in declared order exactly once from the
/// idle state to the submit button, retreating retraces the same path, and
/// both saturate at their ends.
pub proof fn lemma_city_field_traversal()
    ensures
        forall|f: CityField|
            city_field_index(#[trigger] city_field_next(f)) == if city_field_index(f) < 2 {
                city_field_index(f) + 1
            } else {
                2
            },
        forall|f: CityField|
            city_field_index(#[trigger] city_field_prev(f)) == if city_field_index(f) > 0 {
                city_field_index(f) - 1
            } else {
                0
            },
        forall|a: CityField, b: CityField| city_field_index(a) == city_field_index(b) ==> a == b,
{
}

/// An advance/retreat chord: Control with `j` or `k`.
pub open spec fn form_chord(ev: KeyEvent) -> bool {
    ev.ctrl && (ev.key == Key::Char('j') || ev.key == Key::Char('k'))
}

/// The create-city form: one required name field and a submit button,
/// sequenced by a saturating field chain.
#[derive(Clone, Debug)]
pub struct CityForm {
    pub current_field: CityField,
    pub name: TextInput,
    pub save: SaveButton,
}

impl CityForm {
    /// An idle form with an empty name field.
    pub fn new() -> (r: Self)
        ensures
            r.current_field == CityField::Idle,
            r.name.value@ == Seq::<char>::empty(),
            r.name.error is None,
            !r.name.focused,
            r.save.error is None,
            !r.save.focused,
    {
        Self {
            current_field: CityField::Idle,
            name: TextInput::new("Name"),
            save: SaveButton::new(),
        }
    }

    /// Moves focus to `new_focus`, unfocusing the field being left and
    /// focusing the one being entered; buffers and errors are untouched.
    fn change_focus(&mut self, new_focus: CityField)
        ensures
            final(self).current_field == new_focus,
            final(self).name.value == old(self).name.value,
            final(self).name.error == old(self).name.error,
            final(self).name.title == old(self).name.title,
            final(self).name.focused == (if new_focus == CityField::Name {
                true
            } else if old(self).current_field == CityField::Name {
                false
            } else {
                old(self).name.focused
            }),
            final(self).save.error == old(self).save.error,
            final(self).save.focused == (if new_focus == CityField::Save {
                true
            } else if old(self).current_field == CityField::Save {
                false
            } else {
                old(self).save.focused
            }),
    {
        match self.current_field {
            CityField::Name => self.name.unfocus(),
            CityField::Save => self.save.unfocus(),
            CityField::Idle => {},
        }
        self.current_field = new_focus;
        match self.current_field {
            CityField::Name => self.name.focus(),
            CityField::Save => self.save.focus(),
            CityField::Idle => {},
        }
    }

    /// Routes a persistence failure to the submit button's annotation.
    pub fn save_failed(&mut self, msg: String)
        ensures
            final(self).save.error == Some(msg),
            final(self).save.focused == old(self).save.focused,
            final(self).name == old(self).name,
            final(self).current_field == old(self).current_field,
    {
        self.save.set_err(msg);
    }

    /// The exact transition `handle_key` makes, and what it returns.
    pub open spec fn city_step(pre: CityForm, post: CityForm, ev: KeyEvent, r: Option<City>) -> bool {
        &&& ({
            post.name.title == pre.name.title
        })
        &&& ({
            // Enter while idle activates the first field
            (ev.key == Key::Enter && pre.current_field == CityField::Idle) ==> r is None
                && post.current_field == CityField::Name && post.name.focused
                && post.name.value == pre.name.value && post.name.error == pre.name.error && post.save == pre.save
        })
        &&& ({
            // the advance and retreat chords move focus and nothing else
            form_chord(ev) ==> r is None && post.current_field == (if ev.key == Key::Char(
                'j',
            ) {
                city_field_next(pre.current_field)
            } else {
                city_field_prev(pre.current_field)
            }) && post.name.value == pre.name.value && post.name.error == pre.name.error && post.save.error == pre.save.error
        })
        &&& ({
            // with no field active, other keys do nothing
            (pre.current_field == CityField::Idle && ev.key != Key::Enter && !form_chord(ev))
                ==> r is None && post == pre
        })
        &&& ({
            // keys reach only the active name field
            (pre.current_field == CityField::Name && ev.key != Key::Enter && !form_chord(ev))
                ==> r is None && post.current_field == CityField::Name && post.save == pre.save && post.name.error == pre.name.error && match ev.key {
                Key::Esc => !post.name.focused && post.name.value == pre.name.value,
                Key::Backspace => post.name.focused == pre.name.focused && post.name.value@ == (if pre.name.value@.len() == 0 {
                    pre.name.value@
                } else {
                    pre.name.value@.drop_last()
                }),
                Key::Char(c) => post.name.focused == pre.name.focused && post.name.value@ == (if ev.ctrl {
                    pre.name.value@
                } else {
                    pre.name.value@.push(c)
                }),
                _ => post.name == pre.name,
            }
        })
        &&& ({
            // Enter in the name field advances to the submit button
            (pre.current_field == CityField::Name && ev.key == Key::Enter) ==> r is None
                && post.current_field == CityField::Save && !post.name.focused
                && post.name.value == pre.name.value && post.save.focused
        })
        &&& ({
            // Escape on the submit button only unfocuses it
            (pre.current_field == CityField::Save && ev.key == Key::Esc && !form_chord(ev))
                ==> r is None && post.current_field == CityField::Save && !post.save.focused && post.name == pre.name
        })
        &&& ({
            // submitting with an empty name annotates the name field and
            // requests no persistence
            (pre.current_field == CityField::Save && ev.key == Key::Enter && pre.name.value@.len() == 0) ==> r is None && post.current_field == CityField::Save
                && post.name.error is Some && post.name.error->Some_0@ == "Field \"Name\" cannot be empty"@ && post.name.value
                == pre.name.value && post.save == pre.save
        })
        &&& ({
            // submitting with the name filled requests exactly that city
            (pre.current_field == CityField::Save && ev.key == Key::Enter && pre.name.value@.len() > 0) ==> post == pre && r is Some
                && r->Some_0.city_id == 0 && r->Some_0.name@ == pre.name.value@
        })
        &&& ({
            // other keys on the submit button do nothing
            (pre.current_field == CityField::Save && !form_chord(ev) && ev.key != Key::Enter
                && ev.key != Key::Esc) ==> r is None && post == pre
        })
    }

    /// Interprets one key. A `Some` result is a request to persist that
    /// city; validation failures annotate the offending field and request
    /// nothing.
    pub fn handle_key(&mut self, ev: KeyEvent) -> (r: Option<City>)
        ensures
            Self::city_step(*old(self), *final(self), ev, r),
    {
        match (ev.ctrl, ev.key) {
            (_, Key::Enter) => {
                if let CityField::Idle = self.current_field {
                    let nf = self.current_field.next();
                    self.change_focus(nf);
                    return None;
                }
            },
            (true, Key::Char(c)) => {
                if c == 'j' {
                    let nf = self.current_field.next();
                    self.change_focus(nf);
                    return None;
                }
                if c == 'k' {
                    let nf = self.current_field.prev();
                    self.change_focus(nf);
                    return None;
                }
            },
            _ => {},
        }
        match self.current_field {
            CityField::Name => {
                if let Some(iev) = self.name.handle_key(ev) {
                    match iev {
                        TextInputEvent::Escape => self.name.unfocus(),
                        TextInputEvent::Save => {
                            let nf = self.current_field.next();
                            self.change_focus(nf);
                        },
                    }
                }
                None
            },
            CityField::Save => {
                if let Some(sev) = self.save.handle_key(ev) {
                    match sev {
                        SaveButtonEvent::Escape => {
                            self.save.unfocus();
                            None
                        },
                        SaveButtonEvent::Save => {
                            match self.name.get_value() {
                                None => {
                                    self.name.set_err(
                                        "Field \"Name\" cannot be empty".to_owned(),
                                    );
                                    None
                                },
                                Some(n) => Some(City::new(n)),
                            }
                        },
                    }
                } else {
                    None
                }
            },
            CityField::Idle => None,
        }
    }
}

} // verus!
