use vstd::prelude::*;

use crate::actinput::{ActInput, ActInputEvent};
use crate::artist::Artist;
use crate::cityform::form_chord;
use crate::date::{date_day_val, date_month_val, date_year_val, month_from_code, valid_date_chars, Date};
use crate::events::{Key, KeyEvent};
use crate::gig::Gig;
use crate::listinput::{ListInput, ListInputEvent};
use crate::savebutton::{SaveButton, SaveButtonEvent};
use crate::textinput::{TextInput, TextInputEvent};
use crate::venue::Venue;

verus! {

/// The field chain of the gig form: idle, the artist picker, the venue
/// picker, the date field, the act-role picker, the submit button.
#[derive(Clone, Copy, Debug, PartialEq, Eq, Structural)]
pub enum GigField {
    Idle,
    Artist,
    Venue,
    Date,
    Act,
    Save,
}

pub open spec fn gig_field_index(f: GigField) -> int {
    match f {
        GigField::Idle => 0,
        GigField::Artist => 1,
        GigField::Venue => 2,
        GigField::Date => 3,
        GigField::Act => 4,
        GigField::Save => 5,
    }
}

pub open spec fn gig_field_next(f: GigField) -> GigField {
    match f {
        GigField::Idle => GigField::Artist,
        GigField::Artist => GigField::Venue,
        GigField::Venue => GigField::Date,
        GigField::Date => GigField::Act,
        GigField::Act => GigField::Save,
        GigField::Save => GigField::Save,
    }
}

pub open spec fn gig_field_prev(f: GigField) -> GigField {
    match f {
        GigField::Idle => GigField::Idle,
        GigField::Artist => GigField::Idle,
        GigField::Venue => GigField::Artist,
        GigField::Date => GigField::Venue,
        GigField::Act => GigField::Date,
        GigField::Save => GigField::Act,
    }
}

impl GigField {
    /// The next field in declared order; saturates at the submit button.
    pub fn next(&self) -> (r: Self)
        ensures
            r == gig_field_next(*self),
    {
        match self {
            GigField::Idle => GigField::Artist,
            GigField::Artist => GigField::Venue,
            GigField::Venue => GigField::Date,
            GigField::Date => GigField::Act,
            GigField::Act => GigField::Save,
            GigField::Save => GigField::Save,
        }
    }

    /// The previous field in declared order; saturates at the idle state.
    pub fn prev(&self) -> (r: Self)
        ensures
            r == gig_field_prev(*self),
    {
        match self {
            GigField::Idle => GigField::Idle,
            GigField::Artist => GigField::Idle,
            GigField::Venue => GigField::Artist,
            GigField::Date => GigField::Venue,
            GigField::Act => GigField::Date,
            GigField::Save => GigField::Act,
        }
    }
}

/// Advancing visits each field in declared order exactly once from the
/// idle state to the submit button, retreating retraces the same path, and
/// both saturate at their ends.
pub proof fn lemma_gig_field_traversal()
    ensures
        forall|f: GigField|
            gig_field_index(#[trigger] gig_field_next(f)) == if gig_field_index(f) < 5 {
                gig_field_index(f) + 1
            } else {
                5
            },
        forall|f: GigField|
            gig_field_index(#[trigger] gig_field_prev(f)) == if gig_field_index(f) > 0 {
                gig_field_index(f) - 1
            } else {
                0
            },
        forall|a: GigField, b: GigField| gig_field_index(a) == gig_field_index(b) ==> a == b,
{
}

/// The create-gig form: required artist and venue picks, a date entered as
/// text and checked structurally before the save, a required act role, and
/// a submit button.
#[derive(Clone, Debug)]
pub struct GigForm {
    pub current_field: GigField,
    pub artist_input: ListInput<Artist>,
    pub venue_input: ListInput<Venue>,
    pub date_input: TextInput,
    pub act_input: ActInput,
    pub save_button: SaveButton,
}

impl GigForm {
    /// The form's internal consistency: both pickers are consistent.
    pub open spec fn wf(self) -> bool {
        self.artist_input.wf() && self.venue_input.wf()
    }

    /// An idle form over the given artist and venue lists.
    pub fn new(artists: Vec<Artist>, venues: Vec<Venue>) -> (r: Self)
        ensures
            r.wf(),
            r.current_field == GigField::Idle,
            r.artist_input.values@ == crate::sort::stable_sort_spec(artists@),
            r.artist_input.committed is None,
            r.venue_input.values@ == crate::sort::stable_sort_spec(venues@),
            r.venue_input.committed is None,
            r.date_input.value@ == Seq::<char>::empty(),
            r.date_input.error is None,
            r.act_input.selected is None,
            r.act_input.error is None,
            r.save_button.error is None,
            !r.save_button.focused,
    {
        Self {
            current_field: GigField::Idle,
            artist_input: ListInput::new("Artist", artists),
            venue_input: ListInput::new("Venue", venues),
            date_input: TextInput::new("Date"),
            act_input: ActInput::new(),
            save_button: SaveButton::new(),
        }
    }

    /// Moves focus to `new_focus`, unfocusing the field being left and
    /// focusing the one being entered; entries and errors are untouched.
    fn change_focus(&mut self, new_focus: GigField)
        requires
            old(self).wf(),
        ensures
            final(self).wf(),
            final(self).current_field == new_focus,
            // components neither left nor entered are untouched
            (new_focus != GigField::Artist && old(self).current_field != GigField::Artist)
                ==> final(self).artist_input == old(self).artist_input,
            (new_focus != GigField::Venue && old(self).current_field != GigField::Venue)
                ==> final(self).venue_input == old(self).venue_input,
            (new_focus != GigField::Date && old(self).current_field != GigField::Date)
                ==> final(self).date_input == old(self).date_input,
            (new_focus != GigField::Act && old(self).current_field != GigField::Act)
                ==> final(self).act_input == old(self).act_input,
            (new_focus != GigField::Save && old(self).current_field != GigField::Save)
                ==> final(self).save_button == old(self).save_button,
            // entries, selections and errors survive any focus move
            final(self).artist_input.values == old(self).artist_input.values,
            final(self).artist_input.committed == old(self).artist_input.committed,
            final(self).artist_input.error == old(self).artist_input.error,
            final(self).artist_input.search == old(self).artist_input.search,
            final(self).artist_input.searching == old(self).artist_input.searching,
            final(self).artist_input.filtered == old(self).artist_input.filtered,
            final(self).venue_input.values == old(self).venue_input.values,
            final(self).venue_input.committed == old(self).venue_input.committed,
            final(self).venue_input.error == old(self).venue_input.error,
            final(self).venue_input.search == old(self).venue_input.search,
            final(self).venue_input.searching == old(self).venue_input.searching,
            final(self).venue_input.filtered == old(self).venue_input.filtered,
            final(self).date_input.value == old(self).date_input.value,
            final(self).date_input.error == old(self).date_input.error,
            final(self).date_input.title == old(self).date_input.title,
            final(self).act_input.selected == old(self).act_input.selected,
            final(self).act_input.error == old(self).act_input.error,
            final(self).act_input.current_tab == old(self).act_input.current_tab,
            final(self).save_button.error == old(self).save_button.error,
            // focus flags follow the move
            final(self).artist_input.focused == (if new_focus == GigField::Artist {
                true
            } else if old(self).current_field == GigField::Artist {
                false
            } else {
                old(self).artist_input.focused
            }),
            final(self).venue_input.focused == (if new_focus == GigField::Venue {
                true
            } else if old(self).current_field == GigField::Venue {
                false
            } else {
                old(self).venue_input.focused
            }),
            final(self).date_input.focused == (if new_focus == GigField::Date {
                true
            } else if old(self).current_field == GigField::Date {
                false
            } else {
                old(self).date_input.focused
            }),
            final(self).act_input.focused == (if new_focus == GigField::Act {
                true
            } else if old(self).current_field == GigField::Act {
                false
            } else {
                old(self).act_input.focused
            }),
            final(self).save_button.focused == (if new_focus == GigField::Save {
                true
            } else if old(self).current_field == GigField::Save {
                false
            } else {
                old(self).save_button.focused
            }),
    {
        match self.current_field {
            GigField::Artist => self.artist_input.unfocus(),
            GigField::Venue => self.venue_input.unfocus(),
            GigField::Date => self.date_input.unfocus(),
            GigField::Act => self.act_input.unfocus(),
            GigField::Save => self.save_button.unfocus(),
            GigField::Idle => {},
        }
        self.current_field = new_focus;
        match self.current_field {
            GigField::Artist => self.artist_input.focus(),
            GigField::Venue => self.venue_input.focus(),
            GigField::Date => self.date_input.focus(),
            GigField::Act => self.act_input.focus(),
            GigField::Save => self.save_button.focus(),
            GigField::Idle => {},
        }
    }

    /// Routes a persistence failure to the submit button's annotation.
    pub fn save_failed(&mut self, msg: String)
        ensures
            final(self).save_button.error == Some(msg),
            final(self).artist_input == old(self).artist_input,
            final(self).venue_input == old(self).venue_input,
            final(self).date_input == old(self).date_input,
            final(self).act_input == old(self).act_input,
            final(self).current_field == old(self).current_field,
    {
        self.save_button.set_err(msg);
    }

    /// The exact transition `handle_key` makes, and what it returns.
    pub open spec fn gig_step(pre: GigForm, post: GigForm, ev: KeyEvent, r: Option<Gig>) -> bool {
        &&& ({
            post.wf()
        })
        &&& ({
            post.artist_input.values == pre.artist_input.values
        })
        &&& ({
            post.venue_input.values == pre.venue_input.values
        })
        &&& ({
            // Enter while idle activates the first field
            (ev.key == Key::Enter && pre.current_field == GigField::Idle) ==> r is None
                && post.current_field == GigField::Artist
                && post.artist_input.committed == pre.artist_input.committed
                && post.venue_input == pre.venue_input
                && post.date_input == pre.date_input
                && post.act_input == pre.act_input
                && post.save_button == pre.save_button
        })
        &&& ({
            // the advance and retreat chords move focus and nothing else
            form_chord(ev) ==> r is None
                && post.current_field == (if ev.key == Key::Char('j') {
                    gig_field_next(pre.current_field)
                } else {
                    gig_field_prev(pre.current_field)
                })
                && post.artist_input.committed == pre.artist_input.committed
                && post.venue_input.committed == pre.venue_input.committed
                && post.date_input.value == pre.date_input.value
                && post.act_input.selected == pre.act_input.selected
                && post.date_input.error == pre.date_input.error
                && post.save_button.error == pre.save_button.error
        })
        &&& ({
            // with no field active, other keys do nothing
            (pre.current_field == GigField::Idle && ev.key != Key::Enter && !form_chord(ev))
                ==> r is None && post == pre
        })
        &&& ({
            // keys reach only the active artist picker; committing there
            // advances to the venue picker
            (pre.current_field == GigField::Artist && !form_chord(ev)) ==> r is None
                && post.date_input == pre.date_input
                && post.act_input == pre.act_input
                && post.save_button == pre.save_button
                && post.venue_input.committed == pre.venue_input.committed
                && (if ev.key == Key::Enter && !pre.artist_input.searching {
                    post.current_field == GigField::Venue
                    && !post.artist_input.focused
                    && post.venue_input.focused
                    && post.artist_input.committed == (
                        if pre.artist_input.filtered@.len() > 0 {
                            Some(
                                pre.artist_input.filtered@[pre.artist_input.cursor as int],
                            )
                        } else {
                            pre.artist_input.committed
                        }
                    )
                } else if ev.key == Key::Esc && !pre.artist_input.searching {
                    post.current_field == GigField::Artist
                        && !post.artist_input.focused
                        && post.artist_input.committed == pre.artist_input.committed
                        && post.venue_input == pre.venue_input
                } else {
                    post.current_field == GigField::Artist
                        && post.venue_input == pre.venue_input
                })
        })
        &&& ({
            // keys reach only the active venue picker; committing there
            // advances to the date field
            (pre.current_field == GigField::Venue && !form_chord(ev)) ==> r is None
                && post.artist_input == pre.artist_input
                && post.date_input.value == pre.date_input.value
                && post.act_input == pre.act_input
                && post.save_button == pre.save_button
                && (if ev.key == Key::Enter && !pre.venue_input.searching {
                    post.current_field == GigField::Date
                    && !post.venue_input.focused
                    && post.venue_input.committed == (
                        if pre.venue_input.filtered@.len() > 0 {
                            Some(
                                pre.venue_input.filtered@[pre.venue_input.cursor as int],
                            )
                        } else {
                            pre.venue_input.committed
                        }
                    )
                } else if ev.key == Key::Esc && !pre.venue_input.searching {
                    post.current_field == GigField::Venue
                        && !post.venue_input.focused
                        && post.venue_input.committed == pre.venue_input.committed
                } else {
                    post.current_field == GigField::Venue
                })
        })
        &&& ({
            // keys reach only the active date field
            (pre.current_field == GigField::Date && ev.key != Key::Enter && !form_chord(ev))
                ==> r is None && post.current_field == GigField::Date
                && post.artist_input == pre.artist_input
                && post.venue_input == pre.venue_input
                && post.act_input == pre.act_input
                && post.save_button == pre.save_button
                && post.date_input.error == pre.date_input.error
                && match ev.key {
                    Key::Esc => !post.date_input.focused
                        && post.date_input.value == pre.date_input.value,
                    Key::Backspace => post.date_input.value@ == (
                        if pre.date_input.value@.len() == 0 {
                            pre.date_input.value@
                        } else {
                            pre.date_input.value@.drop_last()
                        }
                    ),
                    Key::Char(c) => post.date_input.value@ == (if ev.ctrl {
                        pre.date_input.value@
                    } else {
                        pre.date_input.value@.push(c)
                    }),
                    _ => post.date_input == pre.date_input,
                }
        })
        &&& ({
            // Enter in the date field advances to the act picker
            (pre.current_field == GigField::Date && ev.key == Key::Enter) ==> r is None
                && post.current_field == GigField::Act
                && post.date_input.value == pre.date_input.value
                && post.act_input.selected == pre.act_input.selected
        })
        &&& ({
            // keys reach only the active act picker; committing there
            // advances to the submit button
            (pre.current_field == GigField::Act && !form_chord(ev)) ==> r is None
                && post.artist_input == pre.artist_input
                && post.venue_input == pre.venue_input
                && post.date_input == pre.date_input
                && post.act_input.error == pre.act_input.error
                && (if ev.key == Key::Enter {
                    post.current_field == GigField::Save
                    && post.act_input.selected == Some(pre.act_input.current_tab)
                    && post.save_button.focused
                } else if ev.key == Key::Esc {
                    post.current_field == GigField::Act
                        && !post.act_input.focused
                        && post.act_input.selected == pre.act_input.selected
                } else {
                    post.current_field == GigField::Act
                        && post.act_input.selected == pre.act_input.selected
                        && post.save_button == pre.save_button
                })
        })
        &&& ({
            // Escape on the submit button only unfocuses it
            (pre.current_field == GigField::Save && ev.key == Key::Esc && !form_chord(ev))
                ==> r is None && post.current_field == GigField::Save
                && !post.save_button.focused
                && post.artist_input == pre.artist_input
                && post.venue_input == pre.venue_input
                && post.date_input == pre.date_input
                && post.act_input == pre.act_input
        })
        &&& ({
            // submitting without a committed artist annotates that picker
            (pre.current_field == GigField::Save && ev.key == Key::Enter
                && pre.artist_input.committed is None) ==> r is None
                && post.current_field == GigField::Save
                && post.artist_input.error is Some
                && post.artist_input.error->Some_0@ == "Field \"Artist\" cannot be empty"@
                && post.venue_input == pre.venue_input
                && post.date_input == pre.date_input
                && post.act_input == pre.act_input
        })
        &&& ({
            // then without a committed venue
            (pre.current_field == GigField::Save && ev.key == Key::Enter
                && pre.artist_input.committed is Some
                && pre.venue_input.committed is None) ==> r is None
                && post.current_field == GigField::Save
                && post.venue_input.error is Some
                && post.venue_input.error->Some_0@ == "Field \"Venue\" cannot be empty"@
                && post.artist_input == pre.artist_input
                && post.date_input == pre.date_input
                && post.act_input == pre.act_input
        })
        &&& ({
            // then an empty date
            (pre.current_field == GigField::Save && ev.key == Key::Enter
                && pre.artist_input.committed is Some
                && pre.venue_input.committed is Some
                && pre.date_input.value@.len() == 0) ==> r is None
                && post.current_field == GigField::Save
                && post.date_input.error is Some
                && post.date_input.error->Some_0@ == "Field \"Date\" cannot be empty"@
                && post.artist_input == pre.artist_input
                && post.venue_input == pre.venue_input
                && post.act_input == pre.act_input
        })
        &&& ({
            // then a structurally invalid date
            (pre.current_field == GigField::Save && ev.key == Key::Enter
                && pre.artist_input.committed is Some
                && pre.venue_input.committed is Some
                && pre.date_input.value@.len() > 0
                && !valid_date_chars(pre.date_input.value@)) ==> r is None
                && post.current_field == GigField::Save
                && post.date_input.error is Some
                && post.date_input.error->Some_0@ == "Invalid Date Format"@
                && post.date_input.value == pre.date_input.value
                && post.artist_input == pre.artist_input
                && post.venue_input == pre.venue_input
                && post.act_input == pre.act_input
        })
        &&& ({
            // then a missing act role
            (pre.current_field == GigField::Save && ev.key == Key::Enter
                && pre.artist_input.committed is Some
                && pre.venue_input.committed is Some
                && pre.date_input.value@.len() > 0
                && valid_date_chars(pre.date_input.value@)
                && pre.act_input.selected is None) ==> r is None
                && post.current_field == GigField::Save
                && post.act_input.error is Some
                && post.act_input.error->Some_0@ == "Field \"Act\" cannot be empty"@
                && post.artist_input == pre.artist_input
                && post.venue_input == pre.venue_input
                && post.date_input == pre.date_input
        })
        &&& ({
            // submitting with everything filled requests exactly that gig
            (pre.current_field == GigField::Save && ev.key == Key::Enter
                && pre.artist_input.committed is Some
                && pre.venue_input.committed is Some
                && pre.date_input.value@.len() > 0
                && valid_date_chars(pre.date_input.value@)
                && pre.act_input.selected is Some) ==> post == pre
                && r is Some
                && r->Some_0.artist_id == pre.artist_input.values@[pre.artist_input.committed->Some_0 as int].artist_id
                && r->Some_0.venue_id == pre.venue_input.values@[pre.venue_input.committed->Some_0 as int].venue_id
                && r->Some_0.date.year == date_year_val(pre.date_input.value@)
                && r->Some_0.date.month == month_from_code(
                    date_month_val(pre.date_input.value@),
                )
                && r->Some_0.date.date == date_day_val(pre.date_input.value@)
                && r->Some_0.act == pre.act_input.selected->Some_0
                && r->Some_0.artist_name is None
                && r->Some_0.venue_name is None
        })
        &&& ({
            // other keys on the submit button do nothing
            (pre.current_field == GigField::Save && !form_chord(ev) && ev.key != Key::Enter
                && ev.key != Key::Esc) ==> r is None && post == pre
        })
    }

    /// Interprets one key. A `Some` result is a request to persist that
    /// gig; validation failures annotate the offending field in declared
    /// order — pickers first, then the date's structural check, then the
    /// act role — and request nothing.
    pub fn handle_key(&mut self, ev: KeyEvent) -> (r: Option<Gig>)
        requires
            old(self).wf(),
        ensures
            Self::gig_step(*old(self), *final(self), ev, r),
    {
        match (ev.ctrl, ev.key) {
            (_, Key::Enter) => {
                if let GigField::Idle = self.current_field {
                    let nf = self.current_field.next();
                    self.change_focus(nf);
                    return None;
                }
            },
            (true, Key::Char(c)) => {
                if c == 'j' {
                    let nf = self.current_field.next();
                    self.change_focus(nf);
                    return None;
                }
                if c == 'k' {
                    let nf = self.current_field.prev();
                    self.change_focus(nf);
                    return None;
                }
            },
            _ => {},
        }
        match self.current_field {
            GigField::Artist => {
                if let Some(lev) = self.artist_input.handle_key(ev) {
                    match lev {
                        ListInputEvent::Escape => self.artist_input.unfocus(),
                        ListInputEvent::Select => {
                            let nf = self.current_field.next();
                            self.change_focus(nf);
                        },
                    }
                }
                None
            },
            GigField::Venue => {
                if let Some(lev) = self.venue_input.handle_key(ev) {
                    match lev {
                        ListInputEvent::Escape => self.venue_input.unfocus(),
                        ListInputEvent::Select => {
                            let nf = self.current_field.next();
                            self.change_focus(nf);
                        },
                    }
                }
                None
            },
            GigField::Date => {
                if let Some(iev) = self.date_input.handle_key(ev) {
                    match iev {
                        TextInputEvent::Escape => self.date_input.unfocus(),
                        TextInputEvent::Save => {
                            let nf = self.current_field.next();
                            self.change_focus(nf);
                        },
                    }
                }
                None
            },
            GigField::Act => {
                if let Some(aev) = self.act_input.handle_key(ev) {
                    match aev {
                        ActInputEvent::Escape => self.act_input.unfocus(),
                        ActInputEvent::Select => {
                            let nf = self.current_field.next();
                            self.change_focus(nf);
                        },
                    }
                }
                None
            },
            GigField::Save => {
                if let Some(sev) = self.save_button.handle_key(ev) {
                    match sev {
                        SaveButtonEvent::Escape => {
                            self.save_button.unfocus();
                            None
                        },
                        SaveButtonEvent::Save => {
                            let artist_id = match self.artist_input.get_value() {
                                Some(a) => a.artist_id,
                                None => {
                                    self.artist_input.set_err(
                                        "Field \"Artist\" cannot be empty".to_owned(),
                                    );
                                    return None;
                                },
                            };
                            let venue_id = match self.venue_input.get_value() {
                                Some(v) => v.venue_id,
                                None => {
                                    self.venue_input.set_err(
                                        "Field \"Venue\" cannot be empty".to_owned(),
                                    );
                                    return None;
                                },
                            };
                            let date = match self.date_input.get_value() {
                                Some(raw) => {
                                    match Date::parse(raw.as_str()) {
                                        Some(d) => d,
                                        None => {
                                            self.date_input.set_err(
                                                "Invalid Date Format".to_owned(),
                                            );
                                            return None;
                                        },
                                    }
                                },
                                None => {
                                    self.date_input.set_err(
                                        "Field \"Date\" cannot be empty".to_owned(),
                                    );
                                    return None;
                                },
                            };
                            let act = match self.act_input.get_value() {
                                Some(a) => a,
                                None => {
                                    self.act_input.set_err(
                                        "Field \"Act\" cannot be empty".to_owned(),
                                    );
                                    return None;
                                },
                            };
                            Some(Gig::new(artist_id, venue_id, date, act))
                        },
                    }
                } else {
                    None
                }
            },
            GigField::Idle => None,
        }
    }
}

} // verus!
