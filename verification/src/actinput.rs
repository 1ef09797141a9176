use vstd::prelude::*;

use crate::act::Act;
use crate::events::{Key, KeyEvent};

verus! {

/// What the act-role selector reports back to its owning form.
#[derive(Clone, Copy, Debug, PartialEq, Eq, Structural)]
pub enum ActInputEvent {
    Escape,
    Select,
}

/// The act-role picker: a tab selector cycling through the closed set of
/// roles with saturating bounds, committing the highlighted role on Enter.
#[derive(Clone, Debug)]
pub struct ActInput {
    pub focused: bool,
    pub selected: Option<Act>,
    pub error: Option<String>,
    pub current_tab: Act,
}

impl ActInput {
    /// An unfocused picker with nothing committed and the first role
    /// highlighted.
    pub fn new() -> (r: Self)
        ensures
            !r.focused,
            r.selected is None,
            r.error is None,
            r.current_tab == Act::Main,
    {
        Self { focused: false, selected: None, error: None, current_tab: Act::Main }
    }

    pub fn focus(&mut self)
        ensures
            final(self).focused,
            final(self).selected == old(self).selected,
            final(self).error == old(self).error,
            final(self).current_tab == old(self).current_tab,
    {
        self.focused = true;
    }

    pub fn unfocus(&mut self)
        ensures
            !final(self).focused,
            final(self).selected == old(self).selected,
            final(self).error == old(self).error,
            final(self).current_tab == old(self).current_tab,
    {
        self.focused = false;
    }

    /// The committed role, if any.
    pub fn get_value(&self) -> (r: Option<Act>)
        ensures
            r == self.selected,
    {
        self.selected
    }

    /// Attaches a validation error to the picker.
    pub fn set_err(&mut self, err: String)
        ensures
            final(self).error == Some(err),
            final(self).focused == old(self).focused,
            final(self).selected == old(self).selected,
            final(self).current_tab == old(self).current_tab,
    {
        self.error = Some(err);
    }

    /// Interprets one key: `j`/`k` move the highlight with saturating
    /// bounds, Enter commits the highlighted role.
    pub fn handle_key(&mut self, ev: KeyEvent) -> (r: Option<ActInputEvent>)
        ensures
            final(self).focused == old(self).focused,
            final(self).error == old(self).error,
            match ev.key {
                Key::Esc => *final(self) == *old(self) && r == Some(ActInputEvent::Escape),
                Key::Enter => final(self).selected == Some(old(self).current_tab)
                    && final(self).current_tab == old(self).current_tab
                    && r == Some(ActInputEvent::Select),
                Key::Char(c) => r is None && final(self).selected == old(self).selected
                    && final(self).current_tab == (if c == 'j' {
                    match old(self).current_tab {
                        Act::Main => Act::Support,
                        Act::Support => Act::Shared,
                        Act::Shared => Act::Shared,
                    }
                } else if c == 'k' {
                    match old(self).current_tab {
                        Act::Main => Act::Main,
                        Act::Support => Act::Main,
                        Act::Shared => Act::Support,
                    }
                } else {
                    old(self).current_tab
                }),
                _ => *final(self) == *old(self) && r is None,
            },
    {
        match ev.key {
            Key::Esc => Some(ActInputEvent::Escape),
            Key::Enter => {
                self.selected = Some(self.current_tab);
                Some(ActInputEvent::Select)
            },
            Key::Char(c) => {
                if c == 'j' {
                    self.current_tab = self.current_tab.next();
                } else if c == 'k' {
                    self.current_tab = self.current_tab.prev();
                }
                None
            },
            _ => None,
        }
    }
}

} // verus!
