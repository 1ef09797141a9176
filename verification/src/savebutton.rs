use vstd::prelude::*;

use crate::events::{Key, KeyEvent};

verus! {

/// What the submit button reports back to its owning form.
#[derive(Clone, Copy, Debug, PartialEq, Eq, Structural)]
pub enum SaveButtonEvent {
    Escape,
    Save,
}

/// The submit button: a stateless pass-through that emits `Save` on Enter
/// and `Escape` on Escape, carrying only an optional error annotation.
#[derive(Clone, Debug)]
pub struct SaveButton {
    pub focused: bool,
    pub error: Option<String>,
}

impl SaveButton {
    /// An unfocused button without an error.
    pub fn new() -> (r: Self)
        ensures
            !r.focused,
            r.error is None,
    {
        Self { focused: false, error: None }
    }

    /// Attaches a persistence error to the button.
    pub fn set_err(&mut self, err: String)
        ensures
            final(self).error == Some(err),
            final(self).focused == old(self).focused,
    {
        self.error = Some(err);
    }

    pub fn focus(&mut self)
        ensures
            final(self).focused,
            final(self).error == old(self).error,
    {
        self.focused = true;
    }

    pub fn unfocus(&mut self)
        ensures
            !final(self).focused,
            final(self).error == old(self).error,
    {
        self.focused = false;
    }

    /// Interprets one key; the button itself never changes.
    pub fn handle_key(&mut self, ev: KeyEvent) -> (r: Option<SaveButtonEvent>)
        ensures
            *final(self) == *old(self),
            r == match ev.key {
                Key::Esc => Some(SaveButtonEvent::Escape),
                Key::Enter => Some(SaveButtonEvent::Save),
                _ => None::<SaveButtonEvent>,
            },
    {
        match ev.key {
            Key::Esc => Some(SaveButtonEvent::Escape),
            Key::Enter => Some(SaveButtonEvent::Save),
            _ => None,
        }
    }
}

} // verus!
