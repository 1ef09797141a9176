use vstd::prelude::*;

use crate::events::{Key, KeyEvent};
use crate::text::string_from_chars;

verus! {

/// What a text field reports back to its owning form.
#[derive(Clone, Copy, Debug, PartialEq, Eq, Structural)]
pub enum TextInputEvent {
    Escape,
    Save,
}

/// A single-line text field: characters append, backspace removes the last
/// one, Enter emits `Save` and Escape emits `Escape`. Control-modified
/// characters are left alone so the owning form's chords pass through.
#[derive(Clone, Debug)]
pub struct TextInput {
    pub title: String,
    pub value: Vec<char>,
    pub error: Option<String>,
    pub focused: bool,
}

impl TextInput {
    /// An empty, unfocused field.
    pub fn new(title: &str) -> (r: Self)
        ensures
            r.title@ == title@,
            r.value@ == Seq::<char>::empty(),
            r.error is None,
            !r.focused,
    {
        Self { title: title.to_owned(), value: Vec::new(), error: None, focused: false }
    }

    /// Attaches a validation or persistence error to this field.
    pub fn set_err(&mut self, err: String)
        ensures
            final(self).error == Some(err),
            final(self).title == old(self).title,
            final(self).value == old(self).value,
            final(self).focused == old(self).focused,
    {
        self.error = Some(err);
    }

    /// The entered text; `None` for an empty buffer, which is how a form
    /// detects a required field left unfilled.
    pub fn get_value(&self) -> (r: Option<String>)
        ensures
            r is Some <==> self.value@.len() > 0,
            r is Some ==> r->Some_0@ == self.value@,
    {
        if self.value.len() == 0 {
            None
        } else {
            Some(string_from_chars(&self.value))
        }
    }

    /// Focus only changes styling; the buffer is untouched.
    pub fn focus(&mut self)
        ensures
            final(self).focused,
            final(self).title == old(self).title,
            final(self).value == old(self).value,
            final(self).error == old(self).error,
    {
        self.focused = true;
    }

    /// Unfocus only changes styling; the buffer is untouched.
    pub fn unfocus(&mut self)
        ensures
            !final(self).focused,
            final(self).title == old(self).title,
            final(self).value == old(self).value,
            final(self).error == old(self).error,
    {
        self.focused = false;
    }

    /// Interprets one key: editing mutates only the buffer, Enter and
    /// Escape emit events without touching it.
    pub fn handle_key(&mut self, ev: KeyEvent) -> (r: Option<TextInputEvent>)
        ensures
            final(self).title == old(self).title,
            final(self).error == old(self).error,
            final(self).focused == old(self).focused,
            match ev.key {
                Key::Esc => final(self).value == old(self).value && r == Some(
                    TextInputEvent::Escape,
                ),
                Key::Enter => final(self).value == old(self).value && r == Some(
                    TextInputEvent::Save,
                ),
                Key::Backspace => r is None && final(self).value@ == (if old(self).value@.len()
                    == 0 {
                    old(self).value@
                } else {
                    old(self).value@.drop_last()
                }),
                Key::Char(c) => r is None && (if ev.ctrl {
                    final(self).value == old(self).value
                } else {
                    final(self).value@ == old(self).value@.push(c)
                }),
                Key::Other => r is None && final(self).value == old(self).value,
            },
    {
        match ev.key {
            Key::Esc => Some(TextInputEvent::Escape),
            Key::Enter => Some(TextInputEvent::Save),
            Key::Backspace => {
                if self.value.len() > 0 {
                    self.value.pop();
                }
                None
            },
            Key::Char(c) => {
                if !ev.ctrl {
                    self.value.push(c);
                }
                None
            },
            Key::Other => None,
        }
    }
}

} // verus!
