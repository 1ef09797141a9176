use vstd::prelude::*;

verus! {

/// The keys the user interface reacts to, already decoded from the
/// terminal's event stream.
#[derive(Clone, Copy, Debug, PartialEq, Eq, Structural)]
pub enum Key {
    Char(char),
    Enter,
    Esc,
    Backspace,
    Other,
}

/// One keyboard event: a key together with whether Control was held.
#[derive(Clone, Copy, Debug, PartialEq, Eq, Structural)]
pub struct KeyEvent {
    pub key: Key,
    pub ctrl: bool,
}

impl KeyEvent {
    /// A plain key press without Control.
    pub fn plain(key: Key) -> (r: KeyEvent)
        ensures
            r.key == key,
            !r.ctrl,
    {
        KeyEvent { key, ctrl: false }
    }

    /// A key press with Control held.
    pub fn with_ctrl(key: Key) -> (r: KeyEvent)
        ensures
            r.key == key,
            r.ctrl,
    {
        KeyEvent { key, ctrl: true }
    }
}

} // verus!
