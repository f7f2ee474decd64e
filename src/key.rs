//! Keyboard input as the views see it.
use vstd::prelude::*;

verus! {

/// The key codes that views react to; every other key is `Other`.
#[derive(Clone, Copy, Debug, PartialEq, Eq, Structural)]
pub enum KeyCode {
    Up,
    Down,
    Left,
    Right,
    Enter,
    Esc,
    Tab,
    Backspace,
    Delete,
    Char(char),
    Other,
}

/// A key press, with the modifier bit that selects the "precise" variant of
/// a key (shift).
#[derive(Clone, Copy, Debug, PartialEq, Eq, Structural)]
pub struct Key {
    pub code: KeyCode,
    pub precise: bool,
}

impl Key {
    /// A key press without modifier.
    pub fn plain(code: KeyCode) -> (r: Key)
        ensures
            r.code == code,
            !r.precise,
    {
        Key { code, precise: false }
    }

    /// A key press with the precise modifier held.
    pub fn precise(code: KeyCode) -> (r: Key)
        ensures
            r.code == code,
            r.precise,
    {
        Key { code, precise: true }
    }
}

} // verus!
