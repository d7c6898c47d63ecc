use vstd::prelude::*;

verus! {

/// A key, as the components tell keys apart.
#[derive(Debug, Clone, Copy, PartialEq, Eq, Structural)]
pub enum KeyCode {
    Char(char),
    Enter,
    Esc,
    Backspace,
    Up,
    Down,
    Left,
    Right,
    Other,
}

/// A key press with its modifier keys held (`0` for none).
#[derive(Debug, Clone, Copy, PartialEq, Eq, Structural)]
pub struct KeyEvent {
    pub code: KeyCode,
    pub modifiers: u8,
}

/// An input event: a key press, or anything else.
#[derive(Debug, Clone, Copy, PartialEq, Eq, Structural)]
pub enum InputEvent {
    Key(KeyEvent),
    Other,
}

/// A key press without modifiers.
pub fn no_mod(code: KeyCode) -> (r: KeyEvent)
    ensures
        r == (KeyEvent { code, modifiers: 0 }),
{
    KeyEvent { code, modifiers: 0 }
}

/// Whether `e` is the bare key `code`.
pub open spec fn is_key(e: KeyEvent, code: KeyCode) -> bool {
    e.code == code && e.modifiers == 0
}

} // verus!
