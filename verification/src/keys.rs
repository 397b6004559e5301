//! Key presses and the logical actions they are bound to.

use vstd::prelude::*;

verus! {

/// A key press, reduced to what the state machine reads of it: the named
/// keys it is bound to, any other character key, and everything else.
#[derive(PartialEq, Eq, Clone, Copy, Debug)]
pub enum Key {
    Enter,
    Up,
    Down,
    Esc,
    Backspace,
    Char(char),
    Other,
}

/// The logical input actions. Each is bound to one or more keys; every
/// key outside those bindings is ignored.
#[derive(PartialEq, Eq, Clone, Copy, Debug)]
pub enum KeyAction {
    Confirm,
    MoveNext,
    MovePrevious,
    Cancel,
    Quit,
    Ignored,
}

/// The binding table: Confirm on Enter, MoveNext on Down, MovePrevious on
/// Up, Cancel on either Escape or Backspace, Quit on the character 'q';
/// every other key is ignored.
pub open spec fn action_of(key: Key) -> KeyAction {
    match key {
        Key::Enter => KeyAction::Confirm,
        Key::Down => KeyAction::MoveNext,
        Key::Up => KeyAction::MovePrevious,
        Key::Esc => KeyAction::Cancel,
        Key::Backspace => KeyAction::Cancel,
        Key::Char(c) => if c == 'q' {
            KeyAction::Quit
        } else {
            KeyAction::Ignored
        },
        Key::Other => KeyAction::Ignored,
    }
}

/// Decode one key press into the logical action it is bound to.
pub fn decode_key(key: Key) -> (r: KeyAction)
    ensures
        r == action_of(key),
{
    match key {
        Key::Enter => KeyAction::Confirm,
        Key::Down => KeyAction::MoveNext,
        Key::Up => KeyAction::MovePrevious,
        Key::Esc => KeyAction::Cancel,
        Key::Backspace => KeyAction::Cancel,
        Key::Char(c) => {
            if c == 'q' {
                KeyAction::Quit
            } else {
                KeyAction::Ignored
            }
        },
        Key::Other => KeyAction::Ignored,
    }
}

} // verus!
