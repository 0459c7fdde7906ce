//! The library's model of a key press. The embedding program translates
//! whatever its terminal backend reports into this enum before handing the
//! event to a state machine of the library.

use vstd::prelude::*;

verus! {

#[derive(Clone, Copy, Debug, PartialEq, Eq, Structural)]
pub enum Key {
    Up,
    Down,
    Left,
    Right,
    Enter,
    Esc,
    Tab,
    Backspace,
    PageUp,
    PageDown,
    F(u8),
    Char(char),
}

} // verus!
