//! The keys that the application reacts to.

use vstd::prelude::*;

verus! {

/// A key press, reduced to its key code.
///
/// Letters carry their case: `Char('g')` and `Char('G')` are different keys.
/// Modifier keys are not part of it.
#[derive(Debug, Clone, Copy, PartialEq, Eq, Structural)]
pub enum Key {
    /// A printable character.
    Char(char),
    Enter,
    Esc,
    Up,
    Down,
    Left,
    Right,
    Backspace,
    /// Any key that the application has no use for.
    Other,
}

} // verus!
