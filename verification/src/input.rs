//! The decoded representation of a keyboard event.
//!
//! A keystroke arrives either as a printable character or as a named control
//! key. Only the arrow keys and the characters 'w' and 's' mean anything to
//! the game; every other event is accepted and ignored.

use vstd::prelude::*;

verus! {

/// A named control key. Arrow up and arrow down steer the right paddle;
/// every other control key is carried as `Other` and ignored by the game.
#[derive(Clone, Copy, Debug, PartialEq, Eq)]
pub enum NamedKey {
    Up,
    Down,
    Other,
}

/// A decoded keyboard event: a unicode character or a named control key.
#[derive(Clone, Copy, Debug, PartialEq, Eq)]
pub enum InputEvent {
    Character(char),
    Named(NamedKey),
}

} // verus!
