//! What the keyboard sends, and what the grid makes of it.

use vstd::prelude::*;
use crate::cell::Cell;

verus! {

/// A key as it comes from the keyboard.
#[derive(Clone, Copy, Debug, PartialEq, Eq, Structural)]
pub enum Key {
    Up,
    Down,
    Left,
    Right,
    /// A character key.
    Char(char),
    /// Any other key.
    Other,
}

/// What a key asks of the grid.
#[derive(Clone, Copy, Debug, PartialEq, Eq, Structural)]
pub enum Input {
    Up,
    Down,
    Left,
    Right,
    /// Give the selected slot this marker.
    Toggle(Cell),
    /// Leave the input loop.
    Quit,
    /// A key that is bound to nothing.
    Ignored,
}

/// What the input loop does after an input has been handled.
#[derive(Clone, Copy, Debug, PartialEq, Eq, Structural)]
pub enum Flow {
    /// Draw the grid and wait for the next key.
    Continue,
    /// Stop.
    Quit,
}

/// The key that marks the selected slot white.
pub const KEY_WHITE: char = 'w';

/// The key that marks the selected slot black.
pub const KEY_BLACK: char = 'b';

/// The key that ends the input loop.
pub const KEY_QUIT: char = 'q';

/// The key bindings: the four arrows move, `w` and `b` mark the selected
/// slot, `q` quits, and every other key is bound to nothing.
pub open spec fn binding(key: Key) -> Input {
    match key {
        Key::Up => Input::Up,
        Key::Down => Input::Down,
        Key::Left => Input::Left,
        Key::Right => Input::Right,
        Key::Char(c) => if c == KEY_QUIT {
            Input::Quit
        } else if c == KEY_WHITE {
            Input::Toggle(Cell::White)
        } else if c == KEY_BLACK {
            Input::Toggle(Cell::Black)
        } else {
            Input::Ignored
        },
        Key::Other => Input::Ignored,
    }
}

/// Looks `key` up in the key bindings.
pub fn decode(key: Key) -> (input: Input)
    ensures
        input == binding(key),
{
    match key {
        Key::Up => Input::Up,
        Key::Down => Input::Down,
        Key::Left => Input::Left,
        Key::Right => Input::Right,
        Key::Char(c) => {
            if c == KEY_QUIT {
                Input::Quit
            } else if c == KEY_WHITE {
                Input::Toggle(Cell::White)
            } else if c == KEY_BLACK {
                Input::Toggle(Cell::Black)
            } else {
                Input::Ignored
            }
        },
        Key::Other => Input::Ignored,
    }
}

} // verus!
