//! The marker that a slot of the grid carries.

use vstd::prelude::*;

verus! {

/// What a slot shows: nothing yet, or one of the two colours.
#[derive(Clone, Copy, Debug, PartialEq, Eq, Structural)]
pub enum Cell {
    Empty,
    Black,
    White,
}

} // verus!
