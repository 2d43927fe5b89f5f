//! A three-by-three grid of slots that is walked with the arrow keys.
//!
//! The grid is three columns of three slots. One column is active; it alone
//! can have a selected row, and that slot is the one shown highlighted. `Up`
//! and `Down` move the selection inside the active column, `Left` and `Right`
//! hand it to the neighbouring column at the same row, and a marker key gives
//! the selected slot a colour. All moves stop at the edge of the grid.
//!
//! - [`cell`]: the marker of a slot.
//! - [`column`]: one column and its optional selected row.
//! - [`input`]: keys, the inputs they are bound to, and what the input loop
//!   does next.
//! - [`grid`]: the three columns together, and the step that one input makes.
//! - [`laws`]: what holds of the grid whatever keys are pressed.
//! - [`legend`]: the fixed text of the command panel.
//!
//! Every type comes with a mathematical model, reached with `@`, and every
//! function says in its contract what it does to that model.

pub mod cell;
pub mod column;
pub mod input;
pub mod grid;
pub mod laws;
pub mod legend;
