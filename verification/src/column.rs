//! One column of the grid: three slots and at most one selected row.

use vstd::prelude::*;
use crate::cell::Cell;

verus! {

/// The number of rows in a column.
pub const ROWS: usize = 3;

/// The row that stands for `row` in a column: `row` itself where the column
/// has it, else the last row.
pub open spec fn clamp_row(row: nat) -> nat {
    if row < ROWS {
        row
    } else {
        (ROWS - 1) as nat
    }
}

/// A selection as the model holds it.
pub open spec fn row_view(row: Option<usize>) -> Option<nat> {
    match row {
        Some(r) => Some(r as nat),
        None => None,
    }
}

/// The mathematical model of a column.
#[verifier::ext_equal]
pub struct ColumnView {
    /// The markers of the slots, from the top row down.
    pub cells: Seq<Cell>,
    /// The selected row, if the column has one.
    pub selected: Option<nat>,
}

impl ColumnView {
    /// A column has `ROWS` slots, and a selected row is one of them.
    pub open spec fn wf(self) -> bool {
        &&& self.cells.len() == ROWS
        &&& (self.selected matches Some(r) ==> r < ROWS)
    }

    /// The column with the given slots and nothing selected.
    pub open spec fn unselected(cells: Seq<Cell>) -> ColumnView {
        ColumnView { cells, selected: None }
    }

    /// One row further down, stopping at the last row. A column without a
    /// selection takes `fallback`.
    pub open spec fn move_down(self, fallback: nat) -> ColumnView {
        let target = match self.selected {
            Some(r) => r + 1,
            None => fallback,
        };
        ColumnView { selected: Some(clamp_row(target)), ..self }
    }

    /// One row further up, stopping at the first row. A column without a
    /// selection takes `fallback`.
    pub open spec fn move_up(self, fallback: nat) -> ColumnView {
        let target = match self.selected {
            Some(r) => if r > 0 { (r - 1) as nat } else { 0 },
            None => clamp_row(fallback),
        };
        ColumnView { selected: Some(target), ..self }
    }

    /// The same slots with nothing selected.
    pub open spec fn clear_selection(self) -> ColumnView {
        ColumnView { selected: None, ..self }
    }

    /// The selected slot takes the marker `tag`; without a selection nothing
    /// changes.
    pub open spec fn mark(self, tag: Cell) -> ColumnView {
        match self.selected {
            Some(r) => ColumnView { cells: self.cells.update(r as int, tag), ..self },
            None => self,
        }
    }
}

/// A column of three slots with an optional selected row.
#[derive(Clone, Copy, Debug, PartialEq, Eq)]
pub struct ColumnState {
    items: [Cell; 3],
    selected: Option<usize>,
}

impl View for ColumnState {
    type V = ColumnView;

    closed spec fn view(&self) -> ColumnView {
        ColumnView { cells: self.items@, selected: row_view(self.selected) }
    }
}

impl ColumnState {
    #[verifier::type_invariant]
    spec fn selection_in_range(self) -> bool {
        self.selected matches Some(r) ==> r < ROWS
    }

    /// A column that holds `items` and has no row selected.
    pub fn new(items: [Cell; 3]) -> (column: ColumnState)
        ensures
            column@ == ColumnView::unselected(items@),
            column@.wf(),
    {
        ColumnState { items, selected: None }
    }

    /// Moves the selection one row down, stopping at the last row. Where no
    /// row is selected, `row` becomes the selection.
    pub fn next(&mut self, row: usize)
        ensures
            final(self)@ == old(self)@.move_down(row as nat),
            final(self)@.wf(),
    {
        proof {
            use_type_invariant(&*self);
        }
        let target: usize = match self.selected {
            Some(i) => i + 1,
            None => row,
        };
        let i: usize = if target < ROWS { target } else { ROWS - 1 };
        self.selected = Some(i);
    }

    /// Moves the selection one row up, stopping at the first row. Where no
    /// row is selected, `row` becomes the selection.
    pub fn previous(&mut self, row: usize)
        ensures
            final(self)@ == old(self)@.move_up(row as nat),
            final(self)@.wf(),
    {
        proof {
            use_type_invariant(&*self);
        }
        let i: usize = match self.selected {
            Some(i) => if i > 0 { i - 1 } else { i },
            None => if row < ROWS { row } else { ROWS - 1 },
        };
        self.selected = Some(i);
    }

    /// The selected row, or `None` where no row is selected.
    pub fn return_selected(&self) -> (row: Option<usize>)
        ensures
            row_view(row) == self@.selected,
            self@.wf(),
    {
        proof {
            use_type_invariant(self);
        }
        self.selected
    }

    /// Drops the selection; the slots stay as they are.
    pub fn unselect(&mut self)
        ensures
            final(self)@ == old(self)@.clear_selection(),
            final(self)@.wf(),
    {
        proof {
            use_type_invariant(&*self);
        }
        self.selected = None;
    }

    /// Gives the selected slot the marker `tag`. Without a selection nothing
    /// changes.
    pub fn mark(&mut self, tag: Cell)
        ensures
            final(self)@ == old(self)@.mark(tag),
            final(self)@.wf(),
            old(self)@.selected is None ==> *final(self) == *old(self),
    {
        proof {
            use_type_invariant(&*self);
        }
        match self.selected {
            Some(r) => {
                self.items[r] = tag;
            },
            None => {},
        }
    }

    /// The markers of the three slots, from the top row down.
    pub fn items(&self) -> (items: &[Cell; 3])
        ensures
            items@ == self@.cells,
    {
        &self.items
    }
}

} // verus!
