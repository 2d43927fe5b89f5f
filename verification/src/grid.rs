//! The grid: three columns, of which one is active, and the row that the
//! selection keeps when it changes column.

use vstd::prelude::*;
use crate::cell::Cell;
use crate::column::{ColumnState, ColumnView, ROWS, row_view};
use crate::input::{Flow, Input, Key, binding, decode};

verus! {

/// The number of columns in the grid.
pub const COLUMNS: usize = 3;

/// The mathematical model of the grid.
#[verifier::ext_equal]
pub struct GridView {
    /// The columns, from left to right.
    pub columns: Seq<ColumnView>,
    /// The index of the active column.
    pub active: nat,
    /// The row that was selected last.
    pub remembered: nat,
}

impl GridView {
    /// The grid at startup: every slot empty, nothing selected, the
    /// leftmost column active.
    pub open spec fn initial() -> GridView {
        GridView {
            columns: Seq::new(
                COLUMNS as nat,
                |i: int| ColumnView::unselected(Seq::new(ROWS as nat, |r: int| Cell::Empty)),
            ),
            active: 0,
            remembered: 0,
        }
    }

    /// The active column.
    pub open spec fn current(self) -> ColumnView {
        self.columns[self.active as int]
    }

    /// The row selected in the active column, if any.
    pub open spec fn selection(self) -> Option<nat> {
        self.current().selected
    }

    /// Whether the active column has a selected row.
    pub open spec fn focused(self) -> bool {
        self.selection() is Some
    }

    /// The slot that is shown highlighted: the selected row of the active
    /// column, as a pair of column and row.
    pub open spec fn focus(self) -> Option<(nat, nat)> {
        match self.selection() {
            Some(row) => Some((self.active, row)),
            None => None,
        }
    }

    /// The columns that have a selected row.
    pub open spec fn selecting(self) -> Set<int> {
        Set::new(|i: int| 0 <= i < self.columns.len() && self.columns[i].selected is Some)
    }

    /// What holds of every grid that the inputs can reach: the shape is
    /// three by three, only the active column can have a selection, that
    /// selection is the remembered row, and a grid without a selection is
    /// still the grid at startup.
    pub open spec fn valid(self) -> bool {
        &&& self.columns.len() == COLUMNS
        &&& forall|i: int| 0 <= i < COLUMNS ==> (#[trigger] self.columns[i]).wf()
        &&& self.active < COLUMNS
        &&& self.remembered < ROWS
        &&& forall|i: int|
            0 <= i < COLUMNS && i != self.active ==> (#[trigger] self.columns[i]).selected is None
        &&& (self.selection() == Some(self.remembered) || self == GridView::initial())
    }

    /// The grid with `column` in place of the active column.
    pub open spec fn with_current(self, column: ColumnView) -> GridView {
        GridView { columns: self.columns.update(self.active as int, column), ..self }
    }

    /// The selection moves one row down in the active column, and the row it
    /// reaches is remembered.
    pub open spec fn down(self) -> GridView {
        let column = self.current().move_down(self.remembered);
        GridView { remembered: column.selected.unwrap(), ..self.with_current(column) }
    }

    /// The selection moves one row up in the active column, and the row it
    /// reaches is remembered.
    pub open spec fn up(self) -> GridView {
        let column = self.current().move_up(self.remembered);
        GridView { remembered: column.selected.unwrap(), ..self.with_current(column) }
    }

    /// The active column gives up its selection, `target` becomes the active
    /// column and selects the remembered row.
    pub open spec fn switch_to(self, target: nat) -> GridView {
        let left_behind = GridView {
            active: target,
            ..self.with_current(self.current().clear_selection())
        };
        left_behind.with_current(left_behind.current().move_down(self.remembered))
    }

    /// The selection moves one column to the right; at the rightmost column
    /// nothing changes.
    pub open spec fn right(self) -> GridView {
        if self.active + 1 < COLUMNS {
            self.switch_to(self.active + 1)
        } else {
            self
        }
    }

    /// The selection moves one column to the left; at the leftmost column
    /// nothing changes.
    pub open spec fn left(self) -> GridView {
        if self.active > 0 {
            self.switch_to((self.active - 1) as nat)
        } else {
            self
        }
    }

    /// The selected slot of the active column takes the marker `tag`;
    /// without a selection nothing changes.
    pub open spec fn toggle(self, tag: Cell) -> GridView {
        self.with_current(self.current().mark(tag))
    }

    /// The grid after one input.
    pub open spec fn step(self, input: Input) -> GridView {
        match input {
            Input::Up => self.up(),
            Input::Down => self.down(),
            Input::Left => self.left(),
            Input::Right => self.right(),
            Input::Toggle(tag) => self.toggle(tag),
            Input::Quit => self,
            Input::Ignored => self,
        }
    }

    /// The grid after each of the inputs `inputs` has been handled, the first
    /// one first.
    pub open spec fn run(self, inputs: Seq<Input>) -> GridView
        decreases inputs.len(),
    {
        if inputs.len() == 0 {
            self
        } else {
            self.run(inputs.drop_last()).step(inputs.last())
        }
    }

    /// Putting the active column back in its place changes nothing.
    pub proof fn lemma_with_current_same(self)
        requires
            self.valid(),
        ensures
            self.with_current(self.current()) == self,
    {
        assert(self.columns.update(self.active as int, self.current()) =~= self.columns);
    }

    /// No input leads out of the valid grids.
    pub proof fn lemma_step_valid(self, input: Input)
        requires
            self.valid(),
        ensures
            self.step(input).valid(),
    {
        if input is Toggle && !self.focused() {
            self.lemma_with_current_same();
        }
    }
}

/// The views of three columns, from left to right.
pub open spec fn column_views(columns: [ColumnState; 3]) -> Seq<ColumnView> {
    Seq::new(COLUMNS as nat, |i: int| columns[i]@)
}

/// Gives the selected slot of every column the marker `tag`. A column
/// without a selection stays as it is.
pub fn toggle(cols: &mut [ColumnState; 3], tag: Cell)
    ensures
        forall|i: int|
            0 <= i < COLUMNS ==> (#[trigger] final(cols)[i])@ == old(cols)[i]@.mark(tag),
        forall|i: int|
            0 <= i < COLUMNS && old(cols)[i]@.selected is None ==> #[trigger] final(cols)[i]
                == old(cols)[i],
{
    let mut i: usize = 0;
    while i < COLUMNS
        invariant
            i <= COLUMNS,
            forall|j: int| 0 <= j < i ==> (#[trigger] cols[j])@ == old(cols)[j]@.mark(tag),
            forall|j: int|
                0 <= j < i && old(cols)[j]@.selected is None ==> #[trigger] cols[j] == old(cols)[j],
            forall|j: int| i <= j < COLUMNS ==> cols[j] == old(cols)[j],
        decreases COLUMNS - i,
    {
        cols[i].mark(tag);
        i += 1;
    }
}

/// Marks the selected slot of every column white.
pub fn toggle_white(cols: &mut [ColumnState; 3])
    ensures
        forall|i: int|
            0 <= i < COLUMNS ==> (#[trigger] final(cols)[i])@ == old(cols)[i]@.mark(Cell::White),
        forall|i: int|
            0 <= i < COLUMNS && old(cols)[i]@.selected is None ==> #[trigger] final(cols)[i]
                == old(cols)[i],
{
    toggle(cols, Cell::White);
}

/// Marks the selected slot of every column black.
pub fn toggle_black(cols: &mut [ColumnState; 3])
    ensures
        forall|i: int|
            0 <= i < COLUMNS ==> (#[trigger] final(cols)[i])@ == old(cols)[i]@.mark(Cell::Black),
        forall|i: int|
            0 <= i < COLUMNS && old(cols)[i]@.selected is None ==> #[trigger] final(cols)[i]
                == old(cols)[i],
{
    toggle(cols, Cell::Black);
}

/// The grid of slots, with the column that the keys act on.
#[derive(Clone, Copy, Debug, PartialEq, Eq)]
pub struct Grid {
    columns: [ColumnState; 3],
    active_column: usize,
    remembered_row: usize,
}

impl View for Grid {
    type V = GridView;

    closed spec fn view(&self) -> GridView {
        GridView {
            columns: column_views(self.columns),
            active: self.active_column as nat,
            remembered: self.remembered_row as nat,
        }
    }
}

impl Grid {
    #[verifier::type_invariant]
    spec fn reachable(self) -> bool {
        self@.valid()
    }

    /// The grid at startup.
    pub fn new() -> (grid: Grid)
        ensures
            grid@ == GridView::initial(),
            grid@.valid(),
    {
        let blank = ColumnState::new([Cell::Empty; 3]);
        let columns = [blank; 3];
        proof {
            let start = GridView { columns: column_views(columns), active: 0, remembered: 0 };
            assert(start =~~= GridView::initial());
        }
        Grid { columns, active_column: 0, remembered_row: 0 }
    }

    /// The index of the active column.
    pub fn active_column(&self) -> (index: usize)
        ensures
            index == self@.active,
            index < COLUMNS,
    {
        proof {
            use_type_invariant(self);
        }
        self.active_column
    }

    /// The row that was selected last, which a change of column carries
    /// over.
    pub fn remembered_row(&self) -> (row: usize)
        ensures
            row == self@.remembered,
            row < ROWS,
    {
        proof {
            use_type_invariant(self);
        }
        self.remembered_row
    }

    /// The row selected in the active column, or `None` before the first
    /// selection.
    pub fn selected_row(&self) -> (row: Option<usize>)
        ensures
            row_view(row) == self@.selection(),
            self@.valid(),
    {
        proof {
            use_type_invariant(self);
        }
        self.columns[self.active_column].return_selected()
    }

    /// The highlighted slot as a pair of column and row, or `None` before
    /// the first selection.
    pub fn focus(&self) -> (slot: Option<(usize, usize)>)
        ensures
            match slot {
                Some((column, row)) => self@.focus() == Some((column as nat, row as nat)),
                None => self@.focus() is None,
            },
            self@.valid(),
    {
        proof {
            use_type_invariant(self);
        }
        match self.columns[self.active_column].return_selected() {
            Some(row) => Some((self.active_column, row)),
            None => None,
        }
    }

    /// The three columns, from left to right.
    pub fn columns(&self) -> (columns: &[ColumnState; 3])
        ensures
            column_views(*columns) == self@.columns,
            forall|i: int| 0 <= i < COLUMNS ==> (#[trigger] columns[i])@ == self@.columns[i],
            self@.valid(),
    {
        proof {
            use_type_invariant(self);
        }
        &self.columns
    }

    /// Moves the selection one row down in the active column and remembers
    /// the row it reaches.
    pub fn down(&mut self)
        ensures
            final(self)@ == old(self)@.down(),
            final(self)@.valid(),
    {
        proof {
            use_type_invariant(&*self);
        }
        let mut columns = self.columns;
        columns[self.active_column].next(self.remembered_row);
        let row = columns[self.active_column].return_selected().unwrap();
        proof {
            let next = GridView {
                columns: column_views(columns),
                active: self.active_column as nat,
                remembered: row as nat,
            };
            assert(next =~~= self@.down());
            self@.lemma_step_valid(Input::Down);
        }
        *self = Grid { columns, active_column: self.active_column, remembered_row: row };
    }

    /// Moves the selection one row up in the active column and remembers the
    /// row it reaches.
    pub fn up(&mut self)
        ensures
            final(self)@ == old(self)@.up(),
            final(self)@.valid(),
    {
        proof {
            use_type_invariant(&*self);
        }
        let mut columns = self.columns;
        columns[self.active_column].previous(self.remembered_row);
        let row = columns[self.active_column].return_selected().unwrap();
        proof {
            let next = GridView {
                columns: column_views(columns),
                active: self.active_column as nat,
                remembered: row as nat,
            };
            assert(next =~~= self@.up());
            self@.lemma_step_valid(Input::Up);
        }
        *self = Grid { columns, active_column: self.active_column, remembered_row: row };
    }

    /// Moves the selection one column to the right, to the remembered row.
    /// At the rightmost column nothing changes.
    pub fn right(&mut self)
        ensures
            final(self)@ == old(self)@.right(),
            final(self)@.valid(),
            old(self)@.active + 1 == COLUMNS ==> *final(self) == *old(self),
    {
        proof {
            use_type_invariant(&*self);
        }
        if self.active_column < COLUMNS - 1 {
            let target: usize = self.active_column + 1;
            let mut columns = self.columns;
            columns[self.active_column].unselect();
            columns[target].next(self.remembered_row);
            proof {
                let next = GridView {
                    columns: column_views(columns),
                    active: target as nat,
                    remembered: self.remembered_row as nat,
                };
                assert(next =~~= self@.right());
                self@.lemma_step_valid(Input::Right);
            }
            *self = Grid { columns, active_column: target, remembered_row: self.remembered_row };
        }
    }

    /// Moves the selection one column to the left, to the remembered row.
    /// At the leftmost column nothing changes.
    pub fn left(&mut self)
        ensures
            final(self)@ == old(self)@.left(),
            final(self)@.valid(),
            old(self)@.active == 0 ==> *final(self) == *old(self),
    {
        proof {
            use_type_invariant(&*self);
        }
        if self.active_column > 0 {
            let target: usize = self.active_column - 1;
            let mut columns = self.columns;
            columns[self.active_column].unselect();
            columns[target].next(self.remembered_row);
            proof {
                let next = GridView {
                    columns: column_views(columns),
                    active: target as nat,
                    remembered: self.remembered_row as nat,
                };
                assert(next =~~= self@.left());
                self@.lemma_step_valid(Input::Left);
            }
            *self = Grid { columns, active_column: target, remembered_row: self.remembered_row };
        }
    }

    /// Gives the selected slot the marker `tag`. Before the first selection
    /// nothing changes.
    pub fn toggle(&mut self, tag: Cell)
        ensures
            final(self)@ == old(self)@.toggle(tag),
            final(self)@.valid(),
            !old(self)@.focused() ==> *final(self) == *old(self),
    {
        proof {
            use_type_invariant(&*self);
        }
        let mut columns = self.columns;
        self::toggle(&mut columns, tag);
        proof {
            let next = GridView {
                columns: column_views(columns),
                active: self.active_column as nat,
                remembered: self.remembered_row as nat,
            };
            assert(next =~~= self@.toggle(tag));
            self@.lemma_step_valid(Input::Toggle(tag));
            if !self@.focused() {
                assert forall|i: int| 0 <= i < COLUMNS implies columns[i] == self.columns[i] by {
                    assert(self@.columns[i].selected is None);
                }
                assert(columns =~= self.columns);
            }
        }
        *self = Grid {
            columns,
            active_column: self.active_column,
            remembered_row: self.remembered_row,
        };
    }

    /// Applies one input to the grid and says whether the input loop goes
    /// on.
    pub fn handle(&mut self, input: Input) -> (flow: Flow)
        ensures
            final(self)@ == old(self)@.step(input),
            final(self)@.valid(),
            flow == (if input == Input::Quit { Flow::Quit } else { Flow::Continue }),
            input == Input::Quit || input == Input::Ignored ==> *final(self) == *old(self),
    {
        proof {
            use_type_invariant(&*self);
        }
        match input {
            Input::Up => {
                self.up();
                Flow::Continue
            },
            Input::Down => {
                self.down();
                Flow::Continue
            },
            Input::Left => {
                self.left();
                Flow::Continue
            },
            Input::Right => {
                self.right();
                Flow::Continue
            },
            Input::Toggle(tag) => {
                self.toggle(tag);
                Flow::Continue
            },
            Input::Quit => Flow::Quit,
            Input::Ignored => Flow::Continue,
        }
    }

    /// Applies the input that `key` is bound to.
    pub fn press(&mut self, key: Key) -> (flow: Flow)
        ensures
            final(self)@ == old(self)@.step(binding(key)),
            final(self)@.valid(),
            flow == (if binding(key) == Input::Quit { Flow::Quit } else { Flow::Continue }),
    {
        self.handle(decode(key))
    }
}

} // verus!
