//! What holds of the grid whatever keys are pressed.

use vstd::prelude::*;
use crate::cell::Cell;
use crate::column::{ColumnView, ROWS, clamp_row};
use crate::grid::{COLUMNS, GridView};
use crate::input::Input;

verus! {

/// The same input `n` times over.
pub open spec fn presses(input: Input, n: nat) -> Seq<Input> {
    Seq::new(n, |i: int| input)
}

/// Whether `input` leaves the selected row where it is: every input but
/// `Up` and `Down`.
pub open spec fn keeps_row(input: Input) -> bool {
    input != Input::Up && input != Input::Down
}

/// Dropping the selection twice is the same as dropping it once.
pub proof fn law_clear_selection_idempotent(column: ColumnView)
    ensures
        column.clear_selection().clear_selection() == column.clear_selection(),
        column.clear_selection().selected is None,
        column.clear_selection().cells == column.cells,
{
}

/// Running one more press of `input` is a step after the shorter run.
pub proof fn lemma_run_presses(g: GridView, input: Input, n: nat)
    requires
        n > 0,
    ensures
        g.run(presses(input, n)) == g.run(presses(input, (n - 1) as nat)).step(input),
{
    assert(presses(input, n).drop_last() =~= presses(input, (n - 1) as nat));
}

/// Every grid that a sequence of inputs reaches from a valid grid is valid.
pub proof fn law_run_valid(g: GridView, inputs: Seq<Input>)
    requires
        g.valid(),
    ensures
        g.run(inputs).valid(),
    decreases inputs.len(),
{
    if inputs.len() > 0 {
        law_run_valid(g, inputs.drop_last());
        g.run(inputs.drop_last()).lemma_step_valid(inputs.last());
    }
}

/// `Down` always leaves a row selected in the active column. That row is
/// never past the last row and never above the row selected before.
pub proof fn law_down_step(g: GridView)
    requires
        g.valid(),
    ensures
        g.step(Input::Down).active == g.active,
        g.step(Input::Down).selection() is Some,
        g.step(Input::Down).selection().unwrap() <= ROWS - 1,
        g.focused() ==> g.selection().unwrap() <= g.step(Input::Down).selection().unwrap(),
        g.focused() ==> g.step(Input::Down).selection().unwrap() <= g.selection().unwrap() + 1,
{
}

/// `Up` always leaves a row selected in the active column. That row is
/// never below the row selected before, and at most one row above it.
pub proof fn law_up_step(g: GridView)
    requires
        g.valid(),
    ensures
        g.step(Input::Up).active == g.active,
        g.step(Input::Up).selection() is Some,
        g.step(Input::Up).selection().unwrap() <= ROWS - 1,
        g.focused() ==> g.step(Input::Up).selection().unwrap() <= g.selection().unwrap(),
        g.focused() ==> g.selection().unwrap() <= g.step(Input::Up).selection().unwrap() + 1,
{
}

/// Over any run of `Down` presses the selected row never decreases and
/// never passes the last row: after `m` presses it is at most what it is
/// after `n >= m` presses, which is at most `ROWS - 1`.
pub proof fn law_down_presses(g: GridView, m: nat, n: nat)
    requires
        g.valid(),
        1 <= m <= n,
    ensures
        g.run(presses(Input::Down, m)).selection() is Some,
        g.run(presses(Input::Down, n)).selection() is Some,
        g.run(presses(Input::Down, m)).selection().unwrap() <= g.run(
            presses(Input::Down, n),
        ).selection().unwrap() <= ROWS - 1,
    decreases n - m,
{
    let shorter = g.run(presses(Input::Down, (n - 1) as nat));
    lemma_run_presses(g, Input::Down, n);
    law_run_valid(g, presses(Input::Down, (n - 1) as nat));
    law_down_step(shorter);
    if m < n {
        law_down_presses(g, m, (n - 1) as nat);
    }
}

/// Over any run of `Up` presses the selected row never increases: after
/// `n` presses it is at most what it is after `m <= n` presses.
pub proof fn law_up_presses(g: GridView, m: nat, n: nat)
    requires
        g.valid(),
        1 <= m <= n,
    ensures
        g.run(presses(Input::Up, m)).selection() is Some,
        g.run(presses(Input::Up, n)).selection() is Some,
        0 <= g.run(presses(Input::Up, n)).selection().unwrap() <= g.run(
            presses(Input::Up, m),
        ).selection().unwrap() <= ROWS - 1,
    decreases n - m,
{
    let shorter = g.run(presses(Input::Up, (n - 1) as nat));
    lemma_run_presses(g, Input::Up, n);
    law_run_valid(g, presses(Input::Up, (n - 1) as nat));
    law_up_step(shorter);
    if m < n {
        law_up_presses(g, m, (n - 1) as nat);
    }
}

/// From the grid at startup, `n >= 1` presses of `Down` select row `n - 1`
/// of the leftmost column, and the last row once `n` is past it.
pub proof fn law_down_from_start(n: nat)
    requires
        n >= 1,
    ensures
        GridView::initial().run(presses(Input::Down, n)).active == 0,
        GridView::initial().run(presses(Input::Down, n)).selection() == Some(
            clamp_row((n - 1) as nat),
        ),
    decreases n,
{
    let start = GridView::initial();
    lemma_run_presses(start, Input::Down, n);
    if n == 1 {
        assert(presses(Input::Down, 0).len() == 0);
    } else {
        law_down_from_start((n - 1) as nat);
        law_run_valid(start, presses(Input::Down, (n - 1) as nat));
    }
}

/// From the grid at startup, any number `n >= 1` of `Up` presses selects
/// the first row of the leftmost column.
pub proof fn law_up_from_start(n: nat)
    requires
        n >= 1,
    ensures
        GridView::initial().run(presses(Input::Up, n)).active == 0,
        GridView::initial().run(presses(Input::Up, n)).selection() == Some(0nat),
    decreases n,
{
    let start = GridView::initial();
    lemma_run_presses(start, Input::Up, n);
    if n == 1 {
        assert(presses(Input::Up, 0).len() == 0);
    } else {
        law_up_from_start((n - 1) as nat);
        law_run_valid(start, presses(Input::Up, (n - 1) as nat));
    }
}

/// An input other than `Up` and `Down` leaves the selected row of a
/// focused grid as it is, whichever column becomes active.
pub proof fn law_row_kept_by_step(g: GridView, input: Input)
    requires
        g.valid(),
        g.focused(),
        keeps_row(input),
    ensures
        g.step(input).selection() == g.selection(),
        g.step(input).remembered == g.remembered,
{
}

/// However the selection travels across the columns, as long as neither
/// `Up` nor `Down` is pressed the row selected at the end is the row that
/// was selected at the start. This holds in whichever column the travel
/// ends, the column it started from among them.
pub proof fn law_row_survives_column_switches(g: GridView, inputs: Seq<Input>)
    requires
        g.valid(),
        g.focused(),
        forall|i: int| 0 <= i < inputs.len() ==> keeps_row(#[trigger] inputs[i]),
    ensures
        g.run(inputs).selection() == g.selection(),
        g.run(inputs).remembered == g.remembered,
    decreases inputs.len(),
{
    if inputs.len() > 0 {
        let shorter = inputs.drop_last();
        assert forall|i: int| 0 <= i < shorter.len() implies keeps_row(#[trigger] shorter[i]) by {
            assert(shorter[i] == inputs[i]);
        }
        law_row_survives_column_switches(g, shorter);
        law_run_valid(g, shorter);
        law_row_kept_by_step(g.run(shorter), inputs.last());
    }
}

/// `Right` and then `Left` brings a focused grid back to what it was,
/// unless it started in the rightmost column.
pub proof fn law_right_then_left(g: GridView)
    requires
        g.valid(),
        g.focused(),
        g.active + 1 < COLUMNS,
    ensures
        g.step(Input::Right).active == g.active + 1,
        g.step(Input::Right).step(Input::Left) == g,
{
    assert(g.step(Input::Right).step(Input::Left) =~~= g);
}

/// `Left` and then `Right` brings a focused grid back to what it was,
/// unless it started in the leftmost column.
pub proof fn law_left_then_right(g: GridView)
    requires
        g.valid(),
        g.focused(),
        g.active > 0,
    ensures
        g.step(Input::Left).active == g.active - 1,
        g.step(Input::Left).step(Input::Right) == g,
{
    assert(g.step(Input::Left).step(Input::Right) =~~= g);
}

/// In a valid grid either the active column is the one column with a
/// selected row, or no column has one and the grid is still what it was
/// at startup.
pub proof fn law_one_selection(g: GridView)
    requires
        g.valid(),
    ensures
        g.focused() ==> g.selecting() == set![g.active as int],
        !g.focused() ==> g.selecting() == Set::<int>::empty() && g == GridView::initial(),
{
    if g.focused() {
        assert(g.selecting() =~= set![g.active as int]);
    } else {
        assert(g.selecting() =~= Set::<int>::empty());
    }
}

/// A slot is selected in its own column exactly when it is the highlighted
/// slot of the grid: drawing each column with its own selection highlights
/// one slot, the selected row of the active column, and no other.
pub proof fn law_highlight_is_focus(g: GridView, column: nat, row: nat)
    requires
        g.valid(),
        column < COLUMNS,
    ensures
        g.columns[column as int].selected == Some(row) <==> g.focus() == Some((column, row)),
{
}

/// Whatever is pressed from startup on, exactly one column has a selected
/// row, the active one, or none has and the grid is still what it was at
/// startup.
pub proof fn law_one_selection_from_start(inputs: Seq<Input>)
    ensures
        ({
            let now = GridView::initial().run(inputs);
            &&& now.valid()
            &&& now.selecting() == set![now.active as int] || (now.selecting() == Set::<int>::empty()
                && now == GridView::initial())
        }),
{
    law_start_valid();
    law_run_valid(GridView::initial(), inputs);
    law_one_selection(GridView::initial().run(inputs));
}

/// The grid at startup is valid and has no selection.
pub proof fn law_start_valid()
    ensures
        GridView::initial().valid(),
        !GridView::initial().focused(),
{
}

/// Once a row is selected, no input takes the selection away.
pub proof fn law_focus_is_kept(g: GridView, input: Input)
    requires
        g.valid(),
        g.focused(),
    ensures
        g.step(input).focused(),
{
}

/// Every arrow that is not stopped at the edge of the grid leaves a row
/// selected, also where none was selected before.
pub proof fn law_moves_select(g: GridView, input: Input)
    requires
        g.valid(),
        input == Input::Up || input == Input::Down || (input == Input::Right && g.active + 1
            < COLUMNS) || (input == Input::Left && g.active > 0),
    ensures
        g.step(input).focused(),
{
}

/// `Right` in the rightmost column changes nothing.
pub proof fn law_right_at_last_column(g: GridView)
    requires
        g.active + 1 == COLUMNS,
    ensures
        g.step(Input::Right) == g,
{
}

/// `Left` in the leftmost column changes nothing.
pub proof fn law_left_at_first_column(g: GridView)
    requires
        g.active == 0,
    ensures
        g.step(Input::Left) == g,
{
}

/// Marking a slot while no row is selected changes nothing.
pub proof fn law_toggle_without_selection(g: GridView, tag: Cell)
    requires
        g.valid(),
        !g.focused(),
    ensures
        g.step(Input::Toggle(tag)) == g,
{
    g.lemma_with_current_same();
}

/// Marking the selected slot changes that slot and no other: the slot at
/// the selected row of the active column takes the marker, and every other
/// slot, the active column and the selection stay as they were.
pub proof fn law_toggle_marks_one_slot(g: GridView, tag: Cell, column: int, row: int)
    requires
        g.valid(),
        g.focused(),
        0 <= column < COLUMNS,
        0 <= row < ROWS,
    ensures
        g.step(Input::Toggle(tag)).active == g.active,
        g.step(Input::Toggle(tag)).selection() == g.selection(),
        g.step(Input::Toggle(tag)).columns[column].cells[row] == (if column == g.active && row
            == g.selection().unwrap() {
            tag
        } else {
            g.columns[column].cells[row]
        }),
{
}

/// The arrows never change a marker.
pub proof fn law_moves_keep_markers(g: GridView, input: Input, column: int)
    requires
        g.valid(),
        !(input is Toggle),
        0 <= column < COLUMNS,
    ensures
        g.step(input).columns[column].cells == g.columns[column].cells,
{
}

} // verus!
