use slot_grid::cell::Cell;
use slot_grid::column::ColumnState;
use slot_grid::grid::{toggle, toggle_black, toggle_white, Grid};
use slot_grid::input::{Flow, Input, Key};

const ALL_INPUTS: [Input; 9] = [
    Input::Up,
    Input::Down,
    Input::Left,
    Input::Right,
    Input::Toggle(Cell::White),
    Input::Toggle(Cell::Black),
    Input::Toggle(Cell::Empty),
    Input::Quit,
    Input::Ignored,
];

fn after(inputs: &[Input]) -> Grid {
    let mut grid = Grid::new();
    for input in inputs {
        grid.handle(*input);
    }
    grid
}

fn selecting(grid: &Grid) -> Vec<usize> {
    let mut found = Vec::new();
    for (index, column) in grid.columns().iter().enumerate() {
        if column.return_selected().is_some() {
            found.push(index);
        }
    }
    found
}

fn markers(grid: &Grid) -> [[Cell; 3]; 3] {
    let columns = grid.columns();
    [*columns[0].items(), *columns[1].items(), *columns[2].items()]
}

const BLANK: [[Cell; 3]; 3] = [[Cell::Empty; 3]; 3];

#[test]
fn grid_starts_empty_and_unselected_in_the_left_column() {
    let grid = Grid::new();
    assert_eq!(grid.active_column(), 0);
    assert_eq!(grid.remembered_row(), 0);
    assert_eq!(grid.selected_row(), None);
    assert_eq!(selecting(&grid), Vec::<usize>::new());
    assert_eq!(markers(&grid), BLANK);
}

#[test]
fn down_down_right_up_ends_in_column_one_row_zero() {
    let mut grid = Grid::new();
    grid.handle(Input::Down);
    assert_eq!((grid.active_column(), grid.selected_row()), (0, Some(0)));
    grid.handle(Input::Down);
    assert_eq!((grid.active_column(), grid.selected_row()), (0, Some(1)));
    grid.handle(Input::Right);
    assert_eq!((grid.active_column(), grid.selected_row()), (1, Some(1)));
    grid.handle(Input::Up);
    assert_eq!(grid.active_column(), 1);
    assert_eq!(grid.selected_row(), Some(0));
    assert_eq!(selecting(&grid), vec![1]);
}

#[test]
fn third_right_changes_nothing() {
    let mut grid = Grid::new();
    grid.handle(Input::Right);
    assert_eq!(grid.active_column(), 1);
    grid.handle(Input::Right);
    assert_eq!(grid.active_column(), 2);
    let before = grid;
    grid.handle(Input::Right);
    assert_eq!(grid.active_column(), 2);
    assert_eq!(grid, before);
    assert_eq!(grid.selected_row(), Some(0));
}

#[test]
fn down_then_toggle_marks_the_selected_slot_and_no_other() {
    let mut grid = Grid::new();
    grid.handle(Input::Down);
    assert_eq!(markers(&grid), BLANK);
    grid.handle(Input::Toggle(Cell::White));
    let mut expected = BLANK;
    expected[0][0] = Cell::White;
    assert_eq!(markers(&grid), expected);
    assert_eq!(grid.selected_row(), Some(0));
    assert_eq!(grid.active_column(), 0);
}

#[test]
fn down_presses_never_decrease_the_row_and_stop_at_the_last() {
    let mut grid = Grid::new();
    let mut rows = Vec::new();
    for _ in 0..6 {
        grid.handle(Input::Down);
        rows.push(grid.selected_row());
    }
    assert_eq!(rows, vec![Some(0), Some(1), Some(2), Some(2), Some(2), Some(2)]);
    assert_eq!(grid.active_column(), 0);
    assert_eq!(grid.remembered_row(), 2);
}

#[test]
fn up_presses_from_the_start_stay_at_the_first_row() {
    let mut grid = Grid::new();
    for _ in 0..4 {
        grid.handle(Input::Up);
        assert_eq!(grid.selected_row(), Some(0));
    }
    assert_eq!(grid.active_column(), 0);
}

#[test]
fn up_presses_never_increase_the_row_and_stop_at_the_first() {
    let mut grid = after(&[Input::Down, Input::Down, Input::Down]);
    assert_eq!(grid.selected_row(), Some(2));
    let mut rows = Vec::new();
    for _ in 0..4 {
        grid.handle(Input::Up);
        rows.push(grid.selected_row());
    }
    assert_eq!(rows, vec![Some(1), Some(0), Some(0), Some(0)]);
    assert_eq!(grid.remembered_row(), 0);
}

#[test]
fn right_then_left_returns_to_the_same_row() {
    for downs in 1..=3 {
        let mut grid = Grid::new();
        for _ in 0..downs {
            grid.handle(Input::Down);
        }
        let before = grid;
        grid.handle(Input::Right);
        assert_eq!(grid.active_column(), 1);
        assert_eq!(grid.selected_row(), before.selected_row());
        grid.handle(Input::Left);
        assert_eq!(grid, before);
        assert_eq!(grid.selected_row(), Some(downs - 1));
    }
}

#[test]
fn left_then_right_returns_to_the_same_row() {
    let mut grid = after(&[Input::Right, Input::Right, Input::Down]);
    assert_eq!((grid.active_column(), grid.selected_row()), (2, Some(1)));
    let before = grid;
    grid.handle(Input::Left);
    assert_eq!((grid.active_column(), grid.selected_row()), (1, Some(1)));
    grid.handle(Input::Right);
    assert_eq!(grid, before);
}

#[test]
fn row_survives_a_long_walk_across_the_columns() {
    let mut grid = after(&[Input::Down, Input::Down, Input::Down]);
    let walk = [
        Input::Right,
        Input::Right,
        Input::Right,
        Input::Toggle(Cell::Black),
        Input::Left,
        Input::Ignored,
        Input::Left,
        Input::Left,
        Input::Right,
        Input::Quit,
        Input::Left,
    ];
    for input in walk {
        grid.handle(input);
        assert_eq!(grid.selected_row(), Some(2));
        assert_eq!(grid.remembered_row(), 2);
    }
    assert_eq!(grid.active_column(), 0);
}

#[test]
fn row_changed_while_away_is_the_row_brought_back() {
    let grid = after(&[Input::Down, Input::Right, Input::Down, Input::Down, Input::Left]);
    assert_eq!(grid.active_column(), 0);
    assert_eq!(grid.selected_row(), Some(2));
}

#[test]
fn left_at_the_first_column_changes_nothing() {
    let mut grid = after(&[Input::Down, Input::Down, Input::Toggle(Cell::Black)]);
    let before = grid;
    grid.handle(Input::Left);
    assert_eq!(grid, before);
    assert_eq!(grid.active_column(), 0);
    assert_eq!(grid.selected_row(), Some(1));
}

#[test]
fn left_at_the_start_leaves_the_grid_unselected() {
    let mut grid = Grid::new();
    grid.handle(Input::Left);
    assert_eq!(grid, Grid::new());
    assert_eq!(grid.selected_row(), None);
    assert_eq!(selecting(&grid), Vec::<usize>::new());
}

#[test]
fn right_at_the_last_column_changes_nothing() {
    let mut grid = after(&[Input::Down, Input::Down, Input::Right, Input::Right]);
    let before = grid;
    grid.handle(Input::Right);
    assert_eq!(grid, before);
    assert_eq!(grid.active_column(), 2);
    assert_eq!(grid.selected_row(), Some(1));
}

#[test]
fn right_from_the_start_selects_the_first_row_of_column_one() {
    let grid = after(&[Input::Right]);
    assert_eq!(grid.active_column(), 1);
    assert_eq!(grid.selected_row(), Some(0));
    assert_eq!(selecting(&grid), vec![1]);
}

#[test]
fn toggle_without_selection_changes_nothing() {
    for tag in [Cell::White, Cell::Black, Cell::Empty] {
        let mut grid = Grid::new();
        grid.handle(Input::Toggle(tag));
        assert_eq!(grid, Grid::new());
        assert_eq!(markers(&grid), BLANK);
    }
}

#[test]
fn toggle_marks_black_as_well_as_white() {
    let grid = after(&[
        Input::Down,
        Input::Toggle(Cell::White),
        Input::Right,
        Input::Down,
        Input::Toggle(Cell::Black),
    ]);
    let mut expected = BLANK;
    expected[0][0] = Cell::White;
    expected[1][1] = Cell::Black;
    assert_eq!(markers(&grid), expected);
}

#[test]
fn toggle_twice_keeps_the_marker() {
    let grid = after(&[Input::Down, Input::Toggle(Cell::White), Input::Toggle(Cell::White)]);
    assert_eq!(grid.columns()[0].items(), &[Cell::White, Cell::Empty, Cell::Empty]);
}

#[test]
fn later_toggle_replaces_the_marker() {
    let grid = after(&[Input::Down, Input::Toggle(Cell::White), Input::Toggle(Cell::Black)]);
    assert_eq!(grid.columns()[0].items(), &[Cell::Black, Cell::Empty, Cell::Empty]);
}

#[test]
fn arrows_keep_every_marker() {
    let mut grid = after(&[Input::Right, Input::Down, Input::Toggle(Cell::White)]);
    let painted = markers(&grid);
    for input in [Input::Up, Input::Down, Input::Left, Input::Right, Input::Right, Input::Up] {
        grid.handle(input);
        assert_eq!(markers(&grid), painted);
    }
}

#[test]
fn quit_stops_the_loop_and_keeps_the_grid() {
    let mut grid = after(&[Input::Down, Input::Right]);
    let before = grid;
    assert_eq!(grid.handle(Input::Quit), Flow::Quit);
    assert_eq!(grid, before);
}

#[test]
fn every_other_input_lets_the_loop_go_on() {
    for input in ALL_INPUTS {
        let mut grid = Grid::new();
        let flow = grid.handle(input);
        if input == Input::Quit {
            assert_eq!(flow, Flow::Quit);
        } else {
            assert_eq!(flow, Flow::Continue);
        }
    }
}

#[test]
fn ignored_input_changes_nothing() {
    let mut grid = after(&[Input::Down, Input::Right, Input::Toggle(Cell::Black)]);
    let before = grid;
    assert_eq!(grid.handle(Input::Ignored), Flow::Continue);
    assert_eq!(grid, before);
}

#[test]
fn press_acts_as_the_input_that_the_key_is_bound_to() {
    let mut by_key = Grid::new();
    let mut by_input = Grid::new();
    let keys = [
        (Key::Down, Input::Down),
        (Key::Down, Input::Down),
        (Key::Char('w'), Input::Toggle(Cell::White)),
        (Key::Right, Input::Right),
        (Key::Up, Input::Up),
        (Key::Char('b'), Input::Toggle(Cell::Black)),
        (Key::Char('z'), Input::Ignored),
        (Key::Other, Input::Ignored),
        (Key::Left, Input::Left),
        (Key::Char('q'), Input::Quit),
    ];
    for (key, input) in keys {
        assert_eq!(by_key.press(key), by_input.handle(input));
        assert_eq!(by_key, by_input);
    }
    let mut expected = BLANK;
    expected[0][1] = Cell::White;
    expected[1][0] = Cell::Black;
    assert_eq!(markers(&by_key), expected);
    assert_eq!((by_key.active_column(), by_key.selected_row()), (0, Some(0)));
}

#[test]
fn press_q_quits_and_other_keys_go_on() {
    let mut grid = Grid::new();
    assert_eq!(grid.press(Key::Down), Flow::Continue);
    assert_eq!(grid.press(Key::Char('w')), Flow::Continue);
    assert_eq!(grid.press(Key::Char('x')), Flow::Continue);
    assert_eq!(grid.press(Key::Char('q')), Flow::Quit);
}

fn check_reachable(grid: &Grid) {
    let found = selecting(grid);
    assert!(grid.active_column() < 3);
    assert!(grid.remembered_row() < 3);
    match grid.selected_row() {
        Some(row) => {
            assert_eq!(found, vec![grid.active_column()]);
            assert_eq!(row, grid.remembered_row());
            assert!(row < 3);
        }
        None => {
            assert_eq!(found, Vec::<usize>::new());
            assert_eq!(*grid, Grid::new());
        }
    }
}

fn walk(grid: Grid, depth: usize) {
    check_reachable(&grid);
    if depth == 0 {
        return;
    }
    for input in ALL_INPUTS {
        let mut next = grid;
        next.handle(input);
        if grid.selected_row().is_some() {
            assert!(next.selected_row().is_some());
        }
        walk(next, depth - 1);
    }
}

#[test]
fn one_column_is_selected_after_every_sequence_of_four_inputs() {
    walk(Grid::new(), 4);
}

#[test]
fn toggle_marks_the_selected_slot_of_each_column() {
    let mut first = ColumnState::new([Cell::Empty; 3]);
    let second = ColumnState::new([Cell::Empty; 3]);
    let mut third = ColumnState::new([Cell::Black; 3]);
    first.next(0);
    third.next(2);
    let mut columns = [first, second, third];
    toggle(&mut columns, Cell::White);
    assert_eq!(columns[0].items(), &[Cell::White, Cell::Empty, Cell::Empty]);
    assert_eq!(columns[1].items(), &[Cell::Empty, Cell::Empty, Cell::Empty]);
    assert_eq!(columns[2].items(), &[Cell::Black, Cell::Black, Cell::White]);
    assert_eq!(columns[0].return_selected(), Some(0));
    assert_eq!(columns[1].return_selected(), None);
    assert_eq!(columns[2].return_selected(), Some(2));
}

#[test]
fn toggle_white_and_toggle_black_use_their_colour() {
    let mut column = ColumnState::new([Cell::Empty; 3]);
    column.next(1);
    let mut columns = [column, column, column];
    toggle_white(&mut columns);
    for column in &columns {
        assert_eq!(column.items(), &[Cell::Empty, Cell::White, Cell::Empty]);
    }
    columns[1].next(1);
    toggle_black(&mut columns);
    assert_eq!(columns[0].items(), &[Cell::Empty, Cell::Black, Cell::Empty]);
    assert_eq!(columns[1].items(), &[Cell::Empty, Cell::White, Cell::Black]);
    assert_eq!(columns[2].items(), &[Cell::Empty, Cell::Black, Cell::Empty]);
}

#[test]
fn toggle_on_unselected_columns_changes_nothing() {
    let column = ColumnState::new([Cell::Black, Cell::Empty, Cell::White]);
    let mut columns = [column, column, column];
    toggle_white(&mut columns);
    assert_eq!(columns, [column, column, column]);
}

#[test]
fn focus_is_the_selected_slot_of_the_active_column() {
    let mut grid = Grid::new();
    assert_eq!(grid.focus(), None);
    grid.handle(Input::Down);
    assert_eq!(grid.focus(), Some((0, 0)));
    grid.handle(Input::Down);
    grid.handle(Input::Right);
    assert_eq!(grid.focus(), Some((1, 1)));
    grid.handle(Input::Right);
    grid.handle(Input::Down);
    assert_eq!(grid.focus(), Some((2, 2)));
    for (index, column) in grid.columns().iter().enumerate() {
        let expected = if index == 2 { Some(2) } else { None };
        assert_eq!(column.return_selected(), expected);
    }
}
