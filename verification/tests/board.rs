use game_of_life::automata::AutomataCell;
use game_of_life::board::{Board, BoardError, IndexedRow};
use game_of_life::finite_board::FiniteBoard;
use game_of_life::simple_solver::SimpleSolver;
use game_of_life::solver::{SimpleCellProcessor, Thresholds};

fn cells(rows: &[&str]) -> Vec<Vec<AutomataCell>> {
    rows.iter().map(|row| row.chars().map(|c| AutomataCell::new(c == 'O')).collect()).collect()
}

fn main_rows(board: &FiniteBoard) -> Vec<String> {
    (0..board.row_count())
        .map(|i| board.main_row(i).iter().map(|c| if c.is_alive() { 'O' } else { '.' }).collect())
        .collect()
}

fn back_rows(board: &FiniteBoard) -> Vec<String> {
    (0..board.row_count())
        .map(|i| board.back_row(i).iter().map(|c| if c.is_alive() { 'O' } else { '.' }).collect())
        .collect()
}

#[test]
fn cell_starts_as_given_and_follows_live_and_die() {
    let mut cell = AutomataCell::new(false);
    assert!(!cell.is_alive());
    cell.live();
    assert!(cell.is_alive());
    cell.live();
    assert!(cell.is_alive());
    cell.die();
    assert!(!cell.is_alive());
    cell.die();
    assert!(!cell.is_alive());
    assert!(AutomataCell::new(true).is_alive());
}

#[test]
fn cell_from_bool_and_from_number() {
    assert!(AutomataCell::from(true).is_alive());
    assert!(!AutomataCell::from(false).is_alive());
    assert!(!AutomataCell::from(0u8).is_alive());
    assert!(AutomataCell::from(1u8).is_alive());
    assert!(AutomataCell::from(2u8).is_alive());
    assert!(AutomataCell::from(255u8).is_alive());
    let cell: AutomataCell = 7u8.into();
    assert!(cell.is_alive());
}

#[test]
fn cell_copy_is_independent() {
    let mut first = AutomataCell::new(true);
    let second = first.clone();
    first.die();
    assert!(!first.is_alive());
    assert!(second.is_alive());
}

#[test]
fn new_takes_a_rectangular_matrix() {
    let board = FiniteBoard::new(cells(&["O..", ".O.", "..O", "OOO"])).unwrap();
    assert_eq!(board.row_count(), 4);
    assert_eq!(main_rows(&board), vec!["O..", ".O.", "..O", "OOO"]);
    assert_eq!(back_rows(&board), vec!["O..", ".O.", "..O", "OOO"]);
}

#[test]
fn new_takes_a_single_cell() {
    let board = FiniteBoard::new(cells(&["O"])).unwrap();
    assert_eq!(board.row_count(), 1);
    assert!(board.is_alive(0, 0));
    assert_eq!(board.count_alive_neighbors(0, 0), 0);
}

#[test]
fn new_refuses_rows_of_different_lengths() {
    let result = FiniteBoard::new(cells(&["O..", ".O", "..O"]));
    assert_eq!(result.err(), Some(BoardError::ShapeMismatch));
    let result = FiniteBoard::new(cells(&["O.", ".O.", "..O"]));
    assert_eq!(result.err(), Some(BoardError::ShapeMismatch));
    let result = FiniteBoard::new(cells(&["O..", ".O.", "..OO"]));
    assert_eq!(result.err(), Some(BoardError::ShapeMismatch));
}

#[test]
fn new_refuses_an_empty_matrix() {
    let result = FiniteBoard::new(Vec::new());
    assert_eq!(result.err(), Some(BoardError::ShapeMismatch));
}

#[test]
fn new_refuses_rows_without_cells() {
    let result = FiniteBoard::new(vec![Vec::new(), Vec::new()]);
    assert_eq!(result.err(), Some(BoardError::ShapeMismatch));
    let result = FiniteBoard::new(cells(&["", "O"]));
    assert_eq!(result.err(), Some(BoardError::ShapeMismatch));
}

#[test]
fn is_alive_reads_the_current_generation() {
    let board = FiniteBoard::new(cells(&["O.", ".."])).unwrap();
    assert!(board.is_alive(0, 0));
    assert!(!board.is_alive(0, 1));
    assert!(!board.is_alive(1, 0));
    assert!(!board.is_alive(1, 1));
}

#[test]
fn block_on_four_by_four_has_three_neighbors_at_its_corner() {
    let board = FiniteBoard::new(cells(&["....", ".OO.", ".OO.", "...."])).unwrap();
    assert_eq!(board.count_alive_neighbors(1, 1), 3);
    assert_eq!(board.count_alive_neighbors(1, 2), 3);
    assert_eq!(board.count_alive_neighbors(2, 1), 3);
    assert_eq!(board.count_alive_neighbors(2, 2), 3);
    assert_eq!(board.count_alive_neighbors(0, 0), 1);
    assert_eq!(board.count_alive_neighbors(0, 1), 2);
    assert_eq!(board.count_alive_neighbors(0, 2), 2);
    assert_eq!(board.count_alive_neighbors(0, 3), 1);
    assert_eq!(board.count_alive_neighbors(3, 3), 1);
    assert_eq!(board.count_alive_neighbors(1, 0), 2);
    assert_eq!(board.count_alive_neighbors(1, 3), 2);
}

#[test]
fn block_on_four_by_four_is_stable() {
    let mut board = FiniteBoard::new(cells(&["....", ".OO.", ".OO.", "...."])).unwrap();
    let solver = SimpleSolver::new(SimpleCellProcessor::new(Thresholds::default()));
    assert!(!solver.next(&mut board));
    assert_eq!(back_rows(&board), vec!["....", ".OO.", ".OO.", "...."]);
    assert_eq!(main_rows(&board), vec!["....", ".OO.", ".OO.", "...."]);
}

#[test]
fn neighbors_are_bounded_by_three_five_and_eight() {
    let board = FiniteBoard::new(cells(&["OOOO", "OOOO", "OOOO"])).unwrap();
    assert_eq!(board.count_alive_neighbors(0, 0), 3);
    assert_eq!(board.count_alive_neighbors(0, 3), 3);
    assert_eq!(board.count_alive_neighbors(2, 0), 3);
    assert_eq!(board.count_alive_neighbors(2, 3), 3);
    assert_eq!(board.count_alive_neighbors(0, 1), 5);
    assert_eq!(board.count_alive_neighbors(0, 2), 5);
    assert_eq!(board.count_alive_neighbors(2, 1), 5);
    assert_eq!(board.count_alive_neighbors(1, 0), 5);
    assert_eq!(board.count_alive_neighbors(1, 3), 5);
    assert_eq!(board.count_alive_neighbors(1, 1), 8);
    assert_eq!(board.count_alive_neighbors(1, 2), 8);
}

#[test]
fn neighbors_do_not_count_the_cell_itself() {
    let board = FiniteBoard::new(cells(&["...", ".O.", "..."])).unwrap();
    assert_eq!(board.count_alive_neighbors(1, 1), 0);
    assert_eq!(board.count_alive_neighbors(0, 0), 1);
    assert_eq!(board.count_alive_neighbors(2, 2), 1);
}

#[test]
fn neighbors_do_not_wrap_around() {
    let board = FiniteBoard::new(cells(&["O..O", "....", "....", "O..O"])).unwrap();
    assert_eq!(board.count_alive_neighbors(0, 0), 0);
    assert_eq!(board.count_alive_neighbors(0, 3), 0);
    assert_eq!(board.count_alive_neighbors(3, 0), 0);
    assert_eq!(board.count_alive_neighbors(3, 3), 0);
    assert_eq!(board.count_alive_neighbors(1, 1), 1);
}

#[test]
fn neighbors_on_narrow_boards() {
    let row = FiniteBoard::new(cells(&["OOO"])).unwrap();
    assert_eq!(row.count_alive_neighbors(0, 0), 1);
    assert_eq!(row.count_alive_neighbors(0, 1), 2);
    assert_eq!(row.count_alive_neighbors(0, 2), 1);
    let column = FiniteBoard::new(cells(&["O", "O", "O"])).unwrap();
    assert_eq!(column.count_alive_neighbors(0, 0), 1);
    assert_eq!(column.count_alive_neighbors(1, 0), 2);
    assert_eq!(column.count_alive_neighbors(2, 0), 1);
}

#[test]
fn neighbors_of_a_position_off_the_board() {
    let board = FiniteBoard::new(cells(&["OO", "OO"])).unwrap();
    assert_eq!(board.count_alive_neighbors(2, 0), 2);
    assert_eq!(board.count_alive_neighbors(2, 2), 1);
    assert_eq!(board.count_alive_neighbors(0, 2), 2);
    assert_eq!(board.count_alive_neighbors(3, 0), 0);
    assert_eq!(board.count_alive_neighbors(usize::MAX, usize::MAX), 0);
    assert_eq!(board.count_alive_neighbors(usize::MAX, 0), 0);
}

#[test]
fn set_back_cell_writes_the_next_generation_only() {
    let mut board = FiniteBoard::new(cells(&["..", ".."])).unwrap();
    board.set_back_cell(1, 0, AutomataCell::new(true));
    assert_eq!(main_rows(&board), vec!["..", ".."]);
    assert_eq!(back_rows(&board), vec!["..", "O."]);
    assert!(!board.is_alive(1, 0));
    assert_eq!(board.count_alive_neighbors(0, 0), 0);
}

#[test]
fn swap_trades_the_buffers() {
    let mut board = FiniteBoard::new(cells(&["..", ".."])).unwrap();
    board.set_back_cell(0, 1, AutomataCell::new(true));
    board.swap();
    assert_eq!(main_rows(&board), vec![".O", ".."]);
    assert_eq!(back_rows(&board), vec!["..", ".."]);
    assert!(board.is_alive(0, 1));
    assert_eq!(board.count_alive_neighbors(1, 1), 1);
}

#[test]
fn swap_twice_restores_roles_and_cells() {
    let mut board = FiniteBoard::new(cells(&[".....", "..O..", "..O..", "..O..", "....."])).unwrap();
    let solver = SimpleSolver::new(SimpleCellProcessor::new(Thresholds::default()));
    assert!(solver.next(&mut board));
    let main_before = main_rows(&board);
    let back_before = back_rows(&board);
    assert_ne!(main_before, back_before);
    board.swap();
    assert_eq!(main_rows(&board), back_before);
    assert_eq!(back_rows(&board), main_before);
    board.swap();
    assert_eq!(main_rows(&board), main_before);
    assert_eq!(back_rows(&board), back_before);
}
