use tic_tac_toe::board::{Board, Mark};
use tic_tac_toe::strategy::select_move;

fn board_with(occupied: &[(usize, usize)]) -> Board {
    let mut board = Board::new();
    for (k, &(row, col)) in occupied.iter().enumerate() {
        let mark = if k % 2 == 0 { Mark::Nought } else { Mark::Cross };
        assert!(board.place(row, col, mark));
    }
    board
}

#[test]
fn empty_board_selects_the_top_left_cell() {
    assert_eq!(select_move(&Board::new()), Some((0, 0)));
}

#[test]
fn two_occupied_cells_in_the_top_row_select_the_third() {
    let board = board_with(&[(0, 0), (0, 1)]);
    assert_eq!(select_move(&board), Some((0, 2)));
}

#[test]
fn full_top_row_selects_the_start_of_the_second_row() {
    let board = board_with(&[(0, 0), (0, 1), (0, 2)]);
    assert_eq!(select_move(&board), Some((1, 0)));
}

#[test]
fn selection_takes_the_first_gap_in_reading_order() {
    let board = board_with(&[(0, 0), (1, 1), (2, 2), (0, 2)]);
    assert_eq!(select_move(&board), Some((0, 1)));
    let board = board_with(&[(0, 0), (0, 1), (0, 2), (1, 0), (2, 0), (2, 1)]);
    assert_eq!(select_move(&board), Some((1, 1)));
    let board = board_with(&[(0, 0), (0, 1), (0, 2), (1, 0), (1, 1), (1, 2), (2, 0), (2, 1)]);
    assert_eq!(select_move(&board), Some((2, 2)));
}

#[test]
fn full_board_selects_nothing() {
    let board = board_with(&[
        (0, 0),
        (0, 1),
        (0, 2),
        (1, 0),
        (1, 1),
        (1, 2),
        (2, 0),
        (2, 1),
        (2, 2),
    ]);
    assert_eq!(select_move(&board), None);
}

#[test]
fn selection_does_not_change_the_board() {
    let board = board_with(&[(0, 0)]);
    assert_eq!(select_move(&board), Some((0, 1)));
    assert_eq!(select_move(&board), Some((0, 1)));
}
