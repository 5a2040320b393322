//! The computer's strategy: it takes the first empty cell in reading order.

use vstd::prelude::*;
use crate::board::{grid_full, on_board, Board, CellState, Grid};

verus! {

/// The cell with number `k` when the cells are counted row by row from the
/// top, each row from the left.
pub open spec fn cell_at(k: int) -> (int, int) {
    (k / 3, k % 3)
}

/// Whether (row, col) comes before (other_row, other_col) in reading order.
pub open spec fn reads_before(row: int, col: int, other_row: int, other_col: int) -> bool {
    row < other_row || (row == other_row && col < other_col)
}

/// The first empty cell among the cells with numbers `from`, `from + 1`, ..., 8.
pub open spec fn first_empty_from(grid: Grid, from: int) -> Option<(int, int)>
    decreases 9 - from,
{
    if from >= 9 {
        None
    } else if grid[cell_at(from)] == CellState::Empty {
        Some(cell_at(from))
    } else {
        first_empty_from(grid, from + 1)
    }
}

/// The first empty cell in reading order, if the grid has an empty cell.
pub open spec fn first_empty(grid: Grid) -> Option<(int, int)> {
    first_empty_from(grid, 0)
}

/// Selects the cell that the computer marks next: the first empty cell in
/// reading order, or `None` when the board is full.
pub fn select_move(board: &Board) -> (choice: Option<(usize, usize)>)
    ensures
        match choice {
            Some((row, col)) => first_empty(board@.cells) == Some((row as int, col as int)),
            None => first_empty(board@.cells) is None,
        },
        choice is None <==> grid_full(board@.cells),
        choice matches Some((row, col)) ==> {
            &&& on_board(row as int, col as int)
            &&& board@.cells[(row as int, col as int)] == CellState::Empty
            &&& forall|r: int, c: int|
                on_board(r, c) && reads_before(r, c, row as int, col as int)
                    ==> #[trigger] board@.cells[(r, c)] != CellState::Empty
        },
{
    let mut row: usize = 0;
    while row < 3
        invariant
            row <= 3,
            first_empty(board@.cells) == first_empty_from(board@.cells, 3 * row),
        decreases 3 - row,
    {
        let mut col: usize = 0;
        while col < 3
            invariant
                row < 3,
                col <= 3,
                first_empty(board@.cells) == first_empty_from(board@.cells, 3 * row + col),
            decreases 3 - col,
        {
            assert(cell_at(3 * row + col) == (row as int, col as int));
            if board.cell(row, col) == CellState::Empty {
                proof {
                    lemma_first_empty(board@.cells);
                }
                return Some((row, col));
            }
            col = col + 1;
        }
        row = row + 1;
    }
    proof {
        lemma_first_empty(board@.cells);
    }
    None
}

/// What the selection rule amounts to: nothing is selected exactly if the
/// grid is full, and a selected cell is on the board, is empty, and has only
/// occupied cells before it in reading order.
pub proof fn lemma_first_empty(grid: Grid)
    ensures
        first_empty(grid) is None <==> grid_full(grid),
        first_empty(grid) matches Some((row, col)) ==> {
            &&& on_board(row, col)
            &&& grid[(row, col)] == CellState::Empty
            &&& forall|r: int, c: int|
                on_board(r, c) && reads_before(r, c, row, col) ==> #[trigger] grid[(r, c)]
                    != CellState::Empty
        },
{
    reveal_with_fuel(first_empty_from, 10);
    assert(cell_at(0) == (0int, 0int));
    assert(cell_at(1) == (0int, 1int));
    assert(cell_at(2) == (0int, 2int));
    assert(cell_at(3) == (1int, 0int));
    assert(cell_at(4) == (1int, 1int));
    assert(cell_at(5) == (1int, 2int));
    assert(cell_at(6) == (2int, 0int));
    assert(cell_at(7) == (2int, 1int));
    assert(cell_at(8) == (2int, 2int));
    if first_empty(grid) is None {
        assert forall|row: int, col: int| on_board(row, col) implies #[trigger] grid[(row, col)]
            != CellState::Empty by {
            assert((row, col) == cell_at(3 * row + col));
        }
    }
}

} // verus!
