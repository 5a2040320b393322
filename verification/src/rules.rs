//! The rules that decide a match: the eight lines of the board and the
//! outcome that a board stands for.

use vstd::prelude::*;
use crate::board::{grid_extends, grid_full, on_board, Board, CellState, Grid, Mark};

verus! {

/// How a match stands.
#[derive(Clone, Copy, Debug, PartialEq, Eq, Structural)]
pub enum Outcome {
    Ongoing,
    NoughtWins,
    CrossWins,
    Draw,
}

/// The three cells of line `k`. Lines 0 to 2 are the rows from the top,
/// lines 3 to 5 the columns from the left, line 6 is the diagonal from the
/// top left corner and line 7 the diagonal from the top right corner.
pub open spec fn line_cells(k: int) -> ((int, int), (int, int), (int, int)) {
    if 0 <= k < 3 {
        ((k, 0), (k, 1), (k, 2))
    } else if 3 <= k < 6 {
        ((0, k - 3), (1, k - 3), (2, k - 3))
    } else if k == 6 {
        ((0, 0), (1, 1), (2, 2))
    } else {
        ((0, 2), (1, 1), (2, 0))
    }
}

/// Whether all three cells of line `k` hold `mark`.
pub open spec fn line_filled(grid: Grid, k: int, mark: Mark) -> bool {
    let (a, b, c) = line_cells(k);
    grid[a] == mark.spec_cell() && grid[b] == mark.spec_cell() && grid[c] == mark.spec_cell()
}

/// Whether `mark` fills one of the eight lines.
pub open spec fn has_line(grid: Grid, mark: Mark) -> bool {
    ||| line_filled(grid, 0, mark)
    ||| line_filled(grid, 1, mark)
    ||| line_filled(grid, 2, mark)
    ||| line_filled(grid, 3, mark)
    ||| line_filled(grid, 4, mark)
    ||| line_filled(grid, 5, mark)
    ||| line_filled(grid, 6, mark)
    ||| line_filled(grid, 7, mark)
}

/// The mark that fills line `k`, if one does.
pub open spec fn line_owner(grid: Grid, k: int) -> Option<Mark> {
    if line_filled(grid, k, Mark::Nought) {
        Some(Mark::Nought)
    } else if line_filled(grid, k, Mark::Cross) {
        Some(Mark::Cross)
    } else {
        None
    }
}

/// The owner of the first filled line among the lines `from`, `from + 1`, ..., 7.
pub open spec fn first_owner(grid: Grid, from: int) -> Option<Mark>
    decreases 8 - from,
{
    if from >= 8 {
        None
    } else if line_owner(grid, from) is Some {
        line_owner(grid, from)
    } else {
        first_owner(grid, from + 1)
    }
}

/// The outcome that a grid stands for. The lines are looked at in their
/// fixed order and the first filled one decides; with no filled line a full
/// grid is a draw, and any other grid is still being played.
pub open spec fn outcome_of(grid: Grid) -> Outcome {
    match first_owner(grid, 0) {
        Some(Mark::Nought) => Outcome::NoughtWins,
        Some(Mark::Cross) => Outcome::CrossWins,
        None => if grid_full(grid) {
            Outcome::Draw
        } else {
            Outcome::Ongoing
        },
    }
}

/// The outcome in which `mark` has won.
pub open spec fn win_of(mark: Mark) -> Outcome {
    match mark {
        Mark::Nought => Outcome::NoughtWins,
        Mark::Cross => Outcome::CrossWins,
    }
}

/// The cells of line `k`, as indices into the board.
fn line(k: usize) -> (cells: ((usize, usize), (usize, usize), (usize, usize)))
    requires
        k < 8,
    ensures
        line_cells(k as int) == (
            (cells.0.0 as int, cells.0.1 as int),
            (cells.1.0 as int, cells.1.1 as int),
            (cells.2.0 as int, cells.2.1 as int),
        ),
        on_board(cells.0.0 as int, cells.0.1 as int),
        on_board(cells.1.0 as int, cells.1.1 as int),
        on_board(cells.2.0 as int, cells.2.1 as int),
{
    if k < 3 {
        ((k, 0), (k, 1), (k, 2))
    } else if k < 6 {
        ((0, k - 3), (1, k - 3), (2, k - 3))
    } else if k == 6 {
        ((0, 0), (1, 1), (2, 2))
    } else {
        ((0, 2), (1, 1), (2, 0))
    }
}

/// Decides how the match stands on `board`: a win for the mark that fills a
/// line, a draw when the board is full without one, and otherwise ongoing.
pub fn evaluate(board: &Board) -> (outcome: Outcome)
    ensures
        outcome == outcome_of(board@.cells),
        outcome == Outcome::NoughtWins ==> has_line(board@.cells, Mark::Nought),
        outcome == Outcome::CrossWins ==> has_line(board@.cells, Mark::Cross),
        outcome == Outcome::Draw <==> !has_line(board@.cells, Mark::Nought) && !has_line(
            board@.cells,
            Mark::Cross,
        ) && grid_full(board@.cells),
        outcome == Outcome::Ongoing <==> !has_line(board@.cells, Mark::Nought) && !has_line(
            board@.cells,
            Mark::Cross,
        ) && !grid_full(board@.cells),
{
    let mut k: usize = 0;
    while k < 8
        invariant
            k <= 8,
            first_owner(board@.cells, 0) == first_owner(board@.cells, k as int),
        decreases 8 - k,
    {
        let (a, b, c) = line(k);
        let first = board.cell(a.0, a.1);
        if first != CellState::Empty && board.cell(b.0, b.1) == first && board.cell(c.0, c.1)
            == first {
            proof {
                lemma_outcome_sound(board@.cells);
            }
            return match first {
                CellState::Nought => Outcome::NoughtWins,
                _ => Outcome::CrossWins,
            };
        }
        k = k + 1;
    }
    proof {
        lemma_outcome_sound(board@.cells);
    }
    if board.is_full() {
        Outcome::Draw
    } else {
        Outcome::Ongoing
    }
}

/// Every grid has exactly one outcome, and the outcome says what the lines
/// say: a win means that the winner fills a line, a draw means a full grid
/// without a filled line, and a match is ongoing exactly if no line is
/// filled and a cell is still empty.
pub proof fn lemma_outcome_sound(grid: Grid)
    ensures
        outcome_of(grid) == Outcome::NoughtWins ==> has_line(grid, Mark::Nought),
        outcome_of(grid) == Outcome::CrossWins ==> has_line(grid, Mark::Cross),
        outcome_of(grid) == Outcome::Draw <==> !has_line(grid, Mark::Nought) && !has_line(
            grid,
            Mark::Cross,
        ) && grid_full(grid),
        outcome_of(grid) == Outcome::Ongoing <==> !has_line(grid, Mark::Nought) && !has_line(
            grid,
            Mark::Cross,
        ) && !grid_full(grid),
{
    reveal_with_fuel(first_owner, 9);
}

/// On a grid on which at most one of the two marks fills a line, the three
/// final outcomes exclude each other and each is decided by the lines alone:
/// a mark has won exactly if it fills a line.
pub proof fn lemma_single_winner(grid: Grid)
    requires
        !(has_line(grid, Mark::Nought) && has_line(grid, Mark::Cross)),
    ensures
        outcome_of(grid) == Outcome::NoughtWins <==> has_line(grid, Mark::Nought),
        outcome_of(grid) == Outcome::CrossWins <==> has_line(grid, Mark::Cross),
        outcome_of(grid) == Outcome::Draw <==> !has_line(grid, Mark::Nought) && !has_line(
            grid,
            Mark::Cross,
        ) && grid_full(grid),
{
    reveal_with_fuel(first_owner, 9);
}

/// A move cannot complete a line of the other player: if `mark` is put
/// into an empty cell of `grid`, the other mark fills a line afterwards only
/// if it did before.
pub proof fn lemma_move_gives_rival_no_line(grid: Grid, row: int, col: int, mark: Mark)
    requires
        on_board(row, col),
    ensures
        has_line(grid.insert((row, col), mark.spec_cell()), mark.other()) ==> has_line(
            grid,
            mark.other(),
        ),
{
}

/// The outcome is a function of the cells alone: two boards with the same
/// cells have the same outcome, wherever their cursors stand, so evaluating
/// a board again gives the same result.
pub proof fn lemma_outcome_deterministic(first: Grid, second: Grid)
    requires
        first == second,
    ensures
        outcome_of(first) == outcome_of(second),
{
}

/// A match that is over stays over while marks are only added: a filled line
/// stays filled and a full grid stays full.
pub proof fn lemma_final_outcome_is_stable(before: Grid, after: Grid)
    requires
        grid_extends(before, after),
        outcome_of(before) != Outcome::Ongoing,
    ensures
        outcome_of(after) != Outcome::Ongoing,
{
    reveal_with_fuel(first_owner, 9);
    lemma_outcome_sound(before);
    lemma_outcome_sound(after);
}

} // verus!
