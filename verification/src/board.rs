//! The 3×3 board and the cursor that selects a cell for the human player.

use vstd::prelude::*;

verus! {

/// What a cell of the board holds.
#[derive(Clone, Copy, Debug, PartialEq, Eq, Structural)]
pub enum CellState {
    Empty,
    Nought,
    Cross,
}

/// One of the two player symbols.
#[derive(Clone, Copy, Debug, PartialEq, Eq, Structural)]
pub enum Mark {
    Nought,
    Cross,
}

/// A direction in which the cursor can be moved.
#[derive(Clone, Copy, Debug, PartialEq, Eq, Structural)]
pub enum Direction {
    Up,
    Down,
    Left,
    Right,
}

impl Mark {
    /// The state of a cell that holds this mark.
    pub open spec fn spec_cell(self) -> CellState {
        match self {
            Mark::Nought => CellState::Nought,
            Mark::Cross => CellState::Cross,
        }
    }

    /// The state of a cell that holds this mark.
    #[verifier::when_used_as_spec(spec_cell)]
    pub fn cell(self) -> (state: CellState)
        ensures
            state == self.spec_cell(),
        no_unwind
    {
        match self {
            Mark::Nought => CellState::Nought,
            Mark::Cross => CellState::Cross,
        }
    }

    /// The mark of the other player.
    pub open spec fn other(self) -> Mark {
        match self {
            Mark::Nought => Mark::Cross,
            Mark::Cross => Mark::Nought,
        }
    }
}

/// The cells of a board, keyed by (row, column).
pub type Grid = Map<(int, int), CellState>;

/// Whether (row, column) names a cell of the board.
pub open spec fn on_board(row: int, col: int) -> bool {
    0 <= row < 3 && 0 <= col < 3
}

/// The grid in which every cell is empty.
pub open spec fn empty_grid() -> Grid {
    Map::new(|p: (int, int)| on_board(p.0, p.1), |p: (int, int)| CellState::Empty)
}

/// Whether no cell of the grid is empty.
pub open spec fn grid_full(grid: Grid) -> bool {
    forall|row: int, col: int|
        on_board(row, col) ==> #[trigger] grid[(row, col)] != CellState::Empty
}

/// Whether `after` holds every mark that `before` holds, in the same cell.
pub open spec fn grid_extends(before: Grid, after: Grid) -> bool {
    forall|row: int, col: int|
        #![trigger before[(row, col)]]
        #![trigger after[(row, col)]]
        on_board(row, col) && before[(row, col)] != CellState::Empty ==> after[(row, col)]
            == before[(row, col)]
}

/// 1 where the cell at (row, col) holds `state`, 0 where it does not.
#[verifier::opaque]
pub open spec fn count_at(grid: Grid, row: int, col: int, state: CellState) -> nat {
    if grid[(row, col)] == state {
        1
    } else {
        0
    }
}

/// The number of cells that hold `state`.
pub open spec fn count_of(grid: Grid, state: CellState) -> nat {
    count_at(grid, 0, 0, state) + count_at(grid, 0, 1, state) + count_at(grid, 0, 2, state)
        + count_at(grid, 1, 0, state) + count_at(grid, 1, 1, state) + count_at(grid, 1, 2, state)
        + count_at(grid, 2, 0, state) + count_at(grid, 2, 1, state) + count_at(grid, 2, 2, state)
}

/// The number of occupied cells.
pub open spec fn occupied(grid: Grid) -> nat {
    count_of(grid, CellState::Nought) + count_of(grid, CellState::Cross)
}

/// The mathematical model of a [`Board`]: its cells and the cursor.
pub struct BoardView {
    pub cells: Grid,
    pub row: int,
    pub col: int,
}

impl BoardView {
    /// The cursor is on the board, and the grid has exactly the nine cells.
    pub open spec fn wf(self) -> bool {
        &&& on_board(self.row, self.col)
        &&& forall|row: int, col: int| self.cells.dom().contains((row, col)) <==> on_board(row, col)
    }

    /// The board at the start of a match.
    pub open spec fn initial() -> BoardView {
        BoardView { cells: empty_grid(), row: 0, col: 0 }
    }

    /// The board after the cursor was asked to move one cell in `dir`: it
    /// stays where it is at the edge of the board.
    pub open spec fn moved(self, dir: Direction) -> BoardView {
        match dir {
            Direction::Up => BoardView {
                row: if self.row > 0 {
                    self.row - 1
                } else {
                    self.row
                },
                ..self
            },
            Direction::Down => BoardView {
                row: if self.row < 2 {
                    self.row + 1
                } else {
                    self.row
                },
                ..self
            },
            Direction::Left => BoardView {
                col: if self.col > 0 {
                    self.col - 1
                } else {
                    self.col
                },
                ..self
            },
            Direction::Right => BoardView {
                col: if self.col < 2 {
                    self.col + 1
                } else {
                    self.col
                },
                ..self
            },
        }
    }

    /// Whether a mark can be placed at (row, col).
    pub open spec fn accepts(self, row: int, col: int) -> bool {
        self.cells[(row, col)] == CellState::Empty
    }

    /// The board after `mark` was offered to the cell at (row, col): an empty
    /// cell takes it, an occupied one leaves the board as it is.
    pub open spec fn placed(self, row: int, col: int, mark: Mark) -> BoardView {
        if self.accepts(row, col) {
            BoardView { cells: self.cells.insert((row, col), mark.spec_cell()), ..self }
        } else {
            self
        }
    }
}

/// A 3×3 grid of cells together with the cursor of the human player.
#[derive(Clone, Copy, Debug)]
pub struct Board {
    cells: [[CellState; 3]; 3],
    row: usize,
    col: usize,
}

impl View for Board {
    type V = BoardView;

    closed spec fn view(&self) -> BoardView {
        BoardView {
            cells: Map::new(
                |p: (int, int)| on_board(p.0, p.1),
                |p: (int, int)| self.cells[p.0][p.1],
            ),
            row: self.row as int,
            col: self.col as int,
        }
    }
}

impl Board {
    /// Every board has its cursor on one of its nine cells.
    #[verifier::type_invariant]
    pub open spec fn inv(&self) -> bool {
        self@.wf()
    }

    /// An empty board with the cursor in the top left corner.
    pub fn new() -> (board: Board)
        ensures
            board@ == BoardView::initial(),
            board@.wf(),
    {
        let board = Board { cells: [[CellState::Empty; 3]; 3], row: 0, col: 0 };
        assert(board@.cells =~= empty_grid());
        board
    }

    /// The state of the cell at (row, col).
    pub fn cell(&self, row: usize, col: usize) -> (state: CellState)
        requires
            on_board(row as int, col as int),
        ensures
            state == self@.cells[(row as int, col as int)],
    {
        self.cells[row][col]
    }

    /// The position of the cursor, as (row, column).
    pub fn cursor(&self) -> (at: (usize, usize))
        ensures
            at.0 == self@.row,
            at.1 == self@.col,
            on_board(at.0 as int, at.1 as int),
    {
        proof {
            use_type_invariant(self);
        }
        (self.row, self.col)
    }

    /// Moves the cursor one cell in `dir`, or leaves it where it is when it
    /// already stands at that edge of the board.
    pub fn move_cursor(&mut self, dir: Direction)
        ensures
            final(self)@ == old(self)@.moved(dir),
            final(self)@.wf(),
        no_unwind
    {
        proof {
            use_type_invariant(&*self);
        }
        match dir {
            Direction::Up => {
                if self.row > 0 {
                    self.row = self.row - 1;
                }
            },
            Direction::Down => {
                if self.row < 2 {
                    self.row = self.row + 1;
                }
            },
            Direction::Left => {
                if self.col > 0 {
                    self.col = self.col - 1;
                }
            },
            Direction::Right => {
                if self.col < 2 {
                    self.col = self.col + 1;
                }
            },
        }
    }

    /// Puts `mark` into the cell at (row, col) if that cell is empty. Returns
    /// whether it did; an occupied cell rejects the move and nothing changes.
    pub fn place(&mut self, row: usize, col: usize, mark: Mark) -> (placed: bool)
        requires
            on_board(row as int, col as int),
        ensures
            placed == old(self)@.accepts(row as int, col as int),
            final(self)@ == old(self)@.placed(row as int, col as int, mark),
            final(self)@.wf(),
        no_unwind
    {
        proof {
            use_type_invariant(&*self);
        }
        if self.cells[row][col] == CellState::Empty {
            self.cells[row][col] = mark.cell();
            assert(self@.cells =~= old(self)@.cells.insert(
                (row as int, col as int),
                mark.spec_cell(),
            ));
            true
        } else {
            false
        }
    }

    /// Whether no cell is empty.
    pub fn is_full(&self) -> (full: bool)
        ensures
            full == grid_full(self@.cells),
    {
        let mut row: usize = 0;
        while row < 3
            invariant
                row <= 3,
                forall|r: int, c: int|
                    0 <= r < row && 0 <= c < 3 ==> self@.cells[(r, c)] != CellState::Empty,
            decreases 3 - row,
        {
            let mut col: usize = 0;
            while col < 3
                invariant
                    row < 3,
                    col <= 3,
                    forall|r: int, c: int|
                        0 <= r < row && 0 <= c < 3 ==> self@.cells[(r, c)] != CellState::Empty,
                    forall|c: int|
                        0 <= c < col ==> self@.cells[(row as int, c)] != CellState::Empty,
                decreases 3 - col,
            {
                if self.cells[row][col] == CellState::Empty {
                    assert(self@.cells[(row as int, col as int)] == CellState::Empty);
                    return false;
                }
                col = col + 1;
            }
            row = row + 1;
        }
        true
    }
}

/// The cursor never leaves the board: a move towards an edge that the cursor
/// already stands at leaves it in place, and any other move shifts it by
/// exactly one cell. The cells are not touched.
pub proof fn lemma_move_cursor_clamped(board: BoardView, dir: Direction)
    requires
        board.wf(),
    ensures
        board.moved(dir).wf(),
        board.moved(dir).cells == board.cells,
        dir == Direction::Up && board.row == 0 ==> board.moved(dir) == board,
        dir == Direction::Down && board.row == 2 ==> board.moved(dir) == board,
        dir == Direction::Left && board.col == 0 ==> board.moved(dir) == board,
        dir == Direction::Right && board.col == 2 ==> board.moved(dir) == board,
        dir == Direction::Up && board.row > 0 ==> board.moved(dir).row == board.row - 1,
        dir == Direction::Down && board.row < 2 ==> board.moved(dir).row == board.row + 1,
        dir == Direction::Left && board.col > 0 ==> board.moved(dir).col == board.col - 1,
        dir == Direction::Right && board.col < 2 ==> board.moved(dir).col == board.col + 1,
        dir == Direction::Up || dir == Direction::Down ==> board.moved(dir).col == board.col,
        dir == Direction::Left || dir == Direction::Right ==> board.moved(dir).row == board.row,
{
}

/// By how much the count of `state` in the cell at (r, c) changes when
/// `new` is put into the empty cell at (row, col): by 1 in that cell if
/// `new` is the state counted, and by nothing otherwise.
proof fn lemma_cell_delta(
    grid: Grid,
    row: int,
    col: int,
    new: CellState,
    state: CellState,
    r: int,
    c: int,
) -> (delta: int)
    requires
        grid[(row, col)] == CellState::Empty,
        state != CellState::Empty,
    ensures
        delta == count_at(grid.insert((row, col), new), r, c, state) - count_at(grid, r, c, state),
        delta == (if r == row && c == col && new == state {
            1int
        } else {
            0int
        }),
{
    reveal(count_at);
    count_at(grid.insert((row, col), new), r, c, state) - count_at(grid, r, c, state)
}

/// Putting `new` into an empty cell adds one to the count of `new` and
/// leaves the count of every other mark as it was.
proof fn lemma_count_after_insert(
    grid: Grid,
    row: int,
    col: int,
    new: CellState,
    state: CellState,
)
    requires
        on_board(row, col),
        grid[(row, col)] == CellState::Empty,
        state != CellState::Empty,
    ensures
        count_of(grid.insert((row, col), new), state) == count_of(grid, state) + (if new
            == state {
            1int
        } else {
            0int
        }),
{
    let a = lemma_cell_delta(grid, row, col, new, state, 0, 0);
    let b = lemma_cell_delta(grid, row, col, new, state, 0, 1);
    let c = lemma_cell_delta(grid, row, col, new, state, 0, 2);
    let d = lemma_cell_delta(grid, row, col, new, state, 1, 0);
    let e = lemma_cell_delta(grid, row, col, new, state, 1, 1);
    let f = lemma_cell_delta(grid, row, col, new, state, 1, 2);
    let g = lemma_cell_delta(grid, row, col, new, state, 2, 0);
    let h = lemma_cell_delta(grid, row, col, new, state, 2, 1);
    let i = lemma_cell_delta(grid, row, col, new, state, 2, 2);
    assert(count_of(grid.insert((row, col), new), state) - count_of(grid, state) == a + b + c + d
        + e + f + g + h + i);
    if row == 0 {
        assert(d + e + f + g + h + i == 0);
    } else if row == 1 {
        assert(a + b + c + g + h + i == 0);
    } else {
        assert(a + b + c + d + e + f == 0);
    }
}

/// The empty grid holds no mark.
pub proof fn lemma_empty_grid()
    ensures
        count_of(empty_grid(), CellState::Nought) == 0,
        count_of(empty_grid(), CellState::Cross) == 0,
        !grid_full(empty_grid()),
{
    reveal(count_at);
    assert(empty_grid()[(0, 0)] == CellState::Empty);
}

/// Placing on an empty cell succeeds and changes that cell alone, which then
/// holds the mark; placing on an occupied cell changes nothing. Either way
/// the cursor stays where it is and no mark leaves the board. An accepted
/// placement adds one to the count of its mark and leaves the count of the
/// other mark as it was.
pub proof fn lemma_place(board: BoardView, row: int, col: int, mark: Mark)
    requires
        board.wf(),
        on_board(row, col),
    ensures
        board.placed(row, col, mark).wf(),
        board.placed(row, col, mark).row == board.row,
        board.placed(row, col, mark).col == board.col,
        board.accepts(row, col) ==> board.placed(row, col, mark).cells[(row, col)]
            == mark.spec_cell(),
        !board.accepts(row, col) ==> board.placed(row, col, mark) == board,
        forall|r: int, c: int|
            on_board(r, c) && (r, c) != (row, col) ==> board.placed(row, col, mark).cells[(r, c)]
                == board.cells[(r, c)],
        grid_extends(board.cells, board.placed(row, col, mark).cells),
        board.accepts(row, col) ==> count_of(
            board.placed(row, col, mark).cells,
            mark.spec_cell(),
        ) == count_of(board.cells, mark.spec_cell()) + 1,
        count_of(board.placed(row, col, mark).cells, mark.other().spec_cell()) == count_of(
            board.cells,
            mark.other().spec_cell(),
        ),
{
    if board.accepts(row, col) {
        lemma_count_after_insert(board.cells, row, col, mark.spec_cell(), mark.spec_cell());
        lemma_count_after_insert(
            board.cells,
            row,
            col,
            mark.spec_cell(),
            mark.other().spec_cell(),
        );
    }
}

/// What a cell adds to the number of occupied cells: 1 if it holds a mark,
/// and 0 if it is empty.
proof fn lemma_cell_occupied(grid: Grid, row: int, col: int) -> (marks: nat)
    ensures
        marks == count_at(grid, row, col, CellState::Nought) + count_at(
            grid,
            row,
            col,
            CellState::Cross,
        ),
        marks <= 1,
        marks == 1 <==> grid[(row, col)] != CellState::Empty,
{
    reveal(count_at);
    count_at(grid, row, col, CellState::Nought) + count_at(grid, row, col, CellState::Cross)
}

/// A grid has nine cells: at most nine are occupied, and all nine are
/// exactly if the grid is full.
pub proof fn lemma_occupied(grid: Grid)
    ensures
        occupied(grid) <= 9,
        occupied(grid) == 9 <==> grid_full(grid),
{
    let a = lemma_cell_occupied(grid, 0, 0);
    let b = lemma_cell_occupied(grid, 0, 1);
    let c = lemma_cell_occupied(grid, 0, 2);
    let d = lemma_cell_occupied(grid, 1, 0);
    let e = lemma_cell_occupied(grid, 1, 1);
    let f = lemma_cell_occupied(grid, 1, 2);
    let g = lemma_cell_occupied(grid, 2, 0);
    let h = lemma_cell_occupied(grid, 2, 1);
    let i = lemma_cell_occupied(grid, 2, 2);
    assert(occupied(grid) == a + b + c + d + e + f + g + h + i);
    if occupied(grid) == 9 {
        assert(a == 1 && b == 1 && c == 1 && d == 1 && e == 1 && f == 1 && g == 1 && h == 1 && i
            == 1);
        assert forall|row: int, col: int| on_board(row, col) implies #[trigger] grid[(row, col)]
            != CellState::Empty by {
            if row == 0 {
                assert(col == 0 || col == 1 || col == 2);
            } else if row == 1 {
                assert(col == 0 || col == 1 || col == 2);
            } else {
                assert(row == 2);
                assert(col == 0 || col == 1 || col == 2);
            }
        }
    }
    if grid_full(grid) {
        assert(a == 1 && b == 1 && c == 1);
        assert(d == 1 && e == 1 && f == 1);
        assert(g == 1 && h == 1 && i == 1);
    }
}

} // verus!
