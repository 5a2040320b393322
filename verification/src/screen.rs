//! How a match looks on the terminal: the nine cells with the cursor
//! highlighted, and the result at the end.

use vstd::prelude::*;
use crate::board::{on_board, CellState};
use crate::game::{GameInfo, MatchState};
use crate::rules::Outcome;
use crate::tui::{glyph_ops, Color, DrawOpView, Tui};

verus! {

/// The big character that stands for the state of a cell.
pub open spec fn symbol_of(cell: CellState) -> char {
    match cell {
        CellState::Empty => '*',
        CellState::Nought => 'o',
        CellState::Cross => 'x',
    }
}

/// The origin of the big character in the cell at (row, col): the cells are
/// 10 rows and 15 columns apart.
pub open spec fn cell_origin(row: int, col: int) -> (u16, u16) {
    ((row * 10 + 2) as u16, (col * 15 + 6) as u16)
}

/// The operations that draw the cell at (row, col). The cell under the
/// cursor is light cyan on light black; any other cell is drawn on black,
/// light cyan if it holds a mark and black, so unseen, if it is empty.
pub open spec fn cell_ops(state: MatchState, row: int, col: int) -> Seq<DrawOpView> {
    let cell = state.board.cells[(row, col)];
    let selected = row == state.board.row && col == state.board.col;
    seq![
        DrawOpView::Foreground(
            if selected || cell != CellState::Empty {
                Color::LightCyan
            } else {
                Color::Black
            },
        ),
        DrawOpView::Background(
            if selected {
                Color::LightBlack
            } else {
                Color::Black
            },
        ),
    ] + glyph_ops(cell_origin(row, col), symbol_of(cell))
}

/// The operations that draw the first `count` cells in reading order.
pub open spec fn field_upto(state: MatchState, count: int) -> Seq<DrawOpView>
    decreases count,
{
    if count <= 0 {
        Seq::empty()
    } else {
        field_upto(state, count - 1) + cell_ops(state, (count - 1) / 3, (count - 1) % 3)
    }
}

/// The operations that draw the whole field, cell by cell in reading order.
pub open spec fn field_ops(state: MatchState) -> Seq<DrawOpView> {
    field_upto(state, 9)
}

/// The message that announces an outcome; an ongoing match has none.
pub open spec fn announcement(outcome: Outcome) -> Seq<DrawOpView> {
    match outcome {
        Outcome::NoughtWins => seq![DrawOpView::Message("Nought Win!"@)],
        Outcome::CrossWins => seq![DrawOpView::Message("Cross Win!"@)],
        Outcome::Draw => seq![DrawOpView::Message("Draw!"@)],
        Outcome::Ongoing => Seq::empty(),
    }
}

/// The operations that end the display of a match: the screen is covered
/// in light cyan on black and the result, if there is one, is printed in
/// row 15, column 17.
pub open spec fn game_over_ops(outcome: Outcome) -> Seq<DrawOpView> {
    seq![
        DrawOpView::Foreground(Color::LightCyan),
        DrawOpView::Background(Color::Black),
        DrawOpView::CoverScreen,
        DrawOpView::Goto(15, 17),
    ] + announcement(outcome)
}

impl GameInfo {
    /// Draws the cell at (row, col): its colours, then its big character.
    fn draw_cell(&self, tui: &mut Tui, row: usize, col: usize)
        requires
            on_board(row as int, col as int),
        ensures
            final(tui)@ == old(tui)@ + cell_ops(self@, row as int, col as int),
    {
        let ghost base = tui@;
        let board = self.board();
        let (cursor_row, cursor_col) = board.cursor();
        let x: u16 = row as u16 * 10 + 2;
        let y: u16 = col as u16 * 15 + 6;
        let cell = board.cell(row, col);
        if row == cursor_row && col == cursor_col {
            tui.fg_set(Color::LightCyan);
            tui.bg_set(Color::LightBlack);
        } else {
            if cell == CellState::Empty {
                tui.fg_set(Color::Black);
            } else {
                tui.fg_set(Color::LightCyan);
            }
            tui.bg_set(Color::Black);
        }
        let symbol = match cell {
            CellState::Empty => '*',
            CellState::Nought => 'o',
            CellState::Cross => 'x',
        };
        let ghost coloured = tui@;
        tui.draw_char((x, y), symbol);
        assert(coloured =~= base + cell_ops(self@, row as int, col as int).take(2));
        assert(tui@ =~= base + cell_ops(self@, row as int, col as int));
    }

    /// Draws the nine cells as they stand, with the cell under the cursor
    /// highlighted.
    pub fn update_field(&self, tui: &mut Tui)
        ensures
            final(tui)@ == old(tui)@ + field_ops(self@),
    {
        let ghost base = tui@;
        let mut i: usize = 0;
        assert(tui@ =~= base + field_upto(self@, 0));
        while i < 3
            invariant
                i <= 3,
                tui@ == base + field_upto(self@, 3 * i),
            decreases 3 - i,
        {
            let mut j: usize = 0;
            while j < 3
                invariant
                    i < 3,
                    j <= 3,
                    tui@ == base + field_upto(self@, 3 * i + j),
                decreases 3 - j,
            {
                let ghost before = tui@;
                self.draw_cell(tui, i, j);
                proof {
                    let count = 3 * i + j + 1;
                    assert((count - 1) / 3 == i && (count - 1) % 3 == j);
                    assert(base + field_upto(self@, count) =~= before + cell_ops(
                        self@,
                        i as int,
                        j as int,
                    ));
                }
                j = j + 1;
            }
            i = i + 1;
        }
    }

    /// Ends the display of the match: covers the screen and prints the
    /// result, if the match has one.
    pub fn game_over(&self, tui: &mut Tui)
        ensures
            final(tui)@ == old(tui)@ + game_over_ops(self@.outcome),
    {
        let ghost base = tui@;
        tui.fg_set(Color::LightCyan);
        tui.bg_set(Color::Black);
        tui.cover_screen();
        tui.cursor_goto(15, 17);
        match self.winner() {
            Outcome::NoughtWins => tui.print_msg("Nought Win!"),
            Outcome::CrossWins => tui.print_msg("Cross Win!"),
            Outcome::Draw => tui.print_msg("Draw!"),
            Outcome::Ongoing => {},
        }
        assert(tui@ =~= base + game_over_ops(self@.outcome));
    }
}

} // verus!
