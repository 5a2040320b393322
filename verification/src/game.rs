//! The state of a match and the coordinator that lets the human and the
//! computer move in turn.
//!
//! The two sides may run on threads of their own that share a [`Game`]
//! behind a lock. A side sleeps until [`Game::is_turn`] holds for it, asks
//! with [`Game::human_command`] or [`Game::computer_turn`], and wakes the
//! other side when the answer is [`Step::Passed`]. A side that asks out of
//! turn, or after the end of the match, is turned away with
//! [`Step::Blocked`] and changes nothing.

use vstd::prelude::*;
use crate::board::{
    count_of, empty_grid, grid_extends, grid_full, lemma_empty_grid, lemma_occupied, lemma_place,
    occupied, Board, BoardView, CellState, Direction, Mark,
};
use crate::rules::{
    evaluate, has_line, lemma_move_gives_rival_no_line, lemma_outcome_sound, lemma_single_winner,
    outcome_of, Outcome,
};
use crate::strategy::{first_empty, lemma_first_empty, select_move};

verus! {

/// The two sides of a match.
#[derive(Clone, Copy, Debug, PartialEq, Eq, Structural)]
pub enum Player {
    Computer,
    Human,
}

/// A key as the keyboard reports it.
#[derive(Clone, Copy, Debug, PartialEq, Eq, Structural)]
pub enum Key {
    Left,
    Right,
    Up,
    Down,
    Char(char),
    Esc,
    Other,
}

/// What the human asks for with a key.
#[derive(Clone, Copy, Debug, PartialEq, Eq, Structural)]
pub enum Command {
    MoveUp,
    MoveDown,
    MoveLeft,
    MoveRight,
    Confirm,
    Quit,
    Ignore,
}

impl Command {
    /// The command that a key stands for: the arrows move the cursor, the
    /// enter key confirms, escape quits, and every other key is ignored.
    pub open spec fn spec_from_key(key: Key) -> Command {
        match key {
            Key::Left => Command::MoveLeft,
            Key::Right => Command::MoveRight,
            Key::Up => Command::MoveUp,
            Key::Down => Command::MoveDown,
            Key::Char(c) => if c == '\n' {
                Command::Confirm
            } else {
                Command::Ignore
            },
            Key::Esc => Command::Quit,
            Key::Other => Command::Ignore,
        }
    }

    /// The command that a key stands for: the arrows move the cursor, the
    /// enter key confirms, escape quits, and every other key is ignored.
    #[verifier::when_used_as_spec(spec_from_key)]
    pub fn from_key(key: Key) -> (command: Command)
        ensures
            command == Command::spec_from_key(key),
    {
        match key {
            Key::Left => Command::MoveLeft,
            Key::Right => Command::MoveRight,
            Key::Up => Command::MoveUp,
            Key::Down => Command::MoveDown,
            Key::Char(c) => if c == '\n' {
                Command::Confirm
            } else {
                Command::Ignore
            },
            Key::Esc => Command::Quit,
            Key::Other => Command::Ignore,
        }
    }

    /// The direction in which a movement command moves the cursor.
    pub open spec fn spec_direction(self) -> Option<Direction> {
        match self {
            Command::MoveUp => Some(Direction::Up),
            Command::MoveDown => Some(Direction::Down),
            Command::MoveLeft => Some(Direction::Left),
            Command::MoveRight => Some(Direction::Right),
            _ => None,
        }
    }

    /// The direction in which a movement command moves the cursor.
    #[verifier::when_used_as_spec(spec_direction)]
    pub fn direction(self) -> (dir: Option<Direction>)
        ensures
            dir == self.spec_direction(),
    {
        match self {
            Command::MoveUp => Some(Direction::Up),
            Command::MoveDown => Some(Direction::Down),
            Command::MoveLeft => Some(Direction::Left),
            Command::MoveRight => Some(Direction::Right),
            _ => None,
        }
    }
}

/// What the input loop does after a command was handled.
#[derive(Clone, Copy, Debug, PartialEq, Eq, Structural)]
pub enum KeyAction {
    /// The state may have changed: draw the field again and read on.
    Redraw,
    /// The human's input for this turn is complete: stop reading.
    Finish,
    /// Nothing happened: read on without drawing.
    Ignore,
}

/// The mathematical model of a [`GameInfo`].
pub struct MatchState {
    pub board: BoardView,
    pub turn: Player,
    pub outcome: Outcome,
    pub force_over: bool,
}

impl MatchState {
    /// The board is well formed: nine cells, and the cursor on one of them.
    pub open spec fn wf(self) -> bool {
        self.board.wf()
    }

    /// The state at the start of a match: an empty board, the human to move,
    /// nothing decided.
    pub open spec fn initial() -> MatchState {
        MatchState {
            board: BoardView::initial(),
            turn: Player::Human,
            outcome: Outcome::Ongoing,
            force_over: false,
        }
    }

    /// Whether the cell under the cursor is empty.
    pub open spec fn cursor_free(self) -> bool {
        self.board.accepts(self.board.row, self.board.col)
    }

    /// The state after `mark` was offered to the cell under the cursor.
    pub open spec fn human_moved(self, mark: Mark) -> MatchState {
        MatchState { board: self.board.placed(self.board.row, self.board.col, mark), ..self }
    }

    /// The state after `mark` was put into the first empty cell in reading
    /// order.
    pub open spec fn computer_moved(self, mark: Mark) -> MatchState {
        match first_empty(self.board.cells) {
            Some((row, col)) => MatchState { board: self.board.placed(row, col, mark), ..self },
            None => self,
        }
    }

    /// The state after the outcome was brought up to date with the board.
    pub open spec fn evaluated(self) -> MatchState {
        MatchState { outcome: outcome_of(self.board.cells), ..self }
    }

    /// The state after the turn was handed to `next`.
    pub open spec fn handed_to(self, next: Player) -> MatchState {
        MatchState { turn: next, ..self }
    }

    /// The state after the human's command was carried out: a movement moves
    /// the cursor, a confirmation offers a nought to the cell under the
    /// cursor, quitting raises the forced end, and the rest changes nothing.
    pub open spec fn after_key(self, command: Command) -> MatchState {
        match command {
            Command::Confirm => self.human_moved(Mark::Nought),
            Command::Quit => MatchState { force_over: true, ..self },
            Command::Ignore => self,
            _ => MatchState { board: self.board.moved(command.spec_direction()->0), ..self },
        }
    }

    /// What the input loop does after the command: it stops reading after an
    /// accepted placement and after quitting, it reads on without drawing
    /// after an ignored key, and it draws and reads on after anything else.
    pub open spec fn action_of(self, command: Command) -> KeyAction {
        match command {
            Command::Confirm => if self.cursor_free() {
                KeyAction::Finish
            } else {
                KeyAction::Redraw
            },
            Command::Quit => KeyAction::Finish,
            Command::Ignore => KeyAction::Ignore,
            _ => KeyAction::Redraw,
        }
    }
}

/// The state that the two sides of a match share: the board with its
/// cursor, whose turn it is, the outcome as it was last evaluated, and
/// whether the human has forced the end of the match.
#[derive(Clone, Copy, Debug)]
pub struct GameInfo {
    board: Board,
    player: Player,
    winner: Outcome,
    force_over: bool,
}

impl View for GameInfo {
    type V = MatchState;

    closed spec fn view(&self) -> MatchState {
        MatchState {
            board: self.board@,
            turn: self.player,
            outcome: self.winner,
            force_over: self.force_over,
        }
    }
}

impl GameInfo {
    /// Every state has a well-formed board.
    #[verifier::type_invariant]
    pub open spec fn inv(&self) -> bool {
        self@.wf()
    }

    /// The state at the start of a match.
    pub fn new() -> (info: GameInfo)
        ensures
            info@ == MatchState::initial(),
    {
        GameInfo {
            board: Board::new(),
            player: Player::Human,
            winner: Outcome::Ongoing,
            force_over: false,
        }
    }

    /// The board and its cursor.
    pub fn board(&self) -> (board: &Board)
        ensures
            board@ == self@.board,
            board@.wf(),
    {
        proof {
            use_type_invariant(self);
        }
        &self.board
    }

    /// The side whose turn it is.
    pub fn player(&self) -> (player: Player)
        ensures
            player == self@.turn,
    {
        self.player
    }

    /// The outcome as it was last evaluated.
    pub fn winner(&self) -> (winner: Outcome)
        ensures
            winner == self@.outcome,
    {
        self.winner
    }

    /// Whether the human has forced the end of the match.
    pub fn force_over(&self) -> (forced: bool)
        ensures
            forced == self@.force_over,
    {
        self.force_over
    }

    /// Whether it is the turn of `which`. A side that waits for its turn
    /// asks again after every wake-up and moves only once this holds.
    pub fn is_turn(&self, which: Player) -> (yes: bool)
        ensures
            yes == (self@.turn == which),
    {
        self.player == which
    }

    /// Hands the turn to `next`. The side that has moved calls this last,
    /// after the outcome was evaluated, and then wakes the other side.
    pub fn complete_turn(&mut self, next: Player)
        ensures
            final(self)@ == old(self)@.handed_to(next),
    {
        proof {
            use_type_invariant(&*self);
        }
        self.player = next;
    }

    /// Offers `status` to the cell under the cursor. Returns whether the
    /// cell took it: an occupied cell rejects the move and nothing changes.
    pub fn human_move(&mut self, status: Mark) -> (placed: bool)
        ensures
            placed == old(self)@.cursor_free(),
            final(self)@ == old(self)@.human_moved(status),
    {
        proof {
            use_type_invariant(&*self);
        }
        let (row, col) = self.board.cursor();
        self.board.place(row, col, status)
    }

    /// Puts `status` into the first empty cell in reading order. The board
    /// must have an empty cell: the computer is never asked to move on a
    /// full board.
    pub fn computer_move(&mut self, status: Mark)
        requires
            !grid_full(old(self)@.board.cells),
        ensures
            final(self)@ == old(self)@.computer_moved(status),
            final(self)@.board.cells != old(self)@.board.cells,
    {
        proof {
            use_type_invariant(&*self);
        }
        match select_move(&self.board) {
            Some((row, col)) => {
                let placed = self.board.place(row, col, status);
                assert(placed);
                assert(self@.board.cells[(row as int, col as int)] == status.spec_cell());
            },
            None => {},
        }
    }

    /// Brings the outcome up to date with the board. Returns whether the
    /// match is decided: won by a side, or drawn.
    pub fn check_win(&mut self) -> (decided: bool)
        ensures
            final(self)@ == old(self)@.evaluated(),
            decided == (outcome_of(old(self)@.board.cells) != Outcome::Ongoing),
    {
        proof {
            use_type_invariant(&*self);
        }
        self.winner = evaluate(&self.board);
        self.winner != Outcome::Ongoing
    }

    /// Carries out one command of the human and says what the input loop
    /// does next.
    pub fn operate_key(&mut self, command: Command) -> (action: KeyAction)
        ensures
            final(self)@ == old(self)@.after_key(command),
            action == old(self)@.action_of(command),
    {
        proof {
            use_type_invariant(&*self);
        }
        match command {
            Command::Confirm => {
                if self.human_move(Mark::Nought) {
                    KeyAction::Finish
                } else {
                    KeyAction::Redraw
                }
            },
            Command::Quit => {
                self.force_over = true;
                KeyAction::Finish
            },
            Command::Ignore => KeyAction::Ignore,
            _ => {
                match command.direction() {
                    Some(dir) => {
                        self.board.move_cursor(dir);
                    },
                    None => {},
                }
                KeyAction::Redraw
            },
        }
    }
}

/// Evaluating twice is the same as evaluating once: the second evaluation
/// finds the outcome that the first one stored and changes nothing.
pub proof fn lemma_check_win_idempotent(state: MatchState)
    ensures
        state.evaluated().evaluated() == state.evaluated(),
        state.evaluated().outcome == outcome_of(state.board.cells),
{
}

/// Commands never take a mark off the board and never move the cursor off
/// it; only a confirmation on an empty cell changes a cell, and it changes
/// the cell under the cursor alone.
pub proof fn lemma_after_key(state: MatchState, command: Command)
    requires
        state.wf(),
    ensures
        state.after_key(command).wf(),
        state.after_key(command).turn == state.turn,
        state.after_key(command).outcome == state.outcome,
        grid_extends(state.board.cells, state.after_key(command).board.cells),
        !(command == Command::Confirm && state.cursor_free()) ==> state.after_key(
            command,
        ).board.cells == state.board.cells,
        command == Command::Confirm && state.cursor_free() ==> state.after_key(
            command,
        ).board.cells == state.board.cells.insert(
            (state.board.row, state.board.col),
            CellState::Nought,
        ),
        state.after_key(command).force_over == (state.force_over || command == Command::Quit),
{
    lemma_place(state.board, state.board.row, state.board.col, Mark::Nought);
}

/// What a call on the coordinator did.
#[derive(Clone, Copy, Debug, PartialEq, Eq, Structural)]
pub enum Step {
    /// Nothing: it is not the caller's turn, or the match is over.
    Blocked,
    /// Nothing: the command was one to ignore.
    Ignored,
    /// The cursor was moved or a placement was rejected; the turn goes on.
    Redraw,
    /// A mark was placed and the turn went to the other side.
    Passed,
    /// The match has ended, by a decisive placement or because the human
    /// quit.
    Finished,
}

/// What a side asks of the coordinator when it has woken up.
#[derive(Clone, Copy, Debug, PartialEq, Eq, Structural)]
pub enum Event {
    /// The human gives a command.
    Human(Command),
    /// The computer asks to move.
    Computer,
}

/// The side that makes placement number `i` of a match, counted from 0: the
/// human begins and the sides alternate.
pub open spec fn mover(i: int) -> Player {
    if i % 2 == 0 {
        Player::Human
    } else {
        Player::Computer
    }
}

/// The mathematical model of a [`Game`]: the shared state and, for every
/// placement made so far, the side that made it.
pub struct GameView {
    pub state: MatchState,
    pub history: Seq<Player>,
}

impl GameView {
    /// A match that has just been set up.
    pub open spec fn initial() -> GameView {
        GameView { state: MatchState::initial(), history: Seq::empty() }
    }

    /// Whether the match has ended: it is decided, or the human quit.
    pub open spec fn is_over(self) -> bool {
        self.state.outcome != Outcome::Ongoing || self.state.force_over
    }

    /// Whether `who` may act: the match goes on and it is the turn of `who`.
    pub open spec fn may_move(self, who: Player) -> bool {
        !self.is_over() && self.state.turn == who
    }

    /// What holds of every match that the coordinator has run:
    /// - the board is well formed;
    /// - the outcome is the one that the board stands for;
    /// - the computer is to move only in a match that goes on;
    /// - at most one of the two marks fills a line;
    /// - the placements were made by the two sides in turn, the human first;
    /// - the board holds one nought for every placement of the human and
    ///   one cross for every placement of the computer;
    /// - in an ongoing match it is the turn of the side that makes the next
    ///   placement;
    /// - a match that was won was won with the last placement, so by the
    ///   human after an odd number of placements and by the computer after
    ///   an even number;
    /// - a match that the human has quit was undecided then and is still.
    pub open spec fn wf(self) -> bool {
        let cells = self.state.board.cells;
        let moves = self.history.len() as int;
        &&& self.state.wf()
        &&& self.state.outcome == outcome_of(cells)
        &&& self.state.turn == Player::Computer ==> !self.is_over()
        &&& !(has_line(cells, Mark::Nought) && has_line(cells, Mark::Cross))
        &&& forall|i: int| 0 <= i < moves ==> #[trigger] self.history[i] == mover(i)
        &&& count_of(cells, CellState::Nought) == (moves + 1) / 2
        &&& count_of(cells, CellState::Cross) == moves / 2
        &&& self.state.outcome == Outcome::Ongoing ==> self.state.turn == mover(moves)
        &&& self.state.outcome == Outcome::NoughtWins ==> moves % 2 == 1
        &&& self.state.outcome == Outcome::CrossWins ==> moves % 2 == 0 && moves >= 2
        &&& self.state.force_over ==> self.state.outcome == Outcome::Ongoing
    }

    /// The match after the human gave a command. While the human may not
    /// act, nothing happens. Otherwise the command is carried out; after an
    /// accepted placement the outcome is evaluated, the placement is
    /// recorded, and the turn goes to the computer if the match is still
    /// ongoing.
    pub open spec fn after_command(self, command: Command) -> GameView {
        if !self.may_move(Player::Human) {
            self
        } else if command == Command::Confirm && self.state.cursor_free() {
            let moved = self.state.after_key(command).evaluated();
            GameView {
                state: if moved.outcome == Outcome::Ongoing {
                    moved.handed_to(Player::Computer)
                } else {
                    moved
                },
                history: self.history.push(Player::Human),
            }
        } else {
            GameView { state: self.state.after_key(command), ..self }
        }
    }

    /// What [`GameView::after_command`] reports.
    pub open spec fn step_of(self, command: Command) -> Step {
        if !self.may_move(Player::Human) {
            Step::Blocked
        } else {
            match self.state.action_of(command) {
                KeyAction::Ignore => Step::Ignored,
                KeyAction::Redraw => Step::Redraw,
                KeyAction::Finish => if command == Command::Confirm && self.after_command(
                    command,
                ).state.outcome == Outcome::Ongoing {
                    Step::Passed
                } else {
                    Step::Finished
                },
            }
        }
    }

    /// The match after the computer was asked to move. While the computer
    /// may not act, nothing happens. Otherwise it marks the first empty cell
    /// with a cross, the outcome is evaluated, the placement is recorded, and
    /// the turn goes back to the human whatever the outcome.
    pub open spec fn after_computer(self) -> GameView {
        if !self.may_move(Player::Computer) {
            self
        } else {
            GameView {
                state: self.state.computer_moved(Mark::Cross).evaluated().handed_to(Player::Human),
                history: self.history.push(Player::Computer),
            }
        }
    }

    /// What [`GameView::after_computer`] reports.
    pub open spec fn computer_step(self) -> Step {
        if self.may_move(Player::Computer) {
            Step::Passed
        } else {
            Step::Blocked
        }
    }

    /// The match after one request of a side.
    pub open spec fn after_event(self, event: Event) -> GameView {
        match event {
            Event::Human(command) => self.after_command(command),
            Event::Computer => self.after_computer(),
        }
    }

    /// The match after the requests of the two sides, in the order in which
    /// they came in.
    pub open spec fn after_events(self, events: Seq<Event>) -> GameView
        decreases events.len(),
    {
        if events.len() == 0 {
            self
        } else {
            self.after_event(events[0]).after_events(events.skip(1))
        }
    }

    /// The match after it was run on a stream of commands. The computer
    /// moves whenever it is its turn; the human's commands are carried out
    /// one by one while the match goes on. The run ends when the match is
    /// over or the commands are used up.
    pub open spec fn run(self, commands: Seq<Command>) -> GameView
        decreases commands.len(),
    {
        let ready = self.after_computer();
        if ready.is_over() || commands.len() == 0 {
            ready
        } else {
            ready.after_command(commands[0]).run(commands.skip(1))
        }
    }
}

/// The coordinator of a match. It owns the shared state, lets a side act
/// only when it is that side's turn and the match goes on, evaluates the
/// outcome after every placement and only then hands the turn over.
pub struct Game {
    gameinfo: GameInfo,
    history: Ghost<Seq<Player>>,
}

impl View for Game {
    type V = GameView;

    closed spec fn view(&self) -> GameView {
        GameView { state: self.gameinfo@, history: self.history@ }
    }
}

impl Game {
    /// Every match that the coordinator holds is well formed.
    #[verifier::type_invariant]
    pub open spec fn inv(&self) -> bool {
        self@.wf()
    }

    /// A match that has just been set up: an empty board, the human to move.
    pub fn new() -> (game: Game)
        ensures
            game@ == GameView::initial(),
    {
        proof {
            lemma_initial_wf();
        }
        Game { gameinfo: GameInfo::new(), history: Ghost(Seq::empty()) }
    }

    /// The shared state, for reading.
    pub fn info(&self) -> (info: &GameInfo)
        ensures
            info@ == self@.state,
            self@.wf(),
    {
        proof {
            use_type_invariant(self);
        }
        &self.gameinfo
    }

    /// The outcome of the match as it stands.
    pub fn outcome(&self) -> (outcome: Outcome)
        ensures
            outcome == self@.state.outcome,
            outcome == outcome_of(self@.state.board.cells),
    {
        proof {
            use_type_invariant(self);
        }
        self.gameinfo.winner()
    }

    /// Whether the match has ended: it is decided, or the human quit.
    pub fn is_over(&self) -> (over: bool)
        ensures
            over == self@.is_over(),
    {
        self.gameinfo.winner() != Outcome::Ongoing || self.gameinfo.force_over()
    }

    /// Whether it is the turn of `which`. A side that waits for its turn
    /// asks again after every wake-up and acts only once this holds.
    pub fn is_turn(&self, which: Player) -> (yes: bool)
        ensures
            yes == (self@.state.turn == which),
    {
        self.gameinfo.is_turn(which)
    }

    /// Carries out one command of the human, if the human may act.
    pub fn human_command(&mut self, command: Command) -> (step: Step)
        ensures
            final(self)@ == old(self)@.after_command(command),
            step == old(self)@.step_of(command),
    {
        proof {
            use_type_invariant(&*self);
            lemma_after_command_wf(self@, command);
        }
        if self.is_over() || !self.is_turn(Player::Human) {
            return Step::Blocked;
        }
        let mut info = self.gameinfo;
        match info.operate_key(command) {
            KeyAction::Ignore => Step::Ignored,
            KeyAction::Redraw => {
                self.gameinfo = info;
                Step::Redraw
            },
            KeyAction::Finish => {
                if info.force_over() {
                    self.gameinfo = info;
                    Step::Finished
                } else {
                    let decided = info.check_win();
                    if !decided {
                        info.complete_turn(Player::Computer);
                    }
                    *self = Game {
                        gameinfo: info,
                        history: Ghost(self.history@.push(Player::Human)),
                    };
                    if decided {
                        Step::Finished
                    } else {
                        Step::Passed
                    }
                }
            },
        }
    }

    /// Lets the computer make its move, if the computer may act.
    pub fn computer_turn(&mut self) -> (step: Step)
        ensures
            final(self)@ == old(self)@.after_computer(),
            step == old(self)@.computer_step(),
    {
        proof {
            use_type_invariant(&*self);
            lemma_after_computer_wf(self@);
            lemma_outcome_sound(self@.state.board.cells);
        }
        if self.is_over() || !self.is_turn(Player::Computer) {
            return Step::Blocked;
        }
        let mut info = self.gameinfo;
        info.computer_move(Mark::Cross);
        info.check_win();
        info.complete_turn(Player::Human);
        *self = Game { gameinfo: info, history: Ghost(self.history@.push(Player::Computer)) };
        Step::Passed
    }

    /// Runs the match on a stream of commands, the computer answering each
    /// placement of the human, until the match is over or the commands are
    /// used up. Returns the outcome at that point.
    pub fn start(&mut self, commands: &Vec<Command>) -> (outcome: Outcome)
        ensures
            final(self)@ == old(self)@.run(commands@),
            outcome == final(self)@.state.outcome,
    {
        let ghost begin = self@;
        proof {
            lemma_computer_settles(begin);
            lemma_run_after_computer(begin, commands@);
        }
        self.computer_turn();
        let mut next: usize = 0;
        assert(commands@.skip(0) =~= commands@);
        while next < commands.len() && !self.is_over()
            invariant
                next <= commands.len(),
                !self@.may_move(Player::Computer),
                self@.run(commands@.skip(next as int)) == begin.run(commands@),
            decreases commands.len() - next,
        {
            let ghost before = self@;
            let ghost rest = commands@.skip(next as int);
            self.human_command(commands[next]);
            proof {
                assert(rest.skip(1) =~= commands@.skip(next + 1));
                assert(before.after_computer() == before);
                lemma_computer_settles(before.after_command(rest[0]));
                lemma_run_after_computer(before.after_command(rest[0]), rest.skip(1));
            }
            self.computer_turn();
            next = next + 1;
        }
        proof {
            assert(self@.after_computer() == self@);
        }
        self.gameinfo.winner()
    }
}

/// A new match is well formed.
pub proof fn lemma_initial_wf()
    ensures
        GameView::initial().wf(),
{
    lemma_empty_grid();
    lemma_outcome_sound(empty_grid());
}

/// A command of the human keeps the match well formed.
pub proof fn lemma_after_command_wf(game: GameView, command: Command)
    requires
        game.wf(),
    ensures
        game.after_command(command).wf(),
{
    let board = game.state.board;
    lemma_after_key(game.state, command);
    if game.may_move(Player::Human) && command == Command::Confirm && game.state.cursor_free() {
        lemma_place(board, board.row, board.col, Mark::Nought);
        lemma_outcome_sound(board.cells);
        lemma_move_gives_rival_no_line(board.cells, board.row, board.col, Mark::Nought);
        lemma_outcome_sound(game.after_command(command).state.board.cells);
    }
}

/// A move of the computer keeps the match well formed.
pub proof fn lemma_after_computer_wf(game: GameView)
    requires
        game.wf(),
    ensures
        game.after_computer().wf(),
{
    let board = game.state.board;
    if game.may_move(Player::Computer) {
        lemma_outcome_sound(board.cells);
        lemma_first_empty(board.cells);
        let (row, col) = first_empty(board.cells)->0;
        lemma_place(board, row, col, Mark::Cross);
        lemma_move_gives_rival_no_line(board.cells, row, col, Mark::Cross);
        lemma_outcome_sound(game.after_computer().state.board.cells);
    }
}

/// Once the computer was asked to move it has nothing left to do: asking
/// again changes nothing.
pub proof fn lemma_computer_settles(game: GameView)
    ensures
        !game.after_computer().may_move(Player::Computer),
        game.after_computer().after_computer() == game.after_computer(),
{
}

/// A run begins by letting the computer move if it is its turn, so it makes
/// no difference whether the computer has already done so.
pub proof fn lemma_run_after_computer(game: GameView, commands: Seq<Command>)
    ensures
        game.after_computer().run(commands) == game.run(commands),
{
    lemma_computer_settles(game);
}

/// The sides move strictly in turn, the human first: in a well-formed match
/// the placements go human, computer, human, and so on, so no side ever
/// makes two placements in a row, and the side whose turn it is in an
/// ongoing match is the one that did not make the last placement.
pub proof fn lemma_turns_alternate(game: GameView)
    requires
        game.wf(),
    ensures
        forall|i: int| 0 <= i < game.history.len() ==> #[trigger] game.history[i] == mover(i),
        game.history.len() > 0 ==> game.history[0] == Player::Human,
        forall|i: int|
            0 <= i && i + 1 < game.history.len() ==> #[trigger] game.history[i] != game.history[i
                + 1],
        game.state.outcome == Outcome::Ongoing && game.history.len() > 0
            ==> game.state.turn != game.history.last(),
{
    assert forall|i: int| 0 <= i && i + 1 < game.history.len() implies #[trigger] game.history[i]
        != game.history[i + 1] by {
        assert(game.history[i] == mover(i));
        assert(game.history[i + 1] == mover(i + 1));
    }
    if game.history.len() > 0 {
        assert(game.history[0] == mover(0));
        assert(game.history.last() == mover(game.history.len() - 1));
    }
}

/// Every placement fills one cell, so a match has at most nine placements,
/// the human's five at most and the computer's four; and a match in which
/// all nine were made is over.
pub proof fn lemma_match_length(game: GameView)
    requires
        game.wf(),
    ensures
        game.history.len() == occupied(game.state.board.cells),
        game.history.len() <= 9,
        game.history.len() == 9 ==> game.state.outcome != Outcome::Ongoing,
{
    lemma_occupied(game.state.board.cells);
    lemma_outcome_sound(game.state.board.cells);
}

/// In a well-formed match at most one side fills a line, so the final
/// outcomes exclude each other: a side has won exactly if it fills a line,
/// and the match is drawn exactly if the board is full and no side does.
pub proof fn lemma_one_final_outcome(game: GameView)
    requires
        game.wf(),
    ensures
        !(has_line(game.state.board.cells, Mark::Nought) && has_line(
            game.state.board.cells,
            Mark::Cross,
        )),
        game.state.outcome == Outcome::NoughtWins <==> has_line(
            game.state.board.cells,
            Mark::Nought,
        ),
        game.state.outcome == Outcome::CrossWins <==> has_line(game.state.board.cells, Mark::Cross),
        game.state.outcome == Outcome::Draw <==> !has_line(game.state.board.cells, Mark::Nought)
            && !has_line(game.state.board.cells, Mark::Cross) && grid_full(
            game.state.board.cells,
        ),
{
    lemma_single_winner(game.state.board.cells);
}

/// A match is won with the last placement, by the side that made it: the
/// human has made the last placement of a match that noughts have won, and
/// the computer that of a match that crosses have won. A drawn match has
/// all nine placements, the last of them the human's. A match that the
/// human has quit is undecided.
pub proof fn lemma_winner_moved_last(game: GameView)
    requires
        game.wf(),
    ensures
        game.state.outcome == Outcome::NoughtWins ==> game.history.len() > 0
            && game.history.last() == Player::Human,
        game.state.outcome == Outcome::CrossWins ==> game.history.len() > 0
            && game.history.last() == Player::Computer,
        game.state.outcome == Outcome::Draw ==> game.history.len() == 9 && game.history.last()
            == Player::Human,
        game.state.force_over ==> game.state.outcome == Outcome::Ongoing,
{
    lemma_match_length(game);
    lemma_occupied(game.state.board.cells);
    lemma_outcome_sound(game.state.board.cells);
    if game.history.len() > 0 {
        assert(game.history.last() == mover(game.history.len() - 1));
    }
}

/// No side moves after the match has ended: neither a command of the human
/// nor a request to the computer changes a match that is over, and the
/// computer is never to move in such a match.
pub proof fn lemma_over_is_final(game: GameView, command: Command)
    requires
        game.wf(),
        game.is_over(),
    ensures
        game.after_command(command) == game,
        game.after_computer() == game,
        game.state.turn == Player::Human,
{
}

/// A step of either side keeps every mark on the board where it is and adds
/// at most one placement to the record.
pub proof fn lemma_step_keeps_marks(game: GameView, command: Command)
    requires
        game.wf(),
    ensures
        grid_extends(game.state.board.cells, game.after_command(command).state.board.cells),
        grid_extends(game.state.board.cells, game.after_computer().state.board.cells),
        game.history.is_prefix_of(game.after_command(command).history),
        game.history.is_prefix_of(game.after_computer().history),
{
    let board = game.state.board;
    lemma_after_key(game.state, command);
    if game.may_move(Player::Computer) {
        lemma_outcome_sound(board.cells);
        lemma_first_empty(board.cells);
        let (row, col) = first_empty(board.cells)->0;
        lemma_place(board, row, col, Mark::Cross);
    }
}

/// Running a well-formed match on any stream of commands leaves it well
/// formed. The run only adds to the match: every mark stays where it was,
/// and the record of placements is extended.
pub proof fn lemma_run_wf(game: GameView, commands: Seq<Command>)
    requires
        game.wf(),
    ensures
        game.run(commands).wf(),
        grid_extends(game.state.board.cells, game.run(commands).state.board.cells),
        game.history.is_prefix_of(game.run(commands).history),
    decreases commands.len(),
{
    let ready = game.after_computer();
    lemma_after_computer_wf(game);
    lemma_step_keeps_marks(game, Command::Ignore);
    if !(ready.is_over() || commands.len() == 0) {
        let next = ready.after_command(commands[0]);
        lemma_after_command_wf(ready, commands[0]);
        lemma_step_keeps_marks(ready, commands[0]);
        lemma_run_wf(next, commands.skip(1));
    }
}

/// Quitting ends the match at once: when the human quits while the match is
/// ongoing, the run stops there with the match still undecided and the
/// board as it was, whatever commands follow.
pub proof fn lemma_quit_ends_ongoing(game: GameView, commands: Seq<Command>)
    requires
        game.wf(),
        game.may_move(Player::Human),
        commands.len() > 0,
        commands[0] == Command::Quit,
    ensures
        game.after_command(Command::Quit).is_over(),
        game.step_of(Command::Quit) == Step::Finished,
        game.run(commands).state.outcome == Outcome::Ongoing,
        game.run(commands).state.force_over,
        game.run(commands).state.board == game.state.board,
        game.run(commands).history == game.history,
{
    let quit = game.after_command(Command::Quit);
    assert(quit.run(commands.skip(1)) == quit);
}

/// A side that asks out of turn is turned away: while it is the human's
/// turn a request of the computer changes nothing, and while it is the
/// computer's turn no command of the human does. So a side that wakes up
/// early, and asks before its turn has come, does no harm.
pub proof fn lemma_out_of_turn_is_blocked(game: GameView, command: Command)
    ensures
        game.state.turn == Player::Human ==> game.after_computer() == game && game.computer_step()
            == Step::Blocked,
        game.state.turn == Player::Computer ==> game.after_command(command) == game
            && game.step_of(command) == Step::Blocked,
{
}

/// No turn is missed: while the match goes on, exactly one side may act.
/// When that side is the computer, its request places a cross and hands the
/// turn to the human. When it is the human, there is an empty cell to move
/// to, and a confirmation on an empty cell places a nought and, unless it
/// ends the match, hands the turn to the computer.
pub proof fn lemma_turn_makes_progress(game: GameView)
    requires
        game.wf(),
        !game.is_over(),
    ensures
        game.may_move(Player::Human) != game.may_move(Player::Computer),
        !grid_full(game.state.board.cells),
        game.may_move(Player::Computer) ==> {
            &&& game.after_computer().history == game.history.push(Player::Computer)
            &&& game.after_computer().state.turn == Player::Human
            &&& occupied(game.after_computer().state.board.cells) == occupied(
                game.state.board.cells,
            ) + 1
        },
        game.may_move(Player::Human) && game.state.cursor_free() ==> {
            let next = game.after_command(Command::Confirm);
            &&& next.history == game.history.push(Player::Human)
            &&& next.state.board.cells[(game.state.board.row, game.state.board.col)]
                == CellState::Nought
            &&& next.is_over() || next.state.turn == Player::Computer
        },
{
    lemma_outcome_sound(game.state.board.cells);
    lemma_after_computer_wf(game);
    lemma_match_length(game);
    lemma_match_length(game.after_computer());
    lemma_place(game.state.board, game.state.board.row, game.state.board.col, Mark::Nought);
}

/// The match stays well formed whatever the order in which the two sides
/// ask: any sequence of requests, in turn or out of turn, keeps every mark
/// on the board, extends the record of placements, and leaves a match in
/// which the sides have moved strictly in turn.
pub proof fn lemma_any_order_wf(game: GameView, events: Seq<Event>)
    requires
        game.wf(),
    ensures
        game.after_events(events).wf(),
        grid_extends(game.state.board.cells, game.after_events(events).state.board.cells),
        game.history.is_prefix_of(game.after_events(events).history),
    decreases events.len(),
{
    if events.len() > 0 {
        let next = game.after_event(events[0]);
        match events[0] {
            Event::Human(command) => {
                lemma_after_command_wf(game, command);
                lemma_step_keeps_marks(game, command);
            },
            Event::Computer => {
                lemma_after_computer_wf(game);
                lemma_step_keeps_marks(game, Command::Ignore);
            },
        }
        lemma_any_order_wf(next, events.skip(1));
    }
}

} // verus!
