//! Tic-tac-toe on a terminal: a human plays noughts against a computer that
//! answers every move with a cross in the first empty cell.
//!
//! - [`board`]: the 3×3 board and the cursor of the human player;
//! - [`rules`]: the eight lines and the outcome that a board stands for;
//! - [`strategy`]: the computer's choice of a cell;
//! - [`game`]: the state of a match and the coordinator of the two sides;
//! - [`tui`]: the display list and the escape sequences it is sent as;
//! - [`screen`]: how a match is drawn;
//! - [`attr`]: the terminal modes that a match needs.

pub mod attr;
pub mod board;
pub mod game;
pub mod rules;
pub mod screen;
pub mod strategy;
pub mod tui;
