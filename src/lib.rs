//! Tic-tac-toe game logic: the board, the turn, the outcome of a round and
//! the switch between the menu and a round in play.

pub mod board;
pub mod round;
pub mod game;

pub use board::{Board, Cell, Mark, PlayingStatus, Position, Turn};
pub use round::{MarkEvent, Round};
pub use game::{Command, Game, GameEvent, GameStatus, GameStatusEvent};
