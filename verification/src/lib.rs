//! Rules engine of a falling-block puzzle: the play field, the active piece,
//! collision, line clearing, scoring and the look-ahead piece supply.
//!
//! Every executable function carries a contract over a mathematical model of
//! the game (`Board`, `Piece`, `Supply`), and the laws that relate the
//! operations to each other are proved in `laws`.

mod bits;
pub mod board;
pub mod game;
pub mod grid;
pub mod laws;
pub mod model;
pub mod piece;
pub mod rng;
pub mod shape;
pub mod supply;
pub mod tables;

pub use board::BoardMap;
pub use game::{board_event_update, player_update, EventReport, PlayerInput};
pub use model::Board;
pub use piece::Piece;
pub use shape::{BoardEvent, MoveDirection, RotateDirection, Tetromino};
pub use supply::{Supply, TetrominoSupplier};
