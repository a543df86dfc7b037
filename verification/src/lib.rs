//! Rules of a game of noughts and crosses on a three-by-three board: marks,
//! the grid, the eight winning lines, the two kinds of move and who, if
//! anyone, has won.

pub mod grid;
pub mod laws;
pub mod random;
pub mod render;
pub mod session;
pub mod tictactoe;

pub use grid::{check_winner, BoardGridCell, Grid};
pub use session::BoardContext;
pub use tictactoe::{TicTacToe, TicTacToeErrors};
