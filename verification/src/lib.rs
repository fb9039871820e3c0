//! A fixed 9-by-9 game board of digit cells for a Sudoku-like puzzle,
//! loaded from a plain digit-dump (SDM) puzzle text.

pub mod gameboard;

pub use gameboard::Gameboard;
pub use gameboard::SdmError;
