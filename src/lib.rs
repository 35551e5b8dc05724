//! A terminal snake game: the board, the snake's movement rules, the
//! interpretation of key presses and the decisions taken on each tick.
//! Drawing and reading keys are left to the program around the library.

pub mod board;
pub mod game;
pub mod snake;
