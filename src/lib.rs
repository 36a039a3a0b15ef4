//! A terminal snake game: the board, the snake, food placement, key handling,
//! the per-tick state machine and the text frame, all with checked contracts.
//! Reading keys, timing and drawing to the console are left to the caller.

pub mod grid;
pub mod snake;
pub mod food;
pub mod input;
pub mod game;
pub mod render;
