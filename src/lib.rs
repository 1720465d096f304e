//! A terminal snake game: the board, the snake and the rules of each tick,
//! with their contracts proved by Verus.

pub mod command;
pub mod direction;
pub mod game;
pub mod vector;
pub mod snake;
pub mod render;
