//! A verified core for a grid-based snake game.
//!
//! The library holds the game's entire rule set: the board configuration,
//! the snake's per-tick movement with wall and self collision, growth on
//! eating fruit, and the bounded buffer of pending direction changes.
//! Windowing, rendering and keyboard plumbing live outside the library.

pub mod conf;
pub mod direction;
pub mod game;
pub mod snake;
