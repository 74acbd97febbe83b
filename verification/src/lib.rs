//! Simulation core of a grid-based snake game.
//!
//! A player-controlled segmented snake moves on a fixed 15 x 15 grid,
//! eats food to grow, and loses when it hits a wall or itself.  This
//! crate holds the verified simulation: the grid model, the snake state
//! machine, the food spawner, the tick timers and the game controller.
//! Window handling, key sampling and drawing stay outside; they hand
//! the library plain values (elapsed milliseconds, pressed keys) and
//! read plain values back.

pub mod direction;
pub mod food;
pub mod game;
pub mod grid;
pub mod render;
pub mod snake;
pub mod timer;
