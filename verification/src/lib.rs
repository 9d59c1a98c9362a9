//! Core logic of a grid-based snake game: coordinates and directions on a
//! fixed playing field, the snake with its two-slot turn buffer, food
//! placement that avoids the snake's body, score tracking, and the per-tick
//! round controller with collision handling and round reset.
//!
//! Rendering, windowing and keyboard handling are left to callers; the
//! library works on plain game state and is verified.

pub mod food;
pub mod game;
pub mod grid;
pub mod score;
pub mod snake;
