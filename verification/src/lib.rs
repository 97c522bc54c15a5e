//! A Breakout engine on integer coordinates.
//!
//! A ball bounces inside a window, a paddle steers it and a grid of bricks is
//! cleared by its impacts. The engine advances the game by one tick per call
//! and touches neither screen, keyboard nor sound: it takes the keys that are
//! held as plain flags and reports what happened as plain values.
//!
//! All lengths, positions and speeds are signed 64-bit integers in one unit of
//! the caller's choice (a pixel, or a fraction of one). Intermediate results are
//! computed exactly; a value that is stored is first brought into the 64-bit
//! range by [`scalar::saturate`].

pub mod constants;
pub mod entities;
pub mod game;
pub mod geometry;
pub mod laws;
pub mod rules;
pub mod scalar;

pub use constants::{Constants, Rgba};
pub use entities::{Ball, Brick, Paddle};
pub use game::GameState;
pub use geometry::{PositionVec2, SizeVec2, VelocityVec2};
pub use rules::{Input, TickEvents};
