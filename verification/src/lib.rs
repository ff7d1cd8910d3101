//! A brick-breaking arcade game as a pure, frame-by-frame simulation.
//!
//! A paddle at the bottom of the play area deflects a ball into a grid of
//! bricks. The library owns the rules of one frame: how the paddle and the
//! ball move, how the ball bounces off walls, paddle and bricks, and how
//! score, lives and the game phase follow. Reading the keyboard, measuring
//! the window and drawing are left to the caller, which hands in a
//! [`geometry::Viewport`] and a [`game::Input`] once per frame.
//!
//! All positions and sizes are whole pixels with the origin in the top-left
//! corner and `y` growing downwards; speeds are pixels per frame.

pub mod ball;
pub mod brick;
pub mod config;
pub mod game;
pub mod geometry;
pub mod paddle;
