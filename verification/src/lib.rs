//! Core simulation logic of a grid-based snake arcade game.
//!
//! The library owns the authoritative game state: it advances the snake on a
//! fixed cadence, interprets directional input, resolves collisions and food
//! consumption, and handles the game-over/restart cooldown. Rendering and
//! window plumbing stay outside; [`game::Game::draw`] hands the host an exact
//! list of drawing commands instead of touching a surface itself.

pub mod game;
pub mod laws;
pub mod render;
mod rng;
pub mod snake;
