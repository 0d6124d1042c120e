//! Deterministic simulation core of a 2D arcade shooter: a game-phase state
//! machine over an entity roster, with per-tick movement, pairwise collision
//! resolution, and a deferred command queue. Every effect an entity has on
//! the world travels as a command, applied only after the full tick's scan,
//! so the outcome of a tick is independent of iteration order.
//!
//! The core touches no pixels, files or sockets: the host hands it a sprite
//! table, a screen rectangle, discrete key events and a seedable random
//! source, and takes back ordered draw commands.

pub mod beam;
pub mod character;
pub mod created;
pub mod draw;
pub mod event;
pub mod ferris;
pub mod fsm;
pub mod game_state;
pub mod geometry;
pub mod in_game;
pub mod layers;
pub mod missile;
pub mod motion;
pub mod out_game;
pub mod random;
pub mod sequence;
pub mod shield;
pub mod ship;
pub mod sprite;
pub mod turbo_fish;
pub mod wall;
