//! Simulation core of a fixed-grid arcade shooter: a deterministic, tick-driven
//! world model that owns the player, the alien formation, missiles and bombs,
//! advances them each frame, resolves collisions, and rasterizes the result into
//! a flat cell buffer for an external renderer.

pub mod cell;
pub mod collision;
pub mod entities;
pub mod masks;
pub mod model;
pub mod sprite;
pub mod universe;

pub use cell::Cell;
pub use collision::is_a_hit;
pub use entities::{Alien, AlienDirection, AlienType, AnimationInfo, Bomb, Missile, Player, PlayerDirection};
pub use sprite::Sprite;
pub use universe::Universe;
