//! Gameplay core of a small side-scrolling arcade game.
//!
//! A player sprite falls under gravity and jumps on input; obstacle pairs
//! spawn on a repeating timer, scroll leftward, and are tested against the
//! player's bounding box each fixed tick; a score counts the pairs that have
//! scrolled past the player. The host engine (windowing, rendering, asset
//! streaming, input polling, the fixed-step scheduler) stays outside this
//! crate: each tick it hands in plain values (elapsed time, input edges,
//! asset statuses) and reads the game state back.
//!
//! All quantities are fixed-point integers in millionths of a world unit;
//! see [`fixed`].

pub mod assetmgmt;
pub mod fixed;
pub mod game;
pub mod laws;
pub mod structs;
pub mod systems;
