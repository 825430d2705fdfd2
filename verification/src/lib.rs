//! Simulation core of a single-screen arcade shooter: cars cross the screen
//! left to right, the player fires a limited pool of marbles upward, and a
//! collision between a marble and another entity removes both, awards a
//! point, and recycles the marble's identity into the ammo pool.
//!
//! Positions are in milli-pixels and times in milliseconds, so that every
//! quantity is an integer. The host (window, input, rendering, audio) drives
//! [`state::GameState::update`] once per frame and carries out the
//! [`events::Action`]s it returns.

pub mod collision;
pub mod entity;
pub mod events;
pub mod fire;
pub mod label;
pub mod motion;
mod rng;
pub mod spawn;
pub mod state;
pub mod update;
