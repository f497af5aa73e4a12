//! Decision core for a small wheeled robot that searches for a yellow
//! patch, backs away from obstacles, and signals success with a sound cue.
//!
//! The library is the behavior state machine: a pure function from the
//! current state and a sensor snapshot ([`world::World`]) to the next state
//! and a motor command ([`world::Device`]). Hardware access lives outside.

pub mod behavior;
pub mod laws;
pub mod world;
