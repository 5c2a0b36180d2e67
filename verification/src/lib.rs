//! Core of a reaction-timing game: objects in a room break at random, each
//! shows a countdown with the key that repairs it, and the run ends when a
//! countdown expires or a key is pressed that repairs nothing.
//!
//! Every function here is verified against the models in its contract. The
//! host supplies the frame loop, the key events and the renderer.

pub mod config;
pub mod game_object;
pub mod geometry;
pub mod keys;
pub mod laws;
pub mod object;
pub mod pause;
pub mod popup;
pub mod screen;
pub mod session;
pub mod text;
pub mod trigger;
