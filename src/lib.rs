//! A one-lane terminal racing game: a car steers across a walled road to
//! dodge a single enemy that drops down the road over and over.
//!
//! The library holds the game's rules as verified code: the road layout, the
//! actors, the per-tick state machine, and the text projection of a frame.
//! Terminal input and output stay with the caller.

pub mod layout;
pub mod random;
pub mod actors;
pub mod render;
pub mod game;
pub mod laws;
