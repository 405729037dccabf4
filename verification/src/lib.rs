//! Rules of a small multiplayer board game: players move on a grid of
//! tiles, dig up resources, spend action points to attack, gift or
//! upgrade, and earn one action point per hour since they joined.
//! The HTTP server, the store and the clock live outside this crate;
//! everything they decide with is here, with its contract.

pub mod user;
pub mod error;
pub mod board;
mod random;
pub mod auth;
pub mod actions;
