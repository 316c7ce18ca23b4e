//! Core state model for a desktop music player: playback transport state,
//! an ordered queue with a playback order, a command surface that validates
//! input before mutating state, and an event outbox that records the
//! notification owed to observers after each successful mutation.

pub mod catalog;
pub mod commands;
pub mod config;
pub mod errors;
pub mod events;
pub mod laws;
pub mod player_state;
pub mod text;
