//! Metadata browser logic for a folder of game-replay files.
//!
//! The library holds the verified part of a small replay browser: the
//! replay metadata records themselves, the application state with its
//! theme and folder settings, and the rule that turns a folder's files
//! into the list of successfully decoded replays.

pub mod replay;
pub mod state;

pub use replay::Replay;
