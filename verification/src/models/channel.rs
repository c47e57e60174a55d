//! Channels.
pub mod overwrites;
