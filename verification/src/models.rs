//! The models around Discord data: users, channels.
pub mod channel;
pub mod traits;
pub mod user;
