//! Helpers shared by the models: decimal text and the wire forms of integers.
pub mod decimal;
pub mod serde;
