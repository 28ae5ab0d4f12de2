//! Snippet extraction helpers.
pub mod system;
