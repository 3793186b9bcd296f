//! The use cases.
pub mod commands;
