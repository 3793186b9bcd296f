//! The Kratos self-service adapters.
pub mod client;
pub mod http;
pub mod models;
