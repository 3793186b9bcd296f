//! The commands: each runs as a process that asks for the outside work it needs
//! (a session check, an HTTP request) and decides on the answer.
pub mod auth;
pub mod identity;
