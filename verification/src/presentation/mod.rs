//! What the REST API reads and answers.
pub mod answers;
pub mod dto;
