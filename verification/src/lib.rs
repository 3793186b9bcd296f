//! Verified core of an authentication service that fronts Ory Kratos.
pub mod application;
pub mod domain;
pub mod infrastructure;
pub mod json;
pub mod presentation;
pub mod shared;
pub mod text;
pub mod startup;
