//! The domain: errors, value objects, the user profile and the data that crosses the ports.
pub mod entities;
pub mod errors;
pub mod ports;
pub mod value_objects;
