//! Configuration of the service.
pub mod config;
pub mod defaults;
pub mod init;
