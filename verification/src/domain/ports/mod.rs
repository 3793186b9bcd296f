//! The data that the use cases exchange with the identity provider.
pub mod login;
pub mod recovery;
pub mod registration;
pub mod settings;
pub mod verification;
