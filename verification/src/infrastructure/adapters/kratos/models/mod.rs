pub mod errors;
pub mod flows;
pub mod identity;
pub mod login;
pub mod payload;
pub mod registration;
pub mod verification;
