pub mod exchange;
pub mod flows;
pub mod login;
pub mod outcomes;
pub mod register;
pub mod verification;
