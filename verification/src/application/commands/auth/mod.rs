pub mod login;
pub mod logout;
