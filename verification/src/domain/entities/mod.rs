pub mod timestamp;
pub mod user_profile;
