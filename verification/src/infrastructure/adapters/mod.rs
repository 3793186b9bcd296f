pub mod http;
pub mod kratos;
