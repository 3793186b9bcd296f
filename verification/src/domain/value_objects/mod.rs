pub mod auth_method;
pub mod email;
pub mod flow_id;
pub mod password;
pub mod session_cookie;
