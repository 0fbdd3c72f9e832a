//! Who may use the server.

pub mod auth;
pub mod rate_limit;
pub mod session_token;
