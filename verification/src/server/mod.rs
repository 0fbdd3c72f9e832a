//! The life of the server: how a session is set up, served and ended.

pub mod accept;
pub mod clipboard_setup;
pub mod port;
pub mod setup;
