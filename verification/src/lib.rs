//! Wayland remote desktop server: the decisions behind clipboard exchange,
//! configuration, authentication and the life of a session.
//!
//! The functions here work on plain values and state in their contracts what they
//! return or change; a few read the clock. The program around the library performs
//! the input and output that these decisions call for.

pub mod text;
pub mod unicode;
pub mod utf16;
pub mod clipboard;
pub mod compositor;
pub mod clock;
pub mod config;
pub mod security;
pub mod server;
pub mod cli;
