//! Clipboard exchange between a remote desktop client and the compositor.

pub mod bytes;
pub mod error;
pub mod line_endings;
pub mod core_calls;
pub mod convert;
pub mod formats;
pub mod transfer;
pub mod reannounce;
pub mod manager;
pub mod summary;
pub mod laws;
