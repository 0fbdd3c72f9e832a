//! What can go wrong while clipboard data is exchanged.

use vstd::prelude::*;

verus! {

/// The error type of the clipboard conversions.
#[verifier::external_type_specification]
#[verifier::external_body]
pub struct ExCoreError(lamco_clipboard_core::ClipboardError);

/// Why a clipboard event could not be handled.
pub enum ExchangeError {
    /// The channel to the remote client is not there yet.
    NotInitialized,
    /// The event does not fit the state it met.
    InvalidState(String),
    /// The clipboard provider refused a call.
    PortalError(String),
    /// A file could not be read or written.
    FileIoError(String),
    /// Image data that cannot be read as a bitmap.
    ImageDecode(String),
    /// A conversion failed.
    Core(lamco_clipboard_core::ClipboardError),
}

} // verus!
