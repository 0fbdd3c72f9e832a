//! The compositors that the server knows.

use vstd::prelude::*;

verus! {

/// A Wayland compositor and, where it was found out, its version.
#[derive(Clone, Debug)]
pub enum CompositorType {
    Gnome { version: Option<String> },
    Kde { version: Option<String> },
    Sway { version: Option<String> },
    Niri { version: Option<String> },
    Wlroots { name: String },
    Unknown { session_info: Option<String> },
}

} // verus!
