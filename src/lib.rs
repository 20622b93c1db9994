//! Lifecycle and content rules for a native window that hosts an embedded
//! web view: a registry of host handles, the per-event decision of the
//! dispatch loop, and the data URLs through which HTML reaches the view.

pub mod encoding;
pub mod host;
