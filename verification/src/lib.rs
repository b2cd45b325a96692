//! A small terminal-UI picker toolkit: it sizes and centres one to three
//! stacked rectangular surfaces inside a host screen, drives a keystroke
//! state machine over them, and resolves to a single selected line.
//!
//! The host (screen measurement, window creation, keystroke delivery) is an
//! external collaborator; this crate holds the layout arithmetic, the session
//! state machine and the selection protocol, each with a proved contract.

pub mod commands;
pub mod dired;
pub mod layout;
pub mod picker;
pub mod session;
pub mod surface;

use vstd::prelude::*;

verus! {

/// The errors a picker can surface to its caller.
///
/// Only `AllocationFailed` and `InvalidLayout` reach the caller of an open
/// call; a failed non-critical host call degrades to a no-op instead.
#[derive(Clone, Copy, Debug, PartialEq, Eq, Structural)]
pub enum PickerError {
    /// The host could not allocate a content buffer or a window.
    AllocationFailed,
    /// A non-critical host call failed; recovered locally as a no-op.
    HostCallFailed,
    /// A sizing ratio lies outside (0, 1].
    InvalidLayout,
}

} // verus!
