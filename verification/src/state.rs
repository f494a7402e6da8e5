//! The canonical connection lifecycle states and the two narrow
//! conversions from the backend engines' raw state values.
//!
//! This layer never synthesizes a transition: states are only read from
//! engine events. The native engine reports its state as a small integer
//! code; the event-object engine reports it as a label string. Either raw
//! value an engine of tomorrow might send and this layer does not yet
//! recognize maps to `Unspecified` instead of failing.

use vstd::prelude::*;

use crate::str_eq;

verus! {

/// The lifecycle state of a peer connection, as the engine reports it.
#[derive(Debug, Clone, Copy, PartialEq, Eq, Structural)]
pub enum PeerConnectionState {
    Unspecified,
    New,
    Connecting,
    Connected,
    Disconnected,
    Failed,
    Closed,
}

/// The state the native engine means by each of its integer codes; every
/// unrecognized code is `Unspecified`.
pub open spec fn state_of_native_code(code: u8) -> PeerConnectionState {
    if code == 1 {
        PeerConnectionState::New
    } else if code == 2 {
        PeerConnectionState::Connecting
    } else if code == 3 {
        PeerConnectionState::Connected
    } else if code == 4 {
        PeerConnectionState::Disconnected
    } else if code == 5 {
        PeerConnectionState::Failed
    } else if code == 6 {
        PeerConnectionState::Closed
    } else {
        PeerConnectionState::Unspecified
    }
}

/// The state either engine means by each of its label strings; every
/// unrecognized label is `Unspecified`.
pub open spec fn state_of_label(s: Seq<char>) -> PeerConnectionState {
    if s == "new"@ {
        PeerConnectionState::New
    } else if s == "connecting"@ {
        PeerConnectionState::Connecting
    } else if s == "connected"@ {
        PeerConnectionState::Connected
    } else if s == "disconnected"@ {
        PeerConnectionState::Disconnected
    } else if s == "failed"@ {
        PeerConnectionState::Failed
    } else if s == "closed"@ {
        PeerConnectionState::Closed
    } else {
        PeerConnectionState::Unspecified
    }
}

impl PeerConnectionState {
    /// Reads the native engine's integer state code.
    pub fn from_native_code(code: u8) -> (r: Self)
        ensures
            r == state_of_native_code(code),
    {
        match code {
            1 => PeerConnectionState::New,
            2 => PeerConnectionState::Connecting,
            3 => PeerConnectionState::Connected,
            4 => PeerConnectionState::Disconnected,
            5 => PeerConnectionState::Failed,
            6 => PeerConnectionState::Closed,
            _ => PeerConnectionState::Unspecified,
        }
    }

    /// Reads a state label string, as the event-object engine reports it.
    pub fn from_label(label: &str) -> (r: Self)
        ensures
            r == state_of_label(label@),
    {
        if str_eq(label, "new") {
            PeerConnectionState::New
        } else if str_eq(label, "connecting") {
            PeerConnectionState::Connecting
        } else if str_eq(label, "connected") {
            PeerConnectionState::Connected
        } else if str_eq(label, "disconnected") {
            PeerConnectionState::Disconnected
        } else if str_eq(label, "failed") {
            PeerConnectionState::Failed
        } else if str_eq(label, "closed") {
            PeerConnectionState::Closed
        } else {
            PeerConnectionState::Unspecified
        }
    }
}

} // verus!
