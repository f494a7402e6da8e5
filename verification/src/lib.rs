//! A backend-neutral peer-to-peer connectivity layer.
//!
//! The library holds the value types and the translation logic that a peer
//! connection facade needs: configuration mapping, session-description
//! construction and validation, ICE-candidate conversion, connection-state
//! and statistics translation. The asynchronous engine itself stays behind
//! narrow boundaries.

use vstd::prelude::*;

pub mod candidate;
pub mod channel;
pub mod config;
pub mod session;
pub mod state;
pub mod stats;

pub use candidate::IceCandidate;
pub use candidate::IceCandidateInit;
pub use channel::DataChannelInit;
pub use config::Configuration;
pub use config::IceCredentialType;
pub use config::IceServer;
pub use config::IceTransportPolicy;
pub use session::SdpType;
pub use session::SessionDescription;
pub use state::PeerConnectionState;
pub use stats::CandidatePairState;
pub use stats::CandidatePairStats;
pub use stats::CandidateStats;
pub use stats::CandidateType;
pub use stats::StatsEntry;
pub use stats::StatsReportType;

verus! {

/// Whether two string slices hold the same characters.
pub(crate) fn str_eq(a: &str, b: &str) -> (r: bool)
    ensures
        r == (a@ == b@),
{
    let x: String = a.to_owned();
    let y: String = b.to_owned();
    x == y
}

/// The uniform error surface: every backend failure is translated into one
/// of these kinds, and nothing more crosses the boundary.
#[derive(Debug, Clone, Copy, PartialEq, Eq)]
pub enum Error {
    /// Failed to create peer.
    FailedToCreatePeer,
    /// Failed to create offer.
    FailedToCreateOffer,
    /// Failed to create answer.
    FailedToCreateAnswer,
    /// Failed to set local description.
    FailedToSetLocalDescription,
    /// Failed to set remote description.
    FailedToSetRemoteDescription,
    /// Failed to add ice candidate.
    FailedToAddIceCandidate,
    /// Failed to create data channel.
    FailedToCreateDataChannel,
    /// Failed to send.
    FailedToSend,
    /// Failed to create session description.
    FailedToCreateSessionDescription,
    /// Failed to parse ICE candidate.
    FailedToParseIceCandidate,
    /// Failed to close.
    FailedToClose,
    /// Failed to get stats.
    FailedToGetStats,
}

/// The description each failure kind renders to.
pub open spec fn message_of(e: Error) -> Seq<char> {
    match e {
        Error::FailedToCreatePeer => "Failed to create peer."@,
        Error::FailedToCreateOffer => "Failed to create offer."@,
        Error::FailedToCreateAnswer => "Failed to create answer."@,
        Error::FailedToSetLocalDescription => "Failed to set local description."@,
        Error::FailedToSetRemoteDescription => "Failed to set remote description."@,
        Error::FailedToAddIceCandidate => "Failed to add ice candidate."@,
        Error::FailedToCreateDataChannel => "Failed to create data channel."@,
        Error::FailedToSend => "Failed to send."@,
        Error::FailedToCreateSessionDescription => "Failed to create session description."@,
        Error::FailedToParseIceCandidate => "Failed to parse ICE candidate."@,
        Error::FailedToClose => "Failed to close."@,
        Error::FailedToGetStats => "Failed to get stats."@,
    }
}

impl Error {
    /// A short human-readable description of the failure kind.
    pub fn message(&self) -> (r: &'static str)
        ensures
            r@ == message_of(*self),
    {
        match self {
            Error::FailedToCreatePeer => "Failed to create peer.",
            Error::FailedToCreateOffer => "Failed to create offer.",
            Error::FailedToCreateAnswer => "Failed to create answer.",
            Error::FailedToSetLocalDescription => "Failed to set local description.",
            Error::FailedToSetRemoteDescription => "Failed to set remote description.",
            Error::FailedToAddIceCandidate => "Failed to add ice candidate.",
            Error::FailedToCreateDataChannel => "Failed to create data channel.",
            Error::FailedToSend => "Failed to send.",
            Error::FailedToCreateSessionDescription => "Failed to create session description.",
            Error::FailedToParseIceCandidate => "Failed to parse ICE candidate.",
            Error::FailedToClose => "Failed to close.",
            Error::FailedToGetStats => "Failed to get stats.",
        }
    }
}

} // verus!
