//! Session descriptions: immutable SDP values with an offer/answer tag.
//!
//! A [`SessionDescription`] is only built through the validated factory
//! operations [`SessionDescription::offer`] and [`SessionDescription::answer`]:
//! the SDP text is handed to the engine's own parser, and a text the parser
//! rejects yields a uniform construction failure instead of a default or
//! empty description. A description that was built carries its text
//! unchanged.

use vstd::prelude::*;

use crate::Error;

verus! {

/// Whether a description plays the offer or the answer role in negotiation.
#[derive(Debug, Copy, Clone, PartialEq, Eq, Structural)]
pub enum SdpType {
    Offer,
    Answer,
}

/// Holds exactly when the SDP parser accepts the text.
///
/// This names the success of the sdp crate's
/// `description::session::SessionDescription::unmarshal`, which is a
/// function of the text alone. No contract of this library says which
/// texts these are; the parser itself decides.
pub uninterp spec fn sdp_well_formed(s: Seq<char>) -> bool;

/// Relies on webrtc's `RTCSessionDescription::offer`: it returns `Ok`
/// exactly when `unmarshal` accepts the given text (the built description
/// then carries the text unchanged; this wrapper only reports acceptance).
#[verifier::external_body]
fn parse_as_offer(sdp: &str) -> (r: bool)
    ensures
        r == sdp_well_formed(sdp@),
{
    webrtc::peer_connection::sdp::session_description::RTCSessionDescription::offer(
        sdp.to_owned(),
    ).is_ok()
}

/// Relies on webrtc's `RTCSessionDescription::answer`: it returns `Ok`
/// exactly when `unmarshal` accepts the given text (the built description
/// then carries the text unchanged; this wrapper only reports acceptance).
#[verifier::external_body]
fn parse_as_answer(sdp: &str) -> (r: bool)
    ensures
        r == sdp_well_formed(sdp@),
{
    webrtc::peer_connection::sdp::session_description::RTCSessionDescription::answer(
        sdp.to_owned(),
    ).is_ok()
}

/// An immutable SDP blob together with its negotiation role.
#[derive(Debug, Clone)]
pub struct SessionDescription {
    sdp_type: SdpType,
    sdp: String,
}

/// The mathematical value of a [`SessionDescription`].
#[verifier::ext_equal]
pub struct SessionDescriptionView {
    pub sdp_type: SdpType,
    pub sdp: Seq<char>,
}

impl View for SessionDescription {
    type V = SessionDescriptionView;

    closed spec fn view(&self) -> SessionDescriptionView {
        SessionDescriptionView { sdp_type: self.sdp_type, sdp: self.sdp@ }
    }
}

/// The description a successful construction yields for a given role and text.
pub open spec fn description_of(t: SdpType, s: Seq<char>) -> SessionDescriptionView {
    SessionDescriptionView { sdp_type: t, sdp: s }
}

impl SessionDescription {
    /// Every description that can be observed holds text its parser accepted.
    pub open spec fn wf(self) -> bool {
        sdp_well_formed(self@.sdp)
    }

    /// Wraps SDP text as an offer, validating it with the engine's parser.
    ///
    /// Returns the description exactly when the parser accepts the text;
    /// a rejected text yields the uniform construction failure.
    pub fn offer(sdp: &str) -> (r: Result<Self, Error>)
        ensures
            r is Ok <==> sdp_well_formed(sdp@),
            r matches Ok(d) ==> d@ == description_of(SdpType::Offer, sdp@) && d.wf(),
            r matches Err(e) ==> e == Error::FailedToCreateSessionDescription,
    {
        if parse_as_offer(sdp) {
            Ok(SessionDescription { sdp_type: SdpType::Offer, sdp: sdp.to_owned() })
        } else {
            Err(Error::FailedToCreateSessionDescription)
        }
    }

    /// Wraps SDP text as an answer, validating it with the engine's parser.
    ///
    /// Returns the description exactly when the parser accepts the text;
    /// a rejected text yields the uniform construction failure.
    pub fn answer(sdp: &str) -> (r: Result<Self, Error>)
        ensures
            r is Ok <==> sdp_well_formed(sdp@),
            r matches Ok(d) ==> d@ == description_of(SdpType::Answer, sdp@) && d.wf(),
            r matches Err(e) ==> e == Error::FailedToCreateSessionDescription,
    {
        if parse_as_answer(sdp) {
            Ok(SessionDescription { sdp_type: SdpType::Answer, sdp: sdp.to_owned() })
        } else {
            Err(Error::FailedToCreateSessionDescription)
        }
    }

    /// The SDP text of the description, exactly as it was given.
    pub fn sdp(&self) -> (r: String)
        ensures
            r@ == self@.sdp,
    {
        self.sdp.clone()
    }

    /// The negotiation role of the description.
    pub fn sdp_type(&self) -> (r: SdpType)
        ensures
            r == self@.sdp_type,
    {
        self.sdp_type
    }
}

/// Law: building an offer from well-formed SDP text and reading the text
/// back yields the original text unchanged, and the offer role is kept.
pub proof fn lemma_offer_round_trip(s: Seq<char>)
    requires
        sdp_well_formed(s),
    ensures
        description_of(SdpType::Offer, s).sdp == s,
        description_of(SdpType::Offer, s).sdp_type == SdpType::Offer,
{
}

/// Law: building an answer from well-formed SDP text and reading the text
/// back yields the original text unchanged, and the answer role is kept.
pub proof fn lemma_answer_round_trip(s: Seq<char>)
    requires
        sdp_well_formed(s),
    ensures
        description_of(SdpType::Answer, s).sdp == s,
        description_of(SdpType::Answer, s).sdp_type == SdpType::Answer,
{
}

} // verus!
