//! ICE candidates: the opaque inbound handle, the plain relay value, and
//! the translation of outbound candidates into each engine's shape.
//!
//! An [`IceCandidate`] stands for a candidate the engine discovered and
//! handed to the candidate callback: it holds the raw fields read from the
//! engine's handle, where even the candidate string may be missing when the
//! handle could not be serialized. An [`IceCandidateInit`] is the plain
//! value relayed over the caller's signaling channel. An absent candidate
//! (`None`) is a meaningful end-of-gathering signal, distinct from an
//! error: it is forwarded to each engine in the explicit form that engine
//! reads as the signal, never silently dropped.

use vstd::prelude::*;

use crate::Error;

verus! {

/// A plain, relayable ICE candidate value: the candidate string, and the
/// optional media-description id and media-line index.
#[derive(Debug, Clone)]
pub struct IceCandidateInit {
    pub candidate: String,
    pub sdp_mid: Option<String>,
    pub sdp_mline_index: Option<u16>,
}

/// The mathematical value of an [`IceCandidateInit`].
#[verifier::ext_equal]
pub struct IceCandidateInitView {
    pub candidate: Seq<char>,
    pub sdp_mid: Option<Seq<char>>,
    pub sdp_mline_index: Option<u16>,
}

impl View for IceCandidateInit {
    type V = IceCandidateInitView;

    open spec fn view(&self) -> IceCandidateInitView {
        IceCandidateInitView {
            candidate: self.candidate@,
            sdp_mid: self.sdp_mid.deep_view(),
            sdp_mline_index: self.sdp_mline_index,
        }
    }
}

impl Default for IceCandidateInit {
    /// An empty candidate value: empty candidate string, no id, no index.
    fn default() -> (r: Self)
        ensures
            r@.candidate.len() == 0,
            r@.sdp_mid is None,
            r@.sdp_mline_index is None,
    {
        IceCandidateInit { candidate: String::new(), sdp_mid: None, sdp_mline_index: None }
    }
}

/// A candidate the engine discovered, as read from its opaque handle:
/// the candidate string is absent when the handle could not be serialized
/// into one, and the id and index are absent when the handle did not carry
/// them.
#[derive(Debug, Clone)]
pub struct IceCandidate {
    candidate: Option<String>,
    sdp_mid: Option<String>,
    sdp_mline_index: Option<u16>,
}

/// The mathematical value of an [`IceCandidate`].
#[verifier::ext_equal]
pub struct IceCandidateView {
    pub candidate: Option<Seq<char>>,
    pub sdp_mid: Option<Seq<char>>,
    pub sdp_mline_index: Option<u16>,
}

impl View for IceCandidate {
    type V = IceCandidateView;

    closed spec fn view(&self) -> IceCandidateView {
        IceCandidateView {
            candidate: self.candidate.deep_view(),
            sdp_mid: self.sdp_mid.deep_view(),
            sdp_mline_index: self.sdp_mline_index,
        }
    }
}

impl IceCandidate {
    /// Wraps the fields read from an engine's candidate handle.
    pub fn from_backend(
        candidate: Option<String>,
        sdp_mid: Option<String>,
        sdp_mline_index: Option<u16>,
    ) -> (r: Self)
        ensures
            r@.candidate == candidate.deep_view(),
            r@.sdp_mid == sdp_mid.deep_view(),
            r@.sdp_mline_index == sdp_mline_index,
    {
        IceCandidate { candidate, sdp_mid, sdp_mline_index }
    }

    /// Converts the candidate into its plain relay value.
    ///
    /// Succeeds exactly when the handle yielded a candidate string; the
    /// optional id and index are tolerated to be missing and stay `None`
    /// rather than failing. A handle without a candidate string yields the
    /// uniform parse failure.
    pub fn to_init(&self) -> (r: Result<IceCandidateInit, Error>)
        ensures
            r is Ok <==> self@.candidate is Some,
            r matches Ok(init) ==> init@.candidate == self@.candidate->0 && init@.sdp_mid
                == self@.sdp_mid && init@.sdp_mline_index == self@.sdp_mline_index,
            r matches Err(e) ==> e == Error::FailedToParseIceCandidate,
    {
        match &self.candidate {
            Some(candidate) => Ok(
                IceCandidateInit {
                    candidate: candidate.clone(),
                    sdp_mid: crate::config::clone_opt_string(&self.sdp_mid),
                    sdp_mline_index: self.sdp_mline_index,
                },
            ),
            None => Err(Error::FailedToParseIceCandidate),
        }
    }
}

/// An outbound candidate in the shape the native engine takes.
#[derive(Debug, Clone)]
pub struct NativeIceCandidateInit {
    pub candidate: String,
    pub sdp_mid: Option<String>,
    pub sdp_mline_index: Option<u16>,
    pub username_fragment: Option<String>,
}

/// The mathematical value of a [`NativeIceCandidateInit`].
#[verifier::ext_equal]
pub struct NativeIceCandidateInitView {
    pub candidate: Seq<char>,
    pub sdp_mid: Option<Seq<char>>,
    pub sdp_mline_index: Option<u16>,
    pub username_fragment: Option<Seq<char>>,
}

impl View for NativeIceCandidateInit {
    type V = NativeIceCandidateInitView;

    open spec fn view(&self) -> NativeIceCandidateInitView {
        NativeIceCandidateInitView {
            candidate: self.candidate@,
            sdp_mid: self.sdp_mid.deep_view(),
            sdp_mline_index: self.sdp_mline_index,
            username_fragment: self.username_fragment.deep_view(),
        }
    }
}

/// An outbound candidate in the shape the event-object engine takes: the
/// engine's id and index fields are nullable, so the optional fields pass
/// through as they are.
#[derive(Debug, Clone)]
pub struct WebIceCandidateInit {
    pub candidate: String,
    pub sdp_mid: Option<String>,
    pub sdp_mline_index: Option<u16>,
}

/// The mathematical value of a [`WebIceCandidateInit`].
#[verifier::ext_equal]
pub struct WebIceCandidateInitView {
    pub candidate: Seq<char>,
    pub sdp_mid: Option<Seq<char>>,
    pub sdp_mline_index: Option<u16>,
}

impl View for WebIceCandidateInit {
    type V = WebIceCandidateInitView;

    open spec fn view(&self) -> WebIceCandidateInitView {
        WebIceCandidateInitView {
            candidate: self.candidate@,
            sdp_mid: self.sdp_mid.deep_view(),
            sdp_mline_index: self.sdp_mline_index,
        }
    }
}

/// What the native engine is handed when a relayed candidate is added.
///
/// A present candidate keeps every field unmodified; the engine's extra
/// username-fragment field stays unset. An absent candidate is the
/// end-of-gathering signal and is forwarded too, in the explicit form the
/// native engine reads as that signal: a payload whose candidate string
/// is empty and whose other fields are absent. Nothing is skipped.
pub fn native_candidate_payload(candidate: &Option<IceCandidateInit>) -> (r:
    NativeIceCandidateInit)
    ensures
        candidate matches Some(c) ==> {
            &&& r@.candidate == c@.candidate
            &&& r@.sdp_mid == c@.sdp_mid
            &&& r@.sdp_mline_index == c@.sdp_mline_index
            &&& r@.username_fragment is None
        },
        candidate is None ==> {
            &&& r@.candidate.len() == 0
            &&& r@.sdp_mid is None
            &&& r@.sdp_mline_index is None
            &&& r@.username_fragment is None
        },
{
    match candidate {
        Some(c) => NativeIceCandidateInit {
            candidate: c.candidate.clone(),
            sdp_mid: crate::config::clone_opt_string(&c.sdp_mid),
            sdp_mline_index: c.sdp_mline_index,
            username_fragment: None,
        },
        None => NativeIceCandidateInit {
            candidate: String::new(),
            sdp_mid: None,
            sdp_mline_index: None,
            username_fragment: None,
        },
    }
}

/// What the event-object engine is handed when a relayed candidate is added.
///
/// A present candidate passes through unmodified, its optional id and
/// index kept exactly as given — the engine's fields are nullable and an
/// absent field stays absent. An absent candidate stays absent: it is
/// forwarded to the engine as the explicit end-of-gathering signal, not
/// skipped.
pub fn web_candidate_payload(candidate: &Option<IceCandidateInit>) -> (r: Option<
    WebIceCandidateInit,
>)
    ensures
        r is Some <==> candidate is Some,
        r matches Some(p) ==> {
            let c = candidate->0;
            &&& p@.candidate == c@.candidate
            &&& p@.sdp_mid == c@.sdp_mid
            &&& p@.sdp_mline_index == c@.sdp_mline_index
        },
{
    match candidate {
        Some(c) => Some(
            WebIceCandidateInit {
                candidate: c.candidate.clone(),
                sdp_mid: crate::config::clone_opt_string(&c.sdp_mid),
                sdp_mline_index: c.sdp_mline_index,
            },
        ),
        None => None,
    }
}

/// Law: the end-of-gathering signal is forwarded to either engine in its
/// explicit form — a payload with an empty candidate string and absent
/// fields for the native engine, an absent payload for the event-object
/// engine — never skipped and never turned into a failure or a made-up
/// candidate.
pub proof fn lemma_end_of_candidates_forwarded(
    n: NativeIceCandidateInit,
    w: Option<WebIceCandidateInit>,
)
    requires
        call_ensures(native_candidate_payload, (&None,), n),
        call_ensures(web_candidate_payload, (&None,), w),
    ensures
        n@.candidate.len() == 0,
        n@.sdp_mid is None,
        n@.sdp_mline_index is None,
        n@.username_fragment is None,
        w is None,
{
}

/// Law: a candidate that is present passes through both translations
/// unmodified — the candidate string and the optional id and index reach
/// either engine exactly as they were given.
pub proof fn lemma_candidate_passed_through(
    c: IceCandidateInit,
    n: NativeIceCandidateInit,
    w: Option<WebIceCandidateInit>,
)
    requires
        call_ensures(native_candidate_payload, (&Some(c),), n),
        call_ensures(web_candidate_payload, (&Some(c),), w),
    ensures
        n@.candidate == c@.candidate,
        n@.sdp_mid == c@.sdp_mid,
        n@.sdp_mline_index == c@.sdp_mline_index,
        w matches Some(p) && p@.candidate == c@.candidate && p@.sdp_mid == c@.sdp_mid
            && p@.sdp_mline_index == c@.sdp_mline_index,
{
}

} // verus!
