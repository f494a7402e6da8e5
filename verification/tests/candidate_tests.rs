use unirtc::candidate::native_candidate_payload;
use unirtc::candidate::web_candidate_payload;
use unirtc::Error;
use unirtc::IceCandidate;
use unirtc::IceCandidateInit;

#[test]
fn to_init_keeps_every_field() {
    let candidate = IceCandidate::from_backend(
        Some("candidate:1 1 udp 2130706431 192.0.2.7 3478 typ host".to_owned()),
        Some("data".to_owned()),
        Some(1),
    );
    let init = candidate.to_init().unwrap();
    assert_eq!(
        init.candidate,
        "candidate:1 1 udp 2130706431 192.0.2.7 3478 typ host"
    );
    assert_eq!(init.sdp_mid, Some("data".to_owned()));
    assert_eq!(init.sdp_mline_index, Some(1));
}

#[test]
fn to_init_tolerates_missing_optional_fields() {
    let candidate = IceCandidate::from_backend(Some("candidate:abc".to_owned()), None, None);
    let init = candidate.to_init().unwrap();
    assert_eq!(init.candidate, "candidate:abc");
    assert_eq!(init.sdp_mid, None);
    assert_eq!(init.sdp_mline_index, None);
}

#[test]
fn to_init_without_a_candidate_string_fails() {
    let candidate = IceCandidate::from_backend(None, Some("0".to_owned()), Some(0));
    assert!(matches!(
        candidate.to_init(),
        Err(Error::FailedToParseIceCandidate)
    ));
}

#[test]
fn native_payload_forwards_every_field() {
    let init = IceCandidateInit {
        candidate: "candidate:abc".to_owned(),
        sdp_mid: Some("0".to_owned()),
        sdp_mline_index: Some(2),
    };
    let payload = native_candidate_payload(&Some(init));
    assert_eq!(payload.candidate, "candidate:abc");
    assert_eq!(payload.sdp_mid, Some("0".to_owned()));
    assert_eq!(payload.sdp_mline_index, Some(2));
    assert_eq!(payload.username_fragment, None);
}

#[test]
fn native_payload_forwards_end_of_candidates_as_empty_candidate() {
    let payload = native_candidate_payload(&None);
    assert_eq!(payload.candidate, "");
    assert_eq!(payload.sdp_mid, None);
    assert_eq!(payload.sdp_mline_index, None);
    assert_eq!(payload.username_fragment, None);
}

#[test]
fn engine_reads_an_empty_candidate_as_end_of_candidates() {
    // The native engine's own serializer/deserializer: an empty candidate
    // string is not a parsable candidate, it is the explicit signal; the
    // engine's add path treats it as such once a remote description
    // stands. Here the unmarshal of a real candidate round-trips, while
    // the empty string has no candidate to unmarshal.
    let parsed = webrtc::ice::candidate::candidate_base::unmarshal_candidate(
        "1 1 udp 2130706431 192.0.2.7 3478 typ host",
    );
    assert!(parsed.is_ok());
    assert!(webrtc::ice::candidate::candidate_base::unmarshal_candidate("").is_err());
}

#[test]
fn web_payload_keeps_absent_fields_absent() {
    let init = IceCandidateInit {
        candidate: "candidate:abc".to_owned(),
        sdp_mid: None,
        sdp_mline_index: None,
    };
    let payload = web_candidate_payload(&Some(init)).unwrap();
    assert_eq!(payload.candidate, "candidate:abc");
    assert_eq!(payload.sdp_mid, None);
    assert_eq!(payload.sdp_mline_index, None);
}

#[test]
fn web_payload_keeps_present_fields() {
    let init = IceCandidateInit {
        candidate: "candidate:xyz".to_owned(),
        sdp_mid: Some("data".to_owned()),
        sdp_mline_index: Some(3),
    };
    let payload = web_candidate_payload(&Some(init)).unwrap();
    assert_eq!(payload.sdp_mid, Some("data".to_owned()));
    assert_eq!(payload.sdp_mline_index, Some(3));
}

#[test]
fn web_payload_forwards_end_of_candidates() {
    assert!(web_candidate_payload(&None).is_none());
}

#[test]
fn default_init_is_empty() {
    let init = IceCandidateInit::default();
    assert_eq!(init.candidate, "");
    assert_eq!(init.sdp_mid, None);
    assert_eq!(init.sdp_mline_index, None);
}
