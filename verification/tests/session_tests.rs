use unirtc::Error;
use unirtc::SdpType;
use unirtc::SessionDescription;

// A minimal SDP blob the engine's parser accepts: protocol version,
// origin, session name and timing.
const VALID_SDP: &str = "v=0\r\no=- 4242 2 IN IP4 127.0.0.1\r\ns=-\r\nt=0 0\r\n";

#[test]
fn offer_round_trips_the_sdp_text() {
    let description = SessionDescription::offer(VALID_SDP).unwrap();
    assert_eq!(description.sdp(), VALID_SDP);
    assert_eq!(description.sdp_type(), SdpType::Offer);
}

#[test]
fn answer_round_trips_the_sdp_text() {
    let description = SessionDescription::answer(VALID_SDP).unwrap();
    assert_eq!(description.sdp(), VALID_SDP);
    assert_eq!(description.sdp_type(), SdpType::Answer);
}

#[test]
fn offer_rejects_malformed_sdp() {
    let result = SessionDescription::offer("this is not a session description");
    assert!(matches!(result, Err(Error::FailedToCreateSessionDescription)));
}

#[test]
fn answer_rejects_malformed_sdp() {
    let result = SessionDescription::answer("x=1\r\n");
    assert!(matches!(result, Err(Error::FailedToCreateSessionDescription)));
}

#[test]
fn offer_rejects_empty_sdp() {
    let result = SessionDescription::offer("");
    assert!(matches!(result, Err(Error::FailedToCreateSessionDescription)));
}

#[test]
fn validation_agrees_with_the_engine() {
    // The same text the library accepted builds an engine description whose
    // text is unchanged, and the text it rejected is rejected by the engine.
    let engine_accepted =
        webrtc::peer_connection::sdp::session_description::RTCSessionDescription::offer(
            VALID_SDP.to_owned(),
        )
        .unwrap();
    assert_eq!(engine_accepted.sdp, VALID_SDP);
    assert!(
        webrtc::peer_connection::sdp::session_description::RTCSessionDescription::offer(
            "this is not a session description".to_owned(),
        )
        .is_err()
    );
}
