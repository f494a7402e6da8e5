use unirtc::PeerConnectionState;
use webrtc::peer_connection::peer_connection_state::RTCPeerConnectionState;

#[test]
fn native_codes_map_to_states() {
    assert_eq!(PeerConnectionState::from_native_code(1), PeerConnectionState::New);
    assert_eq!(PeerConnectionState::from_native_code(2), PeerConnectionState::Connecting);
    assert_eq!(PeerConnectionState::from_native_code(3), PeerConnectionState::Connected);
    assert_eq!(PeerConnectionState::from_native_code(4), PeerConnectionState::Disconnected);
    assert_eq!(PeerConnectionState::from_native_code(5), PeerConnectionState::Failed);
    assert_eq!(PeerConnectionState::from_native_code(6), PeerConnectionState::Closed);
}

#[test]
fn unknown_native_codes_map_to_unspecified() {
    assert_eq!(PeerConnectionState::from_native_code(0), PeerConnectionState::Unspecified);
    assert_eq!(PeerConnectionState::from_native_code(7), PeerConnectionState::Unspecified);
    assert_eq!(PeerConnectionState::from_native_code(255), PeerConnectionState::Unspecified);
}

#[test]
fn native_codes_agree_with_the_engine() {
    // The engine casts its state to the same small integer codes this
    // library reads; the two mappings must agree on every state.
    for code in 0u8..=7u8 {
        let engine_state = RTCPeerConnectionState::from(code);
        let library_state = PeerConnectionState::from_native_code(code);
        assert_eq!(format!("{library_state:?}"), format!("{engine_state:?}"));
    }
}

#[test]
fn labels_map_to_states() {
    assert_eq!(PeerConnectionState::from_label("new"), PeerConnectionState::New);
    assert_eq!(PeerConnectionState::from_label("connecting"), PeerConnectionState::Connecting);
    assert_eq!(PeerConnectionState::from_label("connected"), PeerConnectionState::Connected);
    assert_eq!(PeerConnectionState::from_label("disconnected"), PeerConnectionState::Disconnected);
    assert_eq!(PeerConnectionState::from_label("failed"), PeerConnectionState::Failed);
    assert_eq!(PeerConnectionState::from_label("closed"), PeerConnectionState::Closed);
}

#[test]
fn unknown_labels_map_to_unspecified() {
    assert_eq!(PeerConnectionState::from_label(""), PeerConnectionState::Unspecified);
    assert_eq!(PeerConnectionState::from_label("NEW"), PeerConnectionState::Unspecified);
    assert_eq!(PeerConnectionState::from_label("checking"), PeerConnectionState::Unspecified);
}
