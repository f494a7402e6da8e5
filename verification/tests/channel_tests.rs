use unirtc::channel::normalize_message;
use unirtc::channel::MessagePayload;
use unirtc::DataChannelInit;
use unirtc::Error;

#[test]
fn binary_payload_passes_through_unmodified() {
    let bytes = vec![0u8, 159, 146, 150, 255];
    let (out, is_text) = normalize_message(MessagePayload::Binary(bytes.clone()));
    assert_eq!(out, bytes);
    assert!(!is_text);
}

#[test]
fn text_payload_becomes_its_utf8_bytes() {
    let (out, is_text) = normalize_message(MessagePayload::Text("Hello!"));
    assert_eq!(out, b"Hello!".to_vec());
    assert!(is_text);
}

#[test]
fn non_ascii_text_is_really_encoded() {
    let (out, is_text) = normalize_message(MessagePayload::Text("é"));
    assert_eq!(out, vec![0xC3, 0xA9]);
    assert!(is_text);
}

#[test]
fn empty_text_yields_no_bytes() {
    let (out, is_text) = normalize_message(MessagePayload::Text(""));
    assert!(out.is_empty());
    assert!(is_text);
}

#[test]
fn default_channel_options_leave_engine_defaults() {
    let init = DataChannelInit::default();
    assert_eq!(init.ordered, None);
    assert_eq!(init.max_retransmits, None);
}

#[test]
fn error_kinds_have_messages() {
    assert_eq!(Error::FailedToSend.message(), "Failed to send.");
    assert_eq!(
        Error::FailedToCreateSessionDescription.message(),
        "Failed to create session description."
    );
    assert_eq!(Error::FailedToParseIceCandidate.message(), "Failed to parse ICE candidate.");
    assert_eq!(Error::FailedToClose.message(), "Failed to close.");
}
