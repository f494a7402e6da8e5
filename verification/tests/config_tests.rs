use unirtc::config::Configuration;
use unirtc::config::IceCredentialType;
use unirtc::config::IceServer;
use unirtc::config::IceTransportPolicy;

fn sample_configuration() -> Configuration {
    Configuration {
        ice_servers: vec![
            IceServer {
                urls: vec![
                    "stun:stun.example.org:3478".to_owned(),
                    "turn:turn.example.org:3478".to_owned(),
                ],
                username: Some("alice".to_owned()),
                credential: Some("turn-credential".to_owned()),
                credential_type: IceCredentialType::Password,
            },
            IceServer {
                urls: vec!["stun:stun.other.example:19302".to_owned()],
                username: None,
                credential: None,
                credential_type: IceCredentialType::Unspecified,
            },
        ],
        ice_transport_policy: IceTransportPolicy::Relay,
    }
}

#[test]
fn to_native_preserves_order_count_and_urls() {
    let configuration = sample_configuration();
    let native = configuration.to_native();
    assert_eq!(native.ice_servers.len(), 2);
    assert_eq!(
        native.ice_servers[0].urls,
        vec![
            "stun:stun.example.org:3478".to_owned(),
            "turn:turn.example.org:3478".to_owned(),
        ]
    );
    assert_eq!(
        native.ice_servers[1].urls,
        vec!["stun:stun.other.example:19302".to_owned()]
    );
    assert_eq!(native.ice_transport_policy, IceTransportPolicy::Relay);
}

#[test]
fn to_native_maps_absent_credentials_to_empty_strings() {
    let configuration = sample_configuration();
    let native = configuration.to_native();
    assert_eq!(native.ice_servers[0].username, "alice");
    assert_eq!(native.ice_servers[0].credential, "turn-credential");
    assert_eq!(native.ice_servers[1].username, "");
    assert_eq!(native.ice_servers[1].credential, "");
}

#[test]
fn to_web_preserves_order_count_and_urls() {
    let configuration = sample_configuration();
    let web = configuration.to_web();
    assert_eq!(web.ice_servers.len(), 2);
    assert_eq!(
        web.ice_servers[0].urls,
        vec![
            "stun:stun.example.org:3478".to_owned(),
            "turn:turn.example.org:3478".to_owned(),
        ]
    );
    assert_eq!(
        web.ice_servers[1].urls,
        vec!["stun:stun.other.example:19302".to_owned()]
    );
    assert_eq!(web.ice_transport_policy, IceTransportPolicy::Relay);
}

#[test]
fn to_web_keeps_credentials_optional() {
    let configuration = sample_configuration();
    let web = configuration.to_web();
    assert_eq!(web.ice_servers[0].username, Some("alice".to_owned()));
    assert_eq!(web.ice_servers[0].credential, Some("turn-credential".to_owned()));
    assert_eq!(web.ice_servers[1].username, None);
    assert_eq!(web.ice_servers[1].credential, None);
}

#[test]
fn to_native_on_empty_configuration_is_empty() {
    let configuration = Configuration::default();
    let native = configuration.to_native();
    assert!(native.ice_servers.is_empty());
    assert_eq!(native.ice_transport_policy, IceTransportPolicy::All);
}

#[test]
fn defaults_are_open() {
    let server = IceServer::default();
    assert!(server.urls.is_empty());
    assert_eq!(server.username, None);
    assert_eq!(server.credential, None);
    assert_eq!(server.credential_type, IceCredentialType::Unspecified);
    assert_eq!(IceTransportPolicy::default(), IceTransportPolicy::All);
    assert_eq!(IceCredentialType::default(), IceCredentialType::Unspecified);
}
