use openlv::error::OpenLvError;
use openlv::keys::{
    DecryptionKey, EncryptionKey, HandshakeKey, InitHash, KeyPair, PublicKeyHash,
};
use openlv::session::config::{dapp, wallet, SessionInitParameters, SessionPlan};
use openlv::session::setup::{
    connect_session, connect_session_with_info, create_session, FreshMaterial,
};
use openlv::session::state::SessionState;
use openlv::session::transport_choice::select_transport_id;
use openlv::signaling::{PeerInfo, SignalState, SignalingProtocol, SignalingSnapshot};
use openlv::text::same_text;
use openlv::url::SessionUri;

#[test]
fn selects_the_first_host_preference_supported_by_the_client() {
    let host = ["ws", "wrtc"];
    let client = vec!["wrtc".to_string(), "ws".to_string()];
    assert_eq!(select_transport_id(true, &host, &client), Some("ws"));

    let client_own = ["wrtc", "ws"];
    let host_peer = vec!["ws".to_string(), "wrtc".to_string()];
    assert_eq!(
        select_transport_id(false, &client_own, &host_peer),
        Some("ws")
    );
}

#[test]
fn rejects_disjoint_transport_lists() {
    let host = ["wrtc"];
    let client = vec!["ws".to_string()];
    assert_eq!(select_transport_id(true, &host, &client), None);
}

#[test]
fn skips_preferences_that_the_client_lacks() {
    let host = ["quic", "ws", "wrtc"];
    let client = vec!["wrtc".to_string(), "wss".to_string(), "ws".to_string()];
    assert_eq!(select_transport_id(true, &host, &client), Some("ws"));
    assert_eq!(select_transport_id(true, &[], &client), None);
    assert_eq!(select_transport_id(false, &host, &[]), None);
}

#[test]
fn both_peers_pick_the_same_transport() {
    let host = ["a", "b", "c"];
    let client = ["c", "b"];
    let to_strings = |list: &[&str]| list.iter().map(|t| t.to_string()).collect::<Vec<_>>();
    assert_eq!(
        select_transport_id(true, &host, &to_strings(&client)),
        select_transport_id(false, &client, &to_strings(&host))
    );
    assert_eq!(select_transport_id(true, &host, &to_strings(&client)), Some("b"));
}

#[test]
fn text_is_compared_by_its_characters() {
    assert!(same_text("", ""));
    assert!(same_text("wrtc \u{e9}", "wrtc \u{e9}"));
    assert!(!same_text("wrtc", "wrtd"));
    assert!(!same_text("wrtc", "wrtcx"));
    assert!(!same_text("e", "\u{e9}"));
}

#[test]
fn peers_that_offer_themselves_have_a_transport() {
    let open = |seed: u8| {
        create_session(SessionInitParameters::default(), fresh(seed))
            .unwrap()
            .open(
                Ok(InitHash { hash: "h".to_string(), is_host: true }),
                PublicKeyHash("pkh".to_string()),
            )
            .unwrap()
    };
    let (one, other) = (open(1), open(2));
    let report = SignalingSnapshot {
        state: SignalState::Encrypted,
        peer: Some(other.properties.capabilities),
    };
    assert_eq!(one.session.select_transport(&report).as_deref(), Some("wrtc"));
}

fn identity() -> PeerInfo {
    PeerInfo { details: serde_json::from_str(r#"{"name":"demo"}"#).unwrap() }
}

fn keys(seed: u8) -> KeyPair {
    KeyPair {
        encryption_key: EncryptionKey { bytes: vec![seed, 1] },
        decryption_key: DecryptionKey { bytes: vec![seed, 2] },
    }
}

fn fresh(seed: u8) -> FreshMaterial {
    FreshMaterial {
        session_id: "fresh-session-id".to_string(),
        key_pair: Ok(keys(seed)),
        handshake_key: Ok(HandshakeKey { bytes: vec![seed, 3] }),
    }
}

fn layer_error<T>(text: &str) -> Result<T, OpenLvError> {
    Err(OpenLvError::Layer(text.to_string()))
}

#[test]
fn host_defaults_to_public_ntfy() {
    let plan = dapp().on_request(None).unwrap();
    match plan {
        SessionPlan::Create(init) => {
            assert_eq!(init.session_id, None);
            assert_eq!(init.h, None);
            assert!(init.k.is_none());
            assert_eq!(init.p.as_deref(), Some("ntfy"));
            assert_eq!(init.s.as_deref(), Some("https://ntfy.sh/"));
            assert!(init.info.is_none());
        }
        SessionPlan::Connect { .. } => panic!("a host creates its session"),
    }
}

#[test]
fn host_settings_are_kept() {
    let plan = dapp()
        .session_id("0123456789abcdef".to_string())
        .protocol(SignalingProtocol::Mqtt)
        .server("wss://broker/".to_string())
        .handshake_key(HandshakeKey { bytes: vec![9] })
        .info(identity())
        .on_request(None)
        .unwrap();
    match plan {
        SessionPlan::Create(init) => {
            assert_eq!(init.session_id.as_deref(), Some("0123456789abcdef"));
            assert_eq!(init.p.as_deref(), Some("mqtt"));
            assert_eq!(init.s.as_deref(), Some("wss://broker/"));
            assert_eq!(init.k.unwrap().bytes, vec![9]);
            assert_eq!(init.info.unwrap().details["name"], "demo");
        }
        SessionPlan::Connect { .. } => panic!("a host creates its session"),
    }
}

#[test]
fn client_connects_to_its_url_whatever_else_is_set() {
    let plan = wallet("openlv://abc")
        .server("https://elsewhere/".to_string())
        .info(identity())
        .on_request(None)
        .unwrap();
    match plan {
        SessionPlan::Connect { url, info } => {
            assert_eq!(url, "openlv://abc");
            assert_eq!(info.unwrap().details["name"], "demo");
        }
        SessionPlan::Create(_) => panic!("a client connects"),
    }
}

#[test]
fn identity_that_is_not_valid_is_refused() {
    let config = dapp().info(identity());
    assert_eq!(config.identity().unwrap().details["name"], "demo");
    let refused = config.on_request(Some("name too long".to_string()));
    assert!(matches!(refused, Err(OpenLvError::Session(text)) if text == "name too long"));

    let without = dapp();
    assert!(without.identity().is_none());
    assert!(without.on_request(Some("name too long".to_string())).is_ok());
}

#[test]
fn protocols_go_by_their_names() {
    assert!(matches!(SignalingProtocol::from("ntfy".to_string()), SignalingProtocol::Ntfy));
    assert!(matches!(SignalingProtocol::from("mqtt".to_string()), SignalingProtocol::Mqtt));
    for name in ["ntfy", "mqtt", "gun", ""] {
        assert_eq!(SignalingProtocol::from(name.to_string()).name(), name);
    }
}

#[test]
fn created_session_takes_what_was_made() {
    let draft = create_session(SessionInitParameters::default(), fresh(7)).unwrap();
    assert_eq!(draft.session_id, "fresh-session-id");
    assert_eq!(draft.handshake_key.bytes, vec![7, 3]);
    assert_eq!(draft.server, "https://ntfy.sh/");
    assert_eq!(draft.protocol.name(), "ntfy");
    assert_eq!(draft.h, None);

    let hash = InitHash { hash: "h4sh".to_string(), is_host: true };
    let setup = draft.open(Ok(hash), PublicKeyHash("pkh".to_string())).unwrap();
    assert!(setup.session.is_host());
    assert_eq!(setup.session.status(), SessionState::Created);
    assert_eq!(setup.session.error(), None);
    assert_eq!(setup.channel.session_id, "fresh-session-id");
    assert_eq!(setup.channel.server, "https://ntfy.sh/");
    assert_eq!(setup.properties.h, "h4sh");
    assert!(setup.properties.is_host);
    assert_eq!(setup.properties.handshake_key.unwrap().bytes, vec![7, 3]);
    assert_eq!(setup.properties.encryption_key.bytes, vec![7, 1]);
    assert_eq!(setup.properties.decryption_key.bytes, vec![7, 2]);
    assert_eq!(setup.properties.capabilities.transports, vec!["wrtc".to_string()]);
    assert_eq!(setup.decryption_key.bytes, vec![7, 2]);
    let SessionUri::Version1(uri) = setup.session.uri();
    assert_eq!(uri.session_id, "fresh-session-id");
    assert_eq!(uri.key_hash.0, "pkh");
    assert_eq!(uri.handshake_key.bytes, vec![7, 3]);
}

#[test]
fn created_session_is_a_host_whatever_its_hash_says() {
    let init = SessionInitParameters { h: Some("given".to_string()), ..Default::default() };
    let draft = create_session(init, fresh(1)).unwrap();
    assert_eq!(draft.h.as_deref(), Some("given"));
    let hash = InitHash { hash: "given".to_string(), is_host: false };
    let setup = draft.open(Ok(hash), PublicKeyHash("pkh".to_string())).unwrap();
    assert!(setup.session.is_host());
    assert!(!setup.properties.is_host);
}

#[test]
fn creation_fails_with_the_first_failure() {
    let mut material = fresh(1);
    material.key_pair = layer_error("no keys");
    material.handshake_key = layer_error("no handshake key");
    let failed = create_session(SessionInitParameters::default(), material);
    assert!(matches!(failed, Err(OpenLvError::Layer(text)) if text == "no keys"));

    let mut material = fresh(1);
    material.handshake_key = layer_error("no handshake key");
    let failed = create_session(SessionInitParameters::default(), material);
    assert!(matches!(failed, Err(OpenLvError::Layer(text)) if text == "no handshake key"));

    let mut material = fresh(1);
    material.handshake_key = layer_error("no handshake key");
    let init = SessionInitParameters {
        k: Some(HandshakeKey { bytes: vec![5] }),
        ..Default::default()
    };
    let draft = create_session(init, material).unwrap();
    assert_eq!(draft.handshake_key.bytes, vec![5]);
    let failed = draft.open(layer_error("no hash"), PublicKeyHash("pkh".to_string()));
    assert!(matches!(failed, Err(OpenLvError::Layer(text)) if text == "no hash"));
}

#[test]
fn client_is_led_to_the_channel_of_the_host() {
    let init = SessionInitParameters {
        session_id: Some("sid".to_string()),
        p: Some("gun".to_string()),
        s: Some("https://relay/".to_string()),
        ..Default::default()
    };
    let host = create_session(init, fresh(4))
        .unwrap()
        .open(
            Ok(InitHash { hash: "h".to_string(), is_host: true }),
            PublicKeyHash("pkh".to_string()),
        )
        .unwrap();
    let SessionUri::Version1(version1) = host.session.uri();
    let uri = SessionUri::Version1(version1.clone());

    let draft = connect_session(Ok(uri), Ok(keys(8))).unwrap();
    assert_eq!(draft.hash_input(), "pkh");
    assert!(draft.info.is_none());
    let client = draft
        .open(Ok(InitHash { hash: "pkh".to_string(), is_host: false }))
        .unwrap();
    assert_eq!(client.version1.session_id, host.channel.session_id);
    assert_eq!(client.version1.server, host.channel.server);
    assert_eq!(client.version1.protocol.name(), host.channel.protocol.name());
    assert_eq!(
        client.version1.handshake_key.bytes,
        host.properties.handshake_key.unwrap().bytes
    );
    assert!(!client.is_host);
    assert!(!client.session.is_host());
    assert_eq!(client.encryption_key.bytes, vec![8, 1]);
    assert_eq!(client.decryption_key.bytes, vec![8, 2]);
    assert_eq!(client.capabilities.transports, vec!["wrtc".to_string()]);
}

#[test]
fn connecting_fails_with_the_first_failure() {
    let failed = connect_session_with_info(layer_error("bad url"), layer_error("no keys"), None);
    assert!(matches!(failed, Err(OpenLvError::Layer(text)) if text == "bad url"));

    let uri = SessionUri::new(
        "sid",
        PublicKeyHash("pkh".to_string()),
        HandshakeKey { bytes: vec![] },
        SignalingProtocol::Ntfy,
        "https://ntfy.sh/".to_string(),
    );
    let failed = connect_session_with_info(Ok(uri), layer_error("no keys"), Some(identity()));
    assert!(matches!(failed, Err(OpenLvError::Layer(text)) if text == "no keys"));

    let uri = SessionUri::new(
        "sid",
        PublicKeyHash("pkh".to_string()),
        HandshakeKey { bytes: vec![] },
        SignalingProtocol::Ntfy,
        "https://ntfy.sh/".to_string(),
    );
    let draft = connect_session_with_info(Ok(uri), Ok(keys(1)), Some(identity())).unwrap();
    assert_eq!(draft.info.as_ref().unwrap().details["name"], "demo");
    let failed = draft.open(layer_error("no hash"));
    assert!(matches!(failed, Err(OpenLvError::Layer(text)) if text == "no hash"));
}
