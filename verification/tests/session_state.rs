use openlv::error::OpenLvError;
use openlv::keys::{HandshakeKey, PublicKeyHash};
use openlv::session::close::{CloseAction, CloseEvent, SessionClose};
use openlv::session::link::{LinkEvent, LinkStep};
use openlv::session::start::{SessionStart, StartAction, StartEvent};
use openlv::session::state::{
    build_session, NextAction, Session, SessionState, SessionStateObject,
};
use openlv::signaling::{
    PeerCapabilities, PeerInfo, SignalState, SignalingProtocol, SignalingSnapshot,
};
use openlv::transport::TransportState;
use openlv::url::SessionUri;

fn session(is_host: bool) -> Session {
    build_session(
        SessionUri::new(
            "sid",
            PublicKeyHash("pkh".to_string()),
            HandshakeKey { bytes: vec![1, 2, 3] },
            SignalingProtocol::Ntfy,
            "https://ntfy.sh/".to_string(),
        ),
        is_host,
    )
}

fn signaling(state: SignalState) -> SignalingSnapshot {
    SignalingSnapshot { state, peer: None }
}

fn with_peer(state: SignalState, transports: &[&str]) -> SignalingSnapshot {
    SignalingSnapshot {
        state,
        peer: Some(PeerCapabilities {
            transports: transports.iter().map(|t| t.to_string()).collect(),
            info: Some(PeerInfo { details: serde_json::from_str(r#"{"name":"peer"}"#).unwrap() }),
        }),
    }
}

/// A state that the session takes no notice of.
fn idle() -> SignalState {
    SignalState::Other("Disconnected".to_string())
}

fn start(s: &mut Session, report: &SignalingSnapshot) -> (SessionStart, SessionStateObject) {
    match s.connect(report).unwrap() {
        (start, StartAction::Publish(published)) => (start, published),
        other => panic!("{other:?}"),
    }
}

#[test]
fn new_session_is_created() {
    let s = session(true);
    assert!(s.is_host());
    let seen = s.state(&signaling(idle()));
    assert_eq!(seen.status, SessionState::Created);
    assert_eq!(seen.signaling, Some(SignalState::Other("Disconnected".to_string())));
    assert_eq!(seen.clone().signaling, seen.signaling);
    assert!(seen.peer_info.is_none());
    assert_eq!(seen.error, None);
    let SessionUri::Version1(uri) = s.uri();
    assert_eq!(uri.session_id, "sid");
}

#[test]
fn session_starts_once() {
    let mut s = session(true);
    let (_, published) = start(&mut s, &signaling(idle()));
    assert_eq!(published.status, SessionState::Signaling);
    assert_eq!(published.signaling, Some(idle()));
    assert_eq!(s.status(), SessionState::Signaling);
    let report = signaling(SignalState::Ready);
    let again = s.connect(&report);
    assert!(matches!(again, Err(OpenLvError::Session(text)) if text == "session already connected"));
    assert_eq!(s.status(), SessionState::Signaling);
    close(&mut s, &report);
    let again = s.connect(&report);
    assert!(matches!(again, Err(OpenLvError::Session(text)) if text == "session already connected"));
    assert_eq!(s.status(), SessionState::Disconnected);
}

#[test]
fn start_comes_to_what_the_signaling_setup_came_to() {
    for fails in [false, true] {
        let mut s = session(true);
        let (mut start, _) = start(&mut s, &signaling(idle()));
        // Nothing was set up yet, so this tells nothing.
        assert!(matches!(start.on_event(StartEvent::SetUp(Ok(()))), StartAction::Nothing));
        assert!(matches!(start.on_event(StartEvent::Performed), StartAction::FollowLayers));
        assert!(matches!(start.on_event(StartEvent::Performed), StartAction::SetUpSignaling));
        assert!(matches!(start.on_event(StartEvent::Performed), StartAction::Nothing));
        let outcome = if fails { Err(OpenLvError::Layer("down".to_string())) } else { Ok(()) };
        match start.on_event(StartEvent::SetUp(outcome)) {
            StartAction::Return(Ok(())) => assert!(!fails),
            StartAction::Return(Err(OpenLvError::Layer(text))) => {
                assert!(fails);
                assert_eq!(text, "down");
            }
            other => panic!("{other:?}"),
        }
        assert!(matches!(start.on_event(StartEvent::SetUp(Ok(()))), StartAction::Nothing));
    }
}

#[test]
fn signaling_states_move_the_session() {
    let mut s = session(true);
    let step = s.on_signal_state(SignalState::Ready, &signaling(SignalState::Ready));
    assert_eq!(step.published.unwrap().status, SessionState::Ready);
    assert_eq!(step.next, NextAction::Nothing);

    let step = s.on_signal_state(SignalState::Handshake, &signaling(SignalState::Handshake));
    assert_eq!(step.published.unwrap().status, SessionState::Linking);
    let step = s.on_signal_state(
        SignalState::HandshakePartial,
        &signaling(SignalState::HandshakePartial),
    );
    assert_eq!(step.published.unwrap().status, SessionState::Linking);

    let step = s.on_signal_state(idle(), &signaling(idle()));
    assert!(step.published.is_none());
    assert_eq!(s.status(), SessionState::Linking);

    let step = s.on_signal_state(SignalState::Error, &signaling(SignalState::Error));
    let seen = step.published.unwrap();
    assert_eq!(seen.status, SessionState::Disconnected);
    assert_eq!(seen.error.as_deref(), Some("signaling failed or timed out"));
    assert_eq!(s.error().as_deref(), Some("signaling failed or timed out"));
}

#[test]
fn handshake_sets_up_a_common_transport() {
    for is_host in [true, false] {
        let mut s = session(is_host);
        let report = with_peer(SignalState::Encrypted, &["ws", "wrtc"]);
        assert_eq!(s.select_transport(&report).as_deref(), Some("wrtc"));
        let step = s.on_signal_state(SignalState::Encrypted, &report);
        assert!(step.published.is_none());
        assert_eq!(step.next, NextAction::SetUpTransport);
        assert_eq!(s.status(), SessionState::Created);

        let step = s.on_transport_setup(Ok(()), &report);
        assert!(step.published.is_none());
        assert_eq!(step.next, NextAction::WatchTransport);
    }
}

#[test]
fn handshake_without_a_common_transport_disconnects() {
    let unknown = signaling(SignalState::Encrypted);
    let disjoint = with_peer(SignalState::Encrypted, &["ws"]);
    for report in [unknown, disjoint] {
        let mut s = session(true);
        assert_eq!(s.select_transport(&report), None);
        let step = s.on_signal_state(SignalState::Encrypted, &report);
        assert_eq!(step.next, NextAction::Nothing);
        let seen = step.published.unwrap();
        assert_eq!(seen.status, SessionState::Disconnected);
        assert_eq!(seen.error.as_deref(), Some("no common transport with peer"));
    }
}

#[test]
fn failed_transport_setup_disconnects() {
    let mut s = session(true);
    let report = with_peer(SignalState::Encrypted, &["wrtc"]);
    let step = s.on_transport_setup(Err("ice failed".to_string()), &report);
    let seen = step.published.unwrap();
    assert_eq!(seen.status, SessionState::Disconnected);
    assert_eq!(seen.error.as_deref(), Some("ice failed"));
    assert_eq!(seen.peer_info.unwrap().details["name"], "peer");
    assert_eq!(step.next, NextAction::Nothing);
}

#[test]
fn transport_states_move_the_session() {
    let mut s = session(true);
    let report = signaling(SignalState::Encrypted);
    let step = s.on_transport_state(TransportState::Other, &report);
    assert!(step.published.is_none());
    let step = s.on_transport_state(TransportState::Connected, &report);
    assert_eq!(step.published.unwrap().status, SessionState::Connected);
    assert_eq!(step.next, NextAction::Nothing);
    let step = s.on_transport_state(TransportState::Error, &report);
    assert_eq!(step.next, NextAction::StopWatching);
    assert_eq!(
        step.published.unwrap().error.as_deref(),
        Some("peer-to-peer transport failed")
    );
    assert_eq!(s.status(), SessionState::Disconnected);
}

/// Closes a session whose layers can be torn down.
fn close(s: &mut Session, report: &SignalingSnapshot) -> SessionStateObject {
    let mut closing = SessionClose::new();
    let action = s.close(&mut closing, CloseEvent::Asked, report);
    assert!(matches!(action, CloseAction::StopFollowing));
    let action = s.close(&mut closing, CloseEvent::Performed, report);
    assert!(matches!(action, CloseAction::TearDownTransport));
    let action = s.close(&mut closing, CloseEvent::TornDown(Ok(())), report);
    assert!(matches!(action, CloseAction::TearDownSignaling));
    let published = match s.close(&mut closing, CloseEvent::TornDown(Ok(())), report) {
        CloseAction::Publish(published) => published,
        other => panic!("{other:?}"),
    };
    let action = s.close(&mut closing, CloseEvent::Performed, report);
    assert!(matches!(action, CloseAction::Return(Ok(()))));
    let action = s.close(&mut closing, CloseEvent::TornDown(Ok(())), report);
    assert!(matches!(action, CloseAction::Nothing));
    published
}

#[test]
fn closing_tears_down_in_order() {
    let report = signaling(SignalState::Encrypted);
    let mut s = session(true);
    let seen = close(&mut s, &report);
    assert_eq!(seen.status, SessionState::Disconnected);
    assert_eq!(seen.signaling, Some(SignalState::Encrypted));
    assert_eq!(s.status(), SessionState::Disconnected);
    assert_eq!(s.error(), None);
}

#[test]
fn closing_needs_both_teardowns() {
    let report = signaling(SignalState::Encrypted);
    let mut s = session(true);
    let mut closing = SessionClose::new();
    let action = s.close(&mut closing, CloseEvent::TornDown(Ok(())), &report);
    assert!(matches!(action, CloseAction::Nothing));
    s.close(&mut closing, CloseEvent::Asked, &report);
    let action = s.close(&mut closing, CloseEvent::TornDown(Ok(())), &report);
    assert!(matches!(action, CloseAction::Nothing));
    s.close(&mut closing, CloseEvent::Performed, &report);
    s.close(&mut closing, CloseEvent::TornDown(Ok(())), &report);
    assert_eq!(s.status(), SessionState::Created);
    let action = s.close(&mut closing, CloseEvent::Performed, &report);
    assert!(matches!(action, CloseAction::Nothing));
    assert_eq!(s.status(), SessionState::Created);
}

#[test]
fn failed_teardown_leaves_the_session() {
    let report = signaling(SignalState::Encrypted);
    for torn_down in [0, 1] {
        let mut s = session(true);
        let mut closing = SessionClose::new();
        s.close(&mut closing, CloseEvent::Asked, &report);
        s.close(&mut closing, CloseEvent::Performed, &report);
        for _ in 0..torn_down {
            s.close(&mut closing, CloseEvent::TornDown(Ok(())), &report);
        }
        let stuck = CloseEvent::TornDown(Err(OpenLvError::Layer("stuck".to_string())));
        let action = s.close(&mut closing, stuck, &report);
        assert!(matches!(
            action,
            CloseAction::Return(Err(OpenLvError::Layer(text))) if text == "stuck"
        ));
        for event in [CloseEvent::TornDown(Ok(())), CloseEvent::Performed, CloseEvent::Asked] {
            let action = s.close(&mut closing, event, &report);
            assert!(matches!(action, CloseAction::Nothing));
        }
        assert_eq!(s.status(), SessionState::Created);
    }
}

fn linked(step: &LinkStep) -> bool {
    matches!(step.outcome, Some(Ok(())))
}

fn failure(step: LinkStep) -> String {
    match step.outcome {
        Some(Err(OpenLvError::Session(text))) => text,
        other => panic!("{other:?}"),
    }
}

#[test]
fn link_is_there_at_once_when_connected() {
    let report = signaling(SignalState::Encrypted);
    let mut s = session(true);
    let step = s.wait_for_link(TransportState::Connected, &report);
    assert!(linked(&step));
    assert_eq!(step.published.unwrap().status, SessionState::Connected);
    let step = s.wait_for_link(TransportState::Other, &report);
    assert!(linked(&step));
    assert!(step.published.is_none());
}

#[test]
fn no_link_for_a_disconnected_session() {
    let report = signaling(SignalState::Error);
    let mut s = session(true);
    close(&mut s, &report);
    let step = s.wait_for_link(TransportState::Connected, &report);
    assert!(step.published.is_none());
    assert_eq!(failure(step), "session failed to connect");

    let mut s = session(true);
    s.on_signal_state(SignalState::Error, &report);
    let step = s.wait_for_link(TransportState::Connected, &report);
    assert_eq!(failure(step), "signaling failed or timed out");
    assert_eq!(s.status(), SessionState::Disconnected);
}

#[test]
fn link_waits_for_the_transport() {
    let report = signaling(SignalState::Encrypted);
    let mut s = session(true);
    let step = s.wait_for_link(TransportState::Other, &report);
    assert!(step.outcome.is_none());
    for event in [LinkEvent::Reached(TransportState::Other), LinkEvent::Lagged] {
        let step = s.on_link_event(event, TransportState::Other, &report);
        assert!(step.outcome.is_none());
        assert!(step.published.is_none());
        assert_eq!(s.status(), SessionState::Created);
    }
    let step = s.on_link_event(
        LinkEvent::Reached(TransportState::Connected),
        TransportState::Other,
        &report,
    );
    assert!(linked(&step));
    assert_eq!(s.status(), SessionState::Connected);
}

#[test]
fn link_notices_a_transport_that_is_connected_meanwhile() {
    let report = signaling(SignalState::Encrypted);
    for event in [
        LinkEvent::Reached(TransportState::Other),
        LinkEvent::Lagged,
        LinkEvent::Closed,
    ] {
        let mut s = session(true);
        let step = s.on_link_event(event, TransportState::Connected, &report);
        assert!(linked(&step));
        assert_eq!(s.status(), SessionState::Connected);
    }
}

#[test]
fn link_fails_with_the_transport() {
    let report = signaling(SignalState::Encrypted);
    let mut s = session(true);
    let step = s.on_link_event(
        LinkEvent::Reached(TransportState::Error),
        TransportState::Connected,
        &report,
    );
    assert_eq!(step.published.as_ref().unwrap().status, SessionState::Disconnected);
    assert_eq!(failure(step), "peer-to-peer transport failed");
    assert_eq!(s.error().as_deref(), Some("peer-to-peer transport failed"));

    let mut s = session(true);
    let step = s.on_link_event(LinkEvent::Closed, TransportState::Other, &report);
    assert!(step.published.is_none());
    assert_eq!(failure(step), "transport state channel closed");
    assert_eq!(s.status(), SessionState::Created);
}

#[test]
fn errors_are_noted() {
    let mut s = session(true);
    s.set_error("odd".to_string());
    let published = s.set_status(SessionState::Ready, &with_peer(SignalState::Ready, &[]));
    assert_eq!(published.status, SessionState::Ready);
    assert_eq!(published.error.as_deref(), Some("odd"));
    assert_eq!(published.signaling, Some(SignalState::Ready));
    assert_eq!(published.peer_info.unwrap().details["name"], "peer");
}

#[test]
fn history_keeps_identity_and_errors() {
    let report = with_peer(SignalState::Encrypted, &["wrtc"]);
    let mut s = session(false);
    start(&mut s, &report);
    s.on_signal_state(SignalState::Error, &report);
    s.on_signal_state(SignalState::Ready, &report);
    s.on_transport_state(TransportState::Connected, &report);
    assert_eq!(s.status(), SessionState::Connected);
    assert_eq!(s.error().as_deref(), Some("signaling failed or timed out"));
    close(&mut s, &report);
    assert!(s.connect(&report).is_err());
    assert!(!s.is_host());
    let SessionUri::Version1(uri) = s.uri();
    assert_eq!(uri.key_hash.0, "pkh");
    assert_eq!(s.error().as_deref(), Some("signaling failed or timed out"));
}

#[test]
fn observations_are_what_the_session_shows() {
    let report = with_peer(SignalState::Handshake, &[]);
    let mut s = session(true);
    let published = s.on_signal_state(SignalState::Handshake, &report).published.unwrap();
    let seen = s.state(&report);
    assert_eq!(published.status, seen.status);
    assert_eq!(published.signaling, seen.signaling);
    assert_eq!(published.error, seen.error);
    let copy = published.clone();
    assert_eq!(copy.status, SessionState::Linking);
    assert_eq!(copy.peer_info.unwrap().details, seen.peer_info.unwrap().details);
}
