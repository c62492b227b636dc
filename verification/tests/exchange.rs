use openlv::error::OpenLvError;
use openlv::keys::{EncryptionKey, HandshakeKey, PublicKeyHash};
use openlv::message::SessionMessage;
use openlv::session::exchange::{
    open_request, PendingRequest, ReplyEvent, DEFAULT_ACK_TIMEOUT_MS, DEFAULT_RESPONSE_TIMEOUT_MS,
};
use openlv::session::send::{OutgoingRequest, SendAction, SendEvent};
use openlv::session::serve::{
    handle_remote_request, handle_transport_payload, relay_negotiation, route_signal_payload,
    route_unwrapped, send_session_message, wrap_negotiation, Inbound, ServeAction, ServeEvent,
    SignalRoute,
};
use openlv::session::state::{build_session, Session};
use openlv::signaling::{SignalState, SignalingProtocol};
use openlv::url::SessionUri;
use serde_json::Value;

fn value(text: &str) -> Value {
    serde_json::from_str(text).unwrap()
}

fn json_error() -> serde_json::Error {
    serde_json::from_str::<Value>("{").unwrap_err()
}

fn session() -> Session {
    build_session(
        SessionUri::new(
            "sid",
            PublicKeyHash("pkh".to_string()),
            HandshakeKey { bytes: vec![1] },
            SignalingProtocol::Ntfy,
            "https://ntfy.sh/".to_string(),
        ),
        true,
    )
}

fn pending(id: &str) -> PendingRequest {
    open_request(id.to_string(), value("1"), 10, 20).1
}

fn ack(id: &str) -> ReplyEvent {
    ReplyEvent::Arrived(SessionMessage::Ack { message_id: id.to_string() })
}

fn response(id: &str, payload: &str) -> ReplyEvent {
    ReplyEvent::Arrived(SessionMessage::Response {
        message_id: id.to_string(),
        payload: value(payload),
    })
}

fn timeout_text(answer: Option<Result<Value, OpenLvError>>) -> String {
    match answer {
        Some(Err(OpenLvError::RequestTimeout(text))) => text,
        other => panic!("{other:?}"),
    }
}

fn is_uuid_v4(id: &str) -> bool {
    let bytes = id.as_bytes();
    bytes.len() == 36
        && bytes.iter().enumerate().all(|(i, b)| match i {
            8 | 13 | 18 | 23 => *b == b'-',
            14 => *b == b'4',
            19 => matches!(b, b'8' | b'9' | b'a' | b'b'),
            _ => matches!(b, b'0'..=b'9' | b'a'..=b'f'),
        })
}

#[test]
fn requests_need_a_complete_handshake() {
    for state in [
        SignalState::Ready,
        SignalState::Handshake,
        SignalState::HandshakePartial,
        SignalState::Error,
        SignalState::Other("Connecting".to_string()),
    ] {
        let refused = session().send(state, value("1"));
        assert!(matches!(refused, Err(OpenLvError::Session(text)) if text == "session not ready"));
    }
}

fn listening((request, action): (OutgoingRequest, SendAction)) -> (OutgoingRequest, SessionMessage) {
    assert!(matches!(action, SendAction::Listen));
    match request.on_event(SendEvent::Listening, 0) {
        (request, SendAction::Send(message)) => (request, message),
        other => panic!("{other:?}"),
    }
}

#[test]
fn request_carries_its_payload_under_its_own_identifier() {
    let opened = session().send(SignalState::Encrypted, value(r#"{"method":"eth_chainId"}"#));
    let (request, message) = listening(opened.unwrap());
    match message {
        SessionMessage::Request { message_id, payload } => {
            assert!(is_uuid_v4(&message_id), "{message_id}");
            assert_eq!(payload["method"], "eth_chainId");
            let opened = session().send(SignalState::Encrypted, value("1"));
            match listening(opened.unwrap()).1 {
                SessionMessage::Request { message_id: other_id, .. } => {
                    assert_ne!(message_id, other_id)
                }
                other => panic!("{other:?}"),
            }
        }
        other => panic!("{other:?}"),
    }
    assert_eq!(DEFAULT_ACK_TIMEOUT_MS, 10_000);
    assert_eq!(DEFAULT_RESPONSE_TIMEOUT_MS, 3_600_000);
    assert_eq!(request.timeout_nanos(0), 10_000_000_000);
    let opened = session().send_with_timeouts(SignalState::Encrypted, value("1"), 7, 8);
    assert_eq!(opened.unwrap().0.timeout_nanos(1), 6_999_999);
}

#[test]
fn requests_are_sent_once_answers_are_listened_for() {
    let opened = OutgoingRequest::open("m1".to_string(), value("[5]"), 10, 20);
    assert!(matches!(opened.1, SendAction::Listen));
    // Nothing was sent yet, so these tell nothing.
    let (request, action) = opened.0.on_event(SendEvent::Sent(Ok(())), 0);
    assert!(matches!(action, SendAction::Nothing));
    let (request, action) = request.on_event(SendEvent::Heard(response("m1", "1")), 0);
    assert!(matches!(action, SendAction::Nothing));
    let (request, message) = listening((request, SendAction::Listen));
    match message {
        SessionMessage::Request { message_id, payload } => {
            assert_eq!(message_id, "m1");
            assert_eq!(payload, value("[5]"));
        }
        other => panic!("{other:?}"),
    }
    let (request, action) = request.on_event(SendEvent::Sent(Ok(())), 0);
    assert!(matches!(action, SendAction::Wait));
    let (request, action) = request.on_event(SendEvent::Heard(ack("m1")), 4_000_000);
    assert!(matches!(action, SendAction::Wait));
    assert_eq!(request.timeout_nanos(5_000_000), 19_000_000);
    let (request, action) = request.on_event(SendEvent::Heard(response("m1", "[6]")), 5_000_000);
    assert!(matches!(action, SendAction::Return(Ok(payload)) if payload == value("[6]")));
    let (_, action) = request.on_event(SendEvent::Heard(response("m1", "[7]")), 6_000_000);
    assert!(matches!(action, SendAction::Nothing));
}

#[test]
fn request_that_cannot_be_sent_is_not_waited_for() {
    let opened = OutgoingRequest::open("m1".to_string(), Value::Null, 10, 20);
    let (request, _) = listening(opened);
    let failed = Err(OpenLvError::Layer("no route".to_string()));
    let (request, action) = request.on_event(SendEvent::Sent(failed), 0);
    assert!(matches!(
        action,
        SendAction::Return(Err(OpenLvError::Layer(text))) if text == "no route"
    ));
    let (_, action) = request.on_event(SendEvent::Heard(ReplyEvent::TimedOut), 1);
    assert!(matches!(action, SendAction::Nothing));
}

#[test]
fn request_that_is_given_up_returns_why() {
    let opened = OutgoingRequest::open("m1".to_string(), Value::Null, 10, 20);
    let (request, _) = listening(opened);
    let (request, _) = request.on_event(SendEvent::Sent(Ok(())), 0);
    let (_, action) = request.on_event(SendEvent::Heard(ReplyEvent::TimedOut), 10_000_000);
    match action {
        SendAction::Return(answer) => {
            assert_eq!(timeout_text(Some(answer)), "remote peer did not acknowledge")
        }
        other => panic!("{other:?}"),
    }
}

#[test]
fn request_is_answered_after_its_acknowledgement() {
    let mut p = pending("m1");
    assert!(p.on_event(ack("m1"), 0).is_none());
    assert_eq!(p.on_event(response("m1", "[7]"), 0).unwrap().unwrap(), value("[7]"));
}

#[test]
fn request_is_answered_without_an_acknowledgement() {
    let mut p = pending("m1");
    assert_eq!(p.on_event(response("m1", "null"), 0).unwrap().unwrap(), Value::Null);
}

#[test]
fn answers_to_other_requests_are_passed_over() {
    let mut p = pending("m1");
    assert!(p.on_event(ack("m2"), 0).is_none());
    assert!(p.on_event(response("m2", "1"), 0).is_none());
    let request = SessionMessage::Request { message_id: "m1".to_string(), payload: value("1") };
    assert!(p.on_event(ReplyEvent::Arrived(request), 0).is_none());
    assert_eq!(timeout_text(p.on_event(ReplyEvent::TimedOut, 0)), "remote peer did not acknowledge");
}

#[test]
fn timeouts_tell_how_far_the_request_came() {
    let mut p = pending("m1");
    assert_eq!(timeout_text(p.on_event(ReplyEvent::TimedOut, 0)), "remote peer did not acknowledge");
    let mut p = pending("m1");
    p.on_event(ack("m1"), 0);
    assert_eq!(timeout_text(p.on_event(ReplyEvent::TimedOut, 0)), "no response after acknowledgement");
    let mut p = pending("m1");
    assert_eq!(timeout_text(p.on_event(ReplyEvent::Closed, 0)), "response channel closed");
}

#[test]
fn waiting_for_the_acknowledgement_has_one_deadline() {
    let mut p = pending("m1");
    assert_eq!(p.timeout_nanos(0), 10_000_000);
    assert_eq!(p.timeout_nanos(4_000_001), 5_999_999);
    p.on_event(ack("m2"), 5_000_000);
    p.on_event(response("m2", "1"), 6_000_000);
    assert_eq!(p.timeout_nanos(6_000_000), 4_000_000);
    assert_eq!(p.timeout_nanos(10_000_000), 0);
    assert_eq!(p.timeout_nanos(u128::MAX), 0);
    assert_eq!(
        timeout_text(p.on_event(ReplyEvent::TimedOut, 10_000_000)),
        "remote peer did not acknowledge"
    );
}

#[test]
fn waiting_for_the_response_has_one_deadline() {
    let mut p = pending("m1");
    p.on_event(ack("m1"), 3_000_000);
    assert_eq!(p.timeout_nanos(3_000_000), 20_000_000);
    assert_eq!(p.timeout_nanos(4_000_000), 19_000_000);
    p.on_event(ack("m2"), 8_000_000);
    p.on_event(response("m2", "1"), 9_000_000);
    assert_eq!(p.timeout_nanos(9_000_000), 14_000_000);
    p.on_event(ack("m1"), 13_000_000);
    assert_eq!(p.timeout_nanos(13_000_000), 10_000_000);
    assert_eq!(p.timeout_nanos(23_000_000), 0);
    assert_eq!(p.timeout_nanos(u128::MAX), 0);
    assert_eq!(p.timeout_nanos(1_000_000), 20_000_000);
    assert_eq!(
        timeout_text(p.on_event(ReplyEvent::TimedOut, 23_000_000)),
        "no response after acknowledgement"
    );
}

#[test]
fn timeouts_of_any_length_are_computed() {
    let (_, mut p) = open_request("m".to_string(), Value::Null, u64::MAX, u64::MAX);
    assert_eq!(p.timeout_nanos(0), u64::MAX as u128 * 1_000_000);
    p.on_event(ack("m"), u128::MAX);
    assert_eq!(p.timeout_nanos(0), u64::MAX as u128 * 1_000_000);
    assert_eq!(p.timeout_nanos(u128::MAX), u64::MAX as u128 * 1_000_000);
}

#[test]
fn handler_result_comes_back_to_the_sender() {
    let (message, mut p) = open_request("m1".to_string(), value(r#"{"a":1}"#), 10, 20);
    let (message_id, payload) = match handle_transport_payload(Ok(Ok(message))).unwrap() {
        Inbound::Request { message_id, payload } => (message_id, payload),
        other => panic!("{other:?}"),
    };
    let (request, action) = handle_remote_request(message_id, payload);
    let ack = match action {
        ServeAction::Acknowledge(message) => message,
        other => panic!("{other:?}"),
    };
    match handle_transport_payload(Ok(Ok(ack))).unwrap() {
        Inbound::Reply(message) => {
            assert!(p.on_event(ReplyEvent::Arrived(message), 1_000_000).is_none())
        }
        other => panic!("{other:?}"),
    }
    assert_eq!(p.timeout_nanos(2_000_000), 19_000_000);
    let (request, action) = request.on_event(ServeEvent::Performed);
    assert!(matches!(action, ServeAction::Publish(payload) if payload == value(r#"{"a":1}"#)));
    let (request, action) = request.on_event(ServeEvent::Performed);
    assert!(matches!(action, ServeAction::Handle(payload) if payload == value(r#"{"a":1}"#)));
    let (request, action) = request.on_event(ServeEvent::Handled(Ok(value(r#""done""#))));
    let answer = match action {
        ServeAction::Respond(message) => message,
        other => panic!("{other:?}"),
    };
    match handle_transport_payload(Ok(Ok(answer))).unwrap() {
        Inbound::Reply(message) => {
            let result = p.on_event(ReplyEvent::Arrived(message), 3_000_000).unwrap().unwrap();
            assert_eq!(result, "done");
        }
        other => panic!("{other:?}"),
    }
    let (request, action) = request.on_event(ServeEvent::Performed);
    assert!(matches!(action, ServeAction::Nothing));
    let (_, action) = request.on_event(ServeEvent::Performed);
    assert!(matches!(action, ServeAction::Nothing));
}

#[test]
fn failed_handler_is_not_answered() {
    let (request, _) = handle_remote_request("m1".to_string(), Value::Null);
    let (request, _) = request.on_event(ServeEvent::Performed);
    let (request, _) = request.on_event(ServeEvent::Performed);
    let failed = Err(OpenLvError::Layer("handler".to_string()));
    let (request, action) = request.on_event(ServeEvent::Handled(failed));
    assert!(matches!(action, ServeAction::Nothing));
    let (_, action) = request.on_event(ServeEvent::Handled(Ok(Value::Null)));
    assert!(matches!(action, ServeAction::Nothing));
}

#[test]
fn requests_are_served_in_order() {
    let (request, action) = handle_remote_request("m1".to_string(), Value::Null);
    assert!(matches!(
        action,
        ServeAction::Acknowledge(SessionMessage::Ack { message_id }) if message_id == "m1"
    ));
    // The handler was not called yet, so it cannot have come to anything.
    let (request, action) = request.on_event(ServeEvent::Handled(Ok(value("1"))));
    assert!(matches!(action, ServeAction::Nothing));
    let (request, action) = request.on_event(ServeEvent::Performed);
    assert!(matches!(action, ServeAction::Publish(Value::Null)));
    let (request, action) = request.on_event(ServeEvent::Performed);
    assert!(matches!(action, ServeAction::Handle(Value::Null)));
    let (request, action) = request.on_event(ServeEvent::Performed);
    assert!(matches!(action, ServeAction::Nothing));
    let (_, action) = request.on_event(ServeEvent::Handled(Ok(value("2"))));
    match action {
        ServeAction::Respond(SessionMessage::Response { message_id, payload }) => {
            assert_eq!(message_id, "m1");
            assert_eq!(payload, value("2"));
        }
        other => panic!("{other:?}"),
    }
}

#[test]
fn unreadable_payloads_are_errors() {
    let failed = handle_transport_payload(Err(OpenLvError::Layer("decrypt".to_string())));
    assert!(matches!(failed, Err(OpenLvError::Layer(text)) if text == "decrypt"));
    let failed = handle_transport_payload(Ok(Err(json_error())));
    assert!(matches!(failed, Err(OpenLvError::Json(_))));
}

#[test]
fn messages_are_sealed_with_the_key_of_the_peer() {
    let key = EncryptionKey { bytes: vec![4, 2] };
    let (text, key) = send_session_message(Ok("plain".to_string()), Some(key)).unwrap();
    assert_eq!(text, "plain");
    assert_eq!(key.bytes, vec![4, 2]);
    let failed = send_session_message(Ok("plain".to_string()), None);
    assert!(matches!(
        failed,
        Err(OpenLvError::Session(text)) if text == "relying party public key not found"
    ));
    let failed = send_session_message(Err(json_error()), None);
    assert!(matches!(failed, Err(OpenLvError::Json(_))));
}

#[test]
fn signaling_payloads_are_routed() {
    assert!(matches!(route_signal_payload(Some(5), None), SignalRoute::Negotiate(5)));
    let request = SessionMessage::Request { message_id: "m".to_string(), payload: value("[1]") };
    match route_signal_payload::<u8>(None, Some(request)) {
        SignalRoute::Unwrap(payload) => assert_eq!(payload, value("[1]")),
        other => panic!("{other:?}"),
    }
    let message = SessionMessage::Ack { message_id: "m".to_string() };
    match route_signal_payload::<u8>(None, Some(message)) {
        SignalRoute::Publish(SessionMessage::Ack { message_id }) => assert_eq!(message_id, "m"),
        other => panic!("{other:?}"),
    }
    assert!(matches!(route_signal_payload::<u8>(None, None), SignalRoute::Ignore));
    assert!(matches!(route_unwrapped(Some(6)), SignalRoute::Negotiate(6)));
    assert!(matches!(route_unwrapped::<u8>(None), SignalRoute::Ignore));
}

#[test]
fn relayed_negotiation_is_unwrapped() {
    let relayed = relay_negotiation(Ok(value(r#"{"sdp":"x"}"#))).unwrap();
    match &relayed {
        SessionMessage::Request { message_id, .. } => assert!(is_uuid_v4(message_id)),
        other => panic!("{other:?}"),
    }
    match route_signal_payload::<u8>(None, Some(relayed)) {
        SignalRoute::Unwrap(payload) => assert_eq!(payload["sdp"], "x"),
        other => panic!("{other:?}"),
    }
    assert!(matches!(relay_negotiation(Err(json_error())), Err(OpenLvError::Json(_))));
    match wrap_negotiation("m9".to_string(), Ok(Value::Null)).unwrap() {
        SessionMessage::Request { message_id, payload } => {
            assert_eq!(message_id, "m9");
            assert_eq!(payload, Value::Null);
        }
        other => panic!("{other:?}"),
    }
}
