use openlv::error::OpenLvError;
use openlv::keys::{HandshakeKey, PublicKeyHash};
use openlv::message::SessionMessage;
use openlv::provider::dispatch::{
    dispatch_reply, envelope, DispatchError, RpcId, RpcPayload, Transport,
};
use openlv::provider::jsonrpc::JsonRpcRequest;
use openlv::provider::packet::{begin_packet, PacketReply, PacketShape, PacketStep};
use openlv::session::send::{SendAction, SendEvent};
use openlv::session::state::{build_session, Session};
use openlv::signaling::{SignalState, SignalingProtocol};
use openlv::url::SessionUri;
use serde_json::Value;

fn value(text: &str) -> Value {
    serde_json::from_str(text).unwrap()
}

fn session() -> Session {
    build_session(
        SessionUri::new(
            "sid",
            PublicKeyHash("pkh".to_string()),
            HandshakeKey { bytes: vec![1] },
            SignalingProtocol::Ntfy,
            "https://ntfy.sh/".to_string(),
        ),
        true,
    )
}

#[test]
fn request_is_written_as_json_rpc() {
    let request = JsonRpcRequest::new("eth_chainId", value("[1,2]"), 9);
    assert_eq!(request.jsonrpc, "2.0");
    assert_eq!(
        request.to_value(),
        value(r#"{"jsonrpc":"2.0","method":"eth_chainId","params":[1,2],"id":9}"#)
    );
    let request = JsonRpcRequest::new("eth_signTransaction", (value(r#"{"to":"x"}"#),), 3);
    assert_eq!(
        request.to_list_value(),
        value(r#"{"jsonrpc":"2.0","method":"eth_signTransaction","params":[{"to":"x"}],"id":3}"#)
    );
}

#[test]
fn text_is_sent_as_the_json_it_denotes() {
    let session = session();
    let transport = Transport::new(&session);
    let (request, action) = transport
        .dispatch_request(SignalState::Encrypted, r#" {"method": "eth_chainId", "id": 1} "#)
        .unwrap();
    assert!(matches!(action, SendAction::Listen));
    assert_eq!(request.timeout_nanos(0), 10_000_000_000);
    match request.on_event(SendEvent::Listening, 0).1 {
        SendAction::Send(SessionMessage::Request { payload, .. }) => {
            assert_eq!(payload, value(r#"{"method":"eth_chainId","id":1}"#))
        }
        other => panic!("{other:?}"),
    }
}

#[test]
fn dispatch_reports_what_went_wrong_first() {
    let session = session();
    let transport = Transport::new(&session);
    let failed = transport.dispatch_request(SignalState::Ready, "{");
    assert!(matches!(failed, Err(DispatchError::Request(_))));
    let failed = transport.dispatch_request(SignalState::Ready, "{}");
    assert!(matches!(
        failed,
        Err(DispatchError::Session(OpenLvError::Session(text))) if text == "session not ready"
    ));
    let failed = dispatch_reply(RpcId::Null, Err(OpenLvError::RequestTimeout("late".to_string())));
    assert!(matches!(
        failed,
        Err(DispatchError::Session(OpenLvError::RequestTimeout(text))) if text == "late"
    ));
    let failed = dispatch_reply(RpcId::Number(1), Ok(value(r#"{"error":"odd"}"#)));
    assert!(matches!(failed, Err(DispatchError::Response(_))));
}

#[test]
fn bare_result_is_put_in_an_envelope() {
    assert_eq!(
        envelope(RpcId::Number(7), value(r#""0x1""#)),
        value(r#"{"jsonrpc":"2.0","id":7,"result":"0x1"}"#)
    );
    assert_eq!(
        envelope(RpcId::Text("a".to_string()), value(r#"{"result":1}"#)),
        value(r#"{"jsonrpc":"2.0","id":"a","result":{"result":1}}"#)
    );
    assert_eq!(
        envelope(RpcId::Null, value("null")),
        value(r#"{"jsonrpc":"2.0","id":null,"result":null}"#)
    );
    assert_eq!(
        envelope(RpcId::Null, value(r#"["error"]"#)),
        value(r#"{"jsonrpc":"2.0","id":null,"result":["error"]}"#)
    );
}

#[test]
fn error_is_put_in_an_envelope() {
    assert_eq!(
        envelope(RpcId::Number(7), value(r#"{"error":{"code":4001},"more":1}"#)),
        value(r#"{"jsonrpc":"2.0","id":7,"error":{"code":4001}}"#)
    );
    assert_eq!(
        envelope(RpcId::Number(7), value(r#"{"error":null}"#)),
        value(r#"{"jsonrpc":"2.0","id":7,"error":null}"#)
    );
}

#[test]
fn reply_is_read_as_a_response_to_its_request() {
    let response = dispatch_reply(RpcId::Number(7), Ok(value(r#"{"b":1, "a":[2]}"#))).unwrap();
    assert!(matches!(response.id, RpcId::Number(7)));
    match response.payload {
        RpcPayload::Success(text) => assert_eq!(value(&text), value(r#"{"a":[2],"b":1}"#)),
        other => panic!("{other:?}"),
    }
    let response = dispatch_reply(RpcId::Text("q".to_string()), Ok(Value::Null)).unwrap();
    assert!(matches!(response.id, RpcId::Text(text) if text == "q"));
    assert!(matches!(response.payload, RpcPayload::Success(text) if text == "null"));

    let reply = value(r#"{"error":{"code":4001,"message":"rejected","data":{"x":1}}}"#);
    let response = dispatch_reply(RpcId::Null, Ok(reply)).unwrap();
    assert!(matches!(response.id, RpcId::Null));
    match response.payload {
        RpcPayload::Failure(failure) => {
            assert_eq!(failure.code, 4001);
            assert_eq!(failure.message, "rejected");
            assert_eq!(failure.data.as_deref(), Some(r#"{"x":1}"#));
        }
        other => panic!("{other:?}"),
    }
}

fn failure(reply: &str) -> Option<(i64, String, Option<String>)> {
    match dispatch_reply(RpcId::Number(1), Ok(value(reply))) {
        Ok(response) => match response.payload {
            RpcPayload::Failure(failure) => Some((failure.code, failure.message, failure.data)),
            other => panic!("{other:?}"),
        },
        Err(DispatchError::Response(_)) => None,
        Err(other) => panic!("{other:?}"),
    }
}

#[test]
fn errors_need_a_code() {
    assert_eq!(failure(r#"{"error":{"code":4001}}"#), Some((4001, String::new(), None)));
    assert_eq!(
        failure(r#"{"error":{"code":-32600,"message":"no","more":[]}}"#),
        Some((-32600, "no".to_string(), None))
    );
    assert_eq!(
        failure(r#"{"error":{"code":0,"data":null}}"#),
        Some((0, String::new(), Some("null".to_string())))
    );
    assert_eq!(
        failure(r#"{"error":{"code":9223372036854775807,"message":""}}"#),
        Some((i64::MAX, String::new(), None))
    );
    assert_eq!(
        failure(r#"{"error":{"code":-9223372036854775808}}"#),
        Some((i64::MIN, String::new(), None))
    );
    for reply in [
        r#"{"error":null}"#,
        r#"{"error":"odd"}"#,
        r#"{"error":[4001,"rejected"]}"#,
        r#"{"error":{}}"#,
        r#"{"error":{"message":"rejected"}}"#,
        r#"{"error":{"code":null}}"#,
        r#"{"error":{"code":"4001"}}"#,
        r#"{"error":{"code":1.0}}"#,
        r#"{"error":{"code":9223372036854775808}}"#,
        r#"{"error":{"code":4001,"message":null}}"#,
        r#"{"error":{"code":4001,"message":7}}"#,
    ] {
        assert_eq!(failure(reply), None, "{reply}");
    }
}

fn next<E: std::fmt::Debug>(step: PacketStep<u8, E>) -> openlv::provider::packet::PacketProgress<u8> {
    match step {
        PacketStep::Next(progress) => progress,
        other => panic!("{other:?}"),
    }
}

#[test]
fn batch_is_answered_in_order() {
    let progress = next::<String>(begin_packet(PacketShape::Batch(3)));
    let progress = next::<String>(progress.record(Ok(1)));
    let progress = next::<String>(progress.record(Ok(2)));
    match progress.record::<String>(Ok(3)) {
        PacketStep::Done(PacketReply::Batch(responses)) => assert_eq!(responses, vec![1, 2, 3]),
        other => panic!("{other:?}"),
    }
}

#[test]
fn batch_stops_at_the_first_error() {
    let progress = next::<String>(begin_packet(PacketShape::Batch(3)));
    let progress = next::<String>(progress.record(Ok(1)));
    match progress.record::<String>(Err("bad".to_string())) {
        PacketStep::Failed(error) => assert_eq!(error, "bad"),
        other => panic!("{other:?}"),
    }
}

#[test]
fn empty_batch_and_single_request() {
    match begin_packet::<u8, String>(PacketShape::Batch(0)) {
        PacketStep::Done(PacketReply::Batch(responses)) => assert!(responses.is_empty()),
        other => panic!("{other:?}"),
    }
    let progress = next::<String>(begin_packet(PacketShape::Single));
    match progress.record::<String>(Ok(8)) {
        PacketStep::Done(PacketReply::Single(response)) => assert_eq!(response, 8),
        other => panic!("{other:?}"),
    }
}
